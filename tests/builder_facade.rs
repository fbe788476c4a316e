use c2pa_c::{C2paError, C2paSigner, C2paStream, ManifestBuilder, MemoryStream, SignerCallback, SignerConfig};

struct Failing;

impl SignerCallback for Failing {
    fn sign(&self, _data: &[u8], _signature: &mut Vec<u8>) -> isize {
        -1
    }
}

const DEFINITION: &str = r#"{"claim_generator": "test_generator", "format": "image/jpeg", "title": "test_title"}"#;

#[test]
fn builder_from_valid_json() {
    assert!(ManifestBuilder::from_json(DEFINITION).is_ok());
}

#[test]
fn builder_from_invalid_json_fails() {
    assert!(matches!(ManifestBuilder::from_json("{not json"), Err(C2paError::Sdk(_))));
}

#[test]
fn builder_accepts_changes() {
    let mut b = ManifestBuilder::from_json(DEFINITION).unwrap();
    b.set_format("image/png");
    assert!(b.add_assertion("org.test.assertion", "{\"x\": 1}").is_ok());
    let mut res = C2paStream::new(MemoryStream::new());
    res.write_all(b"resource bytes").unwrap();
    res.seek_stream(0, c2pa_c::SeekMode::Start).unwrap();
    assert!(b.add_resource("res-1", &mut res).is_ok());
}

#[test]
fn failed_sign_leaves_builder_usable() {
    let mut b = ManifestBuilder::from_json(DEFINITION).unwrap();
    let signer = C2paSigner::create(Failing, &SignerConfig::new("ES256", vec![], None, false)).unwrap();
    let mut input = C2paStream::new(MemoryStream::new());
    input.write_all(b"not an image").unwrap();
    input.seek_stream(0, c2pa_c::SeekMode::Start).unwrap();
    let mut output = C2paStream::new(MemoryStream::new());
    assert!(b.sign_stream(&signer, &mut input, &mut output).is_err());
    assert!(output.context.data.is_empty());
    assert_eq!(output.context.pos, 0);
    b.set_format("image/jpeg");
    assert!(b.add_assertion("org.test.again", "{}").is_ok());
}

#[test]
fn claim_generator_is_accepted() {
    let mut b = ManifestBuilder::from_json(DEFINITION).unwrap();
    b.add_claim_generator("test-app");
    b.add_assertion("org.test.after", "{}").unwrap();
}
