use c2pa_c::signer::{sign_with, signature_outcome, SIG_MAX_SIZE};
use c2pa_c::{C2paError, C2paSigner, SignerCallback, SignerConfig, StreamError};

struct Reverse;

impl SignerCallback for Reverse {
    fn sign(&self, data: &[u8], signature: &mut Vec<u8>) -> isize {
        assert_eq!(signature.len(), 100000);
        for (i, b) in data.iter().rev().enumerate() {
            signature[i] = *b;
        }
        data.len() as isize
    }
}

struct Failing;

impl SignerCallback for Failing {
    fn sign(&self, _data: &[u8], _signature: &mut Vec<u8>) -> isize {
        -1
    }
}

#[test]
fn signature_is_truncated_to_reported_length() {
    assert_eq!(signature_outcome(vec![5, 6, 7, 8], 3), Ok(vec![5, 6, 7]));
    assert_eq!(signature_outcome(vec![5, 6], 0), Ok(vec![]));
}

#[test]
fn negative_signer_result_is_signer_failure() {
    assert_eq!(signature_outcome(vec![1, 2], -1), Err(StreamError::SignerFailed));
    assert_eq!(sign_with(&Failing, b"abc"), Err(StreamError::SignerFailed));
}

#[test]
fn sign_with_uses_full_buffer() {
    assert_eq!(SIG_MAX_SIZE, 100000);
    assert_eq!(sign_with(&Reverse, b"abc"), Ok(b"cba".to_vec()));
}

#[test]
fn config_lowercases_algorithm() {
    let c = SignerConfig::new("ES256", b"certs".to_vec(), Some("http://tsa.example".to_string()), true);
    assert_eq!(c.alg, "es256");
    assert_eq!(c.certs, b"certs".to_vec());
    assert_eq!(c.time_authority_url, Some("http://tsa.example".to_string()));
    assert!(c.use_ocsp);
}

#[test]
fn signer_with_known_algorithm_is_built() {
    let c = SignerConfig::new("Ed25519", vec![], None, false);
    assert!(C2paSigner::create(Reverse, &c).is_ok());
}

#[test]
fn signer_with_unknown_algorithm_fails() {
    let c = SignerConfig::new("rs999", vec![], None, false);
    match C2paSigner::create(Reverse, &c) {
        Err(C2paError::Sdk(_)) => {}
        _ => panic!("an unknown algorithm must be refused by the engine"),
    }
}

#[test]
fn signer_keeps_its_configuration() {
    let c = SignerConfig::new("PS256", b"chain".to_vec(), Some("http://tsa".to_string()), true);
    let s = C2paSigner::create(Reverse, &c).unwrap();
    assert_eq!(s.config.alg, "ps256");
    assert_eq!(s.config.certs, b"chain".to_vec());
    assert_eq!(s.config.time_authority_url, Some("http://tsa".to_string()));
    assert!(s.config.use_ocsp);
    assert_eq!(s.signer.tsa_url, Some("http://tsa".to_string()));
    assert_eq!(s.signer.certs, b"chain".to_vec());
}
