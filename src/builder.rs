use vstd::prelude::*;

use crate::error::{C2paError, StreamError};
use crate::signer::C2paSigner;
use crate::stream::{C2paStream, StreamCallbacks};

verus! {

/// The engine's mutable manifest definition.
#[verifier::external_type_specification]
#[verifier::external_body]
pub struct ExBuilder(c2pa::Builder);

/// The asset format that a builder's definition names.
pub uninterp spec fn format_of(b: c2pa::Builder) -> Seq<char>;

/// The labels of the assertions of a builder's definition, in order.
pub uninterp spec fn assertion_labels_of(b: c2pa::Builder) -> Seq<Seq<char>>;

/// The names of the claim generators of a builder's definition, in order.
pub uninterp spec fn claim_generators_of(b: c2pa::Builder) -> Seq<Seq<char>>;

/// Relies on `Builder::from_json`: parses a JSON manifest definition.
#[verifier::external_body]
fn builder_from_json(json: &str) -> (r: Result<c2pa::Builder, c2pa::Error>) {
    c2pa::Builder::from_json(json)
}

/// Relies on `Builder::add_ingredient_from_stream`: adds an ingredient described
/// by `json`, read from `bytes` of the given format.
#[verifier::external_body]
fn builder_add_ingredient(b: &mut c2pa::Builder, json: &str, format: &str, bytes: Vec<u8>) -> (r: Result<(), c2pa::Error>) {
    b.add_ingredient_from_stream(json, format, &mut std::io::Cursor::new(bytes)).map(|_| ())
}

/// Relies on `Builder::add_resource`: adds a resource under `id`.
#[verifier::external_body]
fn builder_add_resource(b: &mut c2pa::Builder, id: &str, bytes: Vec<u8>) -> (r: Result<(), c2pa::Error>) {
    b.add_resource(id, std::io::Cursor::new(bytes)).map(|_| ())
}

/// Relies on `Builder::set_format`: assigns the definition's format and
/// nothing else.
#[verifier::external_body]
fn builder_set_format(b: &mut c2pa::Builder, format: &str)
    ensures
        format_of(*final(b)) == format@,
        assertion_labels_of(*final(b)) == assertion_labels_of(*old(b)),
        claim_generators_of(*final(b)) == claim_generators_of(*old(b)),
{
    b.set_format(format);
}

/// Relies on the `format` field of the builder's definition.
#[verifier::external_body]
fn builder_format(b: &c2pa::Builder) -> (r: String)
    ensures
        r@ == format_of(*b),
{
    b.definition.format.clone()
}

/// Relies on `Builder::set_thumbnail`: sets the thumbnail, read from `bytes`.
#[verifier::external_body]
fn builder_set_thumbnail(b: &mut c2pa::Builder, format: &str, bytes: Vec<u8>) -> (r: Result<(), c2pa::Error>) {
    b.set_thumbnail(format, &mut std::io::Cursor::new(bytes)).map(|_| ())
}

/// Relies on `Builder::add_assertion_json`: a string always serialises, so it
/// appends an assertion under `label` and changes nothing else.
#[verifier::external_body]
fn builder_add_assertion(b: &mut c2pa::Builder, label: &str, data: &str) -> (r: Result<(), c2pa::Error>)
    ensures
        r is Ok,
        assertion_labels_of(*final(b)) == assertion_labels_of(*old(b)).push(label@),
        format_of(*final(b)) == format_of(*old(b)),
        claim_generators_of(*final(b)) == claim_generators_of(*old(b)),
{
    b.add_assertion_json(label, &data).map(|_| ())
}

/// Relies on `ClaimGeneratorInfo::new` and the definition's
/// `claim_generator_info` list: appends a generator of that name.
#[verifier::external_body]
fn builder_add_claim_generator(b: &mut c2pa::Builder, name: &str)
    ensures
        claim_generators_of(*final(b)) == claim_generators_of(*old(b)).push(name@),
        format_of(*final(b)) == format_of(*old(b)),
        assertion_labels_of(*final(b)) == assertion_labels_of(*old(b)),
{
    b.definition.claim_generator_info.push(c2pa::ClaimGeneratorInfo::new(name));
}

/// Relies on `Builder::sign`: signs the asset in `source` and returns the
/// manifest bytes and the signed asset.
#[verifier::external_body]
fn builder_sign(b: &mut c2pa::Builder, signer: &C2paSigner, format: &str, source: Vec<u8>) -> (r: Result<(Vec<u8>, Vec<u8>), c2pa::Error>) {
    let mut source = std::io::Cursor::new(source);
    let mut dest = std::io::Cursor::new(Vec::new());
    let manifest = b.sign(&signer.signer, format, &mut source, &mut dest)?;
    Ok((manifest, dest.into_inner()))
}

/// Maps the engine's answer to the bridge's error kinds.
fn engine_result(r: Result<(), c2pa::Error>) -> (out: Result<(), C2paError>)
    ensures
        r is Ok <==> out is Ok,
        out is Err ==> out->Err_0 is Sdk,
{
    match r {
        Ok(()) => Ok(()),
        Err(e) => Err(C2paError::Sdk(e)),
    }
}

/// Reads a whole stream, with a failure as the bridge's stream error.
fn drain<C: StreamCallbacks>(stream: &mut C2paStream<C>) -> (r: Result<Vec<u8>, C2paError>)
    ensures
        r is Err ==> r->Err_0 == C2paError::Stream(StreamError::ReadFailed)
            || r->Err_0 == C2paError::Stream(StreamError::TooLarge),
{
    match stream.read_to_end() {
        Ok(b) => Ok(b),
        Err(e) => Err(C2paError::Stream(e)),
    }
}

/// A manifest definition being built, then signed. Exclusive access for each
/// change comes from `&mut self`; signing does not consume it.
pub struct ManifestBuilder {
    pub builder: c2pa::Builder,
}

impl ManifestBuilder {
    /// A builder from a JSON manifest definition; fails with the engine's error
    /// when the definition is refused.
    pub fn from_json(json: &str) -> (r: Result<ManifestBuilder, C2paError>)
        ensures
            r is Err ==> r->Err_0 is Sdk,
    {
        match builder_from_json(json) {
            Ok(builder) => Ok(ManifestBuilder { builder }),
            Err(e) => Err(C2paError::Sdk(e)),
        }
    }

    /// Adds an ingredient described by `ingredient_json`, read from `stream`.
    pub fn add_ingredient<C: StreamCallbacks>(&mut self, ingredient_json: &str, format: &str, stream: &mut C2paStream<C>) -> (r: Result<(), C2paError>)
        ensures
            r is Err ==> r->Err_0 is Stream || r->Err_0 is Sdk,
    {
        let bytes = drain(stream)?;
        engine_result(builder_add_ingredient(&mut self.builder, ingredient_json, format, bytes))
    }

    /// Adds the bytes of `stream` as resource `resource_id`.
    pub fn add_resource<C: StreamCallbacks>(&mut self, resource_id: &str, stream: &mut C2paStream<C>) -> (r: Result<(), C2paError>)
        ensures
            r is Err ==> r->Err_0 is Stream || r->Err_0 is Sdk,
    {
        let bytes = drain(stream)?;
        engine_result(builder_add_resource(&mut self.builder, resource_id, bytes))
    }

    /// Sets the format of the asset to be signed.
    pub fn set_format(&mut self, format: &str)
        ensures
            format_of(final(self).builder) == format@,
            assertion_labels_of(final(self).builder) == assertion_labels_of(old(self).builder),
    {
        builder_set_format(&mut self.builder, format);
    }

    /// Sets the thumbnail, read from `stream`.
    pub fn set_thumbnail<C: StreamCallbacks>(&mut self, format: &str, stream: &mut C2paStream<C>) -> (r: Result<(), C2paError>)
        ensures
            r is Err ==> r->Err_0 is Stream || r->Err_0 is Sdk,
    {
        let bytes = drain(stream)?;
        engine_result(builder_set_thumbnail(&mut self.builder, format, bytes))
    }

    /// Adds an assertion under `label`, with `data` as its JSON string value.
    pub fn add_assertion(&mut self, label: &str, data: &str) -> (r: Result<(), C2paError>)
        ensures
            r is Ok,
            assertion_labels_of(final(self).builder) == assertion_labels_of(old(self).builder).push(label@),
            format_of(final(self).builder) == format_of(old(self).builder),
    {
        engine_result(builder_add_assertion(&mut self.builder, label, data))
    }

    /// Names the software that produces the claim.
    pub fn add_claim_generator(&mut self, name: &str)
        ensures
            claim_generators_of(final(self).builder) == claim_generators_of(old(self).builder).push(name@),
            format_of(final(self).builder) == format_of(old(self).builder),
            assertion_labels_of(final(self).builder) == assertion_labels_of(old(self).builder),
    {
        builder_add_claim_generator(&mut self.builder, name);
    }

    /// Signs the asset in `input` with the configured format. Returns the
    /// manifest bytes and the signed asset; the builder stays usable either way.
    pub fn sign(&mut self, signer: &C2paSigner, input: Vec<u8>) -> (r: Result<(Vec<u8>, Vec<u8>), C2paError>)
        ensures
            r is Err ==> r->Err_0 is Sdk,
    {
        let format = builder_format(&self.builder);
        match builder_sign(&mut self.builder, signer, format.as_str(), input) {
            Ok(signed) => Ok(signed),
            Err(e) => Err(C2paError::Sdk(e)),
        }
    }

    /// Reads all of `input`, signs it, writes the signed asset to `output` and
    /// returns the manifest bytes.
    pub fn sign_stream<C: StreamCallbacks, D: StreamCallbacks>(&mut self, signer: &C2paSigner, input: &mut C2paStream<C>, output: &mut C2paStream<D>) -> (r: Result<Vec<u8>, C2paError>)
        ensures
            r is Err ==> {
                ||| r->Err_0 is Sdk && *final(output) == *old(output)
                ||| (r->Err_0 == C2paError::Stream(StreamError::ReadFailed)
                    || r->Err_0 == C2paError::Stream(StreamError::TooLarge)) && *final(output) == *old(output)
                ||| r->Err_0 == C2paError::Stream(StreamError::WriteFailed)
                ||| r->Err_0 == C2paError::Stream(StreamError::WriteZero)
            },
    {
        let source = drain(input)?;
        let (manifest, signed) = self.sign(signer, source)?;
        match output.write_all(signed.as_slice()) {
            Ok(()) => Ok(manifest),
            Err(e) => Err(C2paError::Stream(e)),
        }
    }
}

} // verus!
