use vstd::prelude::*;

use crate::error::{C2paError, StreamError};
use crate::stream::{read_outcome, read_prefix};

verus! {

/// The size of the buffer handed to the signing callback: no supported
/// signature is longer.
pub const SIG_MAX_SIZE: usize = 100000;

/// A caller's signing callback: writes a signature of `data` into a prefix of
/// `signature` and reports its length, negative on failure.
pub trait SignerCallback {
    fn sign(&self, data: &[u8], signature: &mut Vec<u8>) -> isize
        requires
            old(signature)@.len() == SIG_MAX_SIZE,
    ;
}

/// Turns what the signing callback reported into a signature: the first
/// `reported` bytes of the buffer, or a signing failure when it is negative.
pub fn signature_outcome(buf: Vec<u8>, reported: isize) -> (r: Result<Vec<u8>, StreamError>)
    ensures
        reported < 0 ==> r == Err::<Vec<u8>, StreamError>(StreamError::SignerFailed),
        reported >= 0 ==> r is Ok && r->Ok_0@ == read_prefix(buf@, SIG_MAX_SIZE as nat, reported as int),
{
    if reported < 0 {
        return Err(StreamError::SignerFailed);
    }
    read_outcome(buf, SIG_MAX_SIZE, reported)
}

/// Signs `data` through the callback, with a buffer of `SIG_MAX_SIZE` bytes.
pub fn sign_with<S: SignerCallback>(callback: &S, data: &[u8]) -> (r: Result<Vec<u8>, StreamError>)
    ensures
        r is Ok ==> r->Ok_0@.len() <= SIG_MAX_SIZE,
        r is Err ==> r == Err::<Vec<u8>, StreamError>(StreamError::SignerFailed),
{
    let mut signature: Vec<u8> = Vec::with_capacity(SIG_MAX_SIZE);
    let mut i: usize = 0;
    while i < SIG_MAX_SIZE
        invariant
            i <= SIG_MAX_SIZE,
            signature@.len() == i,
        decreases SIG_MAX_SIZE - i,
    {
        signature.push(0u8);
        i = i + 1;
    }
    let reported = callback.sign(data, &mut signature);
    signature_outcome(signature, reported)
}

/// The lower-case form of a string, as std computes it.
pub uninterp spec fn lower_of(s: Seq<char>) -> Seq<char>;

/// Relies on `str::to_lowercase`: the result depends on the characters alone,
/// and an empty string stays empty.
#[verifier::external_body]
fn lowercase(s: &str) -> (r: String)
    ensures
        r@ == lower_of(s@),
        s@.len() == 0 ==> r@.len() == 0,
{
    s.to_lowercase()
}

/// The names of the signing algorithms that the engine knows, in lower case.
pub open spec fn known_algorithm(s: Seq<char>) -> bool {
    s == "es256"@ || s == "es384"@ || s == "es512"@ || s == "ps256"@ || s == "ps384"@
        || s == "ps512"@ || s == "ed25519"@
}

/// The engine's signing algorithm identifier.
#[verifier::external_type_specification]
#[verifier::external_body]
pub struct ExSigningAlg(c2pa::SigningAlg);

/// The engine's signer that forwards to a callback.
#[verifier::external_type_specification]
#[verifier::external_body]
pub struct ExCallbackSigner(c2pa::CallbackSigner);

/// Relies on `SigningAlg::from_str`: it accepts exactly the seven lower-case
/// names of `known_algorithm`; the error becomes the engine's `BadParam`.
#[verifier::external_body]
fn parse_algorithm(s: &str) -> (r: Result<c2pa::SigningAlg, c2pa::Error>)
    ensures
        r is Ok <==> known_algorithm(s@),
{
    s.parse::<c2pa::SigningAlg>().map_err(|e| c2pa::Error::BadParam(e.to_string()))
}

/// Relies on the engine's `Error::BadParam`: the error handed to the engine
/// when the signing callback fails.
#[verifier::external_body]
fn engine_signer_error() -> (r: c2pa::Error) {
    c2pa::Error::BadParam("signer error".to_string())
}

/// Signs through the callback, with the failure in the engine's error type.
pub fn engine_sign<S: SignerCallback>(callback: &S, data: &[u8]) -> (r: Result<Vec<u8>, c2pa::Error>)
    ensures
        r is Ok ==> r->Ok_0@.len() <= SIG_MAX_SIZE,
{
    match sign_with(callback, data) {
        Ok(s) => Ok(s),
        Err(_) => Err(engine_signer_error()),
    }
}

/// The certificate chain that an engine signer carries.
pub uninterp spec fn signer_certs(s: c2pa::CallbackSigner) -> Seq<u8>;

/// The time authority that an engine signer calls, if any.
pub uninterp spec fn signer_tsa_url(s: c2pa::CallbackSigner) -> Option<Seq<char>>;

/// Relies on `CallbackSigner::new`: builds the engine's signer around the
/// callback, with the algorithm and the certificate chain, and no time
/// authority.
#[verifier::external_body]
fn callback_signer<S: SignerCallback + Send + Sync + 'static>(
    callback: S,
    alg: c2pa::SigningAlg,
    certs: Vec<u8>,
) -> (r: c2pa::CallbackSigner)
    ensures
        signer_certs(r) == certs@,
        signer_tsa_url(r) is None,
{
    c2pa::CallbackSigner::new(move |_, data| engine_sign(&callback, data), alg, certs)
}

/// Relies on `CallbackSigner::set_tsa_url`: sets the time authority and
/// nothing else.
#[verifier::external_body]
fn with_tsa_url(s: c2pa::CallbackSigner, url: String) -> (r: c2pa::CallbackSigner)
    ensures
        signer_certs(r) == signer_certs(s),
        signer_tsa_url(r) == Some(url@),
{
    s.set_tsa_url(url)
}

/// What a signer is built from. Immutable once built.
pub struct SignerConfig {
    /// The algorithm name, in lower case.
    pub alg: String,
    /// The certificate chain, as one opaque blob.
    pub certs: Vec<u8>,
    /// The time authority to time-stamp signatures with, if any.
    pub time_authority_url: Option<String>,
    /// Whether to fetch an OCSP response for the signing certificate.
    pub use_ocsp: bool,
}

impl SignerConfig {
    /// Builds a configuration; the algorithm name is lower-cased.
    pub fn new(alg: &str, certs: Vec<u8>, time_authority_url: Option<String>, use_ocsp: bool) -> (c: Self)
        ensures
            c.alg@ == lower_of(alg@),
            c.certs@ == certs@,
            c.time_authority_url == time_authority_url,
            c.use_ocsp == use_ocsp,
    {
        SignerConfig { alg: lowercase(alg), certs, time_authority_url, use_ocsp }
    }
}

/// The characters of an optional string.
pub open spec fn opt_view(s: Option<String>) -> Option<Seq<char>> {
    match s {
        Some(u) => Some(u@),
        None => None,
    }
}

/// A signer that the builder signs with: the caller's callback behind the
/// engine's signing interface, with the configuration it was built from. The
/// engine's signer has no OCSP setting: that flag is kept here only.
pub struct C2paSigner {
    pub signer: c2pa::CallbackSigner,
    pub config: SignerConfig,
}

impl C2paSigner {
    /// Builds a signer from a callback and a configuration. It fails, with the
    /// engine's error, exactly when the configured algorithm is unknown; else
    /// the engine's signer carries the certificates and time authority.
    pub fn create<S: SignerCallback + Send + Sync + 'static>(callback: S, config: &SignerConfig) -> (r: Result<C2paSigner, C2paError>)
        ensures
            r is Ok <==> known_algorithm(config.alg@),
            r is Err ==> r->Err_0 is Sdk,
            r is Ok ==> {
                let s = r->Ok_0;
                &&& signer_certs(s.signer) == config.certs@
                &&& signer_tsa_url(s.signer) == opt_view(config.time_authority_url)
                &&& s.config.alg@ == config.alg@
                &&& s.config.certs@ == config.certs@
                &&& opt_view(s.config.time_authority_url) == opt_view(config.time_authority_url)
                &&& s.config.use_ocsp == config.use_ocsp
            },
    {
        let alg = match parse_algorithm(config.alg.as_str()) {
            Ok(a) => a,
            Err(e) => {
                return Err(C2paError::Sdk(e));
            },
        };
        let mut signer = callback_signer(callback, alg, config.certs.clone());
        let url = match &config.time_authority_url {
            Some(u) => Some(u.clone()),
            None => None,
        };
        match &url {
            Some(u) => {
                signer = with_tsa_url(signer, u.clone());
            },
            None => {},
        }
        let kept = SignerConfig {
            alg: config.alg.clone(),
            certs: config.certs.clone(),
            time_authority_url: url,
            use_ocsp: config.use_ocsp,
        };
        Ok(C2paSigner { signer, config: kept })
    }
}

} // verus!
