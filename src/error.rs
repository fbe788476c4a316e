use vstd::prelude::*;

verus! {

/// Failures of the stream and signing callbacks.
#[derive(Debug, PartialEq, Eq)]
pub enum StreamError {
    /// The read callback reported a negative count.
    ReadFailed,
    /// The seek callback reported a negative position.
    SeekFailed,
    /// The write callback reported a negative count.
    WriteFailed,
    /// The write callback accepted no bytes while some were left to write.
    WriteZero,
    /// A stream held more bytes than fit in memory.
    TooLarge,
    /// The signing callback reported a negative length.
    SignerFailed,
    /// Any other stream failure, with its reason.
    Other { reason: String },
}

/// The error kinds that the bridge reports.
#[derive(Debug)]
pub enum C2paError {
    /// A required string argument was unusable.
    NullParameter(String),
    /// A stream or signing callback failed.
    Stream(StreamError),
    /// A manifest or resource was looked up and is absent; carries the key.
    ResourceNotFound(String),
    /// An error passed through from the provenance engine.
    Sdk(c2pa::Error),
    /// A lock guarding shared state could not be taken.
    RwLock,
}

/// The provenance engine's error type, carried through unchanged.
#[verifier::external_type_specification]
#[verifier::external_body]
pub struct ExEngineError(c2pa::Error);

} // verus!
