use vstd::prelude::*;
use vstd::string::StringExecFns;

use crate::error::{C2paError, StreamError};

verus! {

/// Relies on the engine error's `Display`: its human-readable message.
#[verifier::external_body]
fn engine_message(e: &c2pa::Error) -> (r: String) {
    e.to_string()
}

/// The reason text of a stream failure.
pub open spec fn stream_reason(e: StreamError) -> Seq<char> {
    match e {
        StreamError::ReadFailed => "read failed"@,
        StreamError::SeekFailed => "seek failed"@,
        StreamError::WriteFailed => "write failed"@,
        StreamError::WriteZero => "write accepted no bytes"@,
        StreamError::TooLarge => "stream too large"@,
        StreamError::SignerFailed => "signer error"@,
        StreamError::Other { reason } => reason@,
    }
}

impl StreamError {
    /// The reason text of this failure.
    pub fn reason(&self) -> (r: String)
        ensures
            r@ == stream_reason(*self),
    {
        match self {
            StreamError::ReadFailed => String::from_str("read failed"),
            StreamError::SeekFailed => String::from_str("seek failed"),
            StreamError::WriteFailed => String::from_str("write failed"),
            StreamError::WriteZero => String::from_str("write accepted no bytes"),
            StreamError::TooLarge => String::from_str("stream too large"),
            StreamError::SignerFailed => String::from_str("signer error"),
            StreamError::Other { reason } => reason.clone(),
        }
    }
}

/// The message recorded for an error: its kind, then its detail. An engine
/// error's detail is the engine's own message.
pub open spec fn message_prefix(e: C2paError) -> Seq<char> {
    match e {
        C2paError::NullParameter(_) => "NullParameter: "@,
        C2paError::Stream(_) => "Stream: "@,
        C2paError::ResourceNotFound(_) => "ResourceNotFound: "@,
        C2paError::Sdk(_) => "Sdk: "@,
        C2paError::RwLock => "RwLock"@,
    }
}

/// The full message of an error that is not the engine's; for an engine
/// error, the kind prefix its message starts with.
pub open spec fn known_message(e: C2paError) -> Seq<char> {
    match e {
        C2paError::NullParameter(s) => message_prefix(e) + s@,
        C2paError::Stream(se) => message_prefix(e) + stream_reason(se),
        C2paError::ResourceNotFound(k) => message_prefix(e) + k@,
        C2paError::Sdk(_) => message_prefix(e),
        C2paError::RwLock => message_prefix(e),
    }
}

impl C2paError {
    /// The human-readable message of this error.
    pub fn message(&self) -> (r: String)
        ensures
            r@.len() >= message_prefix(*self).len(),
            r@.take(message_prefix(*self).len() as int) == message_prefix(*self),
            !(*self is Sdk) ==> r@ == known_message(*self),
    {
        let r = match self {
            C2paError::NullParameter(s) => String::from_str("NullParameter: ").concat(s.as_str()),
            C2paError::Stream(e) => String::from_str("Stream: ").concat(e.reason().as_str()),
            C2paError::ResourceNotFound(k) => String::from_str("ResourceNotFound: ").concat(k.as_str()),
            C2paError::Sdk(e) => String::from_str("Sdk: ").concat(engine_message(e).as_str()),
            C2paError::RwLock => String::from_str("RwLock"),
        };
        assert(r@.take(message_prefix(*self).len() as int) =~= message_prefix(*self));
        r
    }
}

/// The last error recorded on one thread. Each failure overwrites it; success
/// does not clear it.
pub struct ErrorChannel {
    pub last: Option<String>,
}

impl ErrorChannel {
    /// A channel with nothing recorded.
    pub fn new() -> (c: Self)
        ensures
            c.last is None,
    {
        ErrorChannel { last: None }
    }

    /// Records the message of `e`, replacing what was there.
    pub fn record(&mut self, e: &C2paError)
        ensures
            final(self).last is Some,
            final(self).last->Some_0@.len() >= message_prefix(*e).len(),
            final(self).last->Some_0@.take(message_prefix(*e).len() as int) == message_prefix(*e),
            !(*e is Sdk) ==> final(self).last->Some_0@ == known_message(*e),
    {
        self.last = Some(e.message());
    }

    /// The last recorded message, or an empty string when there is none.
    pub fn last_message(&self) -> (r: String)
        ensures
            match self.last {
                Some(m) => r@ == m@,
                None => r@.len() == 0,
            },
    {
        match &self.last {
            Some(m) => m.clone(),
            None => String::new(),
        }
    }
}

} // verus!
