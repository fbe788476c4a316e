use vstd::prelude::*;

use crate::error::StreamError;

verus! {

/// How many bytes one read asks for while a whole stream is drained.
pub const READ_CHUNK: u64 = 65536;

/// How a seek offset is measured.
#[derive(Debug, Clone, Copy, PartialEq, Eq)]
pub enum SeekMode {
    Start,
    Current,
    End,
}

/// An opaque value that a foreign caller hands to its stream callbacks.
#[derive(Debug)]
pub struct StreamContext {
    _priv: (),
}

/// The three callbacks of a caller's stream, together with whatever context
/// they need. Each reports a count or a position, negative on failure.
pub trait StreamCallbacks {
    /// Fills a prefix of `buf`, handed over zero-filled, and reports how many
    /// bytes it filled.
    fn read(&mut self, buf: &mut Vec<u8>) -> isize
        requires
            forall|i: int| 0 <= i < old(buf)@.len() ==> old(buf)@[i] == 0u8,
    ;

    /// Moves the position and reports the new absolute position.
    fn seek(&mut self, offset: i64, mode: SeekMode) -> i64;

    /// Accepts a prefix of `data` and reports how many bytes it accepted.
    fn write(&mut self, data: &[u8]) -> isize;
}

/// The bytes a read hands back: the first `reported` bytes of the buffer,
/// never more than were asked for or than the buffer holds.
pub open spec fn read_prefix(buf: Seq<u8>, requested: nat, reported: int) -> Seq<u8> {
    let n = if reported < requested as int { reported } else { requested as int };
    let n = if n < buf.len() as int { n } else { buf.len() as int };
    buf.take(n)
}

/// Turns what the read callback reported into the bridge's result.
pub fn read_outcome(buf: Vec<u8>, requested: usize, reported: isize) -> (r: Result<Vec<u8>, StreamError>)
    ensures
        reported < 0 ==> r == Err::<Vec<u8>, StreamError>(StreamError::ReadFailed),
        reported >= 0 ==> r is Ok && r->Ok_0@ == read_prefix(buf@, requested as nat, reported as int),
{
    if reported < 0 {
        return Err(StreamError::ReadFailed);
    }
    let mut n: usize = reported as usize;
    if n > requested {
        n = requested;
    }
    let mut out = buf;
    if n < out.len() {
        out.truncate(n);
    }
    Ok(out)
}

/// Turns what the seek callback reported into the bridge's result.
pub fn seek_outcome(reported: i64) -> (r: Result<u64, StreamError>)
    ensures
        reported < 0 ==> r == Err::<u64, StreamError>(StreamError::SeekFailed),
        reported >= 0 ==> r == Ok::<u64, StreamError>(reported as u64),
{
    if reported < 0 {
        Err(StreamError::SeekFailed)
    } else {
        Ok(reported as u64)
    }
}

/// Turns what the write callback reported into the bridge's result. A short
/// write is passed on as it is.
pub fn write_outcome(reported: isize) -> (r: Result<u64, StreamError>)
    ensures
        reported < 0 ==> r == Err::<u64, StreamError>(StreamError::WriteFailed),
        reported >= 0 ==> r == Ok::<u64, StreamError>(reported as u64),
{
    if reported < 0 {
        Err(StreamError::WriteFailed)
    } else {
        Ok(reported as u64)
    }
}

/// A caller's callbacks presented as one seekable read/write stream. It adds no
/// buffering: each operation is one callback.
pub struct C2paStream<C: StreamCallbacks> {
    pub context: C,
}

impl<C: StreamCallbacks> C2paStream<C> {
    /// Takes ownership of the context with its callbacks.
    pub fn new(context: C) -> (s: Self)
        ensures
            s.context == context,
    {
        C2paStream { context }
    }

    /// Reads at most `len` bytes; an empty result marks the end of the stream.
    pub fn read_stream(&mut self, len: u64) -> (r: Result<Vec<u8>, StreamError>)
        requires
            len <= usize::MAX,
        ensures
            r is Ok ==> r->Ok_0@.len() <= len,
            r is Err ==> r == Err::<Vec<u8>, StreamError>(StreamError::ReadFailed),
    {
        let requested = len as usize;
        let mut buf: Vec<u8> = Vec::with_capacity(requested);
        let mut i: usize = 0;
        while i < requested
            invariant
                i <= requested,
                buf@.len() == i,
                forall|j: int| 0 <= j < buf@.len() ==> buf@[j] == 0u8,
            decreases requested - i,
        {
            buf.push(0u8);
            i = i + 1;
        }
        let reported = self.context.read(&mut buf);
        read_outcome(buf, requested, reported)
    }

    /// Moves the position; the result is the new absolute position.
    pub fn seek_stream(&mut self, pos: i64, mode: SeekMode) -> (r: Result<u64, StreamError>)
        ensures
            r is Err ==> r == Err::<u64, StreamError>(StreamError::SeekFailed),
    {
        let reported = self.context.seek(pos, mode);
        seek_outcome(reported)
    }

    /// Hands `data` to the write callback once; the result is the count it
    /// accepted, which may be short.
    pub fn write_stream(&mut self, data: Vec<u8>) -> (r: Result<u64, StreamError>)
        ensures
            r is Err ==> r == Err::<u64, StreamError>(StreamError::WriteFailed),
    {
        let reported = self.context.write(data.as_slice());
        write_outcome(reported)
    }
    /// Reads until the read callback reports the end of the stream, and
    /// returns everything read, in order.
    pub fn read_to_end(&mut self) -> (r: Result<Vec<u8>, StreamError>)
        ensures
            r is Err ==> r == Err::<Vec<u8>, StreamError>(StreamError::ReadFailed)
                || r == Err::<Vec<u8>, StreamError>(StreamError::TooLarge),
    {
        let mut out: Vec<u8> = Vec::new();
        loop
            decreases usize::MAX - out@.len(),
        {
            let mut chunk = match self.read_stream(READ_CHUNK) {
                Ok(c) => c,
                Err(e) => {
                    return Err(e);
                },
            };
            if chunk.len() == 0 {
                return Ok(out);
            }
            if chunk.len() > usize::MAX - out.len() {
                return Err(StreamError::TooLarge);
            }
            out.append(&mut chunk);
        }
    }

    /// Writes all of `data`, calling the write callback again after each short
    /// write. A callback that accepts nothing while bytes remain ends it.
    pub fn write_all(&mut self, data: &[u8]) -> (r: Result<(), StreamError>)
        ensures
            data@.len() == 0 ==> r is Ok && *final(self) == *old(self),
            r is Err ==> r == Err::<(), StreamError>(StreamError::WriteFailed)
                || r == Err::<(), StreamError>(StreamError::WriteZero),
    {
        if data.len() == 0 {
            return Ok(());
        }
        let mut pos: usize = 0;
        while pos < data.len()
            invariant
                pos <= data@.len(),
            decreases data@.len() - pos,
        {
            let (_, rest) = data.split_at(pos);
            let reported = self.context.write(rest);
            let n = match write_outcome(reported) {
                Ok(n) => n,
                Err(e) => {
                    return Err(e);
                },
            };
            if n == 0 {
                return Err(StreamError::WriteZero);
            }
            if n >= (data.len() - pos) as u64 {
                pos = data.len();
            } else {
                pos = pos + n as usize;
            }
        }
        Ok(())
    }
}

} // verus!
