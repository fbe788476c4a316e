use vstd::prelude::*;

use crate::stream::{read_prefix, SeekMode, StreamCallbacks};

verus! {

/// `data` after writing `bytes` at `pos`: the bytes replace what stood there
/// and extend the data where they run past its end.
pub open spec fn overwrite(data: Seq<u8>, pos: int, bytes: Seq<u8>) -> Seq<u8> {
    let end = pos + bytes.len();
    if end < data.len() {
        data.take(pos) + bytes + data.skip(end)
    } else {
        data.take(pos) + bytes
    }
}

/// How many bytes a read of `want` bytes at `pos` finds.
pub open spec fn read_count(data: Seq<u8>, pos: int, want: int) -> int {
    if want < data.len() - pos { want } else { data.len() - pos }
}

/// The buffer after such a read: the bytes found, then the rest of the buffer.
pub open spec fn read_window(data: Seq<u8>, pos: int, buf: Seq<u8>) -> Seq<u8> {
    let n = read_count(data, pos, buf.len() as int);
    data.subrange(pos, pos + n) + buf.skip(n)
}

/// Where a seek lands, before it is checked against the data.
pub open spec fn seek_target(len: int, pos: int, offset: int, mode: SeekMode) -> int {
    match mode {
        SeekMode::Start => offset,
        SeekMode::Current => pos + offset,
        SeekMode::End => len + offset,
    }
}

/// A rewindable stream over bytes in memory.
pub struct MemoryStream {
    pub data: Vec<u8>,
    pub pos: usize,
}

impl MemoryStream {
    pub open spec fn wf(&self) -> bool {
        self.pos <= self.data@.len()
    }

    /// An empty stream, positioned at its start.
    pub fn new() -> (m: Self)
        ensures
            m.wf(),
            m.data@.len() == 0,
            m.pos == 0,
    {
        MemoryStream { data: Vec::new(), pos: 0 }
    }

    /// Writes all of `bytes` at the position and moves past them.
    pub fn write_bytes(&mut self, bytes: &[u8]) -> (n: usize)
        requires
            old(self).wf(),
            old(self).pos + bytes@.len() <= usize::MAX,
        ensures
            final(self).wf(),
            final(self).data@ == overwrite(old(self).data@, old(self).pos as int, bytes@),
            final(self).pos == old(self).pos + bytes@.len(),
            n == bytes@.len(),
    {
        let start = self.pos;
        let ghost before = self.data@;
        let mut i: usize = 0;
        while i < bytes.len()
            invariant
                i <= bytes@.len(),
                start + bytes@.len() <= usize::MAX,
                start <= before.len(),
                self.data@.len() == if start + i > before.len() { (start + i) as int } else { before.len() as int },
                forall|j: int| 0 <= j < self.data@.len() ==> self.data@[j] == if start <= j < start + i {
                    bytes@[j - start]
                } else {
                    before[j]
                },
            decreases bytes@.len() - i,
        {
            let at = start + i;
            if at < self.data.len() {
                self.data.set(at, bytes[i]);
            } else {
                self.data.push(bytes[i]);
            }
            i = i + 1;
        }
        self.pos = start + bytes.len();
        assert(self.data@ =~= overwrite(before, start as int, bytes@));
        bytes.len()
    }

    /// Copies into a prefix of `buf` as many bytes as both hold, from the
    /// position on, and moves past them.
    pub fn read_bytes(&mut self, buf: &mut Vec<u8>) -> (n: usize)
        requires
            old(self).wf(),
        ensures
            final(self).wf(),
            final(self).data@ == old(self).data@,
            n == read_count(old(self).data@, old(self).pos as int, old(buf)@.len() as int),
            final(buf)@ == read_window(old(self).data@, old(self).pos as int, old(buf)@),
            final(self).pos == old(self).pos + n,
    {
        let avail = self.data.len() - self.pos;
        let n: usize = if buf.len() < avail { buf.len() } else { avail };
        let ghost before = buf@;
        let mut i: usize = 0;
        while i < n
            invariant
                i <= n,
                n <= buf@.len(),
                self.pos + n <= self.data@.len(),
                self.pos + n <= usize::MAX,
                buf@.len() == before.len(),
                forall|j: int| 0 <= j < buf@.len() ==> buf@[j] == if j < i {
                    self.data@[self.pos + j]
                } else {
                    before[j]
                },
            decreases n - i,
        {
            buf.set(i, self.data[self.pos + i]);
            i = i + 1;
        }
        assert(buf@ =~= read_window(self.data@, self.pos as int, before));
        self.pos = self.pos + n;
        n
    }

    /// Moves the position; a target before the start or past the end leaves
    /// it where it was and reports -1.
    pub fn seek_to(&mut self, offset: i64, mode: SeekMode) -> (r: i64)
        requires
            old(self).wf(),
        ensures
            final(self).wf(),
            final(self).data@ == old(self).data@,
            ({
                let t = seek_target(old(self).data@.len() as int, old(self).pos as int, offset as int, mode);
                if 0 <= t <= old(self).data@.len() && t <= i64::MAX {
                    r == t && final(self).pos == t
                } else {
                    r == -1 && final(self).pos == old(self).pos
                }
            }),
    {
        let base: i128 = match mode {
            SeekMode::Start => 0,
            SeekMode::Current => self.pos as i128,
            SeekMode::End => self.data.len() as i128,
        };
        let t: i128 = base + offset as i128;
        if t < 0 || t > self.data.len() as i128 || t > i64::MAX as i128 {
            return -1;
        }
        self.pos = t as usize;
        t as i64
    }
}

impl StreamCallbacks for MemoryStream {
    fn read(&mut self, buf: &mut Vec<u8>) -> isize {
        if self.pos > self.data.len() {
            return -1;
        }
        let n = self.read_bytes(buf);
        if n > isize::MAX as usize {
            return -1;
        }
        n as isize
    }

    fn seek(&mut self, offset: i64, mode: SeekMode) -> i64 {
        if self.pos > self.data.len() {
            return -1;
        }
        self.seek_to(offset, mode)
    }

    fn write(&mut self, data: &[u8]) -> isize {
        if self.pos > self.data.len() || data.len() > usize::MAX - self.pos || data.len() > isize::MAX as usize {
            return -1;
        }
        let n = self.write_bytes(data);
        n as isize
    }
}

/// Bytes written to an empty memory stream, read back from its start through
/// the bridge (into the zero-filled buffer of the requested length that
/// `read_stream` hands the callback), are the bytes written.
pub proof fn lemma_round_trip(s: Seq<u8>)
    ensures
        ({
            let written = overwrite(Seq::empty(), 0, s);
            let buf = Seq::new(s.len(), |i: int| 0u8);
            let n = read_count(written, 0, s.len() as int);
            &&& seek_target(written.len() as int, s.len() as int, 0, SeekMode::Start) == 0
            &&& n == s.len()
            &&& read_prefix(read_window(written, 0, buf), s.len(), n) == s
        }),
{
    let written = overwrite(Seq::empty(), 0, s);
    let buf = Seq::new(s.len(), |i: int| 0u8);
    assert(written =~= s);
    let w = read_window(written, 0, buf);
    assert(w =~= s);
    assert(read_prefix(w, s.len(), s.len() as int) =~= s);
}

} // verus!
