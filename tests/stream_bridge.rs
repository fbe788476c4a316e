use c2pa_c::stream::{read_outcome, seek_outcome, write_outcome};
use c2pa_c::{C2paStream, MemoryStream, SeekMode, StreamCallbacks, StreamError};

/// A context whose callbacks accept one byte per write and fail on demand.
struct Trickle {
    written: Vec<u8>,
    fail_read: bool,
}

impl StreamCallbacks for Trickle {
    fn read(&mut self, _buf: &mut Vec<u8>) -> isize {
        if self.fail_read {
            -1
        } else {
            0
        }
    }
    fn seek(&mut self, _offset: i64, _mode: SeekMode) -> i64 {
        -5
    }
    fn write(&mut self, data: &[u8]) -> isize {
        if data.is_empty() {
            return 0;
        }
        self.written.push(data[0]);
        1
    }
}

#[test]
fn read_outcome_takes_reported_prefix() {
    let r = read_outcome(vec![1, 2, 3, 4], 4, 2);
    assert_eq!(r, Ok(vec![1, 2]));
}

#[test]
fn read_outcome_caps_at_request() {
    let r = read_outcome(vec![1, 2, 3, 4], 3, 10);
    assert_eq!(r, Ok(vec![1, 2, 3]));
}

#[test]
fn read_outcome_zero_is_end_of_stream() {
    assert_eq!(read_outcome(vec![9, 9], 2, 0), Ok(vec![]));
}

#[test]
fn read_outcome_negative_fails() {
    assert_eq!(read_outcome(vec![1], 1, -1), Err(StreamError::ReadFailed));
}

#[test]
fn seek_outcome_values() {
    assert_eq!(seek_outcome(42), Ok(42));
    assert_eq!(seek_outcome(-1), Err(StreamError::SeekFailed));
}

#[test]
fn write_outcome_passes_short_write() {
    assert_eq!(write_outcome(3), Ok(3));
    assert_eq!(write_outcome(-2), Err(StreamError::WriteFailed));
}

#[test]
fn round_trip_through_memory_stream() {
    let payload: Vec<u8> = (0u8..200).collect();
    let mut s = C2paStream::new(MemoryStream::new());
    assert_eq!(s.write_stream(payload.clone()), Ok(200));
    assert_eq!(s.seek_stream(0, SeekMode::Start), Ok(0));
    assert_eq!(s.read_stream(200), Ok(payload.clone()));
    assert_eq!(s.read_stream(10), Ok(vec![]));
}

#[test]
fn round_trip_read_to_end() {
    let payload: Vec<u8> = (0..100_000u32).map(|i| (i % 251) as u8).collect();
    let mut s = C2paStream::new(MemoryStream::new());
    assert_eq!(s.write_all(&payload), Ok(()));
    assert_eq!(s.seek_stream(0, SeekMode::Start), Ok(0));
    assert_eq!(s.read_to_end(), Ok(payload));
}

#[test]
fn memory_seek_modes() {
    let mut s = C2paStream::new(MemoryStream::new());
    s.write_all(b"abcdef").unwrap();
    assert_eq!(s.seek_stream(-2, SeekMode::End), Ok(4));
    assert_eq!(s.read_stream(5), Ok(b"ef".to_vec()));
    assert_eq!(s.seek_stream(1, SeekMode::Start), Ok(1));
    assert_eq!(s.seek_stream(2, SeekMode::Current), Ok(3));
    assert_eq!(s.seek_stream(-1, SeekMode::Start), Err(StreamError::SeekFailed));
    assert_eq!(s.seek_stream(7, SeekMode::Start), Err(StreamError::SeekFailed));
}

#[test]
fn memory_write_overwrites_then_extends() {
    let mut s = C2paStream::new(MemoryStream::new());
    s.write_all(b"abcdef").unwrap();
    s.seek_stream(4, SeekMode::Start).unwrap();
    s.write_all(b"XYZ").unwrap();
    assert_eq!(s.context.data, b"abcdXYZ".to_vec());
    assert_eq!(s.context.pos, 7);
}

#[test]
fn write_all_loops_over_short_writes() {
    let mut s = C2paStream::new(Trickle { written: vec![], fail_read: false });
    assert_eq!(s.write_stream(vec![7, 8, 9]), Ok(1));
    assert_eq!(s.write_all(&[1, 2, 3, 4]), Ok(()));
    assert_eq!(s.context.written, vec![7, 1, 2, 3, 4]);
}

#[test]
fn negative_callbacks_are_stream_failures() {
    let mut s = C2paStream::new(Trickle { written: vec![], fail_read: true });
    assert_eq!(s.read_stream(8), Err(StreamError::ReadFailed));
    assert_eq!(s.read_to_end(), Err(StreamError::ReadFailed));
    assert_eq!(s.seek_stream(0, SeekMode::Start), Err(StreamError::SeekFailed));
}

#[test]
fn empty_stream_reads_nothing() {
    let mut s = C2paStream::new(Trickle { written: vec![], fail_read: false });
    assert_eq!(s.read_to_end(), Ok(vec![]));
}
