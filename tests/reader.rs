use universal_robot::codec::PackageType;
use universal_robot::reader::{FrameReader, ReadEvent};
use universal_robot::types::Payload;
use universal_robot::Error;

fn frame(t: PackageType, body: &[u8]) -> Vec<u8> {
    Payload::new(t, body.to_vec(), None).unwrap().as_bytes()
}

/// Feeds `bytes` in chunks of at most `step` bytes, never more than the
/// reader asks for, and returns the frame once it is whole.
fn feed_in_steps(bytes: &[u8], step: usize) -> Payload {
    let mut reader = FrameReader::new();
    let mut at = 0;
    loop {
        let n = step.min(reader.wanted()).min(bytes.len() - at);
        let chunk = bytes[at..at + n].to_vec();
        at += n;
        if let Some(p) = reader.feed(ReadEvent::Received(chunk)).unwrap() {
            assert_eq!(at, bytes.len());
            return p;
        }
    }
}

#[test]
fn one_byte_reads_reassemble_the_frame() {
    let body: Vec<u8> = (0u8..200).collect();
    let bytes = frame(PackageType::Data, &body);
    let whole = feed_in_steps(&bytes, usize::MAX);
    for step in [1, 2, 3, 5, 7, 64] {
        let p = feed_in_steps(&bytes, step);
        assert_eq!(p.header, whole.header);
        assert_eq!(p.payload, body);
        assert_eq!(p.get_type(), PackageType::Data);
        assert_eq!(p.header.package_size as usize, bytes.len());
    }
}

#[test]
fn reader_asks_for_header_then_payload() {
    let mut reader = FrameReader::new();
    assert_eq!(reader.wanted(), 3);
    assert!(reader.feed(ReadEvent::Received(vec![0])).unwrap().is_none());
    assert_eq!(reader.wanted(), 2);
    assert!(reader.feed(ReadEvent::Received(vec![5, 77])).unwrap().is_none());
    assert_eq!(reader.wanted(), 2);
    assert!(reader.feed(ReadEvent::Interrupted).unwrap().is_none());
    assert_eq!(reader.wanted(), 2);
    assert!(reader.feed(ReadEvent::Received(vec![b'o'])).unwrap().is_none());
    let p = reader.feed(ReadEvent::Received(vec![b'k'])).unwrap().unwrap();
    assert_eq!(p.get_type(), PackageType::Message);
    assert_eq!(p.payload, b"ok".to_vec());
    assert_eq!(reader.wanted(), 3);
}

#[test]
fn header_only_frame_completes_at_once() {
    let mut reader = FrameReader::new();
    let p = reader.feed(ReadEvent::Received(vec![0, 3, 80])).unwrap().unwrap();
    assert_eq!(p.get_type(), PackageType::Pause);
    assert!(p.payload.is_empty());
}

#[test]
fn zero_byte_read_mid_frame_is_connection_lost() {
    let mut reader = FrameReader::new();
    assert!(reader.feed(ReadEvent::Received(vec![0, 10, 85, 1])).unwrap().is_none());
    let r = reader.feed(ReadEvent::Received(vec![]));
    assert!(matches!(r, Err(Error::ConnectionLost)));
    assert_eq!(reader.wanted(), 3);
}

#[test]
fn zero_byte_read_before_header_is_connection_lost() {
    let mut reader = FrameReader::new();
    assert!(matches!(reader.feed(ReadEvent::Received(vec![])), Err(Error::ConnectionLost)));
}

#[test]
fn unknown_tag_is_a_decode_error() {
    let mut reader = FrameReader::new();
    let r = reader.feed(ReadEvent::Received(vec![0, 4, 1]));
    assert!(matches!(r, Err(Error::Deserialization(_))));
}

#[test]
fn size_below_header_is_a_decode_error() {
    let mut reader = FrameReader::new();
    let r = reader.feed(ReadEvent::Received(vec![0, 2, 85]));
    assert!(matches!(r, Err(Error::Deserialization(_))));
}

#[test]
fn failed_read_is_an_io_error() {
    let mut reader = FrameReader::new();
    let e = std::io::Error::new(std::io::ErrorKind::TimedOut, "timed out");
    assert!(matches!(reader.feed(ReadEvent::Failed(e)), Err(Error::Io(_))));
}
