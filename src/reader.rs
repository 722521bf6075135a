//! Reassembly of RTDE frames from the pieces that socket reads deliver.
//!
//! A socket delivers bytes, not frames, so a frame may arrive over any number
//! of reads. [`FrameReader`] holds what has arrived of the current frame and
//! says how many more bytes to read; each read's outcome is handed to
//! [`FrameReader::feed`], which returns the frame once it is whole. A read of
//! zero bytes means that the peer closed the connection.

use vstd::prelude::*;

use crate::codec::{u16_from_be, Header};
use crate::error::Error;
use crate::types::{append_bytes, Payload};

verus! {

/// The outcome of one read from the socket.
#[derive(Debug)]
pub enum ReadEvent {
    /// The bytes the read delivered; none when the peer closed the connection.
    Received(Vec<u8>),
    /// The read was interrupted by a signal before it delivered anything.
    Interrupted,
    /// The read failed.
    Failed(std::io::Error),
}

/// What a chunk of bytes does to a frame under assembly.
#[derive(Debug, Clone, Copy, PartialEq, Eq, Structural)]
pub enum ChunkOutcome {
    /// The frame is not yet whole.
    Waiting,
    /// The frame is whole.
    Done,
    /// The peer closed the connection.
    Lost,
    /// The header is not one of a frame.
    Malformed,
}

/// The header that the first three bytes of `b` describe, if they describe one.
pub open spec fn leading_header(b: Seq<u8>) -> Option<Header> {
    if b.len() >= 3 {
        Header::decode(b.subrange(0, 3))
    } else {
        None
    }
}

/// Whether the bytes of a frame's start show that it cannot be a frame: an
/// unknown package type, or a size smaller than the header.
pub open spec fn malformed(b: Seq<u8>) -> bool {
    b.len() >= 3 && (leading_header(b) is None || leading_header(b).unwrap().package_size < 3)
}

/// Whether `b` is a whole frame.
pub open spec fn complete(b: Seq<u8>) -> bool {
    !malformed(b) && b.len() >= 3 && b.len() == leading_header(b).unwrap().package_size
}

/// Whether `b` is the start of a frame that is not yet whole.
pub open spec fn partial(b: Seq<u8>) -> bool {
    b.len() < 3 || (!malformed(b) && b.len() < leading_header(b).unwrap().package_size)
}

/// How many more bytes the frame whose start is `b` needs: first the rest of
/// the header, then the rest of the payload.
pub open spec fn wanted(b: Seq<u8>) -> int {
    if b.len() < 3 {
        3 - b.len()
    } else {
        u16_from_be(b[0], b[1]) - b.len()
    }
}

/// What a reader that holds `b` makes of a chunk `c`.
pub open spec fn chunk_outcome(b: Seq<u8>, c: Seq<u8>) -> ChunkOutcome {
    if c.len() == 0 {
        ChunkOutcome::Lost
    } else if malformed(b + c) {
        ChunkOutcome::Malformed
    } else if complete(b + c) {
        ChunkOutcome::Done
    } else {
        ChunkOutcome::Waiting
    }
}

/// What a reader that holds `b` holds after chunk `c`.
pub open spec fn held_after(b: Seq<u8>, c: Seq<u8>) -> Seq<u8> {
    if chunk_outcome(b, c) == ChunkOutcome::Waiting {
        b + c
    } else {
        Seq::empty()
    }
}

/// Whether each chunk in turn is non-empty and no longer than the frame
/// wants at that point, starting from a reader that holds `b`.
pub open spec fn fits(b: Seq<u8>, chunks: Seq<Seq<u8>>) -> bool
    decreases chunks.len(),
{
    chunks.len() == 0 || (0 < chunks[0].len() <= wanted(b) && (chunk_outcome(b, chunks[0])
        == ChunkOutcome::Waiting ==> fits(b + chunks[0], chunks.drop_first())))
}

/// The bytes of the frame that feeding `chunks` in turn to a reader that holds
/// `b` completes, if one is completed.
pub open spec fn assembled(b: Seq<u8>, chunks: Seq<Seq<u8>>) -> Option<Seq<u8>>
    decreases chunks.len(),
{
    if chunks.len() == 0 {
        None
    } else {
        let o = chunk_outcome(b, chunks[0]);
        if o == ChunkOutcome::Done {
            Some(b + chunks[0])
        } else if o == ChunkOutcome::Waiting {
            assembled(b + chunks[0], chunks.drop_first())
        } else {
            None
        }
    }
}

/// Reassembles one frame at a time from partial reads.
#[derive(Debug)]
pub struct FrameReader {
    received: Vec<u8>,
}

impl View for FrameReader {
    type V = Seq<u8>;

    /// What has arrived of the current frame.
    closed spec fn view(&self) -> Seq<u8> {
        self.received@
    }
}

impl FrameReader {
    /// The reader only ever holds the start of a frame that is not yet whole.
    pub open spec fn wf(&self) -> bool {
        partial(self@)
    }

    /// A reader waiting for the first byte of a frame.
    pub fn new() -> (r: Self)
        ensures
            r.wf(),
            r@ == Seq::<u8>::empty(),
    {
        FrameReader { received: Vec::new() }
    }

    /// How many bytes the next read should ask for at most.
    pub fn wanted(&self) -> (r: usize)
        requires
            self.wf(),
        ensures
            r == wanted(self@),
            r > 0,
    {
        let n = self.received.len();
        if n < 3 {
            3 - n
        } else {
            proof {
                assert(self.received@.subrange(0, 3)[0] == self@[0]);
                assert(self.received@.subrange(0, 3)[1] == self@[1]);
            }
            let size = ((self.received[0] as u16) << 8u16) | (self.received[1] as u16);
            size as usize - n
        }
    }

    /// Takes in the outcome of one read.
    ///
    /// Returns the frame once its last byte has arrived, and `None` while more
    /// are needed. An interrupted read changes nothing and is to be retried. A
    /// read of zero bytes is a lost connection, a failed read an I/O error, and
    /// a header of unknown type or of a size below three bytes a decode error;
    /// each of these ends the frame.
    pub fn feed(&mut self, event: ReadEvent) -> (r: Result<Option<Payload>, Error>)
        requires
            old(self).wf(),
            event is Received ==> event->Received_0@.len() <= wanted(old(self)@),
        ensures
            final(self).wf(),
            match event {
                ReadEvent::Interrupted => r == Ok::<Option<Payload>, Error>(None) && final(self)@
                    == old(self)@,
                ReadEvent::Failed(e) => r == Err::<Option<Payload>, Error>(Error::Io(e))
                    && final(self)@ == Seq::<u8>::empty(),
                ReadEvent::Received(c) => {
                    let b = old(self)@ + c@;
                    &&& final(self)@ == held_after(old(self)@, c@)
                    &&& chunk_outcome(old(self)@, c@) == ChunkOutcome::Waiting ==> r == Ok::<
                        Option<Payload>,
                        Error,
                    >(None)
                    &&& chunk_outcome(old(self)@, c@) == ChunkOutcome::Lost ==> r is Err
                        && r->Err_0 is ConnectionLost
                    &&& chunk_outcome(old(self)@, c@) == ChunkOutcome::Malformed ==> r is Err
                        && r->Err_0 is Deserialization
                    &&& chunk_outcome(old(self)@, c@) == ChunkOutcome::Done ==> r is Ok
                        && r->Ok_0 is Some && r->Ok_0->0.header == leading_header(b).unwrap()
                        && r->Ok_0->0.payload@ == b.subrange(3, b.len() as int)
                        && r->Ok_0->0.sized()
                },
            },
    {
        match event {
            ReadEvent::Interrupted => Ok(None),
            ReadEvent::Failed(e) => {
                self.received = Vec::new();
                Err(Error::Io(e))
            },
            ReadEvent::Received(c) => {
                if c.len() == 0 {
                    self.received = Vec::new();
                    return Err(Error::ConnectionLost);
                }
                let ghost start = self.received@;
                append_bytes(&mut self.received, c.as_slice());
                let n = self.received.len();
                if n < 3 {
                    return Ok(None);
                }
                let header = match Header::parse(
                    vstd::slice::slice_subrange(self.received.as_slice(), 0, 3),
                ) {
                    Ok(h) => h,
                    Err(e) => {
                        self.received = Vec::new();
                        return Err(e);
                    },
                };
                if header.package_size < 3 {
                    self.received = Vec::new();
                    return Err(Error::Deserialization("frame size below header size".to_owned()));
                }
                if n < header.package_size as usize {
                    return Ok(None);
                }
                proof {
                    if start.len() >= 3 {
                        assert(start.subrange(0, 3) =~= self.received@.subrange(0, 3));
                        assert(start[0] == start.subrange(0, 3)[0]);
                        assert(start[1] == start.subrange(0, 3)[1]);
                    }
                }
                let mut payload: Vec<u8> = Vec::new();
                append_bytes(
                    &mut payload,
                    vstd::slice::slice_subrange(self.received.as_slice(), 3, n),
                );
                self.received = Vec::new();
                Ok(Some(Payload { header, payload }))
            },
        }
    }
}

/// A frame that arrives over any number of reads, each non-empty and no
/// longer than the reader asks for, is reassembled byte for byte: the reader
/// completes it exactly when its last byte arrives, with the header and
/// payload that a single read of the whole frame would give.
pub proof fn lemma_fragmented_read(p: Payload, chunks: Seq<Seq<u8>>)
    requires
        p.sized(),
        chunks.flatten() == p.wire(),
        fits(Seq::<u8>::empty(), chunks),
    ensures
        assembled(Seq::<u8>::empty(), chunks) == Some(p.wire()),
        leading_header(p.wire()) == Some(p.header),
        p.wire().subrange(3, p.wire().len() as int) == p.payload@,
{
    let f = p.wire();
    crate::codec::lemma_header_round_trip(p.header);
    assert(f.subrange(0, 3) =~= p.header.wire());
    assert(f.subrange(3, f.len() as int) =~= p.payload@);
    assert(Seq::<u8>::empty() + f =~= f);
    lemma_assembled_prefix(Seq::<u8>::empty(), chunks, f);
}

/// Feeding the rest of a frame to a reader that holds its start completes it.
proof fn lemma_assembled_prefix(b: Seq<u8>, chunks: Seq<Seq<u8>>, f: Seq<u8>)
    requires
        f.len() >= 3,
        leading_header(f) is Some,
        leading_header(f).unwrap().package_size == f.len(),
        b + chunks.flatten() == f,
        partial(b),
        fits(b, chunks),
    ensures
        assembled(b, chunks) == Some(f),
    decreases chunks.len(),
{
    if chunks.len() == 0 {
        assert(b + chunks.flatten() =~= b);
        assert(false);
    } else {
        let c = chunks[0];
        let rest = chunks.drop_first();
        let bc = b + c;
        assert(bc + rest.flatten() =~= f);
        assert(bc.len() <= f.len());
        assert(bc =~= f.subrange(0, bc.len() as int));
        if bc.len() >= 3 {
            assert(bc.subrange(0, 3) =~= f.subrange(0, 3));
        }
        if bc.len() == f.len() {
            assert(bc =~= f);
        } else {
            assert(chunk_outcome(b, c) == ChunkOutcome::Waiting);
            lemma_assembled_prefix(bc, rest, f);
        }
    }
}

/// A read of zero bytes while a frame is under assembly is a lost connection.
pub proof fn lemma_zero_read_is_lost(b: Seq<u8>)
    ensures
        chunk_outcome(b, Seq::<u8>::empty()) == ChunkOutcome::Lost,
        held_after(b, Seq::<u8>::empty()) == Seq::<u8>::empty(),
{
}

} // verus!
