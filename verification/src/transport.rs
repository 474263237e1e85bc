//! Framing of the byte stream from a device: a frame arrives as a header of
//! eight bytes and, where the header declares a payload, as that many bytes
//! more. The reader here says how many bytes to read next and puts the frame
//! together; the reading itself is the caller's part.

use vstd::prelude::*;
use vstd::slice::slice_to_vec;
use crate::codec::{
    command_field, declared_len, decoded, is_well_formed, payload_field, payload_length,
    HEADER_LEN,
};
use crate::error::ProtocolError;

verus! {

/// Seconds allowed for connecting to a device, and for each read and each
/// write on an established connection.
pub const IO_TIMEOUT_SECS: u64 = 30;

/// The same in milliseconds.
pub const IO_TIMEOUT_MS: u64 = 30_000;

/// What the caller is to do next on the connection.
#[derive(Clone, Debug, PartialEq, Eq)]
pub enum IoRequest {
    /// Open the TCP connection, allowing this many milliseconds for
    /// connecting and for each later read and write, and report whether it
    /// stands.
    Connect { timeout_ms: u64 },
    /// Write these bytes in full, flush, and report that they went out.
    Write(Vec<u8>),
    /// Read exactly this many bytes and hand them over.
    Read(usize),
    /// Nothing: the exchange is over.
    Done,
}

/// An `IoRequest` as plain values.
pub enum IoRequestView {
    Connect { timeout_ms: u64 },
    Write(Seq<u8>),
    Read(nat),
    Done,
}

impl View for IoRequest {
    type V = IoRequestView;

    open spec fn view(&self) -> IoRequestView {
        match self {
            IoRequest::Connect { timeout_ms } => IoRequestView::Connect { timeout_ms: *timeout_ms },
            IoRequest::Write(bytes) => IoRequestView::Write(bytes@),
            IoRequest::Read(n) => IoRequestView::Read(*n as nat),
            IoRequest::Done => IoRequestView::Done,
        }
    }
}

/// What became of the bytes handed to a reader.
#[derive(Clone, Debug, PartialEq, Eq)]
pub enum Fed {
    /// They were a header that declares a payload: the payload is to be read
    /// next.
    More,
    /// They completed this frame: header and payload, as they arrived.
    Frame(Vec<u8>),
    /// They were not as many as asked for.
    Short,
}

/// Whether `frame` is a header followed by exactly the payload it declares.
pub open spec fn is_complete(frame: Seq<u8>) -> bool {
    frame.len() >= HEADER_LEN && frame.len() == HEADER_LEN + declared_len(frame)
}

/// How many bytes are to be read next, with `pending` as the header read so
/// far: a header where there is none, else the payload it declares.
pub open spec fn wanted(pending: Seq<u8>) -> nat {
    if pending.len() == 0 {
        HEADER_LEN as nat
    } else {
        declared_len(pending)
    }
}

/// Whether `bytes`, read as asked with `pending` as the header read so far,
/// are a header whose payload is still to come.
pub open spec fn awaits_payload(pending: Seq<u8>, bytes: Seq<u8>) -> bool {
    bytes.len() == wanted(pending) && pending.len() == 0 && declared_len(bytes) > 0
}

/// Whether `bytes`, read as asked with `pending` as the header read so far,
/// complete a frame: a header that declares no payload, or the payload of the
/// header read before.
pub open spec fn completes_frame(pending: Seq<u8>, bytes: Seq<u8>) -> bool {
    bytes.len() == wanted(pending) && !awaits_payload(pending, bytes)
}

/// Puts the frames of a byte stream together.
#[derive(Debug)]
pub struct FrameReader {
    header: Vec<u8>,
}

impl View for FrameReader {
    type V = Seq<u8>;

    /// The header read so far: empty between frames.
    closed spec fn view(&self) -> Seq<u8> {
        self.header@
    }
}

impl FrameReader {
    #[verifier::type_invariant]
    closed spec fn inv(self) -> bool {
        self.header@.len() == 0 || (self.header@.len() == HEADER_LEN && declared_len(
            self.header@,
        ) > 0)
    }

    /// A reader at the start of a frame.
    pub fn new() -> (reader: FrameReader)
        ensures
            reader@ == Seq::<u8>::empty(),
    {
        FrameReader { header: Vec::new() }
    }

    /// How many bytes to read next.
    pub fn wanted(&self) -> (n: usize)
        ensures
            n == wanted(self@),
            n > 0,
    {
        proof {
            use_type_invariant(self);
        }
        match payload_length(self.header.as_slice()) {
            Ok(n) => n,
            Err(_) => HEADER_LEN,
        }
    }

    /// Takes the bytes that were read.
    ///
    /// Bytes that are not as many as were asked for are reported as short
    /// and leave the reader as it was. A header that declares a payload is
    /// kept, and the payload is asked for next. Otherwise a frame is complete
    /// and handed out, and the reader is at the start of the next frame.
    pub fn feed(&mut self, bytes: &[u8]) -> (fed: Fed)
        ensures
            bytes@.len() != wanted(old(self)@) ==> fed is Short && final(self)@ == old(self)@,
            awaits_payload(old(self)@, bytes@) ==> fed is More && final(self)@ == bytes@,
            completes_frame(old(self)@, bytes@) ==> fed is Frame && fed->Frame_0@ == old(self)@
                + bytes@ && final(self)@ == Seq::<u8>::empty(),
            fed is Frame ==> is_complete(fed->Frame_0@),
    {
        proof {
            use_type_invariant(&*self);
        }
        if bytes.len() != self.wanted() {
            return Fed::Short;
        }
        if self.header.len() == 0 {
            let declared = match payload_length(bytes) {
                Ok(n) => n,
                Err(_) => 0,
            };
            if declared > 0 {
                self.header = slice_to_vec(bytes);
                return Fed::More;
            }
        }
        let mut frame: Vec<u8> = slice_to_vec(self.header.as_slice());
        let ghost pending = self.header@;
        self.header = Vec::new();
        let mut i: usize = 0;
        while i < bytes.len()
            invariant
                i <= bytes@.len(),
                frame@ == pending + bytes@.take(i as int),
                self.header@.len() == 0,
            decreases bytes@.len() - i,
        {
            frame.push(bytes[i]);
            i += 1;
        }
        Fed::Frame(frame)
    }
}

/// A complete frame decodes to its command and to all that follows its
/// header.
pub proof fn lemma_complete_frame_decodes(frame: Seq<u8>)
    requires
        is_complete(frame),
    ensures
        is_well_formed(frame),
        payload_field(frame) == frame.skip(HEADER_LEN as int),
        decoded(frame) == Ok::<(u16, Seq<u8>), ProtocolError>(
            (command_field(frame), frame.skip(HEADER_LEN as int)),
        ),
{
}

} // verus!
