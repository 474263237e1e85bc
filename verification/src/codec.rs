//! The frame layout shared by every exchange with a device.
//!
//! A frame is an eight byte header of four little-endian 16-bit fields (start
//! marker, session id, command code, reply id), the payload, and a 16-bit
//! checksum over everything before it. On received frames the last header
//! field is read as the number of payload bytes that follow.

use vstd::prelude::*;
use crate::error::ProtocolError;

verus! {

/// The value every frame starts with.
pub const START_MARKER: u16 = 0x5050;

/// Number of bytes in a frame header.
pub const HEADER_LEN: usize = 8;

/// The two bytes of `x`, low byte first.
pub open spec fn le16_bytes(x: u16) -> Seq<u8> {
    seq![(x % 256) as u8, (x / 256) as u8]
}

/// The 16-bit value whose low byte is `lo` and whose high byte is `hi`.
pub open spec fn le16_value(lo: u8, hi: u8) -> u16 {
    (lo + 256 * hi) as u16
}

/// The sum of all bytes of `s`, as a mathematical integer.
pub open spec fn byte_sum(s: Seq<u8>) -> nat
    decreases s.len(),
{
    if s.len() == 0 {
        0
    } else {
        byte_sum(s.drop_last()) + s.last() as nat
    }
}

/// The checksum of `s`: its byte sum truncated to 16 bits.
pub open spec fn checksum_of(s: Seq<u8>) -> u16 {
    (byte_sum(s) % 0x1_0000) as u16
}

/// Sums the bytes of `data`, wrapping at 16 bits.
pub fn calculate_checksum(data: &[u8]) -> (sum: u16)
    ensures
        sum == checksum_of(data@),
{
    let mut sum: u16 = 0;
    let mut i: usize = 0;
    while i < data.len()
        invariant
            i <= data.len(),
            sum == checksum_of(data@.take(i as int)),
        decreases data.len() - i,
    {
        proof {
            assert(data@.take(i + 1).drop_last() =~= data@.take(i as int));
        }
        sum = sum.wrapping_add(data[i] as u16);
        i += 1;
    }
    proof {
        assert(data@.take(i as int) =~= data@);
    }
    sum
}

/// The header of a frame with the given fields.
pub open spec fn header_of(session_id: u16, command: u16, reply_id: u16) -> Seq<u8> {
    le16_bytes(START_MARKER) + le16_bytes(session_id) + le16_bytes(command) + le16_bytes(reply_id)
}

/// The complete frame with the given fields: header, payload, checksum.
pub open spec fn frame_of(session_id: u16, command: u16, reply_id: u16, payload: Seq<u8>) -> Seq<
    u8,
> {
    let body = header_of(session_id, command, reply_id) + payload;
    body + le16_bytes(checksum_of(body))
}

/// The command code in the header of `bytes`.
pub open spec fn command_field(bytes: Seq<u8>) -> u16
    recommends
        bytes.len() >= HEADER_LEN,
{
    le16_value(bytes[4], bytes[5])
}

/// The number of payload bytes that the header of `bytes` declares.
pub open spec fn declared_len(bytes: Seq<u8>) -> nat
    recommends
        bytes.len() >= HEADER_LEN,
{
    le16_value(bytes[6], bytes[7]) as nat
}

/// Whether the payload that the header declares lies within `bytes`. A bare
/// header always qualifies: its payload is taken to be empty.
pub open spec fn payload_in_bounds(bytes: Seq<u8>) -> bool {
    bytes.len() > HEADER_LEN ==> HEADER_LEN + declared_len(bytes) <= bytes.len()
}

/// Whether `bytes` can be decoded: they hold a header, and the payload that
/// it declares.
pub open spec fn is_well_formed(bytes: Seq<u8>) -> bool {
    bytes.len() >= HEADER_LEN && payload_in_bounds(bytes)
}

/// The payload of `bytes`: the declared number of bytes after the header, or
/// nothing where `bytes` is a bare header.
pub open spec fn payload_field(bytes: Seq<u8>) -> Seq<u8>
    recommends
        bytes.len() >= HEADER_LEN,
        payload_in_bounds(bytes),
{
    if bytes.len() > HEADER_LEN {
        bytes.subrange(HEADER_LEN as int, HEADER_LEN + declared_len(bytes))
    } else {
        Seq::empty()
    }
}

/// What decoding `bytes` yields.
pub open spec fn decoded(bytes: Seq<u8>) -> Result<(u16, Seq<u8>), ProtocolError> {
    if is_well_formed(bytes) {
        Ok((command_field(bytes), payload_field(bytes)))
    } else {
        Err(ProtocolError::MalformedFrame)
    }
}

fn push_le16(buf: &mut Vec<u8>, x: u16)
    ensures
        final(buf)@ == old(buf)@ + le16_bytes(x),
{
    buf.push((x % 256) as u8);
    buf.push((x / 256) as u8);
}

pub(crate) fn read_le16(lo: u8, hi: u8) -> (x: u16)
    ensures
        x == le16_value(lo, hi),
{
    lo as u16 + 256 * (hi as u16)
}

/// Builds the frame that carries `payload` under the given header fields.
///
/// The last two bytes of the frame are the checksum of all bytes before them.
pub fn encode(session_id: u16, command: u16, reply_id: u16, payload: &[u8]) -> (frame: Vec<u8>)
    ensures
        frame@ == frame_of(session_id, command, reply_id, payload@),
        frame@.len() == HEADER_LEN + payload@.len() + 2,
        frame@.subrange(0, HEADER_LEN as int) == header_of(session_id, command, reply_id),
        frame@.subrange(HEADER_LEN as int, HEADER_LEN + payload@.len()) == payload@,
        le16_value(frame@[frame@.len() - 2], frame@[frame@.len() - 1]) == checksum_of(
            frame@.take(frame@.len() - 2),
        ),
{
    let mut frame: Vec<u8> = Vec::new();
    push_le16(&mut frame, START_MARKER);
    push_le16(&mut frame, session_id);
    push_le16(&mut frame, command);
    push_le16(&mut frame, reply_id);
    let ghost header = header_of(session_id, command, reply_id);
    let mut i: usize = 0;
    while i < payload.len()
        invariant
            i <= payload.len(),
            frame@ == header + payload@.take(i as int),
        decreases payload.len() - i,
    {
        frame.push(payload[i]);
        i += 1;
    }
    let ghost body = header + payload@;
    proof {
        assert(payload@.take(i as int) =~= payload@);
    }
    let checksum = calculate_checksum(frame.as_slice());
    push_le16(&mut frame, checksum);
    proof {
        lemma_le16_round_trip(checksum);
        assert(frame@.take(frame@.len() - 2) =~= body);
    }
    frame
}

/// The number of payload bytes that follow a received header.
pub fn payload_length(header: &[u8]) -> (r: Result<usize, ProtocolError>)
    ensures
        header@.len() < HEADER_LEN ==> r == Err::<usize, ProtocolError>(
            ProtocolError::MalformedFrame,
        ),
        header@.len() >= HEADER_LEN ==> r == Ok::<usize, ProtocolError>(
            declared_len(header@) as usize,
        ),
{
    if header.len() < HEADER_LEN {
        return Err(ProtocolError::MalformedFrame);
    }
    let n: u16 = read_le16(header[6], header[7]);
    Ok(n as usize)
}

/// Splits a received frame into its command code and its payload.
///
/// Fewer than eight bytes are rejected as `MalformedFrame`, and so are more
/// than eight that are fewer than the header declares. Otherwise the payload
/// is the declared number of bytes after the header; a bare header has an
/// empty payload whatever it declares.
pub fn decode(bytes: &[u8]) -> (r: Result<(u16, Vec<u8>), ProtocolError>)
    ensures
        r is Ok <==> is_well_formed(bytes@),
        match decoded(bytes@) {
            Ok((command, payload)) => r is Ok && r->Ok_0.0 == command && r->Ok_0.1@ == payload,
            Err(e) => r == Err::<(u16, Vec<u8>), ProtocolError>(e),
        },
{
    if bytes.len() < HEADER_LEN {
        return Err(ProtocolError::MalformedFrame);
    }
    let command: u16 = read_le16(bytes[4], bytes[5]);
    let mut payload: Vec<u8> = Vec::new();
    if bytes.len() > HEADER_LEN {
        let n: usize = read_le16(bytes[6], bytes[7]) as usize;
        if n > bytes.len() - HEADER_LEN {
            return Err(ProtocolError::MalformedFrame);
        }
        let mut i: usize = 0;
        while i < n
            invariant
                i <= n,
                HEADER_LEN + n <= bytes.len(),
                payload@ == bytes@.subrange(HEADER_LEN as int, HEADER_LEN + i),
            decreases n - i,
        {
            payload.push(bytes[HEADER_LEN + i]);
            i += 1;
        }
    }
    Ok((command, payload))
}

/// Splitting a 16-bit value into bytes and joining them again changes nothing.
pub proof fn lemma_le16_round_trip(x: u16)
    ensures
        le16_bytes(x).len() == 2,
        le16_value(le16_bytes(x)[0], le16_bytes(x)[1]) == x,
{
}

/// A frame built from any header fields and payload carries, as its last two
/// bytes, the checksum of everything before them.
pub proof fn lemma_frame_checksum(session_id: u16, command: u16, reply_id: u16, payload: Seq<u8>)
    ensures
        ({
            let frame = frame_of(session_id, command, reply_id, payload);
            &&& frame.len() == HEADER_LEN + payload.len() + 2
            &&& le16_value(frame[frame.len() - 2], frame[frame.len() - 1]) == checksum_of(
                frame.take(frame.len() - 2),
            )
        }),
{
    let body = header_of(session_id, command, reply_id) + payload;
    let frame = frame_of(session_id, command, reply_id, payload);
    lemma_le16_round_trip(checksum_of(body));
    assert(frame.take(frame.len() - 2) =~= body);
}

/// Decoding a freshly built frame gives back its command code, and as payload
/// the first `reply_id` bytes of what follows the header, checksum included;
/// where the reply id exceeds their number, the frame is rejected. The last
/// header field does double duty: it is written as the reply id and read as
/// the payload length.
pub proof fn lemma_decode_of_encoded(session_id: u16, command: u16, reply_id: u16, payload: Seq<u8>)
    ensures
        ({
            let frame = frame_of(session_id, command, reply_id, payload);
            &&& command_field(frame) == command
            &&& declared_len(frame) == reply_id
            &&& is_well_formed(frame) <==> reply_id <= payload.len() + 2
            &&& reply_id <= payload.len() + 2 ==> decoded(frame) == Ok::<
                (u16, Seq<u8>),
                ProtocolError,
            >((command, (payload + le16_bytes(checksum_of(frame.take(frame.len() - 2)))).take(
                reply_id as int,
            )))
        }),
{
    let frame = frame_of(session_id, command, reply_id, payload);
    lemma_le16_round_trip(command);
    lemma_le16_round_trip(reply_id);
    lemma_frame_checksum(session_id, command, reply_id, payload);
    if reply_id <= payload.len() + 2 {
        let body = header_of(session_id, command, reply_id) + payload;
        assert(payload_field(frame) =~= (payload + le16_bytes(checksum_of(body))).take(
            reply_id as int,
        ));
    }
}

/// Round trip: where the reply id equals the payload length, decoding an
/// encoded frame returns the command code and the payload unchanged.
pub proof fn lemma_round_trip(session_id: u16, command: u16, reply_id: u16, payload: Seq<u8>)
    requires
        reply_id == payload.len(),
    ensures
        decoded(frame_of(session_id, command, reply_id, payload)) == Ok::<
            (u16, Seq<u8>),
            ProtocolError,
        >((command, payload)),
{
    let frame = frame_of(session_id, command, reply_id, payload);
    lemma_decode_of_encoded(session_id, command, reply_id, payload);
    assert(payload_field(frame) =~= payload);
}

} // verus!
