//! The bookkeeping of one protocol session: the identifier that the device
//! assigns during the handshake and the counter of frames sent.
//!
//! A session is created once a TCP connection stands. It decides what goes
//! on the wire and how an answer changes it; writing and reading are the
//! caller's part. Sending therefore comes in two steps: `build_command`
//! gives the frame under the current ids, and `record_sent` counts it once
//! it went out in full. The handshake likewise: `handshake_request` gives
//! the frame, and `complete_handshake` takes the device's answer. A session
//! that was closed no longer exists: `close` consumes it, and a new
//! connection starts from a fresh one.

use vstd::prelude::*;
use crate::codec::{
    command_field, encode, frame_of, header_of, le16_bytes, le16_value, lemma_le16_round_trip,
    read_le16, HEADER_LEN,
};
use crate::command::{CMD_ACK_OK, CMD_CONNECT, CMD_EXIT};
use crate::error::ProtocolError;

verus! {

/// Where in a header the session id stands.
pub const SESSION_ID_OFFSET: usize = 2;

/// How far a session has come.
#[derive(Clone, Copy, Debug, PartialEq, Eq, Structural)]
pub enum SessionState {
    /// The connection stands, the device has not acknowledged it yet.
    Connecting,
    /// The device has acknowledged the connect request and named the session.
    Established,
}

/// What a session holds, as plain values.
pub struct SessionView {
    pub session_id: u16,
    pub reply_id: u16,
    pub state: SessionState,
}

impl SessionView {
    /// A session right after the connection was opened.
    pub open spec fn fresh() -> SessionView {
        SessionView { session_id: 0, reply_id: 0, state: SessionState::Connecting }
    }

    /// Only the device names a session: until the handshake is through, the
    /// session id is zero.
    pub open spec fn wf(self) -> bool {
        self.state is Connecting ==> self.session_id == 0
    }

    /// The session after one more frame went out.
    pub open spec fn after_send(self) -> SessionView {
        SessionView { reply_id: ((self.reply_id + 1) % 0x1_0000) as u16, ..self }
    }

    /// The session after `n` more frames went out.
    pub open spec fn after_sends(self, n: nat) -> SessionView
        decreases n,
    {
        if n == 0 {
            self
        } else {
            self.after_sends((n - 1) as nat).after_send()
        }
    }

    /// Whether `response` acknowledges a connect request.
    pub open spec fn accepts(response: Seq<u8>) -> bool {
        response.len() >= HEADER_LEN && command_field(response) == CMD_ACK_OK
    }

    /// The session id that an acknowledging `response` assigns.
    pub open spec fn assigned_id(response: Seq<u8>) -> u16
        recommends
            response.len() >= HEADER_LEN,
    {
        le16_value(response[SESSION_ID_OFFSET as int], response[SESSION_ID_OFFSET + 1])
    }

    /// The session after `response` arrived as the answer to the connect
    /// request.
    pub open spec fn after_handshake(self, response: Seq<u8>) -> SessionView {
        if Self::accepts(response) {
            SessionView {
                session_id: Self::assigned_id(response),
                reply_id: 1,
                state: SessionState::Established,
            }
        } else {
            self
        }
    }
}

/// Session id and reply counter of one connection to a device.
#[derive(Debug)]
pub struct ProtocolSession {
    session_id: u16,
    reply_id: u16,
    state: SessionState,
}

impl View for ProtocolSession {
    type V = SessionView;

    closed spec fn view(&self) -> SessionView {
        SessionView { session_id: self.session_id, reply_id: self.reply_id, state: self.state }
    }
}

impl ProtocolSession {
    #[verifier::type_invariant]
    closed spec fn inv(self) -> bool {
        self@.wf()
    }

    /// The session of a connection that was just opened.
    pub fn new() -> (s: ProtocolSession)
        ensures
            s@ == SessionView::fresh(),
    {
        ProtocolSession { session_id: 0, reply_id: 0, state: SessionState::Connecting }
    }

    /// The id that the device gave this session; zero before the handshake.
    pub fn session_id(&self) -> (id: u16)
        ensures
            id == self@.session_id,
            self@.state is Connecting ==> id == 0,
    {
        proof {
            use_type_invariant(self);
        }
        self.session_id
    }

    /// The reply id that the next frame goes out under.
    pub fn reply_id(&self) -> (id: u16)
        ensures
            id == self@.reply_id,
    {
        self.reply_id
    }

    /// How far the session has come.
    pub fn state(&self) -> (state: SessionState)
        ensures
            state == self@.state,
    {
        self.state
    }

    /// The frame for `command` with `data` as payload, under the session's
    /// current id and reply counter. The session itself does not change.
    pub fn build_command(&self, command: u16, data: &[u8]) -> (frame: Vec<u8>)
        ensures
            frame@ == frame_of(self@.session_id, command, self@.reply_id, data@),
    {
        encode(self.session_id, command, self.reply_id, data)
    }

    /// Records that a frame was written in full: the reply counter goes up by
    /// one and wraps at 16 bits.
    pub fn record_sent(&mut self)
        ensures
            final(self)@ == old(self)@.after_send(),
    {
        proof {
            use_type_invariant(&*self);
        }
        self.reply_id = self.reply_id.wrapping_add(1);
    }

    /// The connect request that opens the handshake: a frame with the connect
    /// command and no payload.
    pub fn handshake_request(&self) -> (frame: Vec<u8>)
        ensures
            frame@ == frame_of(self@.session_id, CMD_CONNECT, self@.reply_id, Seq::empty()),
    {
        let empty: Vec<u8> = Vec::new();
        self.build_command(CMD_CONNECT, empty.as_slice())
    }

    /// Takes the device's answer to the connect request.
    ///
    /// An answer of at least a header whose command is the acknowledgement
    /// establishes the session: the session id is read from the answer and the
    /// reply counter is set to one. Any other answer fails with
    /// `HandshakeFailed` and leaves the session as it was.
    pub fn complete_handshake(&mut self, response: &[u8]) -> (r: Result<(), ProtocolError>)
        ensures
            r is Ok <==> SessionView::accepts(response@),
            r is Err ==> r == Err::<(), ProtocolError>(ProtocolError::HandshakeFailed),
            final(self)@ == old(self)@.after_handshake(response@),
            r is Ok ==> final(self)@.reply_id == 1 && final(self)@.session_id
                == SessionView::assigned_id(response@) && final(self)@.state is Established,
            r is Err ==> final(self)@ == old(self)@,
    {
        if response.len() < HEADER_LEN {
            return Err(ProtocolError::HandshakeFailed);
        }
        let command = read_le16(response[4], response[5]);
        if command == CMD_ACK_OK {
            self.state = SessionState::Established;
            self.session_id = read_le16(response[SESSION_ID_OFFSET], response[SESSION_ID_OFFSET + 1]);
            self.reply_id = 1;
            Ok(())
        } else {
            Err(ProtocolError::HandshakeFailed)
        }
    }

    /// Ends the session. The returned frame carries the exit command; the
    /// caller writes it, waits for no answer and releases the connection
    /// whether or not the write went through.
    pub fn close(self) -> (frame: Vec<u8>)
        ensures
            frame@ == frame_of(self@.session_id, CMD_EXIT, self@.reply_id, Seq::empty()),
    {
        let empty: Vec<u8> = Vec::new();
        self.build_command(CMD_EXIT, empty.as_slice())
    }
}

/// Every step of a session keeps its invariant: a fresh session has it, and
/// neither a frame sent nor an answer to the connect request breaks it.
pub proof fn lemma_session_steps_keep_wf(s: SessionView, response: Seq<u8>)
    requires
        s.wf(),
    ensures
        SessionView::fresh().wf(),
        s.after_send().wf(),
        s.after_handshake(response).wf(),
{
}

/// An answer whose header carries the acknowledgement and, in its session
/// field, the id `id` establishes the session under that id, whatever its
/// last header field and whatever follows the header.
pub proof fn lemma_handshake_assigns(s: SessionView, id: u16, last: u16, rest: Seq<u8>)
    ensures
        ({
            let response = header_of(id, CMD_ACK_OK, last) + rest;
            &&& SessionView::accepts(response)
            &&& SessionView::assigned_id(response) == id
            &&& s.after_handshake(response) == (SessionView {
                session_id: id,
                reply_id: 1,
                state: SessionState::Established,
            })
        }),
{
    let response = header_of(id, CMD_ACK_OK, last) + rest;
    lemma_le16_round_trip(id);
    lemma_le16_round_trip(CMD_ACK_OK);
    assert(response[2] == le16_bytes(id)[0] && response[3] == le16_bytes(id)[1]);
    assert(response[4] == le16_bytes(CMD_ACK_OK)[0] && response[5] == le16_bytes(CMD_ACK_OK)[1]);
}

/// Before the handshake the session id is zero, however many frames went out.
pub proof fn lemma_session_id_zero_before_handshake(n: nat)
    ensures
        SessionView::fresh().after_sends(n).session_id == 0,
        SessionView::fresh().after_sends(n).state is Connecting,
{
    lemma_reply_counter(SessionView::fresh(), n);
}

/// After `n` frames sent, the reply counter stands at its earlier value plus
/// `n`, modulo 2^16; session id and state are untouched.
pub proof fn lemma_reply_counter(s: SessionView, n: nat)
    ensures
        s.after_sends(n).reply_id == (s.reply_id + n) % 0x1_0000,
        s.after_sends(n).session_id == s.session_id,
        s.after_sends(n).state == s.state,
    decreases n,
{
    if n > 0 {
        lemma_reply_counter(s, (n - 1) as nat);
    }
}

/// The handshake agrees with the count of frames: on a fresh session whose
/// connect request went out first, an accepted answer leaves the counter
/// where that one send had put it, so that after `n` further frames it stands
/// at `1 + n` modulo 2^16.
pub proof fn lemma_reply_counter_across_handshake(response: Seq<u8>, n: nat)
    requires
        SessionView::accepts(response),
    ensures
        SessionView::fresh().after_send().after_handshake(response).reply_id
            == SessionView::fresh().after_send().reply_id,
        SessionView::fresh().after_send().after_handshake(response).after_sends(n).reply_id == (1
            + n) % 0x1_0000,
{
    lemma_reply_counter(SessionView::fresh().after_send().after_handshake(response), n);
}

} // verus!
