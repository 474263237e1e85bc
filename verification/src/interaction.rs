//! One whole interaction with a device: connect request, user listing,
//! attendance log, exit. The steps are strictly sequential, since a device
//! answers one command at a time.
//!
//! The caller owns the connection. It asks what to do next, does it, and
//! reports what happened: that the bytes went out, the bytes that came in, or
//! that the transport failed. Nothing is retried; the first failure ends the
//! interaction.

use vstd::prelude::*;
use vstd::string::*;
use crate::client::{
    entries, entries_after, entries_in, first_terminal, flow_after, lemma_first_terminal,
    lemma_first_terminal_of_prefix, names_of, stamps_after, stamps_in, users_after, users_in,
    well_timed, AttendanceListing, Flow, UserListing,
};
use crate::codec::{command_field, declared_len, decode, frame_of, HEADER_LEN};
use crate::command::{CMD_ACK_OK, CMD_ATTLOG_RRQ, CMD_CONNECT, CMD_EXIT, CMD_GET_USER};
use crate::error::ProtocolError;
use crate::records::{AttendanceEntry, AttendanceRecord, User, UserView};
use crate::session::{ProtocolSession, SessionView};
use crate::transport::{
    awaits_payload, completes_frame, is_complete, lemma_complete_frame_decodes, wanted, Fed,
    FrameReader, IoRequest, IoRequestView, IO_TIMEOUT_MS,
};

verus! {

/// The steps of an interaction, and the two ways it ends.
#[derive(Clone, Copy, Debug, PartialEq, Eq, Structural)]
pub enum FetchStage {
    /// The opening of the TCP connection.
    Connect,
    /// The connect request and the device's answer to it.
    Handshake,
    /// The user listing.
    Users,
    /// The attendance log.
    Log,
    /// The exit command, which is not answered.
    Exit,
    /// All steps are through.
    Finished,
    /// A step has failed.
    Failed,
}

/// The step at which an interaction failed, and why.
#[derive(Clone, Copy, Debug, PartialEq, Eq, Structural)]
pub struct FetchError {
    pub stage: FetchStage,
    pub error: ProtocolError,
}

/// What the operation of a stage is said to have done when it fails.
pub open spec fn stage_words(stage: FetchStage) -> Seq<char> {
    match stage {
        FetchStage::Connect | FetchStage::Handshake => "Connection failed"@,
        FetchStage::Users => "Failed to get users"@,
        FetchStage::Log => "Failed to get attendance"@,
        _ => "Failed to disconnect"@,
    }
}

impl FetchError {
    /// The reason of the failure in words. A failure of the transport is
    /// told in `detail`, the transport's own words; any other has words of
    /// its own.
    pub open spec fn reason(self, detail: Seq<char>) -> Seq<char> {
        match self.error {
            ProtocolError::HandshakeFailed => "Handshake failed"@,
            ProtocolError::MalformedFrame => "Packet too short"@,
            ProtocolError::DeviceError => if self.stage is Users {
                "Error getting users"@
            } else {
                "Error getting attendance"@
            },
            ProtocolError::ConnectError | ProtocolError::IoError => detail,
        }
    }

    /// The failure in words: what failed, a colon, and why.
    pub open spec fn message_text(self, detail: Seq<char>) -> Seq<char> {
        stage_words(self.stage) + ": "@ + self.reason(detail)
    }

    /// The failure in words, with `detail` as what the transport said of
    /// its own failure, which is quoted where the transport is the reason.
    pub fn message(&self, detail: &str) -> (text: String)
        ensures
            text@ == self.message_text(detail@),
    {
        let mut text = match self.stage {
            FetchStage::Connect | FetchStage::Handshake => String::from_str("Connection failed"),
            FetchStage::Users => String::from_str("Failed to get users"),
            FetchStage::Log => String::from_str("Failed to get attendance"),
            _ => String::from_str("Failed to disconnect"),
        };
        text.append(": ");
        match self.error {
            ProtocolError::HandshakeFailed => text.append("Handshake failed"),
            ProtocolError::MalformedFrame => text.append("Packet too short"),
            ProtocolError::DeviceError => match self.stage {
                FetchStage::Users => text.append("Error getting users"),
                _ => text.append("Error getting attendance"),
            },
            ProtocolError::ConnectError | ProtocolError::IoError => text.append(detail),
        }
        text
    }
}

/// The state of an interaction, as plain values.
pub struct FetchView {
    pub stage: FetchStage,
    /// Whether the request of the current step is still to be written.
    pub sending: bool,
    pub session: SessionView,
    /// The header of the frame that is being read, once it is in.
    pub pending: Seq<u8>,
    pub users: Seq<UserView>,
    /// The names that the attendance log is resolved against.
    pub names: Map<u32, Seq<char>>,
    pub entries: Seq<AttendanceEntry>,
    /// The timestamps of the records read so far, in seconds after the
    /// epoch.
    pub stamps: Seq<u32>,
    /// Whether the records read so far tell the time of their timestamps.
    pub well_timed: bool,
    pub failure: Option<FetchError>,
}

impl FetchView {
    /// An interaction before the connection is opened.
    pub open spec fn fresh() -> FetchView {
        FetchView {
            stage: FetchStage::Connect,
            sending: true,
            session: SessionView::fresh(),
            pending: Seq::empty(),
            users: Seq::empty(),
            names: Map::empty(),
            entries: Seq::empty(),
            stamps: Seq::empty(),
            well_timed: true,
            failure: None,
        }
    }

    /// Whether the interaction is still under way.
    pub open spec fn active(self) -> bool {
        !(self.stage is Finished) && !(self.stage is Failed)
    }

    /// The command that the current step sends.
    pub open spec fn command(self) -> u16 {
        match self.stage {
            FetchStage::Handshake => CMD_CONNECT,
            FetchStage::Users => CMD_GET_USER,
            FetchStage::Log => CMD_ATTLOG_RRQ,
            _ => CMD_EXIT,
        }
    }

    /// What the caller is asked to do in this state.
    pub open spec fn request(self) -> IoRequestView {
        if !self.active() {
            IoRequestView::Done
        } else if self.stage is Connect {
            IoRequestView::Connect { timeout_ms: IO_TIMEOUT_MS }
        } else if self.sending {
            IoRequestView::Write(
                frame_of(
                    self.session.session_id,
                    self.command(),
                    self.session.reply_id,
                    Seq::empty(),
                ),
            )
        } else {
            IoRequestView::Read(wanted(self.pending))
        }
    }

    /// This interaction, failed with `error` at its current step.
    pub open spec fn failed(self, error: ProtocolError) -> FetchView {
        FetchView {
            stage: FetchStage::Failed,
            failure: Some(FetchError { stage: self.stage, error }),
            ..self
        }
    }

    /// The state after the connection was opened: the handshake begins.
    pub open spec fn after_connected(self) -> FetchView {
        if self.stage is Connect {
            FetchView { stage: FetchStage::Handshake, ..self }
        } else {
            self
        }
    }

    /// The state after the frame that was to be written went out: the
    /// session counts it; the exit command ends the interaction, any other
    /// is followed by reading the answer.
    pub open spec fn after_written(self) -> FetchView {
        if self.active() && !(self.stage is Connect) && self.sending {
            FetchView {
                stage: if self.stage is Exit {
                    FetchStage::Finished
                } else {
                    self.stage
                },
                sending: false,
                session: self.session.after_send(),
                ..self
            }
        } else {
            self
        }
    }

    /// The state after the transport failed: the connection could not be
    /// opened, or a write or a read on it failed.
    pub open spec fn after_io_failure(self) -> FetchView {
        if self.stage is Connect {
            self.failed(ProtocolError::ConnectError)
        } else if self.active() {
            self.failed(ProtocolError::IoError)
        } else {
            self
        }
    }

    /// The state after a whole frame arrived as the answer, or part of the
    /// answer, of the current step.
    pub open spec fn after_frame(self, frame: Seq<u8>) -> FetchView {
        let command = command_field(frame);
        let payload = frame.skip(HEADER_LEN as int);
        match self.stage {
            FetchStage::Handshake => if SessionView::accepts(frame) {
                FetchView {
                    stage: FetchStage::Users,
                    sending: true,
                    session: self.session.after_handshake(frame),
                    ..self
                }
            } else {
                self.failed(ProtocolError::HandshakeFailed)
            },
            FetchStage::Users => match flow_after(command) {
                Ok(Flow::Continue) => FetchView {
                    users: users_after(self.users, command, payload),
                    ..self
                },
                Ok(Flow::Finished) => FetchView {
                    stage: FetchStage::Log,
                    sending: true,
                    names: names_of(self.users),
                    entries: Seq::empty(),
                    stamps: Seq::empty(),
                    well_timed: true,
                    ..self
                },
                Err(e) => self.failed(e),
            },
            FetchStage::Log => match flow_after(command) {
                Ok(Flow::Continue) => FetchView {
                    entries: entries_after(self.entries, self.names, command, payload),
                    stamps: stamps_after(self.stamps, command, payload),
                    ..self
                },
                Ok(Flow::Finished) => FetchView {
                    stage: FetchStage::Exit,
                    sending: true,
                    ..self
                },
                Err(e) => self.failed(e),
            },
            _ => self,
        }
    }

    /// The state after the bytes that were asked for came in. Bytes that
    /// come while none are asked for are ignored; fewer or more than asked
    /// for count as a failed read.
    pub open spec fn after_received(self, bytes: Seq<u8>) -> FetchView {
        if !self.active() || self.stage is Connect || self.sending {
            self
        } else if awaits_payload(self.pending, bytes) {
            FetchView { pending: bytes, ..self }
        } else if completes_frame(self.pending, bytes) {
            (FetchView { pending: Seq::empty(), ..self }).after_frame(self.pending + bytes)
        } else {
            self.failed(ProtocolError::IoError)
        }
    }

    /// How the interaction ended, once it has: with what the records say, or
    /// with the step that failed and why.
    pub open spec fn outcome(self) -> Option<Result<Seq<AttendanceEntry>, FetchError>> {
        match self.stage {
            FetchStage::Finished => Some(Ok(self.entries)),
            FetchStage::Failed => match self.failure {
                Some(f) => Some(Err(f)),
                None => None,
            },
            _ => None,
        }
    }
}

/// One interaction with a device, from the connect request to the exit.
#[derive(Debug)]
pub struct AttendanceFetch {
    stage: FetchStage,
    sending: bool,
    session: ProtocolSession,
    reader: FrameReader,
    users: UserListing,
    log: AttendanceListing,
    failure: Option<FetchError>,
}

impl View for AttendanceFetch {
    type V = FetchView;

    closed spec fn view(&self) -> FetchView {
        FetchView {
            stage: self.stage,
            sending: self.sending,
            session: self.session@,
            pending: self.reader@,
            users: self.users@,
            names: self.log.names(),
            entries: self.log@,
            stamps: self.log.stamps(),
            well_timed: self.log.well_timed(),
            failure: self.failure,
        }
    }
}

impl AttendanceFetch {
    /// An interaction that has yet to open its connection.
    pub fn new() -> (fetch: AttendanceFetch)
        ensures
            fetch@ == FetchView::fresh(),
    {
        let none: Vec<User> = Vec::new();
        AttendanceFetch {
            stage: FetchStage::Connect,
            sending: true,
            session: ProtocolSession::new(),
            reader: FrameReader::new(),
            users: UserListing::new(),
            log: AttendanceListing::new(none.as_slice()),
            failure: None,
        }
    }

    /// What to do next on the connection.
    pub fn request(&self) -> (request: IoRequest)
        ensures
            request@ == self@.request(),
    {
        let empty: Vec<u8> = Vec::new();
        match self.stage {
            FetchStage::Finished | FetchStage::Failed => IoRequest::Done,
            FetchStage::Connect => IoRequest::Connect { timeout_ms: IO_TIMEOUT_MS },
            _ => {
                if !self.sending {
                    return IoRequest::Read(self.reader.wanted());
                }
                let command = match self.stage {
                    FetchStage::Handshake => CMD_CONNECT,
                    FetchStage::Users => CMD_GET_USER,
                    FetchStage::Log => CMD_ATTLOG_RRQ,
                    _ => CMD_EXIT,
                };
                IoRequest::Write(self.session.build_command(command, empty.as_slice()))
            },
        }
    }

    fn fail(&mut self, error: ProtocolError)
        ensures
            final(self)@ == old(self)@.failed(error),
    {
        self.failure = Some(FetchError { stage: self.stage, error });
        self.stage = FetchStage::Failed;
    }

    /// Whether the interaction is still under way.
    pub fn is_active(&self) -> (active: bool)
        ensures
            active == self@.active(),
    {
        match self.stage {
            FetchStage::Finished | FetchStage::Failed => false,
            _ => true,
        }
    }

    /// Reports that the connection stands.
    pub fn connected(&mut self)
        ensures
            final(self)@ == old(self)@.after_connected(),
    {
        match self.stage {
            FetchStage::Connect => {
                self.stage = FetchStage::Handshake;
            },
            _ => {},
        }
    }

    fn is_connecting(&self) -> (connecting: bool)
        ensures
            connecting == (self@.stage is Connect),
    {
        match self.stage {
            FetchStage::Connect => true,
            _ => false,
        }
    }

    /// Reports that the frame that was to be written went out.
    pub fn written(&mut self)
        ensures
            final(self)@ == old(self)@.after_written(),
    {
        if self.is_active() && !self.is_connecting() && self.sending {
            self.session.record_sent();
            self.sending = false;
            match self.stage {
                FetchStage::Exit => {
                    self.stage = FetchStage::Finished;
                },
                _ => {},
            }
        }
    }

    /// Reports that the transport failed: the connection could not be
    /// opened, or a write or a read on it failed.
    pub fn io_failed(&mut self)
        ensures
            final(self)@ == old(self)@.after_io_failure(),
    {
        if self.is_connecting() {
            self.fail(ProtocolError::ConnectError);
        } else if self.is_active() {
            self.fail(ProtocolError::IoError);
        }
    }

    fn frame_arrived(&mut self, frame: &[u8])
        requires
            is_complete(frame@),
        ensures
            final(self)@ == old(self)@.after_frame(frame@),
    {
        proof {
            lemma_complete_frame_decodes(frame@);
        }
        match self.stage {
            FetchStage::Handshake => {
                match self.session.complete_handshake(frame) {
                    Ok(()) => {
                        self.stage = FetchStage::Users;
                        self.sending = true;
                    },
                    Err(e) => {
                        self.fail(e);
                    },
                }
            },
            FetchStage::Users => {
                match decode(frame) {
                    Ok((command, payload)) => {
                        match self.users.accept(command, payload.as_slice()) {
                            Ok(Flow::Continue) => {},
                            Ok(Flow::Finished) => {
                                self.log = AttendanceListing::new(self.users.as_slice());
                                self.stage = FetchStage::Log;
                                self.sending = true;
                            },
                            Err(e) => {
                                self.fail(e);
                            },
                        }
                    },
                    Err(e) => {
                        self.fail(e);
                    },
                }
            },
            FetchStage::Log => {
                match decode(frame) {
                    Ok((command, payload)) => {
                        match self.log.accept(command, payload.as_slice()) {
                            Ok(Flow::Continue) => {},
                            Ok(Flow::Finished) => {
                                self.stage = FetchStage::Exit;
                                self.sending = true;
                            },
                            Err(e) => {
                                self.fail(e);
                            },
                        }
                    },
                    Err(e) => {
                        self.fail(e);
                    },
                }
            },
            _ => {},
        }
    }

    /// Hands over the bytes that were read.
    pub fn received(&mut self, bytes: &[u8])
        ensures
            final(self)@ == old(self)@.after_received(bytes@),
    {
        if !self.is_active() || self.is_connecting() || self.sending {
            return ;
        }
        match self.reader.feed(bytes) {
            Fed::More => {},
            Fed::Frame(frame) => {
                self.frame_arrived(frame.as_slice());
            },
            Fed::Short => {
                self.fail(ProtocolError::IoError);
            },
        }
    }

    /// How many users have been listed so far.
    pub fn users_listed(&self) -> (n: usize)
        ensures
            n == self@.users.len(),
    {
        self.users.len()
    }

    /// The step the interaction is at.
    pub fn stage(&self) -> (stage: FetchStage)
        ensures
            stage == self@.stage,
    {
        self.stage
    }

    /// How the interaction ended: the attendance records in order of
    /// arrival, each with date and time as projections of its timestamp, or
    /// the step that failed and why. An interaction that is still under way
    /// has not ended either way.
    pub fn into_outcome(self) -> (outcome: Option<Result<Vec<AttendanceRecord>, FetchError>>)
        ensures
            match self@.outcome() {
                Some(Ok(expected)) => outcome matches Some(Ok(records)) && entries(records@)
                    == expected && well_timed(records@, self@.stamps) == self@.well_timed,
                Some(Err(e)) => outcome == Some(
                    Err::<Vec<AttendanceRecord>, FetchError>(e),
                ),
                None => outcome is None,
            },
    {
        match self.stage {
            FetchStage::Finished => Some(Ok(self.log.into_records())),
            FetchStage::Failed => match self.failure {
                Some(f) => Some(Err(f)),
                None => None,
            },
            _ => None,
        }
    }
}

/// A run of whole frames as commands and payloads.
pub open spec fn replies_of(frames: Seq<Seq<u8>>) -> Seq<(u16, Seq<u8>)> {
    frames.map_values(|f: Seq<u8>| (command_field(f), f.skip(HEADER_LEN as int)))
}

/// Whether a run of frames is an answer that a device ends with an
/// acknowledgement or an error: every frame is whole, and the last frame,
/// and no frame before it, ends the stream.
pub open spec fn is_answer(frames: Seq<Seq<u8>>) -> bool {
    &&& frames.len() > 0
    &&& forall|i: int| 0 <= i < frames.len() ==> is_complete(#[trigger] frames[i])
    &&& first_terminal(replies_of(frames)) == frames.len() - 1
}

impl FetchView {
    /// What holds of every state that an interaction can reach.
    pub open spec fn wf(self) -> bool {
        &&& self.session.wf()
        &&& self.well_timed
        &&& self.stage is Failed <==> self.failure is Some
        &&& self.stage is Connect ==> self == FetchView::fresh()
        &&& self.stage is Handshake ==> self.session.state is Connecting
        &&& self.stage is Users || self.stage is Log || self.stage is Exit || self.stage is Finished
            ==> self.session.state is Established
        &&& self.stage is Connect || self.stage is Handshake || self.stage is Users
            ==> self.entries.len() == 0 && self.stamps.len() == 0
        &&& self.stage is Log || self.stage is Exit || self.stage is Finished ==> self.names
            == names_of(self.users)
        &&& self.pending.len() == 0 || (self.pending.len() == HEADER_LEN && declared_len(
            self.pending,
        ) > 0)
        &&& self.sending ==> self.pending.len() == 0
        &&& self.failure matches Some(f) ==> f.stage != FetchStage::Failed && f.stage
            != FetchStage::Finished
    }

    /// Whether the interaction is waiting for the start of a frame.
    pub open spec fn at_frame_start(self) -> bool {
        self.active() && !(self.stage is Connect) && !self.sending && self.pending.len() == 0
    }

    /// The state after a run of whole frames arrived.
    pub open spec fn after_frames(self, frames: Seq<Seq<u8>>) -> FetchView
        decreases frames.len(),
    {
        if frames.len() == 0 {
            self
        } else {
            self.after_frames(frames.drop_last()).after_frame(frames.last())
        }
    }
}

/// A device that cannot be reached fails the interaction with a connect
/// error before anything is written; a transport failure at any later step
/// fails it with an I/O error at that step.
pub proof fn lemma_fetch_transport_failure(v: FetchView)
    requires
        v.active(),
    ensures
        FetchView::fresh().after_io_failure().outcome() == Some(
            Err::<Seq<AttendanceEntry>, FetchError>(
                FetchError { stage: FetchStage::Connect, error: ProtocolError::ConnectError },
            ),
        ),
        !(v.stage is Connect) ==> v.after_io_failure().outcome() == Some(
            Err::<Seq<AttendanceEntry>, FetchError>(
                FetchError { stage: v.stage, error: ProtocolError::IoError },
            ),
        ),
        v.after_io_failure().request() == IoRequestView::Done,
{
}

/// Every step of an interaction keeps its invariant.
pub proof fn lemma_fetch_steps_keep_wf(v: FetchView, bytes: Seq<u8>)
    requires
        v.wf(),
    ensures
        FetchView::fresh().wf(),
        v.after_connected().wf(),
        v.after_written().wf(),
        v.after_io_failure().wf(),
        v.after_received(bytes).wf(),
{
}

/// A frame that is read in its parts has the effect of the whole frame: a
/// bare header in one read, a header with payload in two.
pub proof fn lemma_frame_in_parts(v: FetchView, frame: Seq<u8>)
    requires
        v.at_frame_start(),
        is_complete(frame),
    ensures
        frame.len() == HEADER_LEN ==> v.after_received(frame) == v.after_frame(frame),
        frame.len() > HEADER_LEN ==> v.after_received(frame.take(HEADER_LEN as int)).after_received(
            frame.skip(HEADER_LEN as int),
        ) == v.after_frame(frame),
{
    assert(v.pending =~= Seq::<u8>::empty());
    if frame.len() > HEADER_LEN {
        assert(frame.take(HEADER_LEN as int) + frame.skip(HEADER_LEN as int) =~= frame);
    }
}

/// While the frames of a user listing do not end the stream, the
/// interaction stays at the listing and gathers their users.
pub proof fn lemma_users_gathered(v: FetchView, frames: Seq<Seq<u8>>)
    requires
        v.stage is Users,
        v.users.len() == 0,
        first_terminal(replies_of(frames)) == frames.len(),
    ensures
        v.after_frames(frames) == (FetchView { users: users_in(replies_of(frames)), ..v }),
    decreases frames.len(),
{
    let replies = replies_of(frames);
    lemma_first_terminal(replies);
    if frames.len() == 0 {
        assert(v.users =~= Seq::<UserView>::empty());
    } else {
        let before = frames.drop_last();
        assert(replies_of(before) =~= replies.drop_last());
        lemma_first_terminal_of_prefix(replies, frames.len() - 1);
        lemma_users_gathered(v, before);
    }
}

/// While the frames of an attendance log do not end the stream, the
/// interaction stays at the log and gathers their entries and timestamps.
pub proof fn lemma_entries_gathered(v: FetchView, frames: Seq<Seq<u8>>)
    requires
        v.stage is Log,
        v.entries.len() == 0,
        v.stamps.len() == 0,
        first_terminal(replies_of(frames)) == frames.len(),
    ensures
        v.after_frames(frames) == (FetchView {
            entries: entries_in(replies_of(frames), v.names),
            stamps: stamps_in(replies_of(frames)),
            ..v
        }),
    decreases frames.len(),
{
    let replies = replies_of(frames);
    lemma_first_terminal(replies);
    if frames.len() == 0 {
        assert(v.entries =~= Seq::<AttendanceEntry>::empty());
        assert(v.stamps =~= Seq::<u32>::empty());
    } else {
        let before = frames.drop_last();
        assert(replies_of(before) =~= replies.drop_last());
        lemma_first_terminal_of_prefix(replies, frames.len() - 1);
        lemma_entries_gathered(v, before);
    }
}

/// The whole course of an interaction with a device that can be reached,
/// acknowledges the connect request and answers both listings.
///
/// The connection is opened with the long timeout. Four frames are
/// written, in this order and with reply ids that count up from zero: the connect request under session id zero, then the requests
/// for the users and for the log and the exit command under the session id
/// that the device assigned. Where both answers end in an acknowledgement,
/// the interaction finishes with the users of the first answer and, as what
/// its records say, the entries of the second, named after those users.
/// Where the first answer ends in an error, the interaction fails at the
/// user listing, and where the second does, at the log: with a device error
/// and without a record.
pub proof fn lemma_fetch_course(handshake: Seq<u8>, listing: Seq<Seq<u8>>, log: Seq<Seq<u8>>)
    requires
        SessionView::accepts(handshake),
        is_answer(listing),
        is_answer(log),
    ensures
        ({
            let id = SessionView::assigned_id(handshake);
            let nothing = Seq::<u8>::empty();
            let start = FetchView::fresh();
            let s0 = start.after_connected();
            let s1 = s0.after_written().after_frame(handshake);
            let s2 = s1.after_written().after_frames(listing);
            let s3 = s2.after_written().after_frames(log);
            let s4 = s3.after_written();
            let users = users_in(replies_of(listing).drop_last());
            let listed = replies_of(listing).last().0 == CMD_ACK_OK;
            let logged = replies_of(log).last().0 == CMD_ACK_OK;
            &&& start.request() == IoRequestView::Connect { timeout_ms: IO_TIMEOUT_MS }
            &&& s0.request() == IoRequestView::Write(frame_of(0, CMD_CONNECT, 0, nothing))
            &&& s0.after_written().request() == IoRequestView::Read(HEADER_LEN as nat)
            &&& s1.request() == IoRequestView::Write(frame_of(id, CMD_GET_USER, 1, nothing))
            &&& listed ==> s2.request() == IoRequestView::Write(
                frame_of(id, CMD_ATTLOG_RRQ, 2, nothing),
            )
            &&& listed && logged ==> s3.request() == IoRequestView::Write(
                frame_of(id, CMD_EXIT, 3, nothing),
            )
            &&& listed && logged ==> s4.request() == IoRequestView::Done && s4.users == users
                && s4.well_timed && s4.stamps == stamps_in(replies_of(log).drop_last())
                && s4.outcome() == Some(
                Ok::<Seq<AttendanceEntry>, FetchError>(
                    entries_in(replies_of(log).drop_last(), names_of(users)),
                ),
            )
            &&& !listed ==> s2.request() == IoRequestView::Done && s2.outcome() == Some(
                Err::<Seq<AttendanceEntry>, FetchError>(
                    FetchError { stage: FetchStage::Users, error: ProtocolError::DeviceError },
                ),
            )
            &&& listed && !logged ==> s3.request() == IoRequestView::Done && s3.outcome() == Some(
                Err::<Seq<AttendanceEntry>, FetchError>(
                    FetchError { stage: FetchStage::Log, error: ProtocolError::DeviceError },
                ),
            )
        }),
{
    let s0 = FetchView::fresh().after_connected();
    let s1 = s0.after_written().after_frame(handshake);
    let r1 = s1.after_written();
    let user_replies = replies_of(listing);
    lemma_first_terminal(user_replies);
    lemma_first_terminal_of_prefix(user_replies, listing.len() - 1);
    assert(replies_of(listing.drop_last()) =~= user_replies.drop_last());
    lemma_users_gathered(r1, listing.drop_last());
    let s2 = r1.after_frames(listing);
    if user_replies.last().0 == CMD_ACK_OK {
        let r2 = s2.after_written();
        let log_replies = replies_of(log);
        lemma_first_terminal(log_replies);
        lemma_first_terminal_of_prefix(log_replies, log.len() - 1);
        assert(replies_of(log.drop_last()) =~= log_replies.drop_last());
        lemma_entries_gathered(r2, log.drop_last());
    }
}

} // verus!
