//! The quick identification of a device: its name, firmware version and
//! serial number, asked for right after the handshake.
//!
//! Name and serial number are device options. An option is asked for with
//! the options command and the payload `~Key` followed by a NUL; the answer
//! carries `~Key=value` followed by a NUL. The firmware version has a command
//! of its own, and its answer carries the version followed by a NUL. A device
//! that does not know a query answers with something other than an
//! acknowledgement; the field then stays empty.

use vstd::prelude::*;
use vstd::string::*;
use crate::client::reply_views;
use crate::codec::{command_field, decode, frame_of, HEADER_LEN};
use crate::command::{CMD_ACK_OK, CMD_CONNECT, CMD_EXIT, CMD_GET_VERSION, CMD_OPTIONS_RRQ};
use crate::transport::{
    awaits_payload, completes_frame, is_complete, lemma_complete_frame_decodes, wanted, Fed,
    FrameReader, IoRequest, IoRequestView,
};
use crate::session::{ProtocolSession, SessionView};
use crate::text::{from_utf8_lossy, lemma_position_found, lemma_position_of, position_of, utf8_lossy};

verus! {

/// What a device says of itself. A field the device does not expose is empty.
#[derive(Clone, Debug, PartialEq, Eq)]
pub struct DeviceInfo {
    pub device_name: String,
    pub firmware_version: String,
    pub serial_number: String,
}

/// A `DeviceInfo` with its texts as sequences of characters.
pub struct DeviceInfoView {
    pub device_name: Seq<char>,
    pub firmware_version: Seq<char>,
    pub serial_number: Seq<char>,
}

impl View for DeviceInfo {
    type V = DeviceInfoView;

    open spec fn view(&self) -> DeviceInfoView {
        DeviceInfoView {
            device_name: self.device_name@,
            firmware_version: self.firmware_version@,
            serial_number: self.serial_number@,
        }
    }
}

/// Milliseconds allowed for connecting to a device that is to be
/// identified, and for each read and each write: the budget of one probe.
pub const IDENTIFY_TIMEOUT_MS: u64 = 300;

/// The byte `=` that parts an option's key from its value.
pub const EQUALS: u8 = 0x3d;

/// `bytes` up to its first NUL, or all of it where there is none.
pub open spec fn until_nul(bytes: Seq<u8>) -> Seq<u8> {
    bytes.take(position_of(bytes, 0))
}

/// What follows the first `=` in `bytes`; nothing where there is none.
pub open spec fn after_equals(bytes: Seq<u8>) -> Seq<u8> {
    if position_of(bytes, EQUALS) < bytes.len() {
        bytes.skip(position_of(bytes, EQUALS) + 1)
    } else {
        Seq::empty()
    }
}

/// The value in the answer to an option query.
pub open spec fn option_value(payload: Seq<u8>) -> Seq<u8> {
    until_nul(after_equals(payload))
}

/// What is written as an option's value is what is read back: of a key
/// without `=`, then `=`, then a value without NUL, whether or not a NUL and
/// more follow, the value.
pub proof fn lemma_option_value(key: Seq<u8>, value: Seq<u8>, rest: Seq<u8>)
    requires
        forall|i: int| 0 <= i < key.len() ==> key[i] != EQUALS,
        forall|i: int| 0 <= i < value.len() ==> value[i] != 0,
    ensures
        option_value(key + seq![EQUALS] + value) == value,
        option_value(key + seq![EQUALS] + value + seq![0u8] + rest) == value,
{
    let short = key + seq![EQUALS] + value;
    let long = key + seq![EQUALS] + value + seq![0u8] + rest;
    lemma_position_found(short, EQUALS, key.len() as int);
    lemma_position_found(long, EQUALS, key.len() as int);
    assert(after_equals(short) =~= value);
    assert(after_equals(long) =~= value + seq![0u8] + rest);
    lemma_position_found(value, 0u8, value.len() as int);
    lemma_position_found(value + seq![0u8] + rest, 0u8, value.len() as int);
}

/// Finds the first `byte` in `bytes`.
pub fn find_byte(bytes: &[u8], byte: u8) -> (at: usize)
    ensures
        at == position_of(bytes@, byte),
        at <= bytes@.len(),
{
    let mut at: usize = 0;
    while at < bytes.len() && bytes[at] != byte
        invariant
            at <= bytes@.len(),
            forall|j: int| 0 <= j < at ==> bytes@[j] != byte,
        decreases bytes@.len() - at,
    {
        at += 1;
    }
    proof {
        lemma_position_found(bytes@, byte, at as int);
    }
    at
}

/// Reads the value out of the answer to an option query.
pub fn read_option_value(payload: &[u8]) -> (value: Vec<u8>)
    ensures
        value@ == option_value(payload@),
{
    let eq = find_byte(payload, EQUALS);
    if eq >= payload.len() {
        let value: Vec<u8> = Vec::new();
        proof {
            lemma_position_of(Seq::<u8>::empty(), 0u8);
        }
        return value;
    }
    let rest = vstd::slice::slice_subrange(payload, eq + 1, payload.len());
    let end = find_byte(rest, 0);
    vstd::slice::slice_to_vec(vstd::slice::slice_subrange(rest, 0, end))
}

/// Reads a NUL-terminated text field from the start of a payload.
pub fn read_until_nul(payload: &[u8]) -> (value: Vec<u8>)
    ensures
        value@ == until_nul(payload@),
{
    let end = find_byte(payload, 0);
    vstd::slice::slice_to_vec(vstd::slice::slice_subrange(payload, 0, end))
}

/// The three things a device is asked, in the order of asking, and the state
/// in which all have been asked.
#[derive(Clone, Copy, Debug, PartialEq, Eq, Structural)]
pub enum IdentifyStage {
    DeviceName,
    FirmwareVersion,
    SerialNumber,
    Complete,
}

/// The command and payload of the query that belongs to a stage.
pub open spec fn query_of(stage: IdentifyStage) -> Option<(u16, Seq<u8>)> {
    match stage {
        IdentifyStage::DeviceName => Some((CMD_OPTIONS_RRQ, "~DeviceName".spec_bytes().push(0))),
        IdentifyStage::FirmwareVersion => Some((CMD_GET_VERSION, Seq::empty())),
        IdentifyStage::SerialNumber => Some(
            (CMD_OPTIONS_RRQ, "~SerialNumber".spec_bytes().push(0)),
        ),
        IdentifyStage::Complete => None,
    }
}

/// The text that an answer gives for the query of a stage: the decoded value
/// where the device acknowledged the query, nothing where it did not.
pub open spec fn answer_text(stage: IdentifyStage, command: u16, payload: Seq<u8>) -> Seq<char> {
    if command != CMD_ACK_OK {
        Seq::empty()
    } else if stage is FirmwareVersion {
        utf8_lossy(until_nul(payload))
    } else {
        utf8_lossy(option_value(payload))
    }
}

/// The state of an identification, as plain values.
pub struct IdentificationView {
    pub stage: IdentifyStage,
    pub info: DeviceInfoView,
}

impl IdentificationView {
    /// An identification before anything was asked.
    pub open spec fn fresh() -> IdentificationView {
        IdentificationView {
            stage: IdentifyStage::DeviceName,
            info: DeviceInfoView {
                device_name: Seq::empty(),
                firmware_version: Seq::empty(),
                serial_number: Seq::empty(),
            },
        }
    }

    /// The state after the answer to the current query arrived. Once all
    /// has been asked, an answer changes nothing.
    pub open spec fn after_answer(self, command: u16, payload: Seq<u8>) -> IdentificationView {
        let text = answer_text(self.stage, command, payload);
        match self.stage {
            IdentifyStage::DeviceName => IdentificationView {
                stage: IdentifyStage::FirmwareVersion,
                info: DeviceInfoView { device_name: text, ..self.info },
            },
            IdentifyStage::FirmwareVersion => IdentificationView {
                stage: IdentifyStage::SerialNumber,
                info: DeviceInfoView { firmware_version: text, ..self.info },
            },
            IdentifyStage::SerialNumber => IdentificationView {
                stage: IdentifyStage::Complete,
                info: DeviceInfoView { serial_number: text, ..self.info },
            },
            IdentifyStage::Complete => self,
        }
    }
}

/// The questions put to a device to identify it, and its answers so far.
#[derive(Debug)]
pub struct Identification {
    stage: IdentifyStage,
    info: DeviceInfo,
}

impl View for Identification {
    type V = IdentificationView;

    closed spec fn view(&self) -> IdentificationView {
        IdentificationView { stage: self.stage, info: self.info@ }
    }
}

fn decode_answer(stage: IdentifyStage, command: u16, payload: &[u8]) -> (text: String)
    ensures
        text@ == answer_text(stage, command, payload@),
{
    if command != CMD_ACK_OK {
        String::new()
    } else {
        let value = match stage {
            IdentifyStage::FirmwareVersion => read_until_nul(payload),
            _ => read_option_value(payload),
        };
        from_utf8_lossy(value.as_slice())
    }
}

impl Identification {
    /// An identification that has asked nothing yet.
    pub fn new() -> (id: Identification)
        ensures
            id@ == IdentificationView::fresh(),
    {
        Identification {
            stage: IdentifyStage::DeviceName,
            info: DeviceInfo {
                device_name: String::new(),
                firmware_version: String::new(),
                serial_number: String::new(),
            },
        }
    }

    /// The frame of the next query under `session`, or nothing once all has
    /// been asked.
    pub fn request(&self, session: &ProtocolSession) -> (frame: Option<Vec<u8>>)
        ensures
            match query_of(self@.stage) {
                Some((command, payload)) => frame is Some && frame->Some_0@ == frame_of(
                    session@.session_id,
                    command,
                    session@.reply_id,
                    payload,
                ),
                None => frame is None,
            },
    {
        match self.stage {
            IdentifyStage::DeviceName => {
                let mut payload = "~DeviceName".as_bytes_vec();
                payload.push(0);
                Some(session.build_command(CMD_OPTIONS_RRQ, payload.as_slice()))
            },
            IdentifyStage::FirmwareVersion => {
                let payload: Vec<u8> = Vec::new();
                Some(session.build_command(CMD_GET_VERSION, payload.as_slice()))
            },
            IdentifyStage::SerialNumber => {
                let mut payload = "~SerialNumber".as_bytes_vec();
                payload.push(0);
                Some(session.build_command(CMD_OPTIONS_RRQ, payload.as_slice()))
            },
            IdentifyStage::Complete => None,
        }
    }

    /// Takes the device's answer to the current query and moves on to the
    /// next.
    pub fn accept(&mut self, command: u16, payload: &[u8])
        ensures
            final(self)@ == old(self)@.after_answer(command, payload@),
    {
        match self.stage {
            IdentifyStage::DeviceName => {
                self.info.device_name = decode_answer(self.stage, command, payload);
                self.stage = IdentifyStage::FirmwareVersion;
            },
            IdentifyStage::FirmwareVersion => {
                self.info.firmware_version = decode_answer(self.stage, command, payload);
                self.stage = IdentifyStage::SerialNumber;
            },
            IdentifyStage::SerialNumber => {
                self.info.serial_number = decode_answer(self.stage, command, payload);
                self.stage = IdentifyStage::Complete;
            },
            IdentifyStage::Complete => {},
        }
    }

    /// Whether all has been asked and answered.
    pub fn is_complete(&self) -> (done: bool)
        ensures
            done == (self@.stage is Complete),
    {
        match self.stage {
            IdentifyStage::Complete => true,
            _ => false,
        }
    }

    /// What the device has said of itself so far.
    pub fn into_info(self) -> (info: DeviceInfo)
        ensures
            info@ == self@.info,
    {
        self.info
    }
}

/// What a recorded identification brings.
pub open spec fn identified(handshake_response: Seq<u8>, replies: Seq<(u16, Seq<u8>)>) -> Option<
    DeviceInfoView,
> {
    if SessionView::accepts(handshake_response) && replies.len() >= 3 {
        Some(
            IdentificationView::fresh().after_answer(replies[0].0, replies[0].1).after_answer(
                replies[1].0,
                replies[1].1,
            ).after_answer(replies[2].0, replies[2].1).info,
        )
    } else {
        None
    }
}

/// Reads a recorded identification: the device's answer to the connect
/// request and its answers to the three queries.
///
/// Where the device did not acknowledge the connect request, or fewer than
/// three answers arrived, there is no identification. Otherwise there is
/// one, with a field left empty for each query that the device did not
/// acknowledge.
pub fn quick_identify(handshake_response: &[u8], replies: &[(u16, Vec<u8>)]) -> (info: Option<
    DeviceInfo,
>)
    ensures
        match identified(handshake_response@, reply_views(replies@)) {
            Some(i) => info is Some && info->Some_0@ == i,
            None => info is None,
        },
{
    let mut session = ProtocolSession::new();
    if session.complete_handshake(handshake_response).is_err() || replies.len() < 3 {
        return None;
    }
    let mut id = Identification::new();
    id.accept(replies[0].0, replies[0].1.as_slice());
    id.accept(replies[1].0, replies[1].1.as_slice());
    id.accept(replies[2].0, replies[2].1.as_slice());
    Some(id.into_info())
}

/// The steps of an identification on the wire, and the two ways it ends.
#[derive(Clone, Copy, Debug, PartialEq, Eq, Structural)]
pub enum ExchangeStage {
    /// The opening of the TCP connection.
    Connect,
    /// The connect request and the device's answer to it.
    Handshake,
    /// The queries, and after the last of them the exit command.
    Asking,
    /// All is asked, and the exit command went out.
    Finished,
    /// The device refused the connection, or the transport failed.
    Failed,
}

/// The state of an identification on the wire, as plain values.
pub struct ExchangeView {
    pub stage: ExchangeStage,
    /// Whether a frame is still to be written before the next read.
    pub sending: bool,
    pub session: SessionView,
    /// The header of the frame that is being read, once it is in.
    pub pending: Seq<u8>,
    pub answers: IdentificationView,
}

impl ExchangeView {
    /// An identification before the connection is opened.
    pub open spec fn fresh() -> ExchangeView {
        ExchangeView {
            stage: ExchangeStage::Connect,
            sending: true,
            session: SessionView::fresh(),
            pending: Seq::empty(),
            answers: IdentificationView::fresh(),
        }
    }

    /// Whether the identification is still under way.
    pub open spec fn active(self) -> bool {
        self.stage is Connect || self.stage is Handshake || self.stage is Asking
    }

    /// The command and payload of the frame to write: the connect request,
    /// then the queries one by one, then the exit command.
    pub open spec fn outgoing(self) -> (u16, Seq<u8>) {
        if self.stage is Handshake {
            (CMD_CONNECT, Seq::empty())
        } else {
            match query_of(self.answers.stage) {
                Some(query) => query,
                None => (CMD_EXIT, Seq::empty()),
            }
        }
    }

    /// What the caller is asked to do in this state.
    pub open spec fn request(self) -> IoRequestView {
        if !self.active() {
            IoRequestView::Done
        } else if self.stage is Connect {
            IoRequestView::Connect { timeout_ms: IDENTIFY_TIMEOUT_MS }
        } else if self.sending {
            IoRequestView::Write(
                frame_of(
                    self.session.session_id,
                    self.outgoing().0,
                    self.session.reply_id,
                    self.outgoing().1,
                ),
            )
        } else {
            IoRequestView::Read(wanted(self.pending))
        }
    }

    /// The state after the connection was opened: the handshake begins.
    pub open spec fn after_connected(self) -> ExchangeView {
        if self.stage is Connect {
            ExchangeView { stage: ExchangeStage::Handshake, ..self }
        } else {
            self
        }
    }

    /// The state after the frame that was to be written went out: the
    /// session counts it; the exit command ends the identification, any
    /// other frame is followed by reading the answer.
    pub open spec fn after_written(self) -> ExchangeView {
        if self.active() && !(self.stage is Connect) && self.sending {
            ExchangeView {
                stage: if self.stage is Asking && self.answers.stage is Complete {
                    ExchangeStage::Finished
                } else {
                    self.stage
                },
                sending: false,
                session: self.session.after_send(),
                ..self
            }
        } else {
            self
        }
    }

    /// The state after the transport failed: the connection could not be
    /// opened, or a write or a read on it failed.
    pub open spec fn after_io_failure(self) -> ExchangeView {
        if self.active() {
            ExchangeView { stage: ExchangeStage::Failed, ..self }
        } else {
            self
        }
    }

    /// The state after a whole frame arrived as the answer to what was
    /// written last.
    pub open spec fn after_frame(self, frame: Seq<u8>) -> ExchangeView {
        match self.stage {
            ExchangeStage::Handshake => if SessionView::accepts(frame) {
                ExchangeView {
                    stage: ExchangeStage::Asking,
                    sending: true,
                    session: self.session.after_handshake(frame),
                    ..self
                }
            } else {
                ExchangeView { stage: ExchangeStage::Failed, ..self }
            },
            ExchangeStage::Asking => ExchangeView {
                sending: true,
                answers: self.answers.after_answer(
                    command_field(frame),
                    frame.skip(HEADER_LEN as int),
                ),
                ..self
            },
            _ => self,
        }
    }

    /// The state after the bytes that were asked for came in. Bytes that
    /// come while none are asked for are ignored; fewer or more than asked
    /// for count as a failed read.
    pub open spec fn after_received(self, bytes: Seq<u8>) -> ExchangeView {
        if !self.active() || self.stage is Connect || self.sending {
            self
        } else if awaits_payload(self.pending, bytes) {
            ExchangeView { pending: bytes, ..self }
        } else if completes_frame(self.pending, bytes) {
            (ExchangeView { pending: Seq::empty(), ..self }).after_frame(self.pending + bytes)
        } else {
            ExchangeView { stage: ExchangeStage::Failed, ..self }
        }
    }

    /// What the identification brought: the device's answers where it went
    /// through, nothing where it failed or is not over.
    pub open spec fn outcome(self) -> Option<DeviceInfoView> {
        if self.stage is Finished {
            Some(self.answers.info)
        } else {
            None
        }
    }
}

/// The quick identification of one device on the wire, from the connect
/// request to the exit.
#[derive(Debug)]
pub struct IdentifyExchange {
    stage: ExchangeStage,
    sending: bool,
    session: ProtocolSession,
    reader: FrameReader,
    answers: Identification,
}

impl View for IdentifyExchange {
    type V = ExchangeView;

    closed spec fn view(&self) -> ExchangeView {
        ExchangeView {
            stage: self.stage,
            sending: self.sending,
            session: self.session@,
            pending: self.reader@,
            answers: self.answers@,
        }
    }
}

impl IdentifyExchange {
    /// An identification that has yet to open its connection.
    pub fn new() -> (exchange: IdentifyExchange)
        ensures
            exchange@ == ExchangeView::fresh(),
    {
        IdentifyExchange {
            stage: ExchangeStage::Connect,
            sending: true,
            session: ProtocolSession::new(),
            reader: FrameReader::new(),
            answers: Identification::new(),
        }
    }

    /// Whether the identification is still under way.
    pub fn is_active(&self) -> (active: bool)
        ensures
            active == self@.active(),
    {
        match self.stage {
            ExchangeStage::Connect | ExchangeStage::Handshake | ExchangeStage::Asking => true,
            _ => false,
        }
    }

    fn is_connecting(&self) -> (connecting: bool)
        ensures
            connecting == (self@.stage is Connect),
    {
        match self.stage {
            ExchangeStage::Connect => true,
            _ => false,
        }
    }

    /// Reports that the connection stands.
    pub fn connected(&mut self)
        ensures
            final(self)@ == old(self)@.after_connected(),
    {
        match self.stage {
            ExchangeStage::Connect => {
                self.stage = ExchangeStage::Handshake;
            },
            _ => {},
        }
    }

    /// What to do next on the connection.
    pub fn request(&self) -> (request: IoRequest)
        ensures
            request@ == self@.request(),
    {
        if !self.is_active() {
            return IoRequest::Done;
        }
        if self.is_connecting() {
            return IoRequest::Connect { timeout_ms: IDENTIFY_TIMEOUT_MS };
        }
        if !self.sending {
            return IoRequest::Read(self.reader.wanted());
        }
        match self.stage {
            ExchangeStage::Handshake => IoRequest::Write(self.session.handshake_request()),
            _ => match self.answers.request(&self.session) {
                Some(frame) => IoRequest::Write(frame),
                None => {
                    let empty: Vec<u8> = Vec::new();
                    IoRequest::Write(self.session.build_command(CMD_EXIT, empty.as_slice()))
                },
            },
        }
    }

    /// Reports that the frame that was to be written went out.
    pub fn written(&mut self)
        ensures
            final(self)@ == old(self)@.after_written(),
    {
        if self.is_active() && !self.is_connecting() && self.sending {
            self.session.record_sent();
            self.sending = false;
            match self.stage {
                ExchangeStage::Asking => {
                    if self.answers.is_complete() {
                        self.stage = ExchangeStage::Finished;
                    }
                },
                _ => {},
            }
        }
    }

    /// Reports that the transport failed: the connection could not be
    /// opened, or a write or a read on it failed.
    pub fn io_failed(&mut self)
        ensures
            final(self)@ == old(self)@.after_io_failure(),
    {
        if self.is_active() {
            self.stage = ExchangeStage::Failed;
        }
    }

    fn frame_arrived(&mut self, frame: &[u8])
        requires
            is_complete(frame@),
        ensures
            final(self)@ == old(self)@.after_frame(frame@),
    {
        proof {
            lemma_complete_frame_decodes(frame@);
        }
        match self.stage {
            ExchangeStage::Handshake => {
                match self.session.complete_handshake(frame) {
                    Ok(()) => {
                        self.stage = ExchangeStage::Asking;
                        self.sending = true;
                    },
                    Err(_) => {
                        self.stage = ExchangeStage::Failed;
                    },
                }
            },
            ExchangeStage::Asking => {
                match decode(frame) {
                    Ok((command, payload)) => {
                        self.answers.accept(command, payload.as_slice());
                        self.sending = true;
                    },
                    Err(_) => {
                        self.stage = ExchangeStage::Failed;
                    },
                }
            },
            _ => {},
        }
    }

    /// Hands over the bytes that were read.
    pub fn received(&mut self, bytes: &[u8])
        ensures
            final(self)@ == old(self)@.after_received(bytes@),
    {
        if !self.is_active() || self.is_connecting() || self.sending {
            return ;
        }
        match self.reader.feed(bytes) {
            Fed::More => {},
            Fed::Frame(frame) => {
                self.frame_arrived(frame.as_slice());
            },
            Fed::Short => {
                self.stage = ExchangeStage::Failed;
            },
        }
    }

    /// What the identification brought: the device's answers where it went
    /// through, nothing where it failed or is not over.
    pub fn into_outcome(self) -> (info: Option<DeviceInfo>)
        ensures
            match self@.outcome() {
                Some(i) => info is Some && info->Some_0@ == i,
                None => info is None,
            },
    {
        match self.stage {
            ExchangeStage::Finished => Some(self.answers.into_info()),
            _ => None,
        }
    }
}

/// The whole course of the identification of a device that can be reached,
/// acknowledges the connect request and answers each query with one whole
/// frame.
///
/// The connection is opened with the short timeout. Five frames are written, with reply ids that count up from zero: the
/// connect request under session id zero, then the three queries and the
/// exit command under the session id that the device assigned. What the
/// identification brings is what the three answers say, whatever each of
/// them is.
pub proof fn lemma_identify_course(handshake: Seq<u8>, first: Seq<u8>, second: Seq<u8>, third: Seq<u8>)
    requires
        SessionView::accepts(handshake),
    ensures
        ({
            let id = SessionView::assigned_id(handshake);
            let nothing = Seq::<u8>::empty();
            let start = ExchangeView::fresh();
            let s0 = start.after_connected();
            let s1 = s0.after_written().after_frame(handshake);
            let s2 = s1.after_written().after_frame(first);
            let s3 = s2.after_written().after_frame(second);
            let s4 = s3.after_written().after_frame(third);
            let s5 = s4.after_written();
            let answers = seq![
                (command_field(first), first.skip(HEADER_LEN as int)),
                (command_field(second), second.skip(HEADER_LEN as int)),
                (command_field(third), third.skip(HEADER_LEN as int)),
            ];
            &&& start.request() == IoRequestView::Connect { timeout_ms: IDENTIFY_TIMEOUT_MS }
            &&& s0.request() == IoRequestView::Write(frame_of(0, CMD_CONNECT, 0, nothing))
            &&& s1.request() == IoRequestView::Write(
                frame_of(id, CMD_OPTIONS_RRQ, 1, "~DeviceName".spec_bytes().push(0)),
            )
            &&& s2.request() == IoRequestView::Write(frame_of(id, CMD_GET_VERSION, 2, nothing))
            &&& s3.request() == IoRequestView::Write(
                frame_of(id, CMD_OPTIONS_RRQ, 3, "~SerialNumber".spec_bytes().push(0)),
            )
            &&& s4.request() == IoRequestView::Write(frame_of(id, CMD_EXIT, 4, nothing))
            &&& s5.request() == IoRequestView::Done
            &&& s5.outcome() == identified(handshake, answers)
        }),
{
}

/// A device that does not acknowledge the connect request is not
/// identified, and nothing more is written to it; neither is one with which
/// the transport fails at any step.
pub proof fn lemma_identify_refused(handshake: Seq<u8>, v: ExchangeView)
    requires
        !SessionView::accepts(handshake),
        v.active(),
    ensures
        ExchangeView::fresh().after_connected().after_written().after_frame(handshake).request()
            == IoRequestView::Done,
        ExchangeView::fresh().after_connected().after_written().after_frame(
            handshake,
        ).outcome() is None,
        v.after_io_failure().request() == IoRequestView::Done,
        v.after_io_failure().outcome() is None,
{
}

} // verus!
