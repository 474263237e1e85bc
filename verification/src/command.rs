//! The command codes of the device protocol as a closed set of tags.

use vstd::prelude::*;

verus! {

pub const CMD_CONNECT: u16 = 1000;

pub const CMD_EXIT: u16 = 1001;

pub const CMD_ENABLEDEVICE: u16 = 1002;

pub const CMD_DISABLEDEVICE: u16 = 1003;

pub const CMD_ACK_OK: u16 = 5000;

pub const CMD_ACK_ERROR: u16 = 5001;

/// The code of a frame that carries one record of a streamed listing.
pub const CMD_ACK_DATA: u16 = 5002;

pub const CMD_ACK_RETRY: u16 = 5003;

pub const CMD_ACK_REPEAT: u16 = 5004;

pub const CMD_ACK_UNAUTH: u16 = 5005;

pub const CMD_PREPARE_DATA: u16 = 1500;

pub const CMD_DATA: u16 = 1501;

pub const CMD_GET_USER: u16 = 8;

pub const CMD_OPTIONS_RRQ: u16 = 11;

pub const CMD_ATTLOG_RRQ: u16 = 13;

pub const CMD_GET_VERSION: u16 = 1100;

/// A command code read off the wire. Codes this library gives no meaning to
/// are kept as `Unknown`, so that a reader of a stream can pass over them.
#[derive(Clone, Copy, Debug, PartialEq, Eq, Structural)]
pub enum Command {
    Connect,
    Exit,
    EnableDevice,
    DisableDevice,
    AckOk,
    AckError,
    AckData,
    AckRetry,
    AckRepeat,
    AckUnauth,
    PrepareData,
    Data,
    GetUser,
    OptionsRrq,
    AttlogRrq,
    GetVersion,
    Unknown(u16),
}

/// Whether `code` is one of the codes that have a tag of their own.
pub open spec fn is_known_code(code: u16) -> bool {
    code == CMD_CONNECT || code == CMD_EXIT || code == CMD_ENABLEDEVICE || code
        == CMD_DISABLEDEVICE || code == CMD_ACK_OK || code == CMD_ACK_ERROR || code == CMD_ACK_DATA
        || code == CMD_ACK_RETRY || code == CMD_ACK_REPEAT || code == CMD_ACK_UNAUTH || code
        == CMD_PREPARE_DATA || code == CMD_DATA || code == CMD_GET_USER || code == CMD_OPTIONS_RRQ
        || code == CMD_ATTLOG_RRQ || code == CMD_GET_VERSION
}

impl Command {
    /// The tag that stands for `code`.
    pub open spec fn of(code: u16) -> Command {
        if code == CMD_CONNECT {
            Command::Connect
        } else if code == CMD_EXIT {
            Command::Exit
        } else if code == CMD_ENABLEDEVICE {
            Command::EnableDevice
        } else if code == CMD_DISABLEDEVICE {
            Command::DisableDevice
        } else if code == CMD_ACK_OK {
            Command::AckOk
        } else if code == CMD_ACK_ERROR {
            Command::AckError
        } else if code == CMD_ACK_DATA {
            Command::AckData
        } else if code == CMD_ACK_RETRY {
            Command::AckRetry
        } else if code == CMD_ACK_REPEAT {
            Command::AckRepeat
        } else if code == CMD_ACK_UNAUTH {
            Command::AckUnauth
        } else if code == CMD_PREPARE_DATA {
            Command::PrepareData
        } else if code == CMD_DATA {
            Command::Data
        } else if code == CMD_GET_USER {
            Command::GetUser
        } else if code == CMD_OPTIONS_RRQ {
            Command::OptionsRrq
        } else if code == CMD_ATTLOG_RRQ {
            Command::AttlogRrq
        } else if code == CMD_GET_VERSION {
            Command::GetVersion
        } else {
            Command::Unknown(code)
        }
    }

    /// The code that this tag is written as.
    pub open spec fn wire_code(self) -> u16 {
        match self {
            Command::Connect => CMD_CONNECT,
            Command::Exit => CMD_EXIT,
            Command::EnableDevice => CMD_ENABLEDEVICE,
            Command::DisableDevice => CMD_DISABLEDEVICE,
            Command::AckOk => CMD_ACK_OK,
            Command::AckError => CMD_ACK_ERROR,
            Command::AckData => CMD_ACK_DATA,
            Command::AckRetry => CMD_ACK_RETRY,
            Command::AckRepeat => CMD_ACK_REPEAT,
            Command::AckUnauth => CMD_ACK_UNAUTH,
            Command::PrepareData => CMD_PREPARE_DATA,
            Command::Data => CMD_DATA,
            Command::GetUser => CMD_GET_USER,
            Command::OptionsRrq => CMD_OPTIONS_RRQ,
            Command::AttlogRrq => CMD_ATTLOG_RRQ,
            Command::GetVersion => CMD_GET_VERSION,
            Command::Unknown(code) => code,
        }
    }

    /// Whether this tag is the one that `of` gives for its code: an `Unknown`
    /// never hides a code that has a tag of its own.
    pub open spec fn is_canonical(self) -> bool {
        match self {
            Command::Unknown(code) => !is_known_code(code),
            _ => true,
        }
    }

    /// Classifies a code read off the wire.
    pub fn from_code(code: u16) -> (cmd: Command)
        ensures
            cmd == Command::of(code),
            cmd.is_canonical(),
            cmd.wire_code() == code,
    {
        if code == CMD_CONNECT {
            Command::Connect
        } else if code == CMD_EXIT {
            Command::Exit
        } else if code == CMD_ENABLEDEVICE {
            Command::EnableDevice
        } else if code == CMD_DISABLEDEVICE {
            Command::DisableDevice
        } else if code == CMD_ACK_OK {
            Command::AckOk
        } else if code == CMD_ACK_ERROR {
            Command::AckError
        } else if code == CMD_ACK_DATA {
            Command::AckData
        } else if code == CMD_ACK_RETRY {
            Command::AckRetry
        } else if code == CMD_ACK_REPEAT {
            Command::AckRepeat
        } else if code == CMD_ACK_UNAUTH {
            Command::AckUnauth
        } else if code == CMD_PREPARE_DATA {
            Command::PrepareData
        } else if code == CMD_DATA {
            Command::Data
        } else if code == CMD_GET_USER {
            Command::GetUser
        } else if code == CMD_OPTIONS_RRQ {
            Command::OptionsRrq
        } else if code == CMD_ATTLOG_RRQ {
            Command::AttlogRrq
        } else if code == CMD_GET_VERSION {
            Command::GetVersion
        } else {
            Command::Unknown(code)
        }
    }

    /// The code to put on the wire for this tag.
    pub fn code(&self) -> (code: u16)
        ensures
            code == self.wire_code(),
            self.is_canonical() ==> Command::of(code) == *self,
    {
        match self {
            Command::Connect => CMD_CONNECT,
            Command::Exit => CMD_EXIT,
            Command::EnableDevice => CMD_ENABLEDEVICE,
            Command::DisableDevice => CMD_DISABLEDEVICE,
            Command::AckOk => CMD_ACK_OK,
            Command::AckError => CMD_ACK_ERROR,
            Command::AckData => CMD_ACK_DATA,
            Command::AckRetry => CMD_ACK_RETRY,
            Command::AckRepeat => CMD_ACK_REPEAT,
            Command::AckUnauth => CMD_ACK_UNAUTH,
            Command::PrepareData => CMD_PREPARE_DATA,
            Command::Data => CMD_DATA,
            Command::GetUser => CMD_GET_USER,
            Command::OptionsRrq => CMD_OPTIONS_RRQ,
            Command::AttlogRrq => CMD_ATTLOG_RRQ,
            Command::GetVersion => CMD_GET_VERSION,
            Command::Unknown(code) => *code,
        }
    }
}

/// Classifying a code and writing the tag out again gives the code back, for
/// every 16-bit value; and every canonical tag survives the trip the other way.
pub proof fn lemma_command_code_round_trip(code: u16, cmd: Command)
    ensures
        Command::of(code).wire_code() == code,
        Command::of(code).is_canonical(),
        cmd.is_canonical() ==> Command::of(cmd.wire_code()) == cmd,
{
}

} // verus!
