//! The records a device streams, and how they are read from frame payloads.

use vstd::prelude::*;
use vstd::string::*;
use crate::clock::{projects, texts_show, CivilTime};
use crate::text::{decimal, decimal_digits, from_utf8_lossy, trim_nul, trim_trailing_nul, utf8_lossy};

verus! {

/// A payload shorter than this holds no user record.
pub const USER_RECORD_MIN: usize = 72;

/// Where the name field of a user record starts.
pub const USER_NAME_OFFSET: usize = 8;

/// Length of the name field of a user record.
pub const USER_NAME_LEN: usize = 32;

/// A payload shorter than this holds no attendance record.
pub const ATTENDANCE_RECORD_MIN: usize = 16;

/// One enrolled user, as listed by a device.
#[derive(Clone, Debug, PartialEq, Eq)]
pub struct User {
    /// Rank of the record in the listing, starting at one; it wraps where a
    /// listing outgrows 32 bits. The device's own index, if it keeps one, is
    /// not read.
    pub uid: u32,
    /// The name field without its NUL padding; empty where the field holds
    /// nothing else.
    pub name: String,
    /// `uid` as a decimal numeral.
    pub external_id: String,
}

/// A `User` with its texts as sequences of characters.
pub struct UserView {
    pub uid: u32,
    pub name: Seq<char>,
    pub external_id: Seq<char>,
}

impl View for User {
    type V = UserView;

    open spec fn view(&self) -> UserView {
        UserView { uid: self.uid, name: self.name@, external_id: self.external_id@ }
    }
}

/// The views of a sequence of users, in the same order.
pub open spec fn user_views(users: Seq<User>) -> Seq<UserView> {
    users.map_values(|u: User| u@)
}

/// The bytes of the name field of a user record.
pub open spec fn name_field(payload: Seq<u8>) -> Seq<u8>
    recommends
        payload.len() >= USER_RECORD_MIN,
{
    payload.subrange(USER_NAME_OFFSET as int, USER_NAME_OFFSET + USER_NAME_LEN)
}

/// The name of a user whose name field decodes to `decoded`: the field
/// without its NUL padding, which is the empty text for a field of padding
/// alone.
pub open spec fn display_name(decoded: Seq<char>) -> Seq<char> {
    trim_nul(decoded)
}

/// The user of rank `uid` whose name field decodes to `decoded`.
pub open spec fn user_named(decoded: Seq<char>, uid: u32) -> UserView {
    UserView {
        uid,
        name: display_name(decoded),
        external_id: decimal_digits(uid as nat),
    }
}

/// The user that a record payload of sufficient length describes, given its
/// rank.
pub open spec fn user_of(payload: Seq<u8>, uid: u32) -> UserView
    recommends
        payload.len() >= USER_RECORD_MIN,
{
    user_named(utf8_lossy(name_field(payload)), uid)
}

impl User {
    /// Makes the user of rank `uid` from the decoded text of its name field.
    pub fn from_decoded_name(decoded: &str, uid: u32) -> (user: User)
        ensures
            user@ == user_named(decoded@, uid),
    {
        User { uid, name: trim_trailing_nul(decoded), external_id: decimal(uid as u64) }
    }

    /// Reads a user record. A payload of fewer than 72 bytes is no record.
    pub fn parse(payload: &[u8], uid: u32) -> (user: Option<User>)
        ensures
            user is Some <==> payload@.len() >= USER_RECORD_MIN,
            user is Some ==> user->Some_0@ == user_of(payload@, uid),
    {
        if payload.len() < USER_RECORD_MIN {
            return None;
        }
        let field = vstd::slice::slice_subrange(
            payload,
            USER_NAME_OFFSET,
            USER_NAME_OFFSET + USER_NAME_LEN,
        );
        let decoded = from_utf8_lossy(field);
        Some(User::from_decoded_name(decoded.as_str(), uid))
    }
}

/// The fields of an attendance record as they stand in the payload.
#[derive(Clone, Copy, Debug, PartialEq, Eq, Structural)]
pub struct RawAttendance {
    pub user_id: u32,
    /// Seconds since the epoch, UTC.
    pub timestamp: u32,
    pub status: u8,
    pub punch: u8,
}

/// The 32-bit value with the given bytes, lowest first.
pub open spec fn le32_value(b0: u8, b1: u8, b2: u8, b3: u8) -> u32 {
    (b0 + 0x100 * b1 + 0x1_0000 * b2 + 0x100_0000 * b3) as u32
}

/// The fields of the attendance record in a payload of sufficient length.
pub open spec fn raw_attendance_of(payload: Seq<u8>) -> RawAttendance
    recommends
        payload.len() >= ATTENDANCE_RECORD_MIN,
{
    RawAttendance {
        user_id: le32_value(payload[0], payload[1], payload[2], payload[3]),
        timestamp: le32_value(payload[4], payload[5], payload[6], payload[7]),
        status: payload[8],
        punch: payload[9],
    }
}

fn read_le32(b0: u8, b1: u8, b2: u8, b3: u8) -> (x: u32)
    ensures
        x == le32_value(b0, b1, b2, b3),
{
    b0 as u32 + 0x100 * (b1 as u32) + 0x1_0000 * (b2 as u32) + 0x100_0000 * (b3 as u32)
}

impl RawAttendance {
    /// Reads an attendance record. A payload of fewer than 16 bytes is no
    /// record; bytes beyond the tenth are not looked at.
    pub fn parse(payload: &[u8]) -> (raw: Option<RawAttendance>)
        ensures
            raw is Some <==> payload@.len() >= ATTENDANCE_RECORD_MIN,
            raw is Some ==> raw->Some_0 == raw_attendance_of(payload@),
    {
        if payload.len() < ATTENDANCE_RECORD_MIN {
            return None;
        }
        Some(
            RawAttendance {
                user_id: read_le32(payload[0], payload[1], payload[2], payload[3]),
                timestamp: read_le32(payload[4], payload[5], payload[6], payload[7]),
                status: payload[8],
                punch: payload[9],
            },
        )
    }
}

/// The label of a status code: six codes have one, every other is unknown.
pub open spec fn status_label(status: u8) -> Seq<char> {
    if status == 0 {
        "Check In"@
    } else if status == 1 {
        "Check Out"@
    } else if status == 2 {
        "Break Out"@
    } else if status == 3 {
        "Break In"@
    } else if status == 4 {
        "OT In"@
    } else if status == 5 {
        "OT Out"@
    } else {
        "Unknown"@
    }
}

/// The human label of a status code.
pub fn event_label(status: u8) -> (label: &'static str)
    ensures
        label@ == status_label(status),
{
    if status == 0 {
        "Check In"
    } else if status == 1 {
        "Check Out"
    } else if status == 2 {
        "Break Out"
    } else if status == 3 {
        "Break In"
    } else if status == 4 {
        "OT In"
    } else if status == 5 {
        "OT Out"
    } else {
        "Unknown"
    }
}

/// The name given to a user id that no listed user has.
pub open spec fn unknown_user_name(user_id: u32) -> Seq<char> {
    "Unknown (ID: "@ + decimal_digits(user_id as nat) + ")"@
}

/// Writes the stand-in name for a user id that no listed user has.
pub fn unknown_user(user_id: u32) -> (name: String)
    ensures
        name@ == unknown_user_name(user_id),
{
    let mut name = String::from_str("Unknown (ID: ");
    let digits = decimal(user_id as u64);
    name.append(digits.as_str());
    name.append(")");
    name
}

/// One attendance event, ready for display or export.
#[derive(Clone, Debug, PartialEq, Eq)]
pub struct AttendanceRecord {
    pub user_id: u32,
    pub user_name: String,
    pub timestamp: String,
    pub status: u8,
    pub punch: u8,
    pub date: String,
    pub time: String,
    pub event: String,
}

/// What an attendance record says apart from the time: whose event it is
/// and of what kind.
pub struct AttendanceEntry {
    pub user_id: u32,
    pub user_name: Seq<char>,
    pub status: u8,
    pub punch: u8,
    pub event: Seq<char>,
}

/// The entry for the fields `raw` of a user called `name`: the fields as
/// they are, and the label of the status code as the event.
pub open spec fn entry_of(raw: RawAttendance, name: Seq<char>) -> AttendanceEntry {
    AttendanceEntry {
        user_id: raw.user_id,
        user_name: name,
        status: raw.status,
        punch: raw.punch,
        event: status_label(raw.status),
    }
}

impl AttendanceRecord {
    /// This record without its three time texts.
    pub open spec fn entry(self) -> AttendanceEntry {
        AttendanceEntry {
            user_id: self.user_id,
            user_name: self.user_name@,
            status: self.status,
            punch: self.punch,
            event: self.event@,
        }
    }

    /// Whether the date and the time of this record are projections of its
    /// timestamp.
    pub open spec fn times_agree(self) -> bool {
        projects(self.timestamp@, self.date@, self.time@)
    }

    /// Whether the three time texts of this record show the instant `secs`
    /// seconds after the epoch in civil time.
    pub open spec fn shows(self, secs: u32) -> bool {
        texts_show(self.timestamp@, self.date@, self.time@, secs)
    }

    /// Puts a record together from the fields read off the wire, the name
    /// found for the user and the civil time of the timestamp.
    pub fn assemble(raw: RawAttendance, user_name: String, when: CivilTime) -> (record:
        AttendanceRecord)
        ensures
            record.entry() == entry_of(raw, user_name@),
            record.timestamp@ == when.timestamp@,
            record.date@ == when.date@,
            record.time@ == when.time@,
            record.times_agree() == when.is_consistent(),
    {
        AttendanceRecord {
            user_id: raw.user_id,
            user_name,
            timestamp: when.timestamp,
            status: raw.status,
            punch: raw.punch,
            date: when.date,
            time: when.time,
            event: String::from_str(event_label(raw.status)),
        }
    }
}

/// Each of the six status codes has its own label, no two of them the same,
/// and every other byte is labelled unknown, which is none of the six.
pub proof fn lemma_status_labels(a: u8, b: u8)
    ensures
        status_label(0) == "Check In"@,
        status_label(1) == "Check Out"@,
        status_label(2) == "Break Out"@,
        status_label(3) == "Break In"@,
        status_label(4) == "OT In"@,
        status_label(5) == "OT Out"@,
        a > 5 ==> status_label(a) == "Unknown"@,
        a <= 5 && b <= 5 && status_label(a) == status_label(b) ==> a == b,
        a <= 5 && b > 5 ==> status_label(a) != status_label(b),
{
    reveal_strlit("Check In");
    reveal_strlit("Check Out");
    reveal_strlit("Break Out");
    reveal_strlit("Break In");
    reveal_strlit("OT In");
    reveal_strlit("OT Out");
    reveal_strlit("Unknown");
    assert("Check In"@.len() == 8 && "Check In"@[0] == 'C');
    assert("Check Out"@.len() == 9 && "Check Out"@[0] == 'C');
    assert("Break Out"@.len() == 9 && "Break Out"@[0] == 'B');
    assert("Break In"@.len() == 8 && "Break In"@[0] == 'B');
    assert("OT In"@.len() == 5);
    assert("OT Out"@.len() == 6);
    assert("Unknown"@.len() == 7);
}

} // verus!
