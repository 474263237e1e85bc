//! The two listings a device streams on request: its enrolled users and its
//! attendance log.
//!
//! A listing is asked for with one request frame. The device answers with a
//! run of frames: data frames with one record each, possibly other frames in
//! between, and at last an acknowledgement or an error. The readers here take
//! the answers one by one and say after each whether to go on reading.

use vstd::prelude::*;
use vstd::string::*;
use std::collections::HashMap;
use crate::clock::local_civil_time;
use crate::command::{
    Command, CMD_ACK_DATA, CMD_ACK_ERROR, CMD_ACK_OK, CMD_ATTLOG_RRQ, CMD_GET_USER,
};
use crate::codec::frame_of;
use crate::error::ProtocolError;
use crate::records::{
    entry_of, raw_attendance_of, unknown_user, unknown_user_name, user_of, user_views,
    AttendanceEntry, AttendanceRecord, RawAttendance, User, UserView, ATTENDANCE_RECORD_MIN,
    USER_RECORD_MIN,
};
use crate::session::ProtocolSession;

verus! {

broadcast use vstd::std_specs::hash::group_hash_axioms;

/// What the reader of a stream does after a frame.
#[derive(Clone, Copy, Debug, PartialEq, Eq, Structural)]
pub enum Flow {
    /// Read the next frame.
    Continue,
    /// The device has acknowledged the request: the listing is complete.
    Finished,
}

/// Whether a frame with this command ends a stream.
pub open spec fn is_terminal(command: u16) -> bool {
    command == CMD_ACK_OK || command == CMD_ACK_ERROR
}

/// What a frame with this command means for the reader: an acknowledgement
/// ends the stream, an error acknowledgement fails the request, and after
/// anything else the reader goes on.
pub open spec fn flow_after(command: u16) -> Result<Flow, ProtocolError> {
    if command == CMD_ACK_OK {
        Ok(Flow::Finished)
    } else if command == CMD_ACK_ERROR {
        Err(ProtocolError::DeviceError)
    } else {
        Ok(Flow::Continue)
    }
}

/// Whether a frame carries a user record: a data frame with a payload long
/// enough for one.
pub open spec fn holds_user(command: u16, payload: Seq<u8>) -> bool {
    command == CMD_ACK_DATA && payload.len() >= USER_RECORD_MIN
}

/// Whether a frame carries an attendance record: a data frame with a
/// payload long enough for one.
pub open spec fn holds_attendance(command: u16, payload: Seq<u8>) -> bool {
    command == CMD_ACK_DATA && payload.len() >= ATTENDANCE_RECORD_MIN
}

/// The rank of the user that comes after `listed` others: one more than
/// their number. A rank has 32 bits and wraps where the number outgrows
/// them.
pub open spec fn next_rank(listed: nat) -> u32 {
    ((listed + 1) % 0x1_0000_0000) as u32
}

/// The users listed so far after one more frame: a user record is appended
/// under the next rank, any other frame changes nothing.
pub open spec fn users_after(users: Seq<UserView>, command: u16, payload: Seq<u8>) -> Seq<
    UserView,
> {
    if holds_user(command, payload) {
        users.push(user_of(payload, next_rank(users.len())))
    } else {
        users
    }
}

/// A run of frames as plain values: the command and the payload of each.
pub open spec fn reply_views(replies: Seq<(u16, Vec<u8>)>) -> Seq<(u16, Seq<u8>)> {
    replies.map_values(|r: (u16, Vec<u8>)| (r.0, r.1@))
}

/// The users that a run of frames lists, in order of arrival.
pub open spec fn users_in(replies: Seq<(u16, Seq<u8>)>) -> Seq<UserView>
    decreases replies.len(),
{
    if replies.len() == 0 {
        Seq::empty()
    } else {
        users_after(users_in(replies.drop_last()), replies.last().0, replies.last().1)
    }
}

/// The position of the first frame that ends the stream, or the number of
/// frames where none does.
pub open spec fn first_terminal(replies: Seq<(u16, Seq<u8>)>) -> int
    decreases replies.len(),
{
    if replies.len() == 0 {
        0
    } else if is_terminal(replies[0].0) {
        0
    } else {
        1 + first_terminal(replies.drop_first())
    }
}

/// The reader's verdict on a frame's command.
pub fn classify(command: u16) -> (r: Result<Flow, ProtocolError>)
    ensures
        r == flow_after(command),
{
    match Command::from_code(command) {
        Command::AckOk => Ok(Flow::Finished),
        Command::AckError => Err(ProtocolError::DeviceError),
        _ => Ok(Flow::Continue),
    }
}

/// The users of a listing in progress.
#[derive(Debug)]
pub struct UserListing {
    users: Vec<User>,
}

impl View for UserListing {
    type V = Seq<UserView>;

    closed spec fn view(&self) -> Seq<UserView> {
        user_views(self.users@)
    }
}

impl UserListing {
    /// A listing that has seen no frame yet.
    pub fn new() -> (listing: UserListing)
        ensures
            listing@ == Seq::<UserView>::empty(),
    {
        let listing = UserListing { users: Vec::new() };
        listing
    }

    /// The frame that asks a device for its users.
    pub fn request(session: &ProtocolSession) -> (frame: Vec<u8>)
        ensures
            frame@ == frame_of(
                session@.session_id,
                CMD_GET_USER,
                session@.reply_id,
                Seq::empty(),
            ),
    {
        let empty: Vec<u8> = Vec::new();
        session.build_command(CMD_GET_USER, empty.as_slice())
    }

    /// Takes the next frame of the answer.
    ///
    /// A data frame of at least 72 payload bytes adds a user under the next
    /// rank. The verdict depends on the command alone.
    pub fn accept(&mut self, command: u16, payload: &[u8]) -> (r: Result<Flow, ProtocolError>)
        ensures
            r == flow_after(command),
            final(self)@ == users_after(old(self)@, command, payload@),
    {
        match Command::from_code(command) {
            Command::AckData => {
                let listed: u64 = self.users.len() as u64;
                let low: u32 = (listed % 0x1_0000_0000) as u32;
                let rank: u32 = low.wrapping_add(1);
                match User::parse(payload, rank) {
                    Some(user) => {
                        self.users.push(user);
                    },
                    None => {},
                }
            },
            _ => {},
        }
        classify(command)
    }

    /// Number of users listed so far.
    pub fn len(&self) -> (n: usize)
        ensures
            n == self@.len(),
    {
        self.users.len()
    }

    /// The users listed so far, in order of arrival.
    pub fn as_slice(&self) -> (users: &[User])
        ensures
            user_views(users@) == self@,
    {
        self.users.as_slice()
    }

    /// Hands the users out, in order of arrival.
    pub fn into_users(self) -> (users: Vec<User>)
        ensures
            user_views(users@) == self@,
    {
        self.users
    }
}

/// Reads a recorded answer to a user listing request.
///
/// The frames are taken in order up to the first acknowledgement. An
/// acknowledgement yields the users of the data frames before it, ranked
/// from one in order of arrival; an error acknowledgement fails with
/// `DeviceError` and yields nothing; a run that ends without either fails
/// with `IoError`, as the read for the next frame would.
pub fn list_users(replies: &[(u16, Vec<u8>)]) -> (r: Result<Vec<User>, ProtocolError>)
    ensures
        ({
            let k = first_terminal(reply_views(replies@));
            &&& k == replies@.len() ==> r == Err::<Vec<User>, ProtocolError>(
                ProtocolError::IoError,
            )
            &&& k < replies@.len() && replies@[k].0 == CMD_ACK_ERROR ==> r == Err::<
                Vec<User>,
                ProtocolError,
            >(ProtocolError::DeviceError)
            &&& k < replies@.len() && replies@[k].0 == CMD_ACK_OK ==> r is Ok && user_views(
                r->Ok_0@,
            ) == users_in(reply_views(replies@).take(k))
        }),
{
    let mut listing = UserListing::new();
    let mut i: usize = 0;
    let ghost all = reply_views(replies@);
    proof {
        lemma_first_terminal(all);
    }
    while i < replies.len()
        invariant
            i <= replies@.len(),
            all == reply_views(replies@),
            first_terminal(all) >= i,
            listing@ == users_in(all.take(i as int)),
            listing@.len() <= i,
        decreases replies@.len() - i,
    {
        proof {
            lemma_first_terminal(all);
            assert(all.take(i + 1).drop_last() =~= all.take(i as int));
            assert(all[i as int].0 == replies@[i as int].0);
        }
        match listing.accept(replies[i].0, replies[i].1.as_slice()) {
            Ok(Flow::Finished) => {
                return Ok(listing.into_users());
            },
            Ok(Flow::Continue) => {},
            Err(e) => {
                return Err(e);
            },
        }
        i += 1;
    }
    Err(ProtocolError::IoError)
}

/// The name under each user id: of several users with one id, the one
/// listed last gives the name.
pub open spec fn names_of(users: Seq<UserView>) -> Map<u32, Seq<char>>
    decreases users.len(),
{
    if users.len() == 0 {
        Map::empty()
    } else {
        names_of(users.drop_last()).insert(users.last().uid, users.last().name)
    }
}

/// The name shown for `user_id`: the one on record, or a stand-in that
/// quotes the id.
pub open spec fn name_for(names: Map<u32, Seq<char>>, user_id: u32) -> Seq<char> {
    if names.contains_key(user_id) {
        names[user_id]
    } else {
        unknown_user_name(user_id)
    }
}

/// What a sequence of records says apart from the times, in the same order.
pub open spec fn entries(records: Seq<AttendanceRecord>) -> Seq<AttendanceEntry> {
    records.map_values(|r: AttendanceRecord| r.entry())
}

/// The entries read so far after one more frame: an attendance record is
/// appended with the name that `names` gives its user, any other frame
/// changes nothing.
pub open spec fn entries_after(
    entries: Seq<AttendanceEntry>,
    names: Map<u32, Seq<char>>,
    command: u16,
    payload: Seq<u8>,
) -> Seq<AttendanceEntry> {
    if holds_attendance(command, payload) {
        entries.push(
            entry_of(
                raw_attendance_of(payload),
                name_for(names, raw_attendance_of(payload).user_id),
            ),
        )
    } else {
        entries
    }
}

/// The entries that a run of frames holds, in order of arrival.
pub open spec fn entries_in(replies: Seq<(u16, Seq<u8>)>, names: Map<u32, Seq<char>>) -> Seq<
    AttendanceEntry,
>
    decreases replies.len(),
{
    if replies.len() == 0 {
        Seq::empty()
    } else {
        entries_after(
            entries_in(replies.drop_last(), names),
            names,
            replies.last().0,
            replies.last().1,
        )
    }
}

/// User names by user id, built once for a whole attendance log.
#[derive(Debug)]
pub struct UserDirectory {
    names: HashMap<u32, String>,
}

impl View for UserDirectory {
    type V = Map<u32, Seq<char>>;

    closed spec fn view(&self) -> Map<u32, Seq<char>> {
        self.names@.map_values(|name: String| name@)
    }
}

impl UserDirectory {
    /// Indexes `users` by their ids.
    pub fn from_users(users: &[User]) -> (directory: UserDirectory)
        ensures
            directory@ == names_of(user_views(users@)),
    {
        let mut names: HashMap<u32, String> = HashMap::new();
        let mut i: usize = 0;
        while i < users.len()
            invariant
                i <= users@.len(),
                names@.map_values(|name: String| name@) == names_of(
                    user_views(users@.take(i as int)),
                ),
            decreases users@.len() - i,
        {
            let name = users[i].name.clone();
            names.insert(users[i].uid, name);
            i += 1;
            proof {
                let seen = user_views(users@.take(i as int));
                assert(seen.drop_last() =~= user_views(users@.take(i - 1)));
            }
        }
        proof {
            assert(users@.take(i as int) =~= users@);
        }
        UserDirectory { names }
    }

    /// The name shown for `user_id`.
    pub fn resolve(&self, user_id: u32) -> (name: String)
        ensures
            name@ == name_for(self@, user_id),
    {
        match self.names.get(&user_id) {
            Some(name) => name.clone(),
            None => unknown_user(user_id),
        }
    }
}

/// The timestamps read so far after one more frame, in seconds after the
/// epoch: that of an attendance record is appended, any other frame changes
/// nothing.
pub open spec fn stamps_after(stamps: Seq<u32>, command: u16, payload: Seq<u8>) -> Seq<u32> {
    if holds_attendance(command, payload) {
        stamps.push(raw_attendance_of(payload).timestamp)
    } else {
        stamps
    }
}

/// The timestamps that a run of frames holds, in order of arrival.
pub open spec fn stamps_in(replies: Seq<(u16, Seq<u8>)>) -> Seq<u32>
    decreases replies.len(),
{
    if replies.len() == 0 {
        Seq::empty()
    } else {
        stamps_after(stamps_in(replies.drop_last()), replies.last().0, replies.last().1)
    }
}

/// Whether `records` tell the time of `stamps`, one for one and in order:
/// the three time texts of each record show the instant of its timestamp in
/// civil time, and its date and time are projections of its timestamp text.
pub open spec fn well_timed(records: Seq<AttendanceRecord>, stamps: Seq<u32>) -> bool {
    &&& records.len() == stamps.len()
    &&& forall|i: int|
        0 <= i < records.len() ==> (#[trigger] records[i]).shows(stamps[i])
            && records[i].times_agree()
}

/// The records of an attendance log in progress.
#[derive(Debug)]
pub struct AttendanceListing {
    directory: UserDirectory,
    records: Vec<AttendanceRecord>,
    stamps: Vec<u32>,
}

impl View for AttendanceListing {
    type V = Seq<AttendanceEntry>;

    closed spec fn view(&self) -> Seq<AttendanceEntry> {
        entries(self.records@)
    }
}

impl AttendanceListing {
    /// The names that records are resolved against.
    pub closed spec fn names(&self) -> Map<u32, Seq<char>> {
        self.directory@
    }

    /// The timestamps of the records read so far, in seconds after the
    /// epoch and in order of arrival.
    pub closed spec fn stamps(&self) -> Seq<u32> {
        self.stamps@
    }

    /// Whether the records read so far tell the time of their timestamps.
    pub closed spec fn well_timed(&self) -> bool {
        well_timed(self.records@, self.stamps@)
    }

    /// A log that has seen no frame yet, with `users` to take names from.
    pub fn new(users: &[User]) -> (listing: AttendanceListing)
        ensures
            listing.names() == names_of(user_views(users@)),
            listing@ == Seq::<AttendanceEntry>::empty(),
            listing.stamps() == Seq::<u32>::empty(),
            listing.well_timed(),
    {
        let listing = AttendanceListing {
            directory: UserDirectory::from_users(users),
            records: Vec::new(),
            stamps: Vec::new(),
        };
        listing
    }

    /// The frame that asks a device for its attendance log.
    pub fn request(session: &ProtocolSession) -> (frame: Vec<u8>)
        ensures
            frame@ == frame_of(
                session@.session_id,
                CMD_ATTLOG_RRQ,
                session@.reply_id,
                Seq::empty(),
            ),
    {
        let empty: Vec<u8> = Vec::new();
        session.build_command(CMD_ATTLOG_RRQ, empty.as_slice())
    }

    /// Takes the next frame of the answer.
    ///
    /// A data frame of at least 16 payload bytes adds one record: the fields
    /// as read, the user's name from the directory, the label of the status
    /// code, and the timestamp's instant on the local civil calendar, with
    /// date and time as projections of the timestamp text. The verdict
    /// depends on the command alone.
    pub fn accept(&mut self, command: u16, payload: &[u8]) -> (r: Result<Flow, ProtocolError>)
        ensures
            r == flow_after(command),
            final(self).names() == old(self).names(),
            final(self)@ == entries_after(old(self)@, old(self).names(), command, payload@),
            final(self).stamps() == stamps_after(old(self).stamps(), command, payload@),
            final(self).well_timed() == old(self).well_timed(),
    {
        match Command::from_code(command) {
            Command::AckData => {
                match RawAttendance::parse(payload) {
                    Some(raw) => {
                        let when = local_civil_time(raw.timestamp);
                        let user_name = self.directory.resolve(raw.user_id);
                        let record = AttendanceRecord::assemble(raw, user_name, when);
                        let ghost before = self.records@;
                        let ghost stamps_before = self.stamps@;
                        self.records.push(record);
                        self.stamps.push(raw.timestamp);
                        proof {
                            if well_timed(self.records@, self.stamps@) {
                                assert forall|i: int| 0 <= i < before.len() implies (
                                #[trigger] before[i]).shows(stamps_before[i])
                                    && before[i].times_agree() by {
                                    assert(self.records@[i].shows(self.stamps@[i]));
                                }
                            }
                            if well_timed(before, stamps_before) {
                                assert forall|i: int| 0 <= i < self.records@.len() implies (
                                #[trigger] self.records@[i]).shows(self.stamps@[i])
                                    && self.records@[i].times_agree() by {
                                    if i < before.len() {
                                        assert(before[i].shows(stamps_before[i]));
                                    }
                                }
                            }
                        }
                    },
                    None => {},
                }
            },
            _ => {},
        }
        classify(command)
    }

    /// Number of records read so far.
    pub fn len(&self) -> (n: usize)
        ensures
            n == self@.len(),
    {
        self.records.len()
    }

    /// Hands the records out, in order of arrival.
    pub fn into_records(self) -> (records: Vec<AttendanceRecord>)
        ensures
            entries(records@) == self@,
            well_timed(records@, self.stamps()) == self.well_timed(),
    {
        self.records
    }
}

/// Reads a recorded answer to an attendance log request.
///
/// The frames are taken in order up to the first acknowledgement. An
/// acknowledgement yields one record for each data frame before it, in
/// order of arrival, with names taken from `users`; an error
/// acknowledgement fails with `DeviceError` and yields nothing; a run that
/// ends without either fails with `IoError`, as the read for the next frame
/// would. The time texts of a record are those of its timestamp's instant
/// on the civil calendar of the offset that the machine's time zone has
/// there, and its date and time are projections of its timestamp text.
pub fn get_attendance(replies: &[(u16, Vec<u8>)], users: &[User]) -> (r: Result<
    Vec<AttendanceRecord>,
    ProtocolError,
>)
    ensures
        ({
            let k = first_terminal(reply_views(replies@));
            &&& k == replies@.len() ==> r == Err::<Vec<AttendanceRecord>, ProtocolError>(
                ProtocolError::IoError,
            )
            &&& k < replies@.len() && replies@[k].0 == CMD_ACK_ERROR ==> r == Err::<
                Vec<AttendanceRecord>,
                ProtocolError,
            >(ProtocolError::DeviceError)
            &&& k < replies@.len() && replies@[k].0 == CMD_ACK_OK ==> r is Ok && entries(
                r->Ok_0@,
            ) == entries_in(reply_views(replies@).take(k), names_of(user_views(users@)))
        }),
        r is Ok ==> well_timed(
            r->Ok_0@,
            stamps_in(reply_views(replies@).take(first_terminal(reply_views(replies@)))),
        ),
{
    let mut listing = AttendanceListing::new(users);
    let mut i: usize = 0;
    let ghost all = reply_views(replies@);
    proof {
        lemma_first_terminal(all);
    }
    while i < replies.len()
        invariant
            i <= replies@.len(),
            all == reply_views(replies@),
            first_terminal(all) >= i,
            listing.names() == names_of(user_views(users@)),
            listing@ == entries_in(all.take(i as int), listing.names()),
            listing.stamps() == stamps_in(all.take(i as int)),
            listing.well_timed(),
        decreases replies@.len() - i,
    {
        proof {
            lemma_first_terminal(all);
            assert(all.take(i + 1).drop_last() =~= all.take(i as int));
            assert(all[i as int].0 == replies@[i as int].0);
        }
        match listing.accept(replies[i].0, replies[i].1.as_slice()) {
            Ok(Flow::Finished) => {
                return Ok(listing.into_records());
            },
            Ok(Flow::Continue) => {},
            Err(e) => {
                return Err(e);
            },
        }
        i += 1;
    }
    Err(ProtocolError::IoError)
}

/// What `first_terminal` finds: no frame before it ends the stream, and the
/// frame at it does, unless there is none.
pub proof fn lemma_first_terminal(replies: Seq<(u16, Seq<u8>)>)
    ensures
        0 <= first_terminal(replies) <= replies.len(),
        forall|j: int| 0 <= j < first_terminal(replies) ==> !is_terminal(#[trigger] replies[j].0),
        first_terminal(replies) < replies.len() ==> is_terminal(
            replies[first_terminal(replies)].0,
        ),
    decreases replies.len(),
{
    if replies.len() > 0 && !is_terminal(replies[0].0) {
        let rest = replies.drop_first();
        lemma_first_terminal(rest);
        assert forall|j: int| 0 <= j < first_terminal(replies) implies !is_terminal(
            #[trigger] replies[j].0,
        ) by {
            if j > 0 {
                assert(rest[j - 1] == replies[j]);
            }
        }
    }
}

/// The users of a listing are ranked from one in order of arrival, as far
/// as 32 bits go, and there is at most one for each frame.
pub proof fn lemma_users_ranked(replies: Seq<(u16, Seq<u8>)>)
    ensures
        users_in(replies).len() <= replies.len(),
        forall|i: int|
            0 <= i < users_in(replies).len() ==> (#[trigger] users_in(replies)[i]).uid
                == next_rank(i as nat),
        forall|i: int|
            0 <= i < users_in(replies).len() && i < u32::MAX ==> (
            #[trigger] users_in(replies)[i]).uid == i + 1,
    decreases replies.len(),
{
    if replies.len() > 0 {
        lemma_users_ranked(replies.drop_last());
    }
}

/// The position of the last user with the id `user_id`, or -1 where no
/// user has it.
pub open spec fn last_with_id(users: Seq<UserView>, user_id: u32) -> int
    decreases users.len(),
{
    if users.len() == 0 {
        -1
    } else if users.last().uid == user_id {
        users.len() - 1
    } else {
        last_with_id(users.drop_last(), user_id)
    }
}

/// What `last_with_id` finds: a user with the id whom no user with the id
/// follows, or that no user has the id.
pub proof fn lemma_last_with_id(users: Seq<UserView>, user_id: u32)
    ensures
        -1 <= last_with_id(users, user_id) < users.len(),
        last_with_id(users, user_id) >= 0 ==> users[last_with_id(users, user_id)].uid == user_id,
        forall|j: int|
            last_with_id(users, user_id) < j < users.len() ==> (#[trigger] users[j]).uid
                != user_id,
    decreases users.len(),
{
    if users.len() > 0 && users.last().uid != user_id {
        let before = users.drop_last();
        lemma_last_with_id(before, user_id);
        assert forall|j: int| last_with_id(users, user_id) < j < users.len() implies (
        #[trigger] users[j]).uid != user_id by {
            if j < before.len() {
                assert(before[j] == users[j]);
            }
        }
    }
}

/// The directory knows exactly the ids that some user has, and names each
/// after the last user with that id.
pub proof fn lemma_names_of(users: Seq<UserView>, user_id: u32)
    ensures
        names_of(users).contains_key(user_id) <==> last_with_id(users, user_id) >= 0,
        last_with_id(users, user_id) >= 0 ==> name_for(names_of(users), user_id)
            == users[last_with_id(users, user_id)].name,
        last_with_id(users, user_id) < 0 ==> name_for(names_of(users), user_id)
            == unknown_user_name(user_id),
    decreases users.len(),
{
    if users.len() > 0 {
        lemma_names_of(users.drop_last(), user_id);
        lemma_last_with_id(users.drop_last(), user_id);
    }
}

/// Where no frame of a run ends the stream before position `n`, none ends
/// the first `n` frames taken alone.
pub proof fn lemma_first_terminal_of_prefix(replies: Seq<(u16, Seq<u8>)>, n: int)
    requires
        0 <= n <= first_terminal(replies),
    ensures
        first_terminal(replies.take(n)) == n,
    decreases replies.len(),
{
    lemma_first_terminal(replies);
    if n > 0 {
        let rest = replies.drop_first();
        lemma_first_terminal_of_prefix(rest, n - 1);
        assert(replies.take(n).drop_first() =~= rest.take(n - 1));
    }
}

} // verus!
