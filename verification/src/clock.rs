//! Calendar time, as far as attendance records need it: an instant given in
//! epoch seconds, written out on the civil calendar of the machine's time
//! zone. The conversions are the work of the `chrono` crate and depend on the
//! zone the machine is set to. The zone decides one number, the offset from
//! UTC at the instant; the texts are those of the instant at that offset,
//! whichever it is. They belong together: the date and the time of day are
//! the ones that the timestamp spells out.

use vstd::prelude::*;
use chrono::TimeZone;

verus! {

/// One instant in local civil time, in the three forms a record carries.
#[derive(Clone, Debug, PartialEq, Eq)]
pub struct CivilTime {
    /// Date, time and offset from UTC in RFC 3339 form.
    pub timestamp: String,
    /// The calendar date, `YYYY-MM-DD`.
    pub date: String,
    /// The time of day, `HH:MM:SS`.
    pub time: String,
}

/// Whether `date` and `time` are projections of `timestamp`: the timestamp
/// begins with the date, a `T` and the time of day, in this order and with
/// nothing in between.
pub open spec fn projects(timestamp: Seq<char>, date: Seq<char>, time: Seq<char>) -> bool {
    &&& timestamp.len() >= date.len() + 1 + time.len()
    &&& timestamp.take((date.len() + 1 + time.len()) as int) == date + seq!['T'] + time
}

impl CivilTime {
    /// Whether the date and the time of day are projections of the
    /// timestamp.
    pub open spec fn is_consistent(self) -> bool {
        projects(self.timestamp@, self.date@, self.time@)
    }
}

/// The pattern that dates are written with.
pub open spec fn date_pattern() -> Seq<char> {
    "%Y-%m-%d"@
}

/// The pattern that times of day are written with.
pub open spec fn time_pattern() -> Seq<char> {
    "%H:%M:%S"@
}

/// Whether `offset` can be the difference of a civil time from UTC, in
/// seconds: less than a day either way.
pub open spec fn is_utc_offset(offset: i32) -> bool {
    -86_400 < offset < 86_400
}

/// The RFC 3339 text of the instant `secs` seconds after the epoch on the
/// civil calendar that is `offset` seconds ahead of UTC: what
/// `DateTime::to_rfc3339` of `chrono` writes for it.
pub uninterp spec fn rfc3339_text(secs: i64, offset: i32) -> Seq<char>;

/// The text that `DateTime::format` of `chrono` writes with `pattern` for the
/// instant `secs` seconds after the epoch on the civil calendar that is
/// `offset` seconds ahead of UTC.
pub uninterp spec fn formatted_text(secs: i64, offset: i32, pattern: Seq<char>) -> Seq<char>;

/// Whether the three texts are those of the instant `secs` on the civil
/// calendar that is `offset` seconds ahead of UTC.
pub open spec fn texts_at(
    timestamp: Seq<char>,
    date: Seq<char>,
    time: Seq<char>,
    secs: i64,
    offset: i32,
) -> bool {
    &&& timestamp == rfc3339_text(secs, offset)
    &&& date == formatted_text(secs, offset, date_pattern())
    &&& time == formatted_text(secs, offset, time_pattern())
}

/// Whether the three texts show the instant `secs` seconds after the epoch
/// in civil time: on the calendar of some offset from UTC, which is the one
/// that the machine's time zone has at that instant.
pub open spec fn texts_show(timestamp: Seq<char>, date: Seq<char>, time: Seq<char>, secs: u32)
    -> bool {
    exists|offset: i32|
        is_utc_offset(offset) && #[trigger] texts_at(timestamp, date, time, secs as i64, offset)
}

impl CivilTime {
    /// Whether this is the instant `secs` seconds after the epoch in civil
    /// time.
    pub open spec fn shows(self, secs: u32) -> bool {
        texts_show(self.timestamp@, self.date@, self.time@, secs)
    }
}

/// The difference of local civil time from UTC at the instant `secs` seconds
/// after the epoch, in seconds.
///
/// Calls `Utc.timestamp_opt(secs, 0)` of `chrono`; where that yields a single
/// instant, moves it to `chrono::Local` with `with_timezone` and reads the
/// offset that the machine's time zone has there with `offset` and
/// `local_minus_utc`. Which offset that is depends on the machine and is not
/// claimed. What is claimed: an offset is less than a day either way, as
/// every `FixedOffset` is; and an instant that fits in 32 bits has one,
/// since `chrono` represents every instant of the years 1970 to 2106.
#[verifier::external_body]
fn local_offset_at(secs: i64) -> (offset: Option<i32>)
    ensures
        offset matches Some(o) ==> is_utc_offset(o),
        0 <= secs <= u32::MAX ==> offset is Some,
{
    match chrono::Utc.timestamp_opt(secs, 0) {
        chrono::LocalResult::Single(utc) => Some(
            utc.with_timezone(&chrono::Local).offset().local_minus_utc(),
        ),
        chrono::LocalResult::Ambiguous(_, _) => None,
        chrono::LocalResult::None => None,
    }
}

/// Writes the instant `secs` seconds after the epoch on the civil calendar
/// that is `offset` seconds ahead of UTC.
///
/// Calls `FixedOffset::east_opt(offset)` of `chrono`, then `timestamp_opt(secs,
/// 0)` on that offset, and writes the instant out with `to_rfc3339` and
/// twice with `format`. The patterns are restricted to the two this library
/// uses, which `format` accepts. The texts depend on the two numbers alone
/// and are named after them. Beyond the names three things are claimed. The
/// three texts belong together: `to_rfc3339` writes year, month and day with
/// `-` between them, a `T`, and hour, minute and second with `:` between
/// them, each number as the two patterns write it, before it goes on to the
/// offset. There is a result wherever `offset` is less than a day either way
/// and `secs` fits in 32 bits: `east_opt` takes such an offset, and `chrono`
/// represents every instant of the years 1969 to 2106.
#[verifier::external_body]
fn civil_time_in(secs: i64, offset: i32, date_format: &str, time_format: &str) -> (t: Option<
    CivilTime,
>)
    requires
        date_format@ == date_pattern(),
        time_format@ == time_pattern(),
    ensures
        t matches Some(c) ==> c.timestamp@ == rfc3339_text(secs, offset),
        t matches Some(c) ==> c.date@ == formatted_text(secs, offset, date_format@),
        t matches Some(c) ==> c.time@ == formatted_text(secs, offset, time_format@),
        t matches Some(c) ==> c.is_consistent(),
        0 <= secs <= u32::MAX && is_utc_offset(offset) ==> t is Some,
{
    match chrono::FixedOffset::east_opt(offset) {
        Some(zone) => match zone.timestamp_opt(secs, 0) {
            chrono::LocalResult::Single(local) => Some(
                CivilTime {
                    timestamp: local.to_rfc3339(),
                    date: local.format(date_format).to_string(),
                    time: local.format(time_format).to_string(),
                },
            ),
            chrono::LocalResult::Ambiguous(_, _) => None,
            chrono::LocalResult::None => None,
        },
        None => None,
    }
}

/// The current instant in local civil time.
///
/// Calls `Local::now` of `chrono` and writes the instant out with
/// `to_rfc3339` and twice with `format`, under the same restriction on the
/// patterns. Which instant that is depends on the machine's clock and is not
/// claimed. What is claimed is that the three texts belong together: the
/// timestamp begins with the date, a `T` and the time of day.
#[verifier::external_body]
fn civil_time_now(date_format: &str, time_format: &str) -> (t: CivilTime)
    requires
        date_format@ == date_pattern(),
        time_format@ == time_pattern(),
    ensures
        t.is_consistent(),
{
    let local = chrono::Local::now();
    CivilTime {
        timestamp: local.to_rfc3339(),
        date: local.format(date_format).to_string(),
        time: local.format(time_format).to_string(),
    }
}

impl CivilTime {
    /// Takes the outcome of a conversion. An instant that could be
    /// represented stands as it was converted; one that could not is replaced
    /// by the current time, so that one bad record does not cost the whole
    /// batch.
    pub fn or_now(converted: Option<CivilTime>) -> (t: CivilTime)
        ensures
            converted is Some ==> t == converted->Some_0,
            converted is None ==> t.is_consistent(),
    {
        match converted {
            Some(t) => t,
            None => civil_time_now("%Y-%m-%d", "%H:%M:%S"),
        }
    }

    /// Converts a device timestamp, seconds after the epoch in UTC, to the
    /// civil time of the machine's time zone. There is a result for every
    /// instant that `chrono` represents, which every 32-bit timestamp is.
    pub fn convert(epoch_secs: u32) -> (converted: Option<CivilTime>)
        ensures
            converted matches Some(t) && t.shows(epoch_secs) && t.is_consistent(),
    {
        match local_offset_at(epoch_secs as i64) {
            Some(offset) => {
                let converted = civil_time_in(epoch_secs as i64, offset, "%Y-%m-%d", "%H:%M:%S");
                proof {
                    let t = converted->Some_0;
                    assert(texts_at(t.timestamp@, t.date@, t.time@, epoch_secs as i64, offset));
                }
                converted
            },
            None => None,
        }
    }
}

/// The local civil time of a device timestamp: its instant on the calendar
/// of the offset that the machine's time zone has there, with date and time
/// of day as projections of the timestamp text. A timestamp that could not
/// be converted would be replaced by the current time; none is, since every
/// 32-bit timestamp can.
pub(crate) fn local_civil_time(epoch_secs: u32) -> (t: CivilTime)
    ensures
        t.is_consistent(),
        t.shows(epoch_secs),
{
    CivilTime::or_now(CivilTime::convert(epoch_secs))
}

} // verus!
