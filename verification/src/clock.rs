//! The week clock: instants in UTC, the weeks they fall into, and the texts
//! under which the store keeps them.

use vstd::prelude::*;
use crate::error::AppError;

verus! {

/// Seconds of one week.
pub const SECONDS_PER_WEEK: i64 = 604800;

/// Seconds from Monday 00:00 UTC to the Thursday 00:00 UTC that follows.
/// The epoch, 1 January 1970, is such a Thursday.
pub const EPOCH_WEEK_OFFSET: i64 = 259200;

/// The last second of the year 9999, in seconds since the epoch.
pub const MAX_UNIX_SECONDS: i64 = 253402300799;

/// A point in time: whole seconds since the epoch, and the nanoseconds past them.
#[derive(Clone, Copy, Debug, PartialEq, Eq, Structural)]
pub struct Instant {
    pub secs: i64,
    pub nanos: u32,
}

/// The instants that the library dates: the years 1970 to 9999.
pub open spec fn in_calendar(secs: int) -> bool {
    0 <= secs <= MAX_UNIX_SECONDS
}

/// The number of the week, Monday 00:00 UTC to Monday 00:00 UTC, that holds
/// an instant. Week 0 holds the epoch.
pub open spec fn week_index(secs: int) -> int {
    (secs + EPOCH_WEEK_OFFSET) / (SECONDS_PER_WEEK as int)
}

/// The first second of a week: its Monday, 00:00 UTC.
pub open spec fn week_start(week: int) -> int {
    week * SECONDS_PER_WEEK - EPOCH_WEEK_OFFSET
}

/// The Monday 00:00 UTC that comes strictly after an instant.
pub open spec fn next_week_start(secs: int) -> int {
    week_start(week_index(secs) + 1)
}

/// What chrono writes for `%G-W%V`, the ISO 8601 week-numbering year and
/// week, at this many seconds since the epoch; `None` where chrono has no
/// date for them.
pub uninterp spec fn iso_week_label(secs: int) -> Option<Seq<char>>;

/// What chrono writes for `%Y-%m-%dT%H:%M:%SZ` at this many seconds since the
/// epoch; `None` where chrono has no date for them.
pub uninterp spec fn utc_text(secs: int) -> Option<Seq<char>>;

/// The seconds since the epoch that chrono reads out of a text of the form
/// `%Y-%m-%dT%H:%M:%SZ`; `None` where it refuses the text.
pub uninterp spec fn parsed_utc_text(text: Seq<char>) -> Option<int>;

/// The characters of an optional string.
pub open spec fn text_of(s: Option<String>) -> Option<Seq<char>> {
    match s {
        Some(t) => Some(t@),
        None => None,
    }
}

/// The integer of an optional number of seconds.
pub open spec fn seconds_of(s: Option<i64>) -> Option<int> {
    match s {
        Some(t) => Some(t as int),
        None => None,
    }
}

/// Reads the system clock through `chrono::Utc::now`. Nothing is promised of
/// the time. Where the system clock stands before 1970, chrono panics.
#[verifier::external_body]
pub(crate) fn now() -> Instant {
    let t = chrono::Utc::now();
    Instant { secs: t.timestamp(), nanos: t.timestamp_subsec_nanos() }
}

/// Formats an instant with chrono's `%G-W%V`, through
/// `chrono::DateTime::from_timestamp` and `DateTime::format`. The text is
/// named, not described. chrono has a date for every day from 262144 BCE to
/// 262142 CE, so it has one from the last days of 1969 to the end of 9999.
#[verifier::external_body]
fn iso_week_label_at(secs: i64) -> (label: Option<String>)
    ensures
        text_of(label) == iso_week_label(secs as int),
        -EPOCH_WEEK_OFFSET <= secs <= MAX_UNIX_SECONDS ==> label is Some,
{
    match chrono::DateTime::from_timestamp(secs, 0) {
        Some(t) => Some(t.format("%G-W%V").to_string()),
        None => None,
    }
}

/// Formats an instant with chrono's `%Y-%m-%dT%H:%M:%SZ`, through
/// `chrono::DateTime::from_timestamp` and `DateTime::format`. The text is
/// named, not described; chrono has a date for every second of the years
/// 1970 to 9999.
#[verifier::external_body]
pub(crate) fn utc_text_at(secs: i64) -> (text: Option<String>)
    ensures
        text_of(text) == utc_text(secs as int),
        in_calendar(secs as int) ==> text is Some,
{
    match chrono::DateTime::from_timestamp(secs, 0) {
        Some(t) => Some(t.format("%Y-%m-%dT%H:%M:%SZ").to_string()),
        None => None,
    }
}

/// Reads a text of the form `%Y-%m-%dT%H:%M:%SZ` with
/// `chrono::NaiveDateTime::parse_from_str` and takes it as UTC. The seconds
/// are named, not described.
#[verifier::external_body]
pub(crate) fn parse_utc_text(text: &str) -> (secs: Option<i64>)
    ensures
        seconds_of(secs) == parsed_utc_text(text@),
{
    match chrono::NaiveDateTime::parse_from_str(text, "%Y-%m-%dT%H:%M:%SZ") {
        Ok(t) => Some(t.and_utc().timestamp()),
        Err(_) => None,
    }
}

/// The week key of an instant: the ISO 8601 label of its week, taken at the
/// week's Monday.
pub open spec fn week_key_of(secs: int) -> Option<Seq<char>> {
    iso_week_label(week_start(week_index(secs)))
}

/// The number of the week that holds an instant of the calendar.
fn week_index_in(secs: i64) -> (week: i64)
    requires
        in_calendar(secs as int),
    ensures
        week == week_index(secs as int),
        0 <= week <= 418985,
{
    (secs + EPOCH_WEEK_OFFSET) / SECONDS_PER_WEEK
}

/// The first second of a week of the calendar, or of the week after the last.
fn week_start_in(week: i64) -> (secs: i64)
    requires
        0 <= week <= 418986,
    ensures
        secs == week_start(week as int),
{
    week * SECONDS_PER_WEEK - EPOCH_WEEK_OFFSET
}

/// The number of the week that holds an instant, for the instants of the
/// calendar.
pub fn week_index_at(secs: i64) -> (week: Option<i64>)
    ensures
        in_calendar(secs as int) ==> week == Some(week_index(secs as int) as i64),
        !in_calendar(secs as int) ==> week is None,
{
    if secs < 0 || secs > MAX_UNIX_SECONDS {
        None
    } else {
        Some(week_index_in(secs))
    }
}

/// The Monday 00:00 UTC that opens the week of an instant, for the instants
/// of the calendar.
pub fn week_start_at(secs: i64) -> (monday: Option<i64>)
    ensures
        in_calendar(secs as int) ==> monday == Some(week_start(week_index(secs as int)) as i64),
        !in_calendar(secs as int) ==> monday is None,
{
    if secs < 0 || secs > MAX_UNIX_SECONDS {
        None
    } else {
        Some(week_start_in(week_index_in(secs)))
    }
}

/// The Monday 00:00 UTC that comes strictly after an instant, for the
/// instants of the calendar. At a Monday 00:00 UTC that is the next Monday,
/// a whole week away.
pub fn next_week_start_at(secs: i64) -> (monday: Option<i64>)
    ensures
        in_calendar(secs as int) ==> monday == Some(next_week_start(secs as int) as i64) && secs
            < monday->Some_0 <= secs + SECONDS_PER_WEEK,
        !in_calendar(secs as int) ==> monday is None,
{
    if secs < 0 || secs > MAX_UNIX_SECONDS {
        None
    } else {
        Some(week_start_in(week_index_in(secs) + 1))
    }
}

/// The week key of an instant, `YYYY-Www`.
pub fn week_key_at(secs: i64) -> (r: Result<String, AppError>)
    ensures
        in_calendar(secs as int) ==> r is Ok && Some(r->Ok_0@) == week_key_of(secs as int),
        !in_calendar(secs as int) ==> r is Err && r->Err_0.is_internal("Clock out of range"@),
{
    let monday = match week_start_at(secs) {
        Some(monday) => monday,
        None => {
            return Err(AppError::internal("Clock out of range"));
        },
    };
    proof {
        lemma_week_bounds(secs as int);
    }
    match iso_week_label_at(monday) {
        Some(key) => Ok(key),
        None => Err(AppError::internal("Clock out of range")),
    }
}

/// The week key of the current instant.
pub fn current_week_key() -> (r: Result<String, AppError>)
    ensures
        r matches Ok(key) ==> exists|secs: int|
            in_calendar(secs) && Some(key@) == #[trigger] week_key_of(secs),
        r matches Err(e) ==> e.is_internal("Clock out of range"@),
{
    let t = now();
    week_key_at(t.secs)
}

/// Whether an instant is a Monday, 00:00:00 UTC.
pub open spec fn is_monday_midnight(secs: int) -> bool {
    (secs + EPOCH_WEEK_OFFSET) % (SECONDS_PER_WEEK as int) == 0
}

/// An instant lies in its week: not before the week's Monday 00:00 UTC, and
/// before the next, which is strictly after it and at most a week away.
pub proof fn lemma_week_bounds(secs: int)
    ensures
        week_start(week_index(secs)) <= secs < next_week_start(secs),
        next_week_start(secs) == week_start(week_index(secs)) + SECONDS_PER_WEEK,
        next_week_start(secs) <= secs + SECONDS_PER_WEEK,
        is_monday_midnight(week_start(week_index(secs))),
        is_monday_midnight(next_week_start(secs)),
        is_monday_midnight(secs) ==> next_week_start(secs) == secs + SECONDS_PER_WEEK,
{
}

/// Two instants have one week exactly when the one lies between the Monday
/// 00:00 UTC that opens the week of the other and the Monday that closes it.
pub proof fn lemma_same_week(a: int, b: int)
    ensures
        week_index(a) == week_index(b) <==> week_start(week_index(a)) <= b < next_week_start(a),
{
}

/// The week key is stable within a week: two instants of one week have one
/// key.
pub proof fn lemma_week_key_stable(a: int, b: int)
    requires
        week_start(week_index(a)) <= b < next_week_start(a),
    ensures
        week_index(a) == week_index(b),
        week_key_of(a) == week_key_of(b),
{
}

/// The week changes at the week boundary and nowhere else: an instant opens
/// a week that the second before it was not in exactly when it is a Monday
/// 00:00 UTC.
pub proof fn lemma_week_changes_at_monday(secs: int)
    ensures
        week_index(secs - 1) != week_index(secs) <==> is_monday_midnight(secs),
        week_index(secs - 1) != week_index(secs) ==> week_index(secs) == week_index(secs - 1) + 1,
{
}

} // verus!
