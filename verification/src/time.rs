//! Instants and the calendar readings the board takes from them.
//!
//! An instant is a count of whole seconds since the Unix epoch. What a wall
//! clock in Tokyo shows at an instant, and what the UTC calendar calls its
//! day, is asked of `chrono` and `chrono-tz`; the functions that do so are
//! the only ones in this crate whose contracts are taken on trust.
//!
//! The board accepts the instants of the years 1 to 9999. For each of them
//! `DateTime::from_timestamp` gives a value, and the Tokyo date lies well
//! within what chrono can hold, so none of the calls made here fails.

use chrono::{DateTime, Datelike, Timelike, Utc};
use chrono_tz::Asia::Tokyo;
use vstd::prelude::*;

verus! {

/// The first instant the board accepts: 0001-01-01T00:00:00Z.
pub const MIN_SECS: i64 = -62_135_596_800;

/// The last instant the board accepts: 9999-12-31T23:59:59Z.
pub const MAX_SECS: i64 = 253_402_300_799;

/// Seconds in a day.
pub const DAY_SECS: i64 = 86_400;

/// What Japan Standard Time is ahead of UTC, in seconds.
pub const JST_OFFSET_SECS: i64 = 32_400;

/// The day number of 1970-01-01, counting 0001-01-01 as day 1.
pub const EPOCH_DAY_NUMBER: i64 = 719_163;

/// An instant: whole seconds since 1970-01-01T00:00:00Z, within
/// `MIN_SECS ..= MAX_SECS`.
#[derive(Clone, Copy, Debug, PartialEq, Eq, Structural)]
pub struct Timestamp {
    secs: i64,
}

impl View for Timestamp {
    type V = int;

    closed spec fn view(&self) -> int {
        self.secs as int
    }
}

impl Timestamp {
    #[verifier::type_invariant]
    spec fn in_range(self) -> bool {
        MIN_SECS <= self.secs <= MAX_SECS
    }

    /// The instant `secs` seconds after the epoch, if the board accepts it.
    pub fn from_secs(secs: i64) -> (r: Option<Timestamp>)
        ensures
            r is Some <==> MIN_SECS <= secs <= MAX_SECS,
            r matches Some(t) ==> t@ == secs,
    {
        if MIN_SECS <= secs && secs <= MAX_SECS {
            Some(Timestamp { secs })
        } else {
            None
        }
    }

    /// Seconds since the epoch.
    pub fn secs(&self) -> (s: i64)
        ensures
            s == self@,
            MIN_SECS <= s <= MAX_SECS,
    {
        proof {
            use_type_invariant(self);
        }
        self.secs
    }

    /// The instant the system clock shows, if the board accepts it.
    /// Whatever the clock shows, an instant given lies within the range.
    pub fn now() -> (r: Option<Timestamp>)
        ensures
            r matches Some(t) ==> MIN_SECS <= t@ <= MAX_SECS,
    {
        Timestamp::from_secs(utc_now_secs())
    }
}

/// Two instants are the same exactly when they are as many seconds after
/// the epoch.
pub proof fn lemma_same_instant(a: Timestamp, b: Timestamp)
    ensures
        a@ == b@ <==> a == b,
{
}

/// The hour, `0..=23`, that a clock in Asia/Tokyo shows at the instant
/// `secs` seconds after the epoch.
pub uninterp spec fn tokyo_hour(secs: int) -> int;

/// The minute of the hour, `0..=59`, that a clock in Asia/Tokyo shows at the
/// instant `secs` seconds after the epoch.
pub uninterp spec fn tokyo_minute(secs: int) -> int;

/// The day number of the calendar date in Asia/Tokyo at the instant `secs`
/// seconds after the epoch, counting 0001-01-01 as day 1.
pub uninterp spec fn tokyo_day_number(secs: int) -> int;

/// The day of the week of the UTC date at the instant `secs` seconds after
/// the epoch, counted from Monday as 0.
pub uninterp spec fn utc_weekday_number(secs: int) -> int;

/// A day of the week.
#[derive(Clone, Copy, Debug, PartialEq, Eq, Hash, Structural)]
pub enum Weekday {
    /// Monday.
    Mon,
    /// Tuesday.
    Tue,
    /// Wednesday.
    Wed,
    /// Thursday.
    Thu,
    /// Friday.
    Fri,
    /// Saturday.
    Sat,
    /// Sunday.
    Sun,
}

impl Weekday {
    /// The day that comes `n` days after a Monday.
    pub open spec fn after_monday(n: int) -> Weekday {
        if n == 0 {
            Weekday::Mon
        } else if n == 1 {
            Weekday::Tue
        } else if n == 2 {
            Weekday::Wed
        } else if n == 3 {
            Weekday::Thu
        } else if n == 4 {
            Weekday::Fri
        } else if n == 5 {
            Weekday::Sat
        } else {
            Weekday::Sun
        }
    }

    /// How many days after Monday the day comes.
    pub open spec fn days_from_monday(self) -> int {
        match self {
            Weekday::Mon => 0,
            Weekday::Tue => 1,
            Weekday::Wed => 2,
            Weekday::Thu => 3,
            Weekday::Fri => 4,
            Weekday::Sat => 5,
            Weekday::Sun => 6,
        }
    }
}

/// The UTC date at the instant `secs` seconds after the epoch, written as
/// month and day of the month, two digits each, with a slash between.
pub uninterp spec fn utc_month_day_text(secs: int) -> Seq<char>;

/// The hour a clock running nine hours ahead of UTC shows.
pub open spec fn jst_hour(secs: int) -> int {
    ((secs + JST_OFFSET_SECS) % (DAY_SECS as int)) / 3600
}

/// The minute of the hour a clock running nine hours ahead of UTC shows.
pub open spec fn jst_minute(secs: int) -> int {
    ((secs + JST_OFFSET_SECS) % 3600) / 60
}

/// The day number of the date on a calendar running nine hours ahead of UTC.
pub open spec fn jst_day_number(secs: int) -> int {
    (secs + JST_OFFSET_SECS) / (DAY_SECS as int) + EPOCH_DAY_NUMBER
}

/// `chrono::Utc::now`, read as seconds since the epoch with
/// `DateTime::timestamp`. Nothing is claimed of what the clock shows.
#[verifier::external_body]
fn utc_now_secs() -> i64 {
    Utc::now().timestamp()
}

/// `Timelike::hour` of the instant, taken to Asia/Tokyo with
/// `DateTime::with_timezone`.
///
/// Trusted: the result is the hour that `tokyo_hour` names and lies below 24.
/// From the epoch on, the zone's table holds the single offset of nine hours,
/// so the hour is that of `jst_hour`.
#[verifier::external_body]
pub(crate) fn tokyo_hour_at(t: Timestamp) -> (h: u32)
    ensures
        h == tokyo_hour(t@),
        h < 24,
        t@ >= 0 ==> h == jst_hour(t@),
{
    DateTime::from_timestamp(t.secs, 0).unwrap().with_timezone(&Tokyo).hour()
}

/// `Timelike::minute` of the instant, taken to Asia/Tokyo with
/// `DateTime::with_timezone`.
///
/// Trusted: the result is the minute that `tokyo_minute` names and lies below
/// 60. From the epoch on it is that of `jst_minute`.
#[verifier::external_body]
pub(crate) fn tokyo_minute_at(t: Timestamp) -> (m: u32)
    ensures
        m == tokyo_minute(t@),
        m < 60,
        t@ >= 0 ==> m == jst_minute(t@),
{
    DateTime::from_timestamp(t.secs, 0).unwrap().with_timezone(&Tokyo).minute()
}

/// `Datelike::num_days_from_ce` of `DateTime::date_naive`, for the instant
/// taken to Asia/Tokyo with `DateTime::with_timezone`.
///
/// Trusted: the result is the day number that `tokyo_day_number` names. From
/// the epoch on it is that of `jst_day_number`.
#[verifier::external_body]
pub(crate) fn tokyo_day_number_at(t: Timestamp) -> (d: i32)
    ensures
        d == tokyo_day_number(t@),
        t@ >= 0 ==> d == jst_day_number(t@),
{
    DateTime::from_timestamp(t.secs, 0).unwrap().with_timezone(&Tokyo).date_naive().num_days_from_ce()
}

/// `Datelike::weekday` of the instant on the UTC calendar, each of chrono's
/// seven days given as the day of the same name.
///
/// Trusted: the result is the day that `utc_weekday_number` counts from
/// Monday.
#[verifier::external_body]
pub(crate) fn utc_weekday_at(t: Timestamp) -> (w: Weekday)
    ensures
        w.days_from_monday() == utc_weekday_number(t@),
{
    match DateTime::from_timestamp(t.secs, 0).unwrap().weekday() {
        chrono::Weekday::Mon => Weekday::Mon,
        chrono::Weekday::Tue => Weekday::Tue,
        chrono::Weekday::Wed => Weekday::Wed,
        chrono::Weekday::Thu => Weekday::Thu,
        chrono::Weekday::Fri => Weekday::Fri,
        chrono::Weekday::Sat => Weekday::Sat,
        chrono::Weekday::Sun => Weekday::Sun,
    }
}

/// `NaiveDate::format` with the pattern `%m/%d`, for the UTC date of the
/// instant, written out with `to_string`.
///
/// Trusted: the result is the text that `utc_month_day_text` names.
#[verifier::external_body]
pub(crate) fn utc_month_day_text_at(t: Timestamp) -> (s: String)
    ensures
        s@ == utc_month_day_text(t@),
{
    DateTime::from_timestamp(t.secs, 0).unwrap().date_naive().format("%m/%d").to_string()
}

} // verus!
