//! The voting period: a business day that starts at a fixed hour on the
//! Tokyo clock and runs into the next calendar date.
//!
//! A period is named by the calendar date on which it starts. An instant
//! whose Tokyo clock shows the boundary hour or later belongs to the period
//! of that date; an earlier hour belongs to the period of the date before.

use crate::time::{
    jst_day_number, jst_hour, tokyo_day_number, tokyo_day_number_at, tokyo_hour, tokyo_hour_at,
    Timestamp, DAY_SECS, EPOCH_DAY_NUMBER, JST_OFFSET_SECS,
};
use vstd::prelude::*;

verus! {

/// The hour at which the afternoon period begins: noon.
pub const AFTERNOON_BOUNDARY_HOUR: u32 = 12;

/// A voting period, named by the day number of the date on which it starts
/// (0001-01-01 is day 1).
#[derive(Clone, Copy, Debug, PartialEq, Eq, Hash, Structural)]
pub struct Period {
    day: i64,
}

impl View for Period {
    type V = int;

    closed spec fn view(&self) -> int {
        self.day as int
    }
}

impl Period {
    /// The period that starts on the date with this day number.
    pub fn from_day_number(day: i64) -> (p: Period)
        ensures
            p@ == day,
    {
        Period { day }
    }

    /// The day number of the date on which the period starts.
    pub fn day_number(&self) -> (d: i64)
        ensures
            d == self@,
    {
        self.day
    }

    /// Whether this period lies before `other`.
    pub fn is_before(&self, other: &Period) -> (b: bool)
        ensures
            b == (self@ < other@),
    {
        self.day < other.day
    }
}

/// The period of a clock reading: the date itself from the boundary hour on,
/// the date before it for an earlier hour.
pub open spec fn period_of_reading(day: int, hour: int, boundary: int) -> int {
    if hour >= boundary {
        day
    } else {
        day - 1
    }
}

/// The period of an instant on a clock that runs nine hours ahead of UTC:
/// the day number of the date on which the clock last passed the boundary
/// hour.
pub open spec fn jst_period(secs: int, boundary: int) -> int {
    (secs + JST_OFFSET_SECS - boundary * 3600) / (DAY_SECS as int) + EPOCH_DAY_NUMBER
}

/// The instant at which, on a clock nine hours ahead of UTC, the period
/// named by `day` begins.
pub open spec fn jst_period_start(day: int, boundary: int) -> int {
    (day - EPOCH_DAY_NUMBER) * DAY_SECS + boundary * 3600 - JST_OFFSET_SECS
}

/// Maps instants to voting periods, for one boundary hour on the Tokyo clock.
#[derive(Clone, Copy, Debug, PartialEq, Eq, Structural)]
pub struct PeriodClock {
    boundary_hour: u32,
}

impl PeriodClock {
    #[verifier::type_invariant]
    spec fn hour_on_dial(self) -> bool {
        self.boundary_hour < 24
    }

    /// The hour at which a period begins.
    pub closed spec fn boundary(self) -> int {
        self.boundary_hour as int
    }

    /// The clock of the afternoon period, which begins at noon.
    pub closed spec fn afternoon() -> PeriodClock {
        PeriodClock { boundary_hour: AFTERNOON_BOUNDARY_HOUR }
    }

    /// The period of the instant `secs` seconds after the epoch.
    pub open spec fn period_at(self, secs: int) -> int {
        period_of_reading(tokyo_day_number(secs), tokyo_hour(secs), self.boundary())
    }

    /// A clock whose periods begin at `boundary_hour`, if that is an hour of
    /// the day.
    pub fn new(boundary_hour: u32) -> (r: Option<PeriodClock>)
        ensures
            r is Some <==> boundary_hour < 24,
            r matches Some(c) ==> c.boundary() == boundary_hour,
    {
        if boundary_hour < 24 {
            Some(PeriodClock { boundary_hour })
        } else {
            None
        }
    }

    /// The clock of the afternoon period, which begins at noon.
    pub fn jst_afternoon() -> (c: PeriodClock)
        ensures
            c == PeriodClock::afternoon(),
            c.boundary() == AFTERNOON_BOUNDARY_HOUR,
    {
        PeriodClock { boundary_hour: AFTERNOON_BOUNDARY_HOUR }
    }

    /// The hour at which a period begins.
    pub fn boundary_hour(&self) -> (h: u32)
        ensures
            h == self.boundary(),
            h < 24,
    {
        proof {
            use_type_invariant(self);
        }
        self.boundary_hour
    }

    /// The period to which the instant `t` belongs.
    ///
    /// From the epoch on, the Tokyo clock runs nine hours ahead of UTC, and
    /// the period is a plain count of days since a boundary.
    pub fn period_of(&self, t: Timestamp) -> (p: Period)
        ensures
            p@ == self.period_at(t@),
            t@ >= 0 ==> p@ == jst_period(t@, self.boundary()),
    {
        let boundary: u32 = self.boundary_hour();
        let hour: u32 = tokyo_hour_at(t);
        let day: i64 = tokyo_day_number_at(t) as i64;
        proof {
            if t@ >= 0 {
                lemma_jst_reading_period(t@, boundary as int);
            }
        }
        if hour >= boundary {
            Period { day }
        } else {
            Period { day: day - 1 }
        }
    }

    /// The period to which the present instant belongs, if the system clock
    /// shows an instant that the board accepts. Whatever the clock shows,
    /// the result is the period of some instant.
    pub fn current_period(&self) -> (r: Option<Period>)
        ensures
            r matches Some(p) ==> exists|now: Timestamp| p@ == #[trigger] self.period_at(now@),
    {
        match Timestamp::now() {
            Some(t) => Some(self.period_of(t)),
            None => None,
        }
    }
}

/// On a clock nine hours ahead of UTC, the period of the reading is the
/// count of days since a boundary.
pub proof fn lemma_jst_reading_period(secs: int, boundary: int)
    requires
        0 <= boundary <= 24,
    ensures
        period_of_reading(jst_day_number(secs), jst_hour(secs), boundary) == jst_period(
            secs,
            boundary,
        ),
{
    let local = secs + JST_OFFSET_SECS;
    let q = local / 86400;
    let r = local % 86400;
    assert(local == 86400 * q + r && 0 <= r < 86400);
    let h = r / 3600;
    assert(0 <= h < 24);
    assert(3600 * h <= r < 3600 * h + 3600);
    let shifted = local - boundary * 3600;
    if h >= boundary {
        assert(shifted == 86400 * q + (r - boundary * 3600));
        assert(0 <= r - boundary * 3600 < 86400);
        assert(shifted / 86400 == q) by {
            lemma_div_of_sum(q, r - boundary * 3600);
        }
    } else {
        assert(shifted == 86400 * (q - 1) + (r - boundary * 3600 + 86400));
        assert(0 <= r - boundary * 3600 + 86400 < 86400);
        assert(shifted / 86400 == q - 1) by {
            lemma_div_of_sum(q - 1, r - boundary * 3600 + 86400);
        }
    }
}

/// A whole number of days and a remainder within a day divide back to the
/// number of days.
proof fn lemma_div_of_sum(q: int, r: int)
    requires
        0 <= r < 86400,
    ensures
        (86400 * q + r) / 86400 == q,
        (86400 * q + r) % 86400 == r,
{
    vstd::arithmetic::div_mod::lemma_fundamental_div_mod_converse(86400 * q + r, 86400, q, r);
}

/// Readings of one period are those from the boundary hour of its date up
/// to, and not including, the boundary hour of the next date.
pub proof fn lemma_period_window(day: int, hour: int, boundary: int, period: int)
    ensures
        period_of_reading(day, hour, boundary) == period <==> (day == period && hour >= boundary)
            || (day == period + 1 && hour < boundary),
{
}

/// An instant is of the same period as another exactly when its Tokyo
/// clock reads within the window of that period: from the boundary hour of
/// the date that names it to the boundary hour of the date after.
pub proof fn lemma_same_period_same_window(clock: PeriodClock, a: int, b: int)
    ensures
        clock.period_at(b) == clock.period_at(a) <==> (tokyo_day_number(b) == clock.period_at(a)
            && tokyo_hour(b) >= clock.boundary()) || (tokyo_day_number(b) == clock.period_at(a)
            + 1 && tokyo_hour(b) < clock.boundary()),
        tokyo_day_number(b) == clock.period_at(a) + 1 && tokyo_hour(b) >= clock.boundary()
            ==> clock.period_at(b) == clock.period_at(a) + 1,
{
}

/// On a clock nine hours ahead of UTC, the period holds for the twenty-four
/// hours that begin at its boundary and changes exactly there: the second
/// before the boundary is of the period before, and the instant a day after
/// is the first of the next.
pub proof fn lemma_jst_period_changes_at_boundary(day: int, boundary: int, secs: int)
    requires
        0 <= boundary < 24,
    ensures
        jst_period_start(day, boundary) <= secs < jst_period_start(day, boundary) + DAY_SECS
            <==> jst_period(secs, boundary) == day,
        jst_period(jst_period_start(day, boundary), boundary) == day,
        jst_period(jst_period_start(day, boundary) - 1, boundary) == day - 1,
        jst_period_start(day + 1, boundary) == jst_period_start(day, boundary) + DAY_SECS,
{
    let start = jst_period_start(day, boundary);
    let k = day - EPOCH_DAY_NUMBER;
    assert(start + JST_OFFSET_SECS - boundary * 3600 == 86400 * k);
    lemma_div_of_sum(k, 0);
    lemma_div_of_sum(k - 1, 86399);
    let shifted = secs + JST_OFFSET_SECS - boundary * 3600;
    let q = shifted / 86400;
    let r = shifted % 86400;
    assert(shifted == 86400 * q + r && 0 <= r < 86400);
    if start <= secs < start + DAY_SECS {
        lemma_div_of_sum(k, shifted - 86400 * k);
    }
}

} // verus!
