//! The timeline of the votes: what a chart of them shows.
//!
//! The chart runs over the minutes from 14:00 to 20:00 on the Tokyo clock.
//! For each action it shows the running total of the votes last cast in or
//! before each minute, and marks the minutes in which a vote was cast.
//! Drawing is left to the caller; the numbers are made here.

use crate::action::Action;
use crate::error::RenderError;
use crate::text::{push_two_digits, two_digits};
use crate::time::{tokyo_hour, tokyo_hour_at, tokyo_minute, tokyo_minute_at};
use crate::vote::Vote;
use vstd::prelude::*;
use vstd::string::StringExecFns;

verus! {

/// The hour at which the chart begins.
pub const FIRST_HOUR: u32 = 14;

/// The hour at which the chart ends.
pub const END_HOUR: u32 = 20;

/// How many minutes the chart runs over.
pub const SLOTS: usize = 360;

/// How many minutes lie between two ticks of the time axis.
pub const TICK_MINUTES: usize = 30;

/// A point of a line that is to be marked: the minute, and the running
/// total there.
#[derive(Clone, Copy, Debug, PartialEq, Eq, Structural)]
pub struct Mark {
    /// The minute, counted from the beginning of the chart.
    pub slot: usize,
    /// The running total in that minute.
    pub total: u64,
}

/// The line of one action.
#[derive(Debug, PartialEq, Eq)]
pub struct Series {
    /// The action whose votes the line counts.
    pub action: Action,
    /// The running total in each minute of the chart.
    pub totals: Vec<u64>,
    /// The minutes in which a vote for the action was cast.
    pub marks: Vec<Mark>,
}

/// What a chart of the votes shows.
#[derive(Debug, PartialEq, Eq)]
pub struct Timeline {
    /// The time of day of each minute of the chart, as hour and minute.
    pub labels: Vec<String>,
    /// The minutes at which the time axis has a tick.
    pub ticks: Vec<usize>,
    /// The lines of the three actions: found, not found, sold out.
    pub series: Vec<Series>,
}

/// The minute of the chart on which a clock reading falls, if it falls on
/// the chart.
pub open spec fn slot_of_reading(hour: int, minute: int) -> Option<int> {
    if FIRST_HOUR <= hour < END_HOUR && 0 <= minute < 60 {
        Some((hour - FIRST_HOUR) * 60 + minute)
    } else {
        None
    }
}

/// The minute of the chart in which a vote was last cast, if that was
/// within the chart.
pub open spec fn slot_of(v: Vote) -> Option<int> {
    slot_of_reading(tokyo_hour(v.updated_at@), tokyo_minute(v.updated_at@))
}

/// The test that a vote is for `action` and was last cast in the minute
/// `slot`.
pub open spec fn falls_in(action: Action, slot: int) -> spec_fn(Vote) -> bool {
    |v: Vote| v.action == action && slot_of(v) == Some(slot)
}

/// How many votes for `action` were last cast in the minute `slot`.
pub open spec fn slot_count(votes: Seq<Vote>, action: Action, slot: int) -> nat {
    votes.filter(falls_in(action, slot)).len()
}

/// How many votes for `action` were last cast in the minutes of the chart up
/// to and including `slot`.
pub open spec fn running_total(votes: Seq<Vote>, action: Action, slot: int) -> nat
    decreases slot + 1,
{
    if slot < 0 {
        0
    } else {
        running_total(votes, action, slot - 1) + slot_count(votes, action, slot)
    }
}

/// The marks of the first `n` minutes: one for each minute in which a vote
/// for `action` was cast.
pub open spec fn marks_upto(votes: Seq<Vote>, action: Action, n: int) -> Seq<Mark>
    decreases n,
{
    if n <= 0 {
        Seq::empty()
    } else if slot_count(votes, action, n - 1) > 0 {
        marks_upto(votes, action, n - 1).push(
            Mark { slot: (n - 1) as usize, total: running_total(votes, action, n - 1) as u64 },
        )
    } else {
        marks_upto(votes, action, n - 1)
    }
}

/// The time of day of a minute of the chart: hour and minute in two digits
/// each, with a colon between.
pub open spec fn label_of(slot: int) -> Seq<char> {
    two_digits((FIRST_HOUR + slot / 60) as nat) + seq![':'] + two_digits((slot % 60) as nat)
}

/// Whether `series` is the line of `action` over `votes`.
pub open spec fn is_series_of(series: Series, votes: Seq<Vote>, action: Action) -> bool {
    &&& series.action == action
    &&& series.totals@.len() == SLOTS
    &&& forall|s: int| 0 <= s < SLOTS ==> #[trigger] series.totals@[s] == running_total(
        votes,
        action,
        s,
    )
    &&& series.marks@ == marks_upto(votes, action, SLOTS as int)
}

/// Whether `timeline` is what a chart of `votes` shows.
pub open spec fn is_timeline_of(timeline: Timeline, votes: Seq<Vote>) -> bool {
    &&& timeline.labels@.len() == SLOTS
    &&& forall|s: int| 0 <= s < SLOTS ==> (#[trigger] timeline.labels@[s])@ == label_of(s)
    &&& timeline.ticks@.len() * TICK_MINUTES == SLOTS
    &&& forall|k: int|
        0 <= k < timeline.ticks@.len() ==> #[trigger] timeline.ticks@[k] == k * TICK_MINUTES
    &&& timeline.series@.len() == 3
    &&& is_series_of(timeline.series@[0], votes, Action::Found)
    &&& is_series_of(timeline.series@[1], votes, Action::NotFound)
    &&& is_series_of(timeline.series@[2], votes, Action::SoldOut)
}

/// The test that a vote is for `action` and was last cast on the chart, in
/// the minute `slot` or before it.
pub open spec fn falls_by(action: Action, slot: int) -> spec_fn(Vote) -> bool {
    |v: Vote|
        v.action == action && match slot_of(v) {
            Some(s) => s <= slot,
            None => false,
        }
}

/// The running total is the number of the votes for the action that were
/// last cast on the chart, in the minute `slot` or before it; it never
/// exceeds the number of votes.
pub proof fn lemma_running_total_counts(votes: Seq<Vote>, action: Action, slot: int)
    ensures
        running_total(votes, action, slot) == votes.filter(falls_by(action, slot)).len(),
        running_total(votes, action, slot) <= votes.len(),
    decreases votes.len(),
{
    votes.lemma_filter_len(falls_by(action, slot));
    if votes.len() == 0 {
        assert(votes =~= Seq::<Vote>::empty());
        lemma_running_total_of_none(action, slot);
        assert(votes.filter(falls_by(action, slot)).len() == 0);
    } else {
        let front = votes.drop_last();
        let last = votes.last();
        lemma_running_total_counts(front, action, slot);
        lemma_running_total_push(front, last, action, slot);
        assert(votes =~= front.push(last));
        front.lemma_filter_len_push(falls_by(action, slot), last);
    }
}

/// Without votes every running total is zero.
proof fn lemma_running_total_of_none(action: Action, slot: int)
    ensures
        running_total(Seq::<Vote>::empty(), action, slot) == 0,
    decreases slot + 1,
{
    reveal(Seq::filter);
    if slot >= 0 {
        lemma_running_total_of_none(action, slot - 1);
    }
}

/// One more vote raises the running total by one from its minute on, where
/// it is for the action and falls on the chart, and leaves it otherwise.
proof fn lemma_running_total_push(votes: Seq<Vote>, v: Vote, action: Action, slot: int)
    ensures
        running_total(votes.push(v), action, slot) == running_total(votes, action, slot) + if falls_by(
            action,
            slot,
        )(v) {
            1nat
        } else {
            0nat
        },
    decreases slot + 1,
{
    if slot >= 0 {
        lemma_running_total_push(votes, v, action, slot - 1);
        votes.lemma_filter_len_push(falls_in(action, slot), v);
    }
}

/// The chart does not depend on the order of the votes: two tables of which
/// each holds as many votes for every action in every minute have the same
/// running totals and the same marks.
pub proof fn lemma_chart_of_same_counts(a: Seq<Vote>, b: Seq<Vote>, action: Action, slot: int)
    requires
        forall|s: int| slot_count(a, action, s) == slot_count(b, action, s),
    ensures
        running_total(a, action, slot) == running_total(b, action, slot),
        marks_upto(a, action, slot + 1) == marks_upto(b, action, slot + 1),
    decreases slot + 1,
{
    if slot >= 0 {
        lemma_chart_of_same_counts(a, b, action, slot - 1);
        assert(slot_count(a, action, slot) == slot_count(b, action, slot));
    }
}

/// A timeline of the votes in one order is the timeline of the votes in
/// every order in which each vote for an action in a minute is counted as
/// often.
pub proof fn lemma_timeline_of_same_counts(timeline: Timeline, a: Seq<Vote>, b: Seq<Vote>)
    requires
        is_timeline_of(timeline, a),
        forall|action: Action, s: int| slot_count(a, action, s) == slot_count(b, action, s),
    ensures
        is_timeline_of(timeline, b),
{
    lemma_series_of_same_counts(timeline.series@[0], a, b, Action::Found);
    lemma_series_of_same_counts(timeline.series@[1], a, b, Action::NotFound);
    lemma_series_of_same_counts(timeline.series@[2], a, b, Action::SoldOut);
}

/// A line over the votes in one order is the line over the votes in every
/// order in which each vote in a minute is counted as often.
proof fn lemma_series_of_same_counts(series: Series, a: Seq<Vote>, b: Seq<Vote>, action: Action)
    requires
        is_series_of(series, a, action),
        forall|s: int| slot_count(a, action, s) == slot_count(b, action, s),
    ensures
        is_series_of(series, b, action),
{
    assert forall|s: int| 0 <= s < SLOTS implies #[trigger] series.totals@[s] == running_total(
        b,
        action,
        s,
    ) by {
        lemma_chart_of_same_counts(a, b, action, s);
    }
    lemma_chart_of_same_counts(a, b, action, SLOTS as int - 1);
}

/// Namespace of the chart maker.
pub struct ChartService;

impl ChartService {
    /// Makes the timeline of the votes. Refused where there is no vote.
    pub fn generate_vote_timeline_chart(votes: &Vec<Vote>) -> (r: Result<Timeline, RenderError>)
        ensures
            votes@.len() == 0 ==> r == Err::<Timeline, RenderError>(RenderError::EmptyDataset),
            votes@.len() > 0 ==> (r matches Ok(timeline) && is_timeline_of(timeline, votes@)),
    {
        if votes.len() == 0 {
            return Err(RenderError::EmptyDataset);
        }
        let slots: Vec<Option<usize>> = slots_of(votes);
        let found: Series = series_of(votes, &slots, Action::Found);
        let not_found: Series = series_of(votes, &slots, Action::NotFound);
        let sold_out: Series = series_of(votes, &slots, Action::SoldOut);
        let mut series: Vec<Series> = Vec::new();
        series.push(found);
        series.push(not_found);
        series.push(sold_out);
        let timeline = Timeline { labels: time_labels(), ticks: tick_slots(), series };
        Ok(timeline)
    }
}

/// The time of day of each minute of the chart.
pub fn time_labels() -> (labels: Vec<String>)
    ensures
        labels@.len() == SLOTS,
        forall|s: int| 0 <= s < SLOTS ==> (#[trigger] labels@[s])@ == label_of(s),
{
    let mut labels: Vec<String> = Vec::new();
    let mut slot: usize = 0;
    while slot < SLOTS
        invariant
            slot <= SLOTS,
            labels@.len() == slot,
            forall|s: int| 0 <= s < slot ==> (#[trigger] labels@[s])@ == label_of(s),
        decreases SLOTS - slot,
    {
        let mut label = String::new();
        push_two_digits(&mut label, FIRST_HOUR + (slot / 60) as u32);
        proof {
            reveal_strlit(":");
            assert(":"@ =~= seq![':']);
        }
        label.append(":");
        push_two_digits(&mut label, (slot % 60) as u32);
        proof {
            assert(label@ =~= label_of(slot as int));
        }
        labels.push(label);
        slot += 1;
    }
    labels
}

/// The minutes at which the time axis has a tick: every half hour.
pub fn tick_slots() -> (ticks: Vec<usize>)
    ensures
        ticks@.len() * TICK_MINUTES == SLOTS,
        forall|k: int| 0 <= k < ticks@.len() ==> #[trigger] ticks@[k] == k * TICK_MINUTES,
{
    let mut ticks: Vec<usize> = Vec::new();
    let mut slot: usize = 0;
    while slot < SLOTS
        invariant
            slot <= SLOTS,
            slot == ticks@.len() * TICK_MINUTES,
            forall|k: int| 0 <= k < ticks@.len() ==> #[trigger] ticks@[k] == k * TICK_MINUTES,
        decreases SLOTS - slot,
    {
        ticks.push(slot);
        slot += TICK_MINUTES;
    }
    ticks
}

/// Whether `slot` is the minute of the chart in which `v` was last cast.
spec fn is_slot_of(slot: Option<usize>, v: Vote) -> bool {
    match slot {
        Some(s) => s < SLOTS && slot_of(v) == Some(s as int),
        None => slot_of(v) is None,
    }
}

/// The minute of the chart in which each vote was last cast.
fn slots_of(votes: &Vec<Vote>) -> (slots: Vec<Option<usize>>)
    ensures
        slots@.len() == votes@.len(),
        forall|i: int| 0 <= i < votes@.len() ==> is_slot_of(#[trigger] slots@[i], votes@[i]),
{
    let mut slots: Vec<Option<usize>> = Vec::new();
    let mut i: usize = 0;
    while i < votes.len()
        invariant
            i <= votes.len(),
            slots@.len() == i,
            forall|k: int| 0 <= k < i ==> is_slot_of(#[trigger] slots@[k], votes@[k]),
        decreases votes.len() - i,
    {
        let hour: u32 = tokyo_hour_at(votes[i].updated_at);
        let minute: u32 = tokyo_minute_at(votes[i].updated_at);
        if FIRST_HOUR <= hour && hour < END_HOUR {
            slots.push(Some(((hour - FIRST_HOUR) * 60 + minute) as usize));
        } else {
            slots.push(None);
        }
        i += 1;
    }
    slots
}

/// The line of `action` over `votes`, whose minutes on the chart are given
/// in `slots`.
fn series_of(votes: &Vec<Vote>, slots: &Vec<Option<usize>>, action: Action) -> (series: Series)
    requires
        slots@.len() == votes@.len(),
        forall|i: int| 0 <= i < votes@.len() ==> is_slot_of(#[trigger] slots@[i], votes@[i]),
    ensures
        is_series_of(series, votes@, action),
{
    let mut counts: Vec<u64> = Vec::new();
    let mut s: usize = 0;
    proof {
        reveal(Seq::filter);
    }
    while s < SLOTS
        invariant
            s <= SLOTS,
            counts@.len() == s,
            forall|k: int| 0 <= k < s ==> #[trigger] counts@[k] == 0,
        decreases SLOTS - s,
    {
        counts.push(0);
        s += 1;
    }
    let mut i: usize = 0;
    proof {
        assert(votes@.take(0) =~= Seq::<Vote>::empty());
    }
    while i < votes.len()
        invariant
            i <= votes.len(),
            slots@.len() == votes@.len(),
            forall|k: int| 0 <= k < votes@.len() ==> is_slot_of(#[trigger] slots@[k], votes@[k]),
            counts@.len() == SLOTS,
            forall|k: int|
                0 <= k < SLOTS ==> #[trigger] counts@[k] == slot_count(
                    votes@.take(i as int),
                    action,
                    k,
                ),
            forall|k: int| 0 <= k < SLOTS ==> #[trigger] counts@[k] <= i,
        decreases votes.len() - i,
    {
        let vote: Vote = votes[i];
        proof {
            assert(is_slot_of(slots@[i as int], votes@[i as int]));
            assert(votes@.take(i as int + 1) =~= votes@.take(i as int).push(vote));
            assert forall|k: int| 0 <= k < SLOTS implies slot_count(
                votes@.take(i as int + 1),
                action,
                k,
            ) == slot_count(votes@.take(i as int), action, k) + if falls_in(action, k)(vote) {
                1nat
            } else {
                0nat
            } by {
                votes@.take(i as int).lemma_filter_len_push(falls_in(action, k), vote);
            }
        }
        match slots[i] {
            Some(slot) => {
                if vote.action == action {
                    let count: u64 = counts[slot];
                    counts.set(slot, count + 1);
                }
            },
            None => {},
        }
        i += 1;
    }
    proof {
        assert(votes@.take(i as int) =~= votes@);
    }
    let mut totals: Vec<u64> = Vec::new();
    let mut marks: Vec<Mark> = Vec::new();
    let mut total: u64 = 0;
    let mut s: usize = 0;
    while s < SLOTS
        invariant
            s <= SLOTS,
            counts@.len() == SLOTS,
            forall|k: int|
                0 <= k < SLOTS ==> #[trigger] counts@[k] == slot_count(votes@, action, k),
            totals@.len() == s,
            forall|k: int| 0 <= k < s ==> #[trigger] totals@[k] == running_total(votes@, action, k),
            total == running_total(votes@, action, s - 1),
            marks@ == marks_upto(votes@, action, s as int),
            votes@.len() <= usize::MAX,
        decreases SLOTS - s,
    {
        proof {
            lemma_running_total_counts(votes@, action, s as int);
        }
        total = total + counts[s];
        totals.push(total);
        if counts[s] > 0 {
            marks.push(Mark { slot: s, total });
        }
        s += 1;
    }
    Series { action, totals, marks }
}

} // verus!
