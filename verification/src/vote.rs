//! A vote, and what a table of votes holds.
//!
//! The table keeps at most one vote for each user. Everything here is a
//! statement about a sequence of votes in storage order; the store that
//! keeps such a sequence is in `vote_service`.

use crate::action::Action;
use crate::period::PeriodClock;
use crate::time::Timestamp;
use vstd::prelude::*;

verus! {

/// The vote of one user.
#[derive(Clone, Copy, Debug, PartialEq, Eq, Structural)]
pub struct Vote {
    /// Who voted.
    pub user_id: i64,
    /// What they reported.
    pub action: Action,
    /// When they first voted.
    pub created_at: Timestamp,
    /// When they last voted.
    pub updated_at: Timestamp,
}

/// No user has two votes.
pub open spec fn users_distinct(rows: Seq<Vote>) -> bool {
    forall|i: int, j: int| 0 <= i < j < rows.len() ==> rows[i].user_id != rows[j].user_id
}

/// Whether `user_id` has a vote.
pub open spec fn has_voted(rows: Seq<Vote>, user_id: i64) -> bool {
    exists|i: int| 0 <= i < rows.len() && #[trigger] rows[i].user_id == user_id
}

/// Where the vote of `user_id` stands, if they have one.
pub open spec fn row_of_user(rows: Seq<Vote>, user_id: i64) -> Option<int> {
    if has_voted(rows, user_id) {
        Some(choose|i: int| 0 <= i < rows.len() && #[trigger] rows[i].user_id == user_id)
    } else {
        None
    }
}

/// The vote of `user_id`, if they have one.
pub open spec fn vote_of_user(rows: Seq<Vote>, user_id: i64) -> Option<Vote> {
    match row_of_user(rows, user_id) {
        Some(i) => Some(rows[i]),
        None => None,
    }
}

/// The vote a user casts at `now` for the first time.
pub open spec fn first_vote(user_id: i64, action: Action, now: Timestamp) -> Vote {
    Vote { user_id, action, created_at: now, updated_at: now }
}

/// The vote `earlier` after its user has voted again at `now`.
pub open spec fn changed_vote(earlier: Vote, action: Action, now: Timestamp) -> Vote {
    Vote { user_id: earlier.user_id, action, created_at: earlier.created_at, updated_at: now }
}

/// The table after `user_id` has voted for `action` at `now`: their earlier
/// vote is overwritten in place, or a first vote is added at the end.
pub open spec fn upserted(rows: Seq<Vote>, user_id: i64, action: Action, now: Timestamp) -> Seq<
    Vote,
> {
    match row_of_user(rows, user_id) {
        Some(i) => rows.update(i, changed_vote(rows[i], action, now)),
        None => rows.push(first_vote(user_id, action, now)),
    }
}

/// The test that a vote is for `action`.
pub open spec fn is_for(action: Action) -> spec_fn(Vote) -> bool {
    |v: Vote| v.action == action
}

/// The votes for `action`, in storage order.
pub open spec fn votes_for(rows: Seq<Vote>, action: Action) -> Seq<Vote> {
    rows.filter(is_for(action))
}

/// The test that a vote was last cast from `start` to `end`, both included.
pub open spec fn is_within(start: Timestamp, end: Timestamp) -> spec_fn(Vote) -> bool {
    |v: Vote| start@ <= v.updated_at@ <= end@
}

/// The key by which votes are put in order: the instant of the last vote.
pub open spec fn by_updated_at() -> spec_fn(Vote) -> int {
    |v: Vote| v.updated_at@
}

/// The later of two instants; the first where they are the same.
pub open spec fn later_of(a: Timestamp, b: Timestamp) -> Timestamp {
    if b@ > a@ {
        b
    } else {
        a
    }
}

/// The instant of the most recent vote, if there is any vote.
pub open spec fn latest_updated_at(rows: Seq<Vote>) -> Option<Timestamp>
    decreases rows.len(),
{
    if rows.len() == 0 {
        None
    } else {
        match latest_updated_at(rows.drop_last()) {
            None => Some(rows.last().updated_at),
            Some(t) => Some(later_of(t, rows.last().updated_at)),
        }
    }
}

/// The afternoon period of the instant `secs` seconds after the epoch.
pub open spec fn afternoon_period(secs: int) -> int {
    PeriodClock::afternoon().period_at(secs)
}

/// The test that a vote was last cast in the period `period` of `clock`.
pub open spec fn is_of_period(clock: PeriodClock, period: int) -> spec_fn(Vote) -> bool {
    |v: Vote| clock.period_at(v.updated_at@) == period
}

/// The period, on `clock`, of the most recent vote, if there is any vote.
pub open spec fn latest_period(clock: PeriodClock, rows: Seq<Vote>) -> Option<int> {
    match latest_updated_at(rows) {
        Some(t) => Some(clock.period_at(t@)),
        None => None,
    }
}

/// Whether a check in the period `current` finds the votes to be of an
/// earlier period, and so due for a reset.
pub open spec fn reset_due(clock: PeriodClock, rows: Seq<Vote>, current: int) -> bool {
    match latest_period(clock, rows) {
        Some(latest) => latest < current,
        None => false,
    }
}

/// The table after a check in the period `current`: emptied where a reset
/// was due, untouched otherwise.
pub open spec fn after_check(clock: PeriodClock, rows: Seq<Vote>, current: int) -> Seq<Vote> {
    if reset_due(clock, rows, current) {
        Seq::empty()
    } else {
        rows
    }
}

/// Whether a check at the instant `now`, by `clock`, turns the table
/// `before` into `after` and reports `reset`.
pub open spec fn is_check_at(
    clock: PeriodClock,
    before: Seq<Vote>,
    after: Seq<Vote>,
    reset: bool,
    now: Timestamp,
) -> bool {
    &&& reset == reset_due(clock, before, clock.period_at(now@))
    &&& after == after_check(clock, before, clock.period_at(now@))
}

/// With distinct users, a user's vote stands where a vote of theirs is seen.
pub proof fn lemma_row_of_user(rows: Seq<Vote>, user_id: i64, i: int)
    requires
        users_distinct(rows),
        0 <= i < rows.len(),
        rows[i].user_id == user_id,
    ensures
        row_of_user(rows, user_id) == Some(i),
        vote_of_user(rows, user_id) == Some(rows[i]),
{
    assert(has_voted(rows, user_id));
    let c = choose|k: int| 0 <= k < rows.len() && #[trigger] rows[k].user_id == user_id;
    if c < i {
        assert(rows[c].user_id != rows[i].user_id);
    } else if i < c {
        assert(rows[i].user_id != rows[c].user_id);
    }
}

/// A vote leaves the table with distinct users, and the voter with exactly
/// the vote just cast.
pub proof fn lemma_upserted(rows: Seq<Vote>, user_id: i64, action: Action, now: Timestamp)
    requires
        users_distinct(rows),
    ensures
        users_distinct(upserted(rows, user_id, action, now)),
        has_voted(upserted(rows, user_id, action, now), user_id),
        vote_of_user(upserted(rows, user_id, action, now), user_id) matches Some(v) && v.user_id
            == user_id && v.action == action && v.updated_at == now,
        forall|other: i64|
            other != user_id ==> vote_of_user(upserted(rows, user_id, action, now), other)
                == vote_of_user(rows, other),
        upserted(rows, user_id, action, now).len() == rows.len() + if has_voted(rows, user_id) {
            0int
        } else {
            1int
        },
{
    let after = upserted(rows, user_id, action, now);
    let at: int = match row_of_user(rows, user_id) {
        Some(i) => i,
        None => rows.len() as int,
    };
    assert(after.len() > at >= 0 && after[at].user_id == user_id);
    assert forall|i: int| 0 <= i < after.len() && i != at implies #[trigger] after[i] == rows[i]
        && rows[i].user_id != user_id by {
        if has_voted(rows, user_id) {
            if i < at {
                assert(rows[i].user_id != rows[at].user_id);
            } else {
                assert(rows[at].user_id != rows[i].user_id);
            }
        }
    }
    assert(users_distinct(after)) by {
        assert forall|i: int, j: int| 0 <= i < j < after.len() implies after[i].user_id
            != after[j].user_id by {
            if i != at && j != at {
                assert(rows[i].user_id != rows[j].user_id);
            }
        }
    }
    lemma_row_of_user(after, user_id, at);
    assert forall|other: i64| other != user_id implies vote_of_user(after, other) == vote_of_user(
        rows,
        other,
    ) by {
        if has_voted(rows, other) {
            let k = row_of_user(rows, other).unwrap();
            assert(k != at);
            assert(after[k] == rows[k]);
            lemma_row_of_user(after, other, k);
        } else if has_voted(after, other) {
            let k = row_of_user(after, other).unwrap();
            assert(k != at);
            assert(after[k] == rows[k]);
            assert(rows[k].user_id == other);
        }
    }
}

/// A user who votes twice has exactly one vote, and it holds what they chose
/// last.
pub proof fn lemma_second_vote_overwrites(
    rows: Seq<Vote>,
    user_id: i64,
    first: Action,
    first_at: Timestamp,
    second: Action,
    second_at: Timestamp,
)
    requires
        users_distinct(rows),
    ensures
        ({
            let once = upserted(rows, user_id, first, first_at);
            let twice = upserted(once, user_id, second, second_at);
            &&& twice.len() == once.len()
            &&& users_distinct(twice)
            &&& exists|i: int|
                {
                    &&& 0 <= i < twice.len()
                    &&& #[trigger] twice[i].user_id == user_id
                    &&& twice[i].action == second
                    &&& twice[i].updated_at == second_at
                    &&& forall|j: int|
                        0 <= j < twice.len() && j != i ==> #[trigger] twice[j].user_id != user_id
                }
        }),
{
    let once = upserted(rows, user_id, first, first_at);
    lemma_upserted(rows, user_id, first, first_at);
    let twice = upserted(once, user_id, second, second_at);
    lemma_upserted(once, user_id, second, second_at);
    let i = row_of_user(twice, user_id).unwrap();
    assert(twice[i].user_id == user_id);
    assert forall|j: int| 0 <= j < twice.len() && j != i implies #[trigger] twice[j].user_id
        != user_id by {
        if j < i {
            assert(twice[j].user_id != twice[i].user_id);
        } else {
            assert(twice[i].user_id != twice[j].user_id);
        }
    }
}

/// Every vote is for exactly one of the three actions: the three counts add
/// up to the number of votes.
pub proof fn lemma_counts_add_up(rows: Seq<Vote>)
    ensures
        votes_for(rows, Action::Found).len() + votes_for(rows, Action::NotFound).len() + votes_for(
            rows,
            Action::SoldOut,
        ).len() == rows.len(),
    decreases rows.len(),
{
    reveal(Seq::filter);
    if rows.len() > 0 {
        lemma_counts_add_up(rows.drop_last());
    }
}

/// The most recent instant is that of some vote, and no vote is later.
pub proof fn lemma_latest_is_greatest(rows: Seq<Vote>)
    ensures
        latest_updated_at(rows) is None <==> rows.len() == 0,
        latest_updated_at(rows) matches Some(t) ==> {
            &&& exists|i: int| 0 <= i < rows.len() && #[trigger] rows[i].updated_at == t
            &&& forall|i: int| 0 <= i < rows.len() ==> (#[trigger] rows[i]).updated_at@ <= t@
        },
    decreases rows.len(),
{
    if rows.len() > 0 {
        let front = rows.drop_last();
        lemma_latest_is_greatest(front);
        let t = latest_updated_at(rows).unwrap();
        if front.len() > 0 {
            let f = latest_updated_at(front).unwrap();
            let k = choose|i: int| 0 <= i < front.len() && #[trigger] front[i].updated_at == f;
            assert(rows[k] == front[k]);
            if t == f {
                assert(rows[k].updated_at == t);
            } else {
                assert(rows[rows.len() - 1].updated_at == t);
            }
            assert forall|i: int| 0 <= i < rows.len() implies (#[trigger] rows[i]).updated_at@
                <= t@ by {
                if i < front.len() {
                    assert(rows[i] == front[i]);
                }
            }
        } else {
            assert(rows[rows.len() - 1].updated_at == t);
        }
    }
}

/// A vote that is the latest resets nothing at the instant it is cast: where
/// no vote in the table is later than `now`, a check at `now`, right after a
/// vote at `now`, finds the table of the running period.
pub proof fn lemma_no_reset_right_after_vote(
    clock: PeriodClock,
    rows: Seq<Vote>,
    user_id: i64,
    action: Action,
    now: Timestamp,
)
    requires
        users_distinct(rows),
        forall|i: int| 0 <= i < rows.len() ==> (#[trigger] rows[i]).updated_at@ <= now@,
    ensures
        latest_updated_at(upserted(rows, user_id, action, now)) matches Some(t) && t@ == now@,
        is_check_at(
            clock,
            upserted(rows, user_id, action, now),
            upserted(rows, user_id, action, now),
            false,
            now,
        ),
{
    let after = upserted(rows, user_id, action, now);
    lemma_upserted(rows, user_id, action, now);
    lemma_latest_is_greatest(after);
    let at = row_of_user(after, user_id).unwrap();
    assert(after[at].updated_at == now);
    let t = latest_updated_at(after).unwrap();
    let k = choose|k: int| 0 <= k < after.len() && #[trigger] after[k].updated_at == t;
    if k != at {
        match row_of_user(rows, user_id) {
            Some(i) => {
                assert(i == at) by {
                    lemma_row_of_user(after, user_id, i);
                }
                assert(after[k] == rows[k]);
            },
            None => {
                assert(at == rows.len()) by {
                    lemma_row_of_user(after, user_id, rows.len() as int);
                }
                assert(after[k] == rows[k]);
            },
        }
        assert(rows[k].updated_at@ <= now@);
    }
    assert(after[at].updated_at@ <= t@);
}

/// Once the votes have been deleted, a check in any period resets nothing
/// and leaves the table empty.
pub proof fn lemma_no_reset_after_delete(clock: PeriodClock, current: int)
    ensures
        latest_updated_at(Seq::<Vote>::empty()) is None,
        !reset_due(clock, Seq::<Vote>::empty(), current),
        after_check(clock, Seq::<Vote>::empty(), current) == Seq::<Vote>::empty(),
{
}

/// Of two checks with no vote between them, the second resets nothing where
/// the first did reset, or where its period is not later than that of the
/// first.
pub proof fn lemma_second_check_is_idle(
    clock: PeriodClock,
    rows: Seq<Vote>,
    first: int,
    second: int,
)
    requires
        reset_due(clock, rows, first) || second <= first,
    ensures
        !reset_due(clock, after_check(clock, rows, first), second),
        after_check(clock, after_check(clock, rows, first), second) == after_check(
            clock,
            rows,
            first,
        ),
{
}

} // verus!
