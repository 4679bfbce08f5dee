//! The vote store, and the guard that empties it when the period has turned.

use crate::action::Action;
use crate::error::StoreError;
use crate::order::{arrange, arranged, ascends, lemma_arranged};
use crate::period::{Period, PeriodClock};
use crate::time::Timestamp;
use crate::vote::{
    after_check, afternoon_period, by_updated_at, changed_vote, first_vote, has_voted,
    is_check_at, is_for,
    is_of_period, is_within, latest_period, latest_updated_at, lemma_row_of_user, reset_due,
    upserted, users_distinct, vote_of_user, votes_for, Vote,
};
use vstd::prelude::*;

verus! {

/// The votes of the running period, one for each user who has voted, in the
/// order in which the users first voted.
pub struct VoteService {
    rows: Vec<Vote>,
}

impl View for VoteService {
    type V = Seq<Vote>;

    closed spec fn view(&self) -> Seq<Vote> {
        self.rows@
    }
}

impl VoteService {
    #[verifier::type_invariant]
    spec fn one_vote_per_user(self) -> bool {
        users_distinct(self.rows@)
    }

    /// A store without votes.
    pub fn new() -> (store: VoteService)
        ensures
            store@ == Seq::<Vote>::empty(),
    {
        VoteService { rows: Vec::new() }
    }

    /// A store of the given votes, if no user has two of them.
    pub fn from_votes(votes: Vec<Vote>) -> (r: Option<VoteService>)
        ensures
            r is Some <==> users_distinct(votes@),
            r matches Some(store) ==> store@ == votes@,
    {
        let mut j: usize = 0;
        while j < votes.len()
            invariant
                j <= votes.len(),
                users_distinct(votes@.take(j as int)),
            decreases votes.len() - j,
        {
            let mut i: usize = 0;
            while i < j
                invariant
                    i <= j < votes.len(),
                    forall|k: int| 0 <= k < i ==> votes[k].user_id != votes[j as int].user_id,
                decreases j - i,
            {
                if votes[i].user_id == votes[j].user_id {
                    return None;
                }
                i += 1;
            }
            j += 1;
        }
        proof {
            assert(votes@.take(j as int) =~= votes@);
        }
        Some(VoteService { rows: votes })
    }

    /// How many votes the store holds.
    pub fn len(&self) -> (n: usize)
        ensures
            n == self@.len(),
            users_distinct(self@),
    {
        proof {
            use_type_invariant(self);
        }
        self.rows.len()
    }

    /// Where the vote of `user_id` stands, if they have one.
    fn find(&self, user_id: i64) -> (r: Option<usize>)
        ensures
            users_distinct(self@),
            r is Some <==> has_voted(self@, user_id),
            r matches Some(i) ==> i < self@.len() && self@[i as int].user_id == user_id,
    {
        proof {
            use_type_invariant(self);
        }
        let mut i: usize = 0;
        while i < self.rows.len()
            invariant
                i <= self.rows.len(),
                users_distinct(self.rows@),
                forall|k: int| 0 <= k < i ==> self.rows[k].user_id != user_id,
            decreases self.rows.len() - i,
        {
            if self.rows[i].user_id == user_id {
                return Some(i);
            }
            i += 1;
        }
        None
    }

    /// Takes the votes out of the store, leaving it empty.
    fn take_rows(&mut self) -> (rows: Vec<Vote>)
        ensures
            rows@ == old(self)@,
            users_distinct(rows@),
            final(self)@ == Seq::<Vote>::empty(),
    {
        proof {
            use_type_invariant(&*self);
        }
        let mut rows: Vec<Vote> = Vec::new();
        core::mem::swap(&mut self.rows, &mut rows);
        rows
    }

    /// Records the first vote of a user. A user who has voted already is
    /// refused, and the store stays as it was.
    pub fn create_vote(&mut self, user_id: i64, action: Action, now: Timestamp) -> (r: Result<
        Vote,
        StoreError,
    >)
        ensures
            users_distinct(final(self)@),
            has_voted(old(self)@, user_id) ==> r == Err::<Vote, StoreError>(
                StoreError::DuplicateKey,
            ) && final(self)@ == old(self)@,
            !has_voted(old(self)@, user_id) ==> r == Ok::<Vote, StoreError>(
                first_vote(user_id, action, now),
            ) && final(self)@ == old(self)@.push(first_vote(user_id, action, now)),
    {
        match self.find(user_id) {
            Some(_) => Err(StoreError::DuplicateKey),
            None => {
                let vote = Vote { user_id, action, created_at: now, updated_at: now };
                let mut rows: Vec<Vote> = self.take_rows();
                rows.push(vote);
                *self = VoteService { rows };
                Ok(vote)
            },
        }
    }

    /// Records a vote: the user's earlier vote is overwritten, keeping the
    /// instant at which they first voted, or their first vote is added.
    /// Returns the vote as it now stands.
    pub fn update_vote(&mut self, user_id: i64, action: Action, now: Timestamp) -> (vote: Vote)
        ensures
            users_distinct(final(self)@),
            final(self)@ == upserted(old(self)@, user_id, action, now),
            vote_of_user(final(self)@, user_id) == Some(vote),
            vote.user_id == user_id && vote.action == action && vote.updated_at == now,
    {
        match self.find(user_id) {
            Some(i) => {
                let earlier: Vote = self.rows[i];
                let vote = Vote { user_id, action, created_at: earlier.created_at, updated_at: now };
                proof {
                    lemma_row_of_user(self.rows@, user_id, i as int);
                    assert(vote == changed_vote(earlier, action, now));
                    let after = self.rows@.update(i as int, vote);
                    assert forall|a: int, b: int| 0 <= a < b < after.len() implies after[a].user_id
                        != after[b].user_id by {
                        assert(self.rows@[a].user_id != self.rows@[b].user_id);
                    }
                    lemma_row_of_user(after, user_id, i as int);
                }
                let mut rows: Vec<Vote> = self.take_rows();
                rows.set(i, vote);
                *self = VoteService { rows };
                vote
            },
            None => {
                let vote = Vote { user_id, action, created_at: now, updated_at: now };
                proof {
                    let after = self.rows@.push(vote);
                    assert(users_distinct(after));
                    lemma_row_of_user(after, user_id, self.rows@.len() as int);
                }
                let mut rows: Vec<Vote> = self.take_rows();
                rows.push(vote);
                *self = VoteService { rows };
                vote
            },
        }
    }

    /// The votes for `action`, in storage order.
    pub fn get_vote_by_action(&self, action: Action) -> (votes: Vec<Vote>)
        ensures
            votes@ == votes_for(self@, action),
    {
        let mut votes: Vec<Vote> = Vec::new();
        let mut i: usize = 0;
        proof {
            reveal(Seq::filter);
        }
        while i < self.rows.len()
            invariant
                i <= self.rows.len(),
                votes@ == votes_for(self.rows@.take(i as int), action),
            decreases self.rows.len() - i,
        {
            proof {
                assert(self.rows@.take(i as int + 1) =~= self.rows@.take(i as int).push(
                    self.rows@[i as int],
                ));
                self.rows@.take(i as int).lemma_filter_push(self.rows@[i as int], is_for(action));
            }
            if self.rows[i].action == action {
                votes.push(self.rows[i]);
            }
            i += 1;
        }
        proof {
            assert(self.rows@.take(i as int) =~= self.rows@);
        }
        votes
    }

    /// How many votes are for `action`.
    pub fn count_votes_by_action(&self, action: Action) -> (count: u64)
        ensures
            count == votes_for(self@, action).len(),
    {
        let mut count: usize = 0;
        let mut i: usize = 0;
        proof {
            reveal(Seq::filter);
        }
        while i < self.rows.len()
            invariant
                i <= self.rows.len(),
                count <= i,
                count == votes_for(self.rows@.take(i as int), action).len(),
            decreases self.rows.len() - i,
        {
            proof {
                assert(self.rows@.take(i as int + 1) =~= self.rows@.take(i as int).push(
                    self.rows@[i as int],
                ));
                self.rows@.take(i as int).lemma_filter_push(self.rows@[i as int], is_for(action));
            }
            if self.rows[i].action == action {
                count += 1;
            }
            i += 1;
        }
        proof {
            assert(self.rows@.take(i as int) =~= self.rows@);
        }
        count as u64
    }

    /// All votes, the one cast longest ago first; votes cast at the same
    /// instant come in storage order.
    pub fn get_all_votes(&self) -> (votes: Vec<Vote>)
        ensures
            votes@ == arranged(self@, by_updated_at()),
            ascends(votes@, by_updated_at()),
            votes@.len() == self@.len(),
            votes@.to_multiset() == self@.to_multiset(),
    {
        proof {
            lemma_arranged(self@, by_updated_at());
        }
        sort_by_updated_at(&self.rows)
    }

    /// The votes last cast from `start_date` to `end_date`, both included,
    /// the one cast longest ago first.
    pub fn get_votes_in_range(&self, start_date: Timestamp, end_date: Timestamp) -> (votes: Vec<
        Vote,
    >)
        ensures
            votes@ == arranged(self@.filter(is_within(start_date, end_date)), by_updated_at()),
    {
        let mut picked: Vec<Vote> = Vec::new();
        let mut i: usize = 0;
        proof {
            reveal(Seq::filter);
        }
        while i < self.rows.len()
            invariant
                i <= self.rows.len(),
                picked@ == self.rows@.take(i as int).filter(is_within(start_date, end_date)),
            decreases self.rows.len() - i,
        {
            proof {
                assert(self.rows@.take(i as int + 1) =~= self.rows@.take(i as int).push(
                    self.rows@[i as int],
                ));
                self.rows@.take(i as int).lemma_filter_push(
                    self.rows@[i as int],
                    is_within(start_date, end_date),
                );
            }
            let at: i64 = self.rows[i].updated_at.secs();
            if start_date.secs() <= at && at <= end_date.secs() {
                picked.push(self.rows[i]);
            }
            i += 1;
        }
        proof {
            assert(self.rows@.take(i as int) =~= self.rows@);
        }
        sort_by_updated_at(&picked)
    }

    /// The votes last cast in the period `period` of `clock`, the one cast
    /// longest ago first.
    pub fn get_votes_in_period(&self, clock: &PeriodClock, period: Period) -> (votes: Vec<Vote>)
        ensures
            votes@ == arranged(self@.filter(is_of_period(*clock, period@)), by_updated_at()),
    {
        let mut picked: Vec<Vote> = Vec::new();
        let mut i: usize = 0;
        proof {
            reveal(Seq::filter);
        }
        while i < self.rows.len()
            invariant
                i <= self.rows.len(),
                picked@ == self.rows@.take(i as int).filter(is_of_period(*clock, period@)),
            decreases self.rows.len() - i,
        {
            proof {
                assert(self.rows@.take(i as int + 1) =~= self.rows@.take(i as int).push(
                    self.rows@[i as int],
                ));
                self.rows@.take(i as int).lemma_filter_push(
                    self.rows@[i as int],
                    is_of_period(*clock, period@),
                );
            }
            if clock.period_of(self.rows[i].updated_at).day_number() == period.day_number() {
                picked.push(self.rows[i]);
            }
            i += 1;
        }
        proof {
            assert(self.rows@.take(i as int) =~= self.rows@);
        }
        sort_by_updated_at(&picked)
    }

    /// Deletes every vote and returns how many there were.
    pub fn delete_all_vote(&mut self) -> (deleted: u64)
        ensures
            final(self)@ == Seq::<Vote>::empty(),
            deleted == old(self)@.len(),
    {
        let deleted: usize = self.rows.len();
        *self = VoteService { rows: Vec::new() };
        deleted as u64
    }

    /// The instant of the most recent vote, if there is any vote.
    pub fn get_latest_vote_updated_at(&self) -> (latest: Option<Timestamp>)
        ensures
            latest == latest_updated_at(self@),
    {
        let mut latest: Option<Timestamp> = None;
        let mut i: usize = 0;
        while i < self.rows.len()
            invariant
                i <= self.rows.len(),
                latest == latest_updated_at(self.rows@.take(i as int)),
            decreases self.rows.len() - i,
        {
            proof {
                assert(self.rows@.take(i as int + 1).drop_last() =~= self.rows@.take(i as int));
            }
            let at: Timestamp = self.rows[i].updated_at;
            latest =
            match latest {
                None => Some(at),
                Some(t) => if at.secs() > t.secs() {
                    Some(at)
                } else {
                    Some(t)
                },
            };
            i += 1;
        }
        proof {
            assert(self.rows@.take(i as int) =~= self.rows@);
        }
        latest
    }

    /// The afternoon period of the present instant, if the system clock
    /// shows an instant that the board accepts. Whatever the clock shows,
    /// the result is the afternoon period of some instant.
    pub fn get_current_jst_afternoon_period() -> (r: Option<Period>)
        ensures
            r matches Some(p) ==> exists|now: Timestamp| p@ == #[trigger] afternoon_period(now@),
    {
        let clock: PeriodClock = PeriodClock::jst_afternoon();
        let r: Option<Period> = clock.current_period();
        proof {
            if let Some(p) = r {
                let now = choose|now: Timestamp| p@ == #[trigger] clock.period_at(now@);
                assert(p@ == afternoon_period(now@));
            }
        }
        r
    }

    /// The period, on `clock`, of the most recent vote, if there is any
    /// vote.
    pub fn get_latest_vote_period(&self, clock: &PeriodClock) -> (r: Option<Period>)
        ensures
            r is Some <==> self@.len() > 0,
            match r {
                Some(p) => latest_period(*clock, self@) == Some(p@),
                None => latest_period(*clock, self@) is None,
            },
    {
        proof {
            crate::vote::lemma_latest_is_greatest(self@);
        }
        match self.get_latest_vote_updated_at() {
            Some(t) => Some(clock.period_of(t)),
            None => None,
        }
    }

    /// The afternoon period of the most recent vote, if there is any vote.
    pub fn get_latest_vote_jst_afternoon_period(&self) -> (r: Option<Period>)
        ensures
            r is Some <==> self@.len() > 0,
            match r {
                Some(p) => latest_period(PeriodClock::afternoon(), self@) == Some(p@),
                None => latest_period(PeriodClock::afternoon(), self@) is None,
            },
    {
        self.get_latest_vote_period(&PeriodClock::jst_afternoon())
    }

    /// Checks, at the instant `now`, whether the votes are of an earlier
    /// period of `clock` than the running one, and deletes them all if so.
    /// Returns whether it did.
    pub fn check_and_reset_votes_at(&mut self, clock: &PeriodClock, now: Timestamp) -> (reset:
        bool)
        ensures
            is_check_at(*clock, old(self)@, final(self)@, reset, now),
    {
        let current: Period = clock.period_of(now);
        self.check_and_reset_votes_in(clock, current)
    }

    /// Checks, in the period `current`, whether the votes are of an earlier
    /// period of `clock`, and deletes them all if so. Returns whether it
    /// did.
    pub fn check_and_reset_votes_in(&mut self, clock: &PeriodClock, current: Period) -> (reset:
        bool)
        ensures
            reset == reset_due(*clock, old(self)@, current@),
            final(self)@ == after_check(*clock, old(self)@, current@),
    {
        match self.get_latest_vote_period(clock) {
            Some(latest) => {
                if latest.is_before(&current) {
                    self.delete_all_vote();
                    true
                } else {
                    false
                }
            },
            None => false,
        }
    }

    /// Checks, at the present instant, whether the votes are of an earlier
    /// afternoon period than the running one, and deletes them all if so.
    /// Returns whether it did. Where the system clock shows an instant that
    /// the board does not accept, nothing is deleted.
    ///
    /// Whatever the clock shows, the store is emptied or left as it was, and
    /// a store without votes is left as it was.
    pub fn check_and_reset_votes_if_new_day(&mut self) -> (reset: bool)
        ensures
            (exists|now: Timestamp| #[trigger]
                is_check_at(PeriodClock::afternoon(), old(self)@, final(self)@, reset, now)) || (
            !reset && final(self)@ == old(self)@),
            reset ==> old(self)@.len() > 0 && final(self)@ == Seq::<Vote>::empty(),
            !reset ==> final(self)@ == old(self)@,
    {
        match Timestamp::now() {
            Some(now) => {
                let reset: bool = self.check_and_reset_votes_at(&PeriodClock::jst_afternoon(), now);
                proof {
                    assert(is_check_at(PeriodClock::afternoon(), old(self)@, self@, reset, now));
                }
                reset
            },
            None => false,
        }
    }
}

/// The votes, the one cast longest ago first.
fn sort_by_updated_at(rows: &Vec<Vote>) -> (votes: Vec<Vote>)
    ensures
        votes@ == arranged(rows@, by_updated_at()),
{
    let mut keys: Vec<i64> = Vec::new();
    let mut i: usize = 0;
    while i < rows.len()
        invariant
            i <= rows.len(),
            keys.len() == i,
            forall|k: int| 0 <= k < i ==> keys[k] == by_updated_at()(#[trigger] rows[k]),
        decreases rows.len() - i,
    {
        keys.push(rows[i].updated_at.secs());
        i += 1;
    }
    arrange(rows, &keys, Ghost(by_updated_at()))
}

} // verus!
