//! Reconciliation: the check of the period, the tally, and the timeline,
//! run on every tick of the scheduler and after every vote.
//!
//! What is decided and computed stands here. Waiting for the tick, drawing
//! the chart and talking to the remote side is left to the caller, who then
//! brings the boards up to date with a run of `sync`. The scheduler holds
//! no store: the votes and the registry are handed to it with every call.

use crate::action::Action;
use crate::aggregate::{tally_of, Aggregate};
use crate::board_service::{BoardData, BoardService};
use crate::board_ui_service::BoardMessage;
use crate::chart_service::{
    falls_in, is_timeline_of, lemma_timeline_of_same_counts, slot_count, ChartService, Timeline,
};
use crate::error::RenderError;
use crate::order::lemma_arranged_keeps_counts;
use crate::period::{PeriodClock, AFTERNOON_BOUNDARY_HOUR};
use crate::sync::{SyncSession, SyncState, PACING_MILLIS};
use crate::time::Timestamp;
use crate::vote::{by_updated_at, is_check_at, upserted, vote_of_user, Vote};
use crate::vote_service::VoteService;
use vstd::prelude::*;

verus! {

/// How long the scheduler waits between two ticks, in seconds: an hour.
pub const TICK_INTERVAL_SECS: u64 = 3600;

/// What one reconciliation found.
#[derive(Debug, PartialEq, Eq)]
pub struct Reconciliation {
    /// Whether the votes were of an earlier period and have been deleted.
    pub reset: bool,
    /// The tally of the votes that are left.
    pub tally: Aggregate,
    /// The timeline of the votes that are left; refused where none is left.
    pub timeline: Result<Timeline, RenderError>,
}

/// Whether `timeline` is what a chart of `rows` shows, or the refusal that
/// is due where there is no vote.
pub open spec fn is_chart_of(timeline: Result<Timeline, RenderError>, rows: Seq<Vote>) -> bool {
    match timeline {
        Ok(t) => rows.len() > 0 && is_timeline_of(t, rows),
        Err(e) => rows.len() == 0 && e == RenderError::EmptyDataset,
    }
}

/// Whether `found` is what a reconciliation at `now`, by `clock`, finds of
/// `before`, and `after` what it leaves.
pub open spec fn is_reconciliation_of(
    clock: PeriodClock,
    found: Reconciliation,
    before: Seq<Vote>,
    after: Seq<Vote>,
    now: Timestamp,
) -> bool {
    &&& is_check_at(clock, before, after, found.reset, now)
    &&& found.tally == tally_of(after)
    &&& is_chart_of(found.timeline, after)
}

/// Records the vote of `user_id` for `action` at `now`.
pub fn record_vote(votes: &mut VoteService, user_id: i64, action: Action, now: Timestamp) -> (vote:
    Vote)
    ensures
        final(votes)@ == upserted(old(votes)@, user_id, action, now),
        vote_of_user(final(votes)@, user_id) == Some(vote),
        vote.user_id == user_id && vote.action == action && vote.updated_at == now,
{
    votes.update_vote(user_id, action, now)
}

/// What the reconciliation runs by: the clock that tells the periods apart,
/// the time between two ticks, and the pause between two boards.
#[derive(Clone, Copy, Debug, PartialEq, Eq, Structural)]
pub struct ReconciliationScheduler {
    /// The clock that tells the periods apart.
    pub clock: PeriodClock,
    /// How long to wait between two ticks, in seconds.
    pub tick_interval_secs: u64,
    /// How long to wait between two boards, in milliseconds.
    pub pacing_millis: u64,
}

impl ReconciliationScheduler {
    /// The usual scheduler: periods begin at noon, a tick comes every hour,
    /// and half a second lies between two boards.
    pub fn hourly_at_noon() -> (scheduler: ReconciliationScheduler)
        ensures
            scheduler.clock == PeriodClock::afternoon(),
            scheduler.clock.boundary() == AFTERNOON_BOUNDARY_HOUR,
            scheduler.tick_interval_secs == TICK_INTERVAL_SECS,
            scheduler.pacing_millis == PACING_MILLIS,
    {
        ReconciliationScheduler {
            clock: PeriodClock::jst_afternoon(),
            tick_interval_secs: TICK_INTERVAL_SECS,
            pacing_millis: PACING_MILLIS,
        }
    }

    /// Reconciles the votes at `now`: deletes them where they are of an
    /// earlier period, then counts them and makes their timeline.
    pub fn reconcile(&self, votes: &mut VoteService, now: Timestamp) -> (found: Reconciliation)
        ensures
            is_reconciliation_of(self.clock, found, old(votes)@, final(votes)@, now),
    {
        let reset: bool = votes.check_and_reset_votes_at(&self.clock, now);
        let tally: Aggregate = Aggregate::compute(votes);
        let ordered: Vec<Vote> = votes.get_all_votes();
        let timeline: Result<Timeline, RenderError> = ChartService::generate_vote_timeline_chart(
            &ordered,
        );
        proof {
            if timeline is Ok {
                let t = timeline->Ok_0;
                assert forall|action: Action, s: int|
                    slot_count(ordered@, action, s) == slot_count(votes@, action, s) by {
                    lemma_arranged_keeps_counts(votes@, by_updated_at(), falls_in(action, s));
                }
                lemma_timeline_of_same_counts(t, ordered@, votes@);
            }
        }
        Reconciliation { reset, tally, timeline }
    }

    /// One tick at `now`: reconciles the votes and lists the boards that are
    /// to be brought up to date, in storage order.
    pub fn tick(&self, votes: &mut VoteService, boards: &BoardService, now: Timestamp) -> (r: (
        Reconciliation,
        Vec<BoardData>,
    ))
        ensures
            is_reconciliation_of(self.clock, r.0, old(votes)@, final(votes)@, now),
            r.1@ == boards@,
    {
        let found: Reconciliation = self.reconcile(votes, now);
        (found, boards.get_all_board_data())
    }

    /// Records the vote of `user_id` for `action` at `now`, then reconciles
    /// as a tick does, so that the boards can be brought up to date at once.
    pub fn record_vote_and_sync(
        &self,
        votes: &mut VoteService,
        user_id: i64,
        action: Action,
        now: Timestamp,
    ) -> (r: (Vote, Reconciliation))
        ensures
            r.0.user_id == user_id && r.0.action == action && r.0.updated_at == now,
            vote_of_user(upserted(old(votes)@, user_id, action, now), user_id) == Some(r.0),
            is_reconciliation_of(
                self.clock,
                r.1,
                upserted(old(votes)@, user_id, action, now),
                final(votes)@,
                now,
            ),
    {
        let vote: Vote = record_vote(votes, user_id, action, now);
        let found: Reconciliation = self.reconcile(votes, now);
        (vote, found)
    }

    /// Begins the run that takes `message` to each of `targets`, in the
    /// order given, with the scheduler's pause between two of them.
    pub fn sync(&self, targets: Vec<BoardData>, message: BoardMessage) -> (session: SyncSession)
        ensures
            session@ == SyncState::initial(
                targets@,
                message.embed.image is Some,
                self.pacing_millis,
            ),
            session@.wf(),
            session.payload() == message,
    {
        SyncSession::begin_paced(targets, message, self.pacing_millis)
    }
}

} // verus!
