use vote_board::action::Action;
use vote_board::aggregate::Aggregate;
use vote_board::board_service::BoardService;
use vote_board::error::RenderError;
use vote_board::period::PeriodClock;
use vote_board::reconcile::{record_vote, ReconciliationScheduler, TICK_INTERVAL_SECS};
use vote_board::sync::{SyncEvent, SyncStep};
use vote_board::time::Timestamp;
use vote_board::vote::Vote;
use vote_board::vote_service::VoteService;

fn at(secs: i64) -> Timestamp {
    Timestamp::from_secs(secs).expect("instant within the accepted range")
}

// 2024-03-10T00:00:00Z is 09:00 in Tokyo.
const MARCH_10_UTC: i64 = 1_710_028_800;

/// The instant at which a Tokyo clock shows the given hour of March 10;
/// hours from 24 on are those of March 11.
fn tokyo_hour(hour: i64) -> Timestamp {
    at(MARCH_10_UTC - 9 * 3600 + hour * 3600)
}

#[test]
fn scheduler_ticks_every_hour() {
    assert_eq!(TICK_INTERVAL_SECS, 3600);
    let scheduler = ReconciliationScheduler::hourly_at_noon();
    assert_eq!(scheduler.tick_interval_secs, 3600);
    assert_eq!(scheduler.pacing_millis, 500);
    assert_eq!(scheduler.clock, PeriodClock::jst_afternoon());
    assert_eq!(scheduler.clock.boundary_hour(), 12);
}

#[test]
fn reconciliation_within_the_period_keeps_the_votes() {
    let mut store = VoteService::new();
    store.update_vote(1, Action::Found, tokyo_hour(14));
    store.update_vote(2, Action::SoldOut, tokyo_hour(15));
    let found = ReconciliationScheduler::hourly_at_noon().reconcile(&mut store, tokyo_hour(16));
    assert!(!found.reset);
    assert_eq!(
        found.tally,
        Aggregate {
            found: 1,
            not_found: 0,
            sold_out: 1,
            total: 2,
            latest_updated_at: Some(tokyo_hour(15)),
        }
    );
    let timeline = found.timeline.expect("there are votes");
    assert_eq!(timeline.series[0].totals[0], 1);
    assert_eq!(timeline.series[2].totals[59], 0);
    assert_eq!(timeline.series[2].totals[60], 1);
    assert_eq!(store.len(), 2);
}

#[test]
fn reconciliation_after_the_boundary_resets_the_votes() {
    let mut store = VoteService::new();
    store.update_vote(1, Action::Found, tokyo_hour(14));
    store.update_vote(2, Action::SoldOut, tokyo_hour(15));
    let found = ReconciliationScheduler::hourly_at_noon().reconcile(&mut store, tokyo_hour(24 + 12));
    assert!(found.reset);
    assert_eq!(
        found.tally,
        Aggregate { found: 0, not_found: 0, sold_out: 0, total: 0, latest_updated_at: None }
    );
    assert_eq!(found.timeline, Err(RenderError::EmptyDataset));
    assert_eq!(store.len(), 0);
    // The next tick finds nothing to reset.
    let again = ReconciliationScheduler::hourly_at_noon().reconcile(&mut store, tokyo_hour(24 + 13));
    assert!(!again.reset);
    assert_eq!(again.timeline, Err(RenderError::EmptyDataset));
}

#[test]
fn a_tick_lists_the_boards_in_storage_order() {
    let mut store = VoteService::new();
    let mut boards = BoardService::new();
    boards.create_board_data(10, 100, 1000, at(50)).expect("an identifier is left");
    boards.create_board_data(20, 200, 2000, at(40)).expect("an identifier is left");
    store.update_vote(1, Action::NotFound, tokyo_hour(14));
    let scheduler = ReconciliationScheduler::hourly_at_noon();
    let (found, targets) = scheduler.tick(&mut store, &boards, tokyo_hour(15));
    assert!(!found.reset);
    assert_eq!(found.tally.not_found, 1);
    assert_eq!(targets, boards.get_all_board_data());
    assert_eq!(targets[0].message_id, 1000);
    assert_eq!(targets[1].message_id, 2000);
}

#[test]
fn a_recorded_vote_is_in_the_store() {
    let mut store = VoteService::new();
    let vote = record_vote(&mut store, 42, Action::Found, at(100));
    assert_eq!(
        vote,
        Vote { user_id: 42, action: Action::Found, created_at: at(100), updated_at: at(100) }
    );
    let vote = record_vote(&mut store, 42, Action::NotFound, at(200));
    assert_eq!(
        vote,
        Vote { user_id: 42, action: Action::NotFound, created_at: at(100), updated_at: at(200) }
    );
    assert_eq!(store.get_all_votes(), vec![vote]);
}

#[test]
fn a_vote_is_recorded_and_reconciled_at_once() {
    let mut store = VoteService::new();
    store.update_vote(1, Action::Found, tokyo_hour(14));
    let scheduler = ReconciliationScheduler::hourly_at_noon();
    let (vote, found) =
        scheduler.record_vote_and_sync(&mut store, 2, Action::SoldOut, tokyo_hour(15));
    assert_eq!(vote.user_id, 2);
    assert_eq!(vote.action, Action::SoldOut);
    assert_eq!(vote.updated_at, tokyo_hour(15));
    assert!(!found.reset);
    assert_eq!(found.tally.total, 2);
    assert_eq!(found.tally.found, 1);
    assert_eq!(found.tally.sold_out, 1);
    assert_eq!(found.tally.latest_updated_at, Some(tokyo_hour(15)));
    assert!(found.timeline.is_ok());
}

#[test]
fn a_scheduler_of_its_own_clock_and_pace() {
    let scheduler = ReconciliationScheduler {
        clock: PeriodClock::new(5).expect("five is an hour of the day"),
        tick_interval_secs: 60,
        pacing_millis: 20,
    };
    let mut store = VoteService::new();
    let mut boards = BoardService::new();
    boards.create_board_data(10, 100, 1000, at(50)).expect("an identifier is left");
    boards.create_board_data(20, 200, 2000, at(40)).expect("an identifier is left");
    store.update_vote(1, Action::Found, tokyo_hour(3));
    // At five in the morning the period turns.
    let (found, _) = scheduler.tick(&mut store, &boards, tokyo_hour(4));
    assert!(!found.reset);
    let (found, targets) = scheduler.tick(&mut store, &boards, tokyo_hour(5));
    assert!(found.reset);
    assert_eq!(found.timeline, Err(RenderError::EmptyDataset));
    // The boards are taken at the scheduler's pace.
    let message = vote_board::board_ui_service::BoardUIService::create_board_embed_and_buttons(
        &store,
        tokyo_hour(5),
        false,
    );
    let mut session = scheduler.sync(targets, message);
    assert_eq!(
        session.advance(SyncEvent::Channel(Err(String::from("gone")))),
        SyncStep::Pause { millis: 20 }
    );
}
