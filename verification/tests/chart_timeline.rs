use vote_board::action::Action;
use vote_board::chart_service::{
    tick_slots, time_labels, ChartService, Mark, END_HOUR, FIRST_HOUR, SLOTS, TICK_MINUTES,
};
use vote_board::error::RenderError;
use vote_board::time::Timestamp;
use vote_board::vote::Vote;

fn at(secs: i64) -> Timestamp {
    Timestamp::from_secs(secs).expect("instant within the accepted range")
}

// 2024-03-10T00:00:00Z is 09:00 in Tokyo.
const MARCH_10_UTC: i64 = 1_710_028_800;

/// A vote last cast when a Tokyo clock showed the given time on March 10.
fn vote(user_id: i64, action: Action, hour: i64, minute: i64, second: i64) -> Vote {
    let t = at(MARCH_10_UTC - 9 * 3600 + hour * 3600 + minute * 60 + second);
    Vote { user_id, action, created_at: t, updated_at: t }
}

#[test]
fn no_votes_no_chart() {
    assert_eq!(ChartService::generate_vote_timeline_chart(&vec![]), Err(RenderError::EmptyDataset));
}

#[test]
fn chart_runs_from_two_to_eight_in_the_afternoon() {
    assert_eq!(FIRST_HOUR, 14);
    assert_eq!(END_HOUR, 20);
    assert_eq!(SLOTS, 360);
    assert_eq!(TICK_MINUTES, 30);
    let labels = time_labels();
    assert_eq!(labels.len(), 360);
    assert_eq!(labels[0], "14:00");
    assert_eq!(labels[1], "14:01");
    assert_eq!(labels[59], "14:59");
    assert_eq!(labels[60], "15:00");
    assert_eq!(labels[309], "19:09");
    assert_eq!(labels[359], "19:59");
    assert_eq!(tick_slots(), vec![0, 30, 60, 90, 120, 150, 180, 210, 240, 270, 300, 330]);
}

#[test]
fn lines_count_the_votes_minute_by_minute() {
    let votes = vec![
        vote(1, Action::Found, 14, 0, 0),
        vote(2, Action::Found, 14, 0, 59),
        vote(3, Action::SoldOut, 15, 30, 0),
        vote(4, Action::Found, 15, 30, 1),
        vote(5, Action::NotFound, 19, 59, 59),
        vote(6, Action::Found, 16, 0, 0),
    ];
    let timeline = ChartService::generate_vote_timeline_chart(&votes).expect("there are votes");
    assert_eq!(timeline.labels, time_labels());
    assert_eq!(timeline.ticks, tick_slots());
    assert_eq!(timeline.series.len(), 3);

    let found = &timeline.series[0];
    assert_eq!(found.action, Action::Found);
    assert_eq!(found.totals.len(), 360);
    assert_eq!(found.totals[0], 2);
    assert_eq!(found.totals[89], 2);
    assert_eq!(found.totals[90], 3);
    assert_eq!(found.totals[119], 3);
    assert_eq!(found.totals[120], 4);
    assert_eq!(found.totals[359], 4);
    assert_eq!(
        found.marks,
        vec![
            Mark { slot: 0, total: 2 },
            Mark { slot: 90, total: 3 },
            Mark { slot: 120, total: 4 },
        ]
    );

    let not_found = &timeline.series[1];
    assert_eq!(not_found.action, Action::NotFound);
    assert_eq!(not_found.totals[358], 0);
    assert_eq!(not_found.totals[359], 1);
    assert_eq!(not_found.marks, vec![Mark { slot: 359, total: 1 }]);

    let sold_out = &timeline.series[2];
    assert_eq!(sold_out.action, Action::SoldOut);
    assert_eq!(sold_out.totals[89], 0);
    assert_eq!(sold_out.totals[90], 1);
    assert_eq!(sold_out.totals[359], 1);
    assert_eq!(sold_out.marks, vec![Mark { slot: 90, total: 1 }]);
}

#[test]
fn votes_outside_the_hours_of_the_chart_are_not_drawn() {
    let votes = vec![
        vote(1, Action::Found, 13, 59, 59),
        vote(2, Action::Found, 20, 0, 0),
        vote(3, Action::Found, 23, 30, 0),
        vote(4, Action::Found, 9, 0, 0),
    ];
    let timeline = ChartService::generate_vote_timeline_chart(&votes).expect("there are votes");
    for series in &timeline.series {
        assert_eq!(series.totals, vec![0; 360]);
        assert_eq!(series.marks, vec![]);
    }
}

#[test]
fn totals_never_fall() {
    let mut votes = Vec::new();
    for user in 0..200 {
        let action = match user % 3 {
            0 => Action::Found,
            1 => Action::NotFound,
            _ => Action::SoldOut,
        };
        votes.push(vote(user, action, 13 + (user * 7) % 9, (user * 13) % 60, user % 60));
    }
    let timeline = ChartService::generate_vote_timeline_chart(&votes).expect("there are votes");
    let mut drawn = 0;
    for series in &timeline.series {
        for slot in 1..360 {
            assert!(series.totals[slot - 1] <= series.totals[slot]);
        }
        for mark in &series.marks {
            assert_eq!(series.totals[mark.slot], mark.total);
            let before = if mark.slot == 0 { 0 } else { series.totals[mark.slot - 1] };
            assert!(before < mark.total);
        }
        drawn += series.totals[359];
    }
    let on_chart = (0..200).filter(|user| (14..20).contains(&(13 + (user * 7) % 9))).count();
    assert_eq!(drawn, on_chart as u64);
}
