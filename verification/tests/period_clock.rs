use vote_board::period::{Period, PeriodClock, AFTERNOON_BOUNDARY_HOUR};
use vote_board::time::{Timestamp, MAX_SECS, MIN_SECS};

fn at(secs: i64) -> Timestamp {
    Timestamp::from_secs(secs).expect("instant within the accepted range")
}

// 2024-03-10T00:00:00Z is 09:00 in Tokyo on day 738955, a Sunday.
const MARCH_10_UTC: i64 = 1_710_028_800;
const MARCH_10: i64 = 738_955;
const HOUR: i64 = 3600;

/// The instant at which a Tokyo clock shows the given time on March 10.
fn tokyo_march_10(hour: i64, minute: i64, second: i64) -> Timestamp {
    at(MARCH_10_UTC - 9 * HOUR + hour * HOUR + minute * 60 + second)
}

#[test]
fn afternoon_votes_share_the_period_of_their_date() {
    let clock = PeriodClock::jst_afternoon();
    assert_eq!(clock.period_of(tokyo_march_10(13, 0, 0)), Period::from_day_number(MARCH_10));
    assert_eq!(clock.period_of(tokyo_march_10(23, 0, 0)), Period::from_day_number(MARCH_10));
}

#[test]
fn morning_vote_belongs_to_the_period_before() {
    let clock = PeriodClock::jst_afternoon();
    // 11:00 on March 11 is still the period of March 10.
    assert_eq!(clock.period_of(tokyo_march_10(24 + 11, 0, 0)), Period::from_day_number(MARCH_10));
    assert_eq!(clock.period_of(tokyo_march_10(24, 0, 0)), Period::from_day_number(MARCH_10));
}

#[test]
fn period_changes_at_noon_sharp() {
    let clock = PeriodClock::jst_afternoon();
    let last_second = clock.period_of(tokyo_march_10(24 + 11, 59, 59));
    let noon = clock.period_of(tokyo_march_10(24 + 12, 0, 0));
    assert_eq!(last_second, Period::from_day_number(MARCH_10));
    assert_eq!(noon, Period::from_day_number(MARCH_10 + 1));
    assert!(last_second.is_before(&noon));
    assert!(!noon.is_before(&last_second));
    assert!(!noon.is_before(&noon));
}

#[test]
fn period_is_stable_for_a_whole_day_after_the_boundary() {
    let clock = PeriodClock::jst_afternoon();
    let start = MARCH_10_UTC + 3 * HOUR;
    let mut offset = 0;
    while offset < 24 * HOUR {
        assert_eq!(clock.period_of(at(start + offset)).day_number(), MARCH_10);
        offset += 17 * 60 + 13;
    }
    assert_eq!(clock.period_of(at(start - 1)).day_number(), MARCH_10 - 1);
    assert_eq!(clock.period_of(at(start + 24 * HOUR - 1)).day_number(), MARCH_10);
    assert_eq!(clock.period_of(at(start + 24 * HOUR)).day_number(), MARCH_10 + 1);
}

#[test]
fn period_is_the_count_of_days_since_a_boundary() {
    let clock = PeriodClock::jst_afternoon();
    let samples: [i64; 8] = [
        0,
        1,
        10_799,
        10_800,
        86_399,
        1_710_039_599,
        1_710_039_600,
        4_102_444_800,
    ];
    for secs in samples {
        let expected = (secs + 32_400 - 12 * HOUR).div_euclid(86_400) + 719_163;
        assert_eq!(clock.period_of(at(secs)).day_number(), expected, "at {secs}");
    }
}

#[test]
fn period_just_before_the_epoch() {
    let clock = PeriodClock::jst_afternoon();
    // 1969-12-31T02:59:59Z is 11:59:59 in Tokyo, 03:00:00Z is noon.
    assert_eq!(clock.period_of(at(-75_601)).day_number(), 719_161);
    assert_eq!(clock.period_of(at(-75_600)).day_number(), 719_162);
}

#[test]
fn summer_time_of_1950_moves_the_boundary() {
    let clock = PeriodClock::jst_afternoon();
    // 1950-07-01T02:30:00Z: the Tokyo clock ran ten hours ahead and showed
    // 12:30, past the boundary.
    assert_eq!(clock.period_of(at(-615_504_600)).day_number(), 712_039);
    // An hour earlier it showed 11:30.
    assert_eq!(clock.period_of(at(-615_504_600 - HOUR)).day_number(), 712_038);
}

#[test]
fn local_mean_time_before_1888() {
    let clock = PeriodClock::jst_afternoon();
    // 1880-06-15T02:50:00Z: local mean time was 9:18:59 ahead, so the
    // clock showed 12:08:59.
    assert_eq!(clock.period_of(at(-2_825_788_200)).day_number(), 686_457);
    // Ten minutes earlier it showed 11:58:59.
    assert_eq!(clock.period_of(at(-2_825_788_200 - 600)).day_number(), 686_456);
}

#[test]
fn boundary_hour_can_be_chosen() {
    let clock = PeriodClock::new(5).expect("five is an hour of the day");
    assert_eq!(clock.boundary_hour(), 5);
    assert_eq!(clock.period_of(tokyo_march_10(4, 59, 59)).day_number(), MARCH_10 - 1);
    assert_eq!(clock.period_of(tokyo_march_10(5, 0, 0)).day_number(), MARCH_10);
    let midnight = PeriodClock::new(0).expect("zero is an hour of the day");
    assert_eq!(midnight.period_of(tokyo_march_10(0, 0, 0)).day_number(), MARCH_10);
    assert_eq!(midnight.period_of(tokyo_march_10(23, 59, 59)).day_number(), MARCH_10);
}

#[test]
fn boundary_hour_must_be_on_the_dial() {
    assert!(PeriodClock::new(23).is_some());
    assert!(PeriodClock::new(24).is_none());
    assert!(PeriodClock::new(u32::MAX).is_none());
    assert_eq!(PeriodClock::jst_afternoon().boundary_hour(), AFTERNOON_BOUNDARY_HOUR);
    assert_eq!(AFTERNOON_BOUNDARY_HOUR, 12);
}

#[test]
fn instants_outside_the_range_are_refused() {
    assert!(Timestamp::from_secs(MIN_SECS).is_some());
    assert!(Timestamp::from_secs(MAX_SECS).is_some());
    assert!(Timestamp::from_secs(MIN_SECS - 1).is_none());
    assert!(Timestamp::from_secs(MAX_SECS + 1).is_none());
    assert!(Timestamp::from_secs(i64::MIN).is_none());
    assert!(Timestamp::from_secs(i64::MAX).is_none());
    assert_eq!(at(1_710_028_800).secs(), 1_710_028_800);
}

#[test]
fn ends_of_the_range_have_periods() {
    let clock = PeriodClock::jst_afternoon();
    // 0001-01-01T00:00:00Z, under local mean time 09:18:59 on day 1.
    assert_eq!(clock.period_of(at(MIN_SECS)).day_number(), 0);
    // 9999-12-31T23:59:59Z is 08:59:59 on the first day of the year 10000.
    assert_eq!(clock.period_of(at(MAX_SECS)).day_number(), 3_652_059);
}

#[test]
fn current_period_is_that_of_now() {
    let clock = PeriodClock::jst_afternoon();
    let before = Timestamp::now().expect("the system clock is within the accepted range");
    let current = clock.current_period().expect("the system clock is within the accepted range");
    let after = Timestamp::now().expect("the system clock is within the accepted range");
    assert!(!current.is_before(&clock.period_of(before)));
    assert!(!clock.period_of(after).is_before(&current));
}
