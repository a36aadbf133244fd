use rsdroid::timing::{
    normalized_rollover_hour, sched_timing_today, SchedTimingToday, TimingError, MAX_INSTANT,
};

fn timing(created: i64, created_west: i32, now: i64, now_west: i32, rollover: i8) -> SchedTimingToday {
    sched_timing_today(created, created_west, now, now_west, rollover).unwrap()
}

#[test]
fn before_rollover_on_the_next_day_is_still_day_zero() {
    let t = timing(0, 0, 86400 + 3 * 3600 + 59 * 60, 0, 4);
    assert_eq!(t.days_elapsed, 0);
    assert_eq!(t.next_day_at, 86400 + 4 * 3600);
}

#[test]
fn rollover_on_the_next_day_starts_day_one() {
    let t = timing(0, 0, 86400 + 4 * 3600, 0, 4);
    assert_eq!(t.days_elapsed, 1);
    assert_eq!(t.next_day_at, 2 * 86400 + 4 * 3600);
}

#[test]
fn a_zone_change_does_not_drift_the_day_count() {
    let created = 12 * 3600;
    let now = created + 86400;
    assert_eq!(timing(created, 0, now, 60, 4).days_elapsed, 1);
    assert_eq!(timing(created, 0, now, -60, 4).days_elapsed, 1);
    assert_eq!(timing(created, 0, now, 0, 4).days_elapsed, 1);
}

#[test]
fn same_result_on_a_second_call() {
    let a = sched_timing_today(1_600_000_000, -120, 1_650_000_000, -60, 4);
    let b = sched_timing_today(1_600_000_000, -120, 1_650_000_000, -60, 4);
    assert_eq!(a, b);
}

#[test]
fn later_now_never_goes_back() {
    let created = 1_600_000_000;
    let mut prev = timing(created, 300, created, 300, 4);
    let mut now = created;
    while now < created + 10 * 86400 {
        now += 1800;
        let t = timing(created, 300, now, 300, 4);
        assert!(t.days_elapsed >= prev.days_elapsed);
        assert!(t.next_day_at >= prev.next_day_at);
        assert!(t.next_day_at > now);
        prev = t;
    }
    assert_eq!(prev.days_elapsed, 10);
}

#[test]
fn a_boundary_belongs_to_the_new_day() {
    // UTC+5:30, so the local 04:00 boundary falls on a half hour in UTC.
    let boundary = 86400 + 4 * 3600 - 330 * 60;
    let at = timing(0, -330, boundary, -330, 4);
    let before = timing(0, -330, boundary - 1, -330, 4);
    assert_eq!(at.days_elapsed, 1);
    assert_eq!(at.next_day_at, boundary + 86400);
    assert_eq!(before.days_elapsed, 0);
    assert_eq!(before.next_day_at, boundary);
}

#[test]
fn same_offset_counts_whole_days_from_the_creation_day_start() {
    let west = 120;
    let created = 36000;
    let now = 5 * 86400 + 50000;
    let local_now = now - (west as i64) * 60;
    let local_created = created - (west as i64) * 60;
    let local_creation_day_start = local_created.div_euclid(86400) * 86400 + 4 * 3600;
    let expected = (local_now - local_creation_day_start).div_euclid(86400);
    assert_eq!(expected, 5);
    assert_eq!(timing(created, west, now, west, 4).days_elapsed as i64, expected);
}

#[test]
fn now_before_creation_counts_zero_days() {
    let created = 10 * 86400 + 23 * 3600;
    let now = created - 3600;
    // Ten hours east of UTC, local now is already the next morning.
    let t = timing(created, 0, now, -600, 4);
    assert_eq!(t.days_elapsed, 0);
    assert_eq!(t.next_day_at, 12 * 86400 + 4 * 3600 - 600 * 60);
}

#[test]
fn midnight_rollover() {
    let t = timing(0, 0, 86399, 0, 0);
    assert_eq!(t.days_elapsed, 0);
    assert_eq!(t.next_day_at, 86400);
    let t = timing(0, 0, 86400, 0, 0);
    assert_eq!(t.days_elapsed, 1);
    assert_eq!(t.next_day_at, 2 * 86400);
}

#[test]
fn negative_rollover_counts_back_from_midnight() {
    let t = timing(0, 0, 86400 + 23 * 3600, 0, -1);
    assert_eq!(t, timing(0, 0, 86400 + 23 * 3600, 0, 23));
    assert_eq!(t.days_elapsed, 1);
    assert_eq!(t.next_day_at, 2 * 86400 + 23 * 3600);
}

#[test]
fn rollover_normalization() {
    assert_eq!(normalized_rollover_hour(0), Some(0));
    assert_eq!(normalized_rollover_hour(4), Some(4));
    assert_eq!(normalized_rollover_hour(23), Some(23));
    assert_eq!(normalized_rollover_hour(-1), Some(23));
    assert_eq!(normalized_rollover_hour(-23), Some(1));
    assert_eq!(normalized_rollover_hour(24), None);
    assert_eq!(normalized_rollover_hour(-24), None);
    assert_eq!(normalized_rollover_hour(i8::MAX), None);
    assert_eq!(normalized_rollover_hour(i8::MIN), None);
}

#[test]
fn unnormalizable_rollover_is_refused() {
    assert_eq!(sched_timing_today(0, 0, 86400, 0, 24), Err(TimingError::InvalidRollover));
    assert_eq!(sched_timing_today(0, 0, 86400, 0, -100), Err(TimingError::InvalidRollover));
}

#[test]
fn decades_of_days_do_not_overflow() {
    let t = timing(0, 0, MAX_INSTANT, 0, 0);
    assert_eq!(t.days_elapsed, 2_932_896);
    assert_eq!(t.next_day_at, 253_402_300_800);
    let t = timing(0, i32::MAX, MAX_INSTANT, i32::MIN, 23);
    assert!(t.next_day_at > MAX_INSTANT);
}
