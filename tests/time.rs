use std::time::Duration;

use tikv_node::time::{
    duration_at_least, duration_to_ms, duration_to_nanos, elapsed_duration, jumped_back,
    monotonic_coarse_now, monotonic_now, monotonic_raw_now, checked_since, timespec_from_reading,
    Instant, SlowTimer, Timespec,
};

#[test]
fn test_duration_to() {
    let tbl = vec![0, 100, 1_000, 5_000, 9999, 1_000_000, 1_000_000_000];
    for ms in tbl {
        let d = Duration::from_millis(ms);
        assert_eq!(ms, duration_to_ms(d));
        assert_eq!(ms * 1_000_000, duration_to_nanos(d));
    }
}

#[test]
fn test_now() {
    let pairs = vec![
        (monotonic_raw_now(), monotonic_raw_now()),
        (monotonic_now(), monotonic_now()),
        (monotonic_coarse_now(), monotonic_coarse_now()),
    ];
    for (early_time, late_time) in pairs {
        // The monotonic clocktime must be strictly monotonic increasing.
        assert!(
            late_time >= early_time,
            "expect late time {:?} >= early time {:?}",
            late_time,
            early_time
        );
    }
}

#[test]
fn test_instant() {
    Instant::now().elapsed();
    Instant::now_coarse().elapsed();

    // Ordering.
    let early_raw = Instant::now();
    let late_raw = Instant::now();
    assert!(early_raw <= late_raw);
    assert!(late_raw >= early_raw);

    assert_eq!(early_raw, early_raw);
    assert!(early_raw >= early_raw);
    assert!(early_raw <= early_raw);

    let early_coarse = Instant::now_coarse();
    let late_coarse = Instant::now_coarse();
    assert!(late_coarse >= early_coarse);
    assert!(early_coarse <= late_coarse);

    assert_eq!(early_coarse, early_coarse);
    assert!(early_coarse >= early_coarse);
    assert!(early_coarse <= early_coarse);

    let zero = Duration::new(0, 0);
    // Sub Instant.
    assert!(late_raw - early_raw > zero);
    assert!(late_coarse - early_coarse >= zero);

    // Sub Duration.
    assert_eq!(late_raw - zero, late_raw);
    assert_eq!(late_coarse - zero, late_coarse);

    // Add Duration.
    assert_eq!(late_raw + zero, late_raw);
    assert_eq!(late_coarse + zero, late_coarse);
}

#[test]
fn duration_to_ms_rounds_down() {
    assert_eq!(duration_to_ms(Duration::new(1, 999_999)), 1000);
    assert_eq!(duration_to_ms(Duration::new(2, 1_500_000)), 2001);
    assert_eq!(duration_to_nanos(Duration::new(3, 7)), 3_000_000_007);
}

#[test]
fn elapsed_duration_borrows_a_second() {
    let later = Timespec::new(5, 100);
    let earlier = Timespec::new(3, 900_000_000);
    assert_eq!(elapsed_duration(later, earlier), Duration::new(1, 100_000_100));
    assert_eq!(elapsed_duration(later, later), Duration::new(0, 0));
}

#[test]
fn elapsed_is_nothing_for_an_earlier_clock() {
    let start = Timespec::new(10, 0);
    let now = Timespec::new(9, 500);
    assert_eq!(checked_since(now, start), None);
    assert_eq!(checked_since(start, now), Some(Duration::new(0, 999_999_500)));
    assert_eq!(checked_since(start, start), Some(Duration::new(0, 0)));
}

#[test]
fn instant_add_then_sub_round_trips() {
    let t = Instant::Monotonic(Timespec::new(7, 800_000_000));
    let d = Duration::new(2, 300_000_000);
    let later = t + d;
    assert_eq!(later, Instant::Monotonic(Timespec::new(10, 100_000_000)));
    let u = Instant::Monotonic(Timespec::new(0, 900_000_000)) + Duration::from_millis(200);
    assert_eq!(u - Instant::Monotonic(Timespec::new(0, 900_000_000)), Duration::from_millis(200));
    assert_eq!(later - t, d);
    assert_eq!((t - d) + d, t);
    assert_eq!(t - d, Instant::Monotonic(Timespec::new(5, 500_000_000)));
    match t + d {
        Instant::Monotonic(_) => {}
        Instant::MonotonicCoarse(_) => panic!("the tag changed"),
    }
}

#[test]
fn instants_compare_by_time_whatever_their_tag() {
    let a = Instant::Monotonic(Timespec::new(1, 5));
    let b = Instant::MonotonicCoarse(Timespec::new(1, 5));
    let c = Instant::MonotonicCoarse(Timespec::new(1, 6));
    assert_eq!(a, b);
    assert!(a < c);
    assert!(c > b);
    assert_eq!(c.duration_since(a), Duration::new(0, 1));
}

#[test]
fn jumped_back_only_when_the_second_sample_is_earlier() {
    let t = Timespec::new(100, 0);
    let two_seconds_earlier = Timespec::new(98, 0);
    assert!(jumped_back(t, two_seconds_earlier));
    assert!(!jumped_back(t, t));
    assert!(!jumped_back(two_seconds_earlier, t));
}

#[test]
fn clock_readings_become_points() {
    assert_eq!(timespec_from_reading(Some((4, 5))), Timespec::new(4, 5));
    assert_eq!(timespec_from_reading(Some((4, 1_000_000_000))), Timespec::new(0, 0));
    assert_eq!(timespec_from_reading(None), Timespec::new(0, 0));
}

#[test]
fn slow_timer_thresholds() {
    let t = SlowTimer::from_millis(0);
    assert_eq!(t.is_slow(), Some(true));
    let t = SlowTimer::from_secs(3600);
    assert_eq!(t.is_slow(), Some(false));
    let t = SlowTimer::new();
    assert!(t.elapsed().unwrap() < Duration::from_secs(1));
    let future = Instant::now() + Duration::from_secs(3600);
    assert_eq!(future.elapsed(), None);
    assert!(duration_at_least(&Duration::new(2, 0), &Duration::new(1, 999_999_999)));
    assert!(!duration_at_least(&Duration::new(1, 5), &Duration::new(1, 6)));
}
