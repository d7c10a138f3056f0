use hrtime::time::{instant_to_duration, DURATION_MAX_NANOS, INSTANT_MAX_NANOS, INSTANT_MIN_NANOS};
use hrtime::{Duration, Instant};

fn at(nanos: u64) -> Instant {
    Instant::after_zero(Duration::from_nanos(nanos)).unwrap()
}

#[test]
fn durations_count_nanoseconds() {
    assert_eq!(Duration::from_secs(3).as_nanos(), 3_000_000_000);
    assert_eq!(Duration::from_millis(7).as_nanos(), 7_000_000);
    assert_eq!(Duration::from_nanos(9).as_nanos(), 9);
    assert_eq!(Duration::new(2, 5).as_nanos(), 2_000_000_005);
    assert_eq!(Duration::new(1, 1_500_000_000).as_nanos(), 2_500_000_000);
    assert_eq!(Duration::default().as_nanos(), 0);
    assert_eq!(Duration::new(2, 5).as_secs(), 2);
    assert_eq!(Duration::new(2, 5).subsec_nanos(), 5);
}

#[test]
fn longest_duration_has_all_seconds() {
    let longest = Duration::new(u64::MAX, 999_999_999);
    assert_eq!(longest.as_nanos(), DURATION_MAX_NANOS);
    assert_eq!(longest.as_secs(), u64::MAX);
    assert_eq!(longest.subsec_nanos(), 999_999_999);
}

#[test]
fn durations_agree_with_std() {
    let std = std::time::Duration::new(u64::MAX, 999_999_999);
    assert_eq!(std.as_nanos(), DURATION_MAX_NANOS);
}

#[test]
fn instants_move_by_spans() {
    let t = at(1_000);
    assert_eq!(t.checked_add(Duration::from_nanos(5)), Some(at(1_005)));
    assert_eq!(t.checked_sub(Duration::from_nanos(5)), Some(at(995)));
    assert_eq!(t.as_nanos(), 1_000);
    assert!(at(1).is_before(at(2)));
    assert!(!at(2).is_before(at(2)));
    assert!(!at(3).is_before(at(2)));
}

#[test]
fn instants_end_at_both_sides() {
    let last = Instant::after_zero(Duration::new(i64::MAX as u64, 999_999_999)).unwrap();
    assert_eq!(last.as_nanos(), INSTANT_MAX_NANOS);
    assert_eq!(last.checked_add(Duration::from_nanos(1)), None);
    assert_eq!(Instant::after_zero(Duration::from_secs(1 << 63)), None);
    let first = Instant::before_zero(Duration::from_secs(1 << 63)).unwrap();
    assert_eq!(first.as_nanos(), INSTANT_MIN_NANOS);
    assert_eq!(first.checked_sub(Duration::from_nanos(1)), None);
    assert_eq!(Instant::before_zero(Duration::new(1 << 63, 1)), None);
    assert_eq!(last.duration_since(first).as_nanos(), DURATION_MAX_NANOS);
}

#[test]
fn spans_between_instants_are_never_negative() {
    assert_eq!(at(30).duration_since(at(10)).as_nanos(), 20);
    assert_eq!(at(10).duration_since(at(30)).as_nanos(), 0);
}

#[test]
fn instants_before_zero_count_as_zero() {
    assert_eq!(instant_to_duration(at(42)).as_nanos(), 42);
    let early = Instant::before_zero(Duration::from_nanos(42)).unwrap();
    assert_eq!(early.as_nanos(), -42);
    assert_eq!(instant_to_duration(early).as_nanos(), 0);
}
