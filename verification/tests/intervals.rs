use hrtime::poll::Poll;
use hrtime::timer::Setting;
use hrtime::{interval, interval_at, Duration, Instant, Interval, MissedTickBehavior};

fn ms(millis: u64) -> Duration {
    Duration::from_millis(millis)
}

fn at(millis: u64) -> Instant {
    Instant::after_zero(ms(millis)).unwrap()
}

fn ticks(iv: &mut Interval, reports: Vec<Poll<u64>>) -> usize {
    let mut count = 0;
    for expired in reports {
        if iv.poll_tick(expired, at(0)).is_ready() {
            count += 1;
        }
    }
    count
}

#[test]
fn interval_at_waits_for_its_start() {
    let mut iv = interval_at(at(500), ms(100), true);
    assert_eq!(iv.timer(), Setting::new(at(500), Some(ms(100))));
    assert_eq!(iv.period(), ms(100));
    assert_eq!(iv.expirations(), 0);
    assert_eq!(iv.poll_tick(Poll::Pending, at(0)), Poll::Pending);
    assert_eq!(iv.poll_tick(Poll::Ready(1), at(500)), Poll::Ready(at(500)));
    assert_eq!(iv.poll_tick(Poll::Pending, at(501)), Poll::Pending);
}

#[test]
fn interval_ticks_at_once() {
    let mut iv = interval(ms(100), true, at(20));
    assert_eq!(iv.timer(), Setting::new(at(120), Some(ms(100))));
    assert_eq!(iv.expirations(), 1);
    assert_eq!(iv.poll_tick(Poll::Pending, at(21)), Poll::Ready(at(21)));
    assert_eq!(iv.poll_tick(Poll::Pending, at(22)), Poll::Pending);
}

#[test]
fn behavior_depends_on_the_timer() {
    let iv = interval_at(at(0), ms(1), true);
    assert_eq!(iv.missed_tick_behavior(), MissedTickBehavior::Burst);
    assert!(iv.supports(MissedTickBehavior::Burst));
    assert!(iv.supports(MissedTickBehavior::Skip));
    assert!(!iv.supports(MissedTickBehavior::Delay));
    let mut iv = interval_at(at(0), ms(1), false);
    assert_eq!(iv.missed_tick_behavior(), MissedTickBehavior::Skip);
    assert!(!iv.supports(MissedTickBehavior::Burst));
    iv.set_missed_tick_behavior(MissedTickBehavior::Skip);
    assert_eq!(iv.missed_tick_behavior(), MissedTickBehavior::Skip);
}

#[test]
fn burst_delivers_every_tick() {
    let mut iv = interval_at(at(0), ms(1), true);
    let reports = vec![Poll::Ready(4), Poll::Pending, Poll::Ready(2)];
    assert_eq!(ticks(&mut iv, reports), 3);
    assert_eq!(iv.expirations(), 3);
    let idle = vec![Poll::Pending, Poll::Pending, Poll::Pending, Poll::Pending];
    assert_eq!(ticks(&mut iv, idle), 3);
    assert_eq!(iv.expirations(), 0);
}

#[test]
fn skip_merges_missed_ticks() {
    let mut iv = interval(ms(1), true, at(0));
    iv.set_missed_tick_behavior(MissedTickBehavior::Skip);
    let reports = vec![Poll::Pending, Poll::Ready(4), Poll::Pending, Poll::Ready(1)];
    assert_eq!(ticks(&mut iv, reports), 3);
    assert_eq!(iv.expirations(), 0);
}

#[test]
fn reset_ahead_discards_pending_ticks() {
    let mut iv = interval_at(at(0), ms(100), true);
    iv.poll_tick(Poll::Ready(5), at(400));
    assert_eq!(iv.expirations(), 4);
    iv.reset_at(at(777), at(400));
    assert_eq!(iv.expirations(), 0);
    assert_eq!(iv.timer(), Setting::new(at(777), Some(ms(100))));
}

#[test]
fn reset_behind_catches_up() {
    let mut iv = interval_at(at(0), ms(100), true);
    iv.reset_at(at(250), at(400));
    assert_eq!(iv.expirations(), 2);
    assert_eq!(iv.timer(), Setting::new(at(450), Some(ms(100))));
    iv.reset_at(at(400), at(400));
    assert_eq!(iv.expirations(), 1);
    assert_eq!(iv.timer(), Setting::new(at(500), Some(ms(100))));
    iv.reset_at(at(300), at(400));
    assert_eq!(iv.expirations(), 2);
    assert_eq!(iv.timer(), Setting::new(at(500), Some(ms(100))));
}

#[test]
fn reset_reaches_back_before_zero() {
    let mut iv = interval_at(at(0), ms(100), true);
    let early = Instant::before_zero(ms(30)).unwrap();
    assert!(iv.can_reset_at(early, at(50)));
    iv.reset_at(early, at(50));
    assert_eq!(iv.expirations(), 1);
    assert_eq!(iv.timer(), Setting::new(at(70), Some(ms(100))));
}

#[test]
fn resets_start_from_the_call() {
    let mut iv = interval_at(at(0), ms(100), true);
    iv.reset(at(40), at(41));
    assert_eq!(iv.timer(), Setting::new(at(140), Some(ms(100))));
    iv.reset_after(ms(7), at(40), at(41));
    assert_eq!(iv.timer(), Setting::new(at(47), Some(ms(100))));
    iv.reset_immediately(at(40), at(41));
    assert_eq!(iv.expirations(), 1);
    assert_eq!(iv.timer(), Setting::new(at(140), Some(ms(100))));
}

#[test]
fn resets_agree() {
    let mut plain = interval_at(at(0), ms(100), true);
    let mut by_period = interval_at(at(0), ms(100), true);
    plain.reset(at(40), at(300));
    by_period.reset_after(ms(100), at(40), at(300));
    assert_eq!(plain.timer(), Setting::new(at(340), Some(ms(100))));
    assert_eq!(by_period.timer(), plain.timer());
    assert_eq!(plain.expirations(), 2);
    assert_eq!(by_period.expirations(), 2);
    let mut at_once = interval_at(at(0), ms(100), true);
    let mut by_nothing = interval_at(at(0), ms(100), true);
    at_once.reset_immediately(at(40), at(300));
    by_nothing.reset_after(ms(0), at(40), at(300));
    assert_eq!(by_nothing.timer(), at_once.timer());
    assert_eq!(at_once.expirations(), 3);
    assert_eq!(by_nothing.expirations(), 3);
}

#[test]
fn some_resets_cannot_be_counted() {
    let iv = interval_at(at(0), Duration::from_secs(1 << 40), true);
    assert!(!iv.can_reset_at(at(1), at(2)));
    assert!(iv.can_reset_at(at(3), at(2)));
    let iv = interval_at(at(0), Duration::from_nanos(1), true);
    let late = Instant::after_zero(Duration::from_nanos(u64::MAX)).unwrap();
    let zero = Instant::after_zero(Duration::default()).unwrap();
    let one = Instant::after_zero(Duration::from_nanos(1)).unwrap();
    assert!(!iv.can_reset_at(zero, late));
    assert!(iv.can_reset_at(one, late));
    let last = Instant::after_zero(Duration::new(i64::MAX as u64, 999_999_999)).unwrap();
    assert!(!iv.can_reset_at(last, last));
}
