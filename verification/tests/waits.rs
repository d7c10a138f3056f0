use hrtime::error::Elapsed;
use hrtime::poll::Poll;
use hrtime::sleep::{SleepAction, SleepEvent};
use hrtime::timeout::{TimeoutAction, TimeoutEvent};
use hrtime::timer::Setting;
use hrtime::utils::{cvt, CallFailed};
use hrtime::{sleep, sleep_until, timeout, timeout_at, Duration, Instant};

fn at(nanos: u64) -> Instant {
    Instant::after_zero(Duration::from_nanos(nanos)).unwrap()
}

fn elapsed() -> Elapsed {
    let mut t = timeout_at(at(0), ());
    match t.poll(TimeoutEvent::<()>::Timer(Poll::Ready(1))) {
        TimeoutAction::Return(Poll::Ready(Err(e))) => e,
        other => panic!("{other:?}"),
    }
}

#[test]
fn sleep_completes_when_its_timer_expires() {
    let mut s = sleep(Duration::from_nanos(30), at(12));
    assert_eq!(s.deadline(), at(42));
    assert_eq!(s.timer(), Setting::new(at(42), None));
    assert!(!s.is_elapsed());
    assert_eq!(s.poll(SleepEvent::Polled), SleepAction::PollTimer);
    assert_eq!(
        s.poll(SleepEvent::Timer(Poll::Pending)),
        SleepAction::Return(Poll::Pending)
    );
    assert!(!s.is_elapsed());
    assert_eq!(
        s.poll(SleepEvent::Timer(Poll::Ready(1))),
        SleepAction::Return(Poll::Ready(()))
    );
    assert!(s.is_elapsed());
}

#[test]
fn elapsed_sleep_does_not_ask_its_timer() {
    let mut s = sleep_until(at(5));
    s.poll(SleepEvent::Timer(Poll::Ready(1)));
    assert_eq!(
        s.poll(SleepEvent::Polled),
        SleepAction::Return(Poll::Ready(()))
    );
    assert_eq!(
        s.poll(SleepEvent::Timer(Poll::Pending)),
        SleepAction::Return(Poll::Ready(()))
    );
    assert!(s.is_elapsed());
}

#[test]
fn reset_moves_the_sleep() {
    let mut s = sleep_until(at(5));
    s.reset(at(9));
    assert_eq!(s.timer(), Setting::new(at(9), None));
    assert_eq!(s.deadline(), at(9));
    assert!(!s.is_elapsed());
}

#[test]
fn reset_sleep_waits_again() {
    let mut s = sleep_until(at(5));
    s.poll(SleepEvent::Timer(Poll::Ready(1)));
    assert!(s.is_elapsed());
    s.reset(at(20));
    assert_eq!(s.timer(), Setting::new(at(20), None));
    assert_eq!(s.deadline(), at(20));
    assert!(!s.is_elapsed());
    assert_eq!(s.poll(SleepEvent::Polled), SleepAction::PollTimer);
    assert_eq!(
        s.poll(SleepEvent::Timer(Poll::Pending)),
        SleepAction::Return(Poll::Pending)
    );
    assert_eq!(
        s.poll(SleepEvent::Timer(Poll::Ready(1))),
        SleepAction::Return(Poll::Ready(()))
    );
}

#[test]
fn timeout_asks_the_future_first() {
    let mut t = timeout(Duration::from_nanos(8), "future", at(2));
    assert_eq!(t.sleep().deadline(), at(10));
    assert_eq!(
        t.poll(TimeoutEvent::<u8>::Polled),
        TimeoutAction::PollFuture
    );
    assert_eq!(
        t.poll(TimeoutEvent::Future(Poll::Ready(7u8))),
        TimeoutAction::Return(Poll::Ready(Ok(7)))
    );
    assert!(!t.sleep().is_elapsed());
}

#[test]
fn timeout_waits_while_neither_is_done() {
    let mut t = timeout_at(at(10), ());
    assert_eq!(
        t.poll(TimeoutEvent::Future(Poll::<u8>::Pending)),
        TimeoutAction::PollTimer
    );
    assert_eq!(
        t.poll(TimeoutEvent::<u8>::Timer(Poll::Pending)),
        TimeoutAction::Return(Poll::Pending)
    );
    assert_eq!(
        t.poll(TimeoutEvent::<u8>::Polled),
        TimeoutAction::PollFuture
    );
}

#[test]
fn timeout_fails_for_good_once_the_timer_expired() {
    let mut t = timeout_at(at(10), ());
    assert_eq!(
        t.poll(TimeoutEvent::<u8>::Timer(Poll::Ready(1))),
        TimeoutAction::Return(Poll::Ready(Err(elapsed())))
    );
    assert_eq!(
        t.poll(TimeoutEvent::<u8>::Polled),
        TimeoutAction::Return(Poll::Ready(Err(elapsed())))
    );
    assert_eq!(
        t.poll(TimeoutEvent::Future(Poll::<u8>::Pending)),
        TimeoutAction::Return(Poll::Ready(Err(elapsed())))
    );
}

#[test]
fn timeout_gives_access_to_the_future() {
    let mut t = timeout_at(at(10), 1u32);
    assert_eq!(*t.get_ref(), 1);
    *t.get_mut() = 2;
    assert_eq!(*t.get_ref(), 2);
    *t.get_pin_mut() += 1;
    assert_eq!(t.sleep().deadline(), at(10));
    assert_eq!(t.into_inner(), 3);
}

#[test]
fn elapsed_has_a_message() {
    assert_eq!(elapsed().to_string(), "deadline has elapsed");
}

#[test]
fn minus_one_is_a_failure() {
    assert_eq!(cvt(-1i8), Err(CallFailed));
    assert_eq!(cvt(-1i16), Err(CallFailed));
    assert_eq!(cvt(-1i32), Err(CallFailed));
    assert_eq!(cvt(-1i64), Err(CallFailed));
    assert_eq!(cvt(-1isize), Err(CallFailed));
    assert_eq!(cvt(0i32), Ok(0));
    assert_eq!(cvt(-2i64), Ok(-2));
    assert_eq!(cvt(5isize), Ok(5));
}
