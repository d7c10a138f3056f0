use hrtime::kqueue::{
    add_timer_to_kqueue, background_poll, delete_timer_from_kqueue, fits, wait_kqueue,
    BackgroundAction, BackgroundEvent, Change, Clock, SharedState,
};
use hrtime::poll::Poll;
use hrtime::semaphore::{counted, permits_wanted, poll_counted, poll_expired, Notifier};
use hrtime::timerfd::{
    duration_to_timespec, instant_to_timespec, make_timerspec, TimeSpec, TimerAction, TimerEvent,
    TimerFailure, TimerSpec,
};
use hrtime::utils::CallFailed;
use hrtime::waitable::{hresult_from_win32, make_duetime, unregistered, ERROR_IO_PENDING};
use hrtime::{kqueue, timerfd, waitable, Duration, Instant};
use std::sync::atomic::{AtomicUsize, Ordering};
use std::sync::Arc;
use std::task::{Context, Wake, Waker};

const EAGAIN: i32 = 11;

struct Idle;

impl Wake for Idle {
    fn wake(self: Arc<Self>) {}
}

struct Counting(AtomicUsize);

impl Wake for Counting {
    fn wake(self: Arc<Self>) {
        self.0.fetch_add(1, Ordering::SeqCst);
    }
}

fn waker() -> Waker {
    Waker::from(Arc::new(Idle))
}

fn at(nanos: u64) -> Instant {
    Instant::after_zero(Duration::from_nanos(nanos)).unwrap()
}

fn ns(nanos: u64) -> Duration {
    Duration::from_nanos(nanos)
}

#[test]
fn timespecs_are_exact() {
    assert_eq!(
        duration_to_timespec(Duration::new(3, 500)),
        TimeSpec { tv_sec: 3, tv_nsec: 500 }
    );
    assert_eq!(
        instant_to_timespec(at(2_000_000_007)),
        TimeSpec { tv_sec: 2, tv_nsec: 7 }
    );
    let early = Instant::before_zero(ns(1)).unwrap();
    assert_eq!(
        instant_to_timespec(early),
        TimeSpec { tv_sec: 0, tv_nsec: 0 }
    );
}

#[test]
fn timerspec_has_deadline_and_interval() {
    let spec = make_timerspec(Some(at(1_000_000_001)), Some(Duration::from_secs(4)), at(0));
    assert_eq!(
        spec,
        TimerSpec {
            it_value: TimeSpec { tv_sec: 1, tv_nsec: 1 },
            it_interval: TimeSpec { tv_sec: 4, tv_nsec: 0 },
        }
    );
    let once = make_timerspec(Some(at(5)), None, at(0));
    assert_eq!(once.it_interval, TimeSpec { tv_sec: 0, tv_nsec: 0 });
    let from_now = make_timerspec(None, Some(ns(30)), at(12));
    assert_eq!(from_now.it_value, TimeSpec { tv_sec: 0, tv_nsec: 42 });
    let now = make_timerspec(None, None, at(12));
    assert_eq!(now.it_value, TimeSpec { tv_sec: 0, tv_nsec: 12 });
}

#[test]
fn timerfd_fits_what_the_kernel_takes() {
    let long = Duration::from_secs(i64::MAX as u64);
    let too_long = Duration::from_secs(1 << 63);
    assert!(timerfd::Timer::fits(Some(at(1)), Some(long), at(0)));
    assert!(!timerfd::Timer::fits(Some(at(1)), Some(too_long), at(0)));
    assert!(!timerfd::Timer::fits(None, Some(long), Instant::after_zero(long).unwrap()));
}

#[test]
fn timerfd_reads_when_readable() {
    let mut timer = timerfd::Timer::new(Some(at(5)), None, at(0));
    assert_eq!(timer.spec(), make_timerspec(Some(at(5)), None, at(0)));
    timer.reset(Some(at(9)), Some(ns(3)), at(0));
    assert_eq!(timer.spec(), make_timerspec(Some(at(9)), Some(ns(3)), at(0)));
    assert_eq!(
        timer.poll_expired(TimerEvent::Polled, EAGAIN),
        TimerAction::PollReadiness
    );
    assert_eq!(
        timer.poll_expired(TimerEvent::Readiness(Poll::Pending), EAGAIN),
        TimerAction::Return(Poll::Pending)
    );
    assert_eq!(
        timer.poll_expired(TimerEvent::Readiness(Poll::Ready(true)), EAGAIN),
        TimerAction::Read
    );
    let read = TimerEvent::Read { size: 8, expirations: 3 };
    assert_eq!(
        timer.poll_expired(read, EAGAIN),
        TimerAction::Return(Poll::Ready(3))
    );
    let again = TimerEvent::ReadFailed { errno: Some(EAGAIN) };
    assert_eq!(
        timer.poll_expired(again, EAGAIN),
        TimerAction::Return(Poll::Pending)
    );
}

#[test]
fn timerfd_gives_up_on_failures() {
    let mut timer = timerfd::Timer::new(Some(at(5)), None, at(0));
    assert_eq!(
        timer.poll_expired(TimerEvent::Readiness(Poll::Ready(false)), EAGAIN),
        TimerAction::Fail(TimerFailure::Poll)
    );
    let short = TimerEvent::Read { size: 4, expirations: 3 };
    assert_eq!(
        timer.poll_expired(short, EAGAIN),
        TimerAction::Fail(TimerFailure::Size)
    );
    let other = TimerEvent::ReadFailed { errno: Some(5) };
    assert_eq!(
        timer.poll_expired(other, EAGAIN),
        TimerAction::Fail(TimerFailure::Read)
    );
    let unknown = TimerEvent::ReadFailed { errno: None };
    assert_eq!(
        timer.poll_expired(unknown, EAGAIN),
        TimerAction::Fail(TimerFailure::Read)
    );
}

#[test]
fn kqueue_times_are_nanoseconds() {
    assert_eq!(kqueue::duration_to_nseconds(Duration::new(1, 2)), 1_000_000_002);
    assert_eq!(kqueue::instant_to_nseconds(at(77)), 77);
    let early = Instant::before_zero(ns(1)).unwrap();
    assert_eq!(kqueue::instant_to_nseconds(early), 0);
}

#[test]
fn kqueue_counts_nanoseconds_from_now() {
    let clock = Clock::Nanos { now: 1_000 };
    assert_eq!(
        add_timer_to_kqueue(3, 1_500, true, clock),
        vec![Change::AddNanos { ident: 3, nanos: 500, once: true }]
    );
    assert_eq!(
        add_timer_to_kqueue(3, 400, true, clock),
        vec![Change::AddNanos { ident: 3, nanos: -600, once: true }]
    );
    assert_eq!(
        add_timer_to_kqueue(3, 1_500, false, clock),
        vec![Change::AddNanos { ident: 3, nanos: 1_500, once: false }]
    );
    assert!(!fits(-2, true, Clock::Nanos { now: i64::MAX }));
    assert!(fits(-2, false, Clock::Nanos { now: i64::MAX }));
}

#[test]
fn kqueue_counts_machine_ticks() {
    let clock = Clock::MachTicks { numer: 125, denom: 3 };
    assert_eq!(
        add_timer_to_kqueue(9, 1_000, true, clock),
        vec![
            Change::Delete { ident: 9 },
            Change::AddMachTicks { ident: 9, ticks: 24, absolute: true },
        ]
    );
    assert_eq!(
        add_timer_to_kqueue(9, 1_041, false, clock)[1],
        Change::AddMachTicks { ident: 9, ticks: 24, absolute: false }
    );
    assert!(!fits(i64::MAX, true, clock));
    assert!(!fits(1, true, Clock::MachTicks { numer: 0, denom: 1 }));
    assert_eq!(delete_timer_from_kqueue(9), Change::Delete { ident: 9 });
}

#[test]
fn kqueue_events_are_the_filled_part() {
    assert_eq!(wait_kqueue(2, &vec![7, 8, 9]), Ok(vec![7, 8]));
    assert_eq!(wait_kqueue(0, &vec![7, 8, 9]), Ok(vec![]));
    assert_eq!(wait_kqueue(-1, &vec![7, 8, 9]), Err(CallFailed));
}

#[test]
fn kqueue_timers_get_rising_idents() {
    let mut shared = SharedState::new();
    let clock = Clock::Nanos { now: 10 };
    let (one, changes) = kqueue::Timer::new(&mut shared, at(40), None, clock).unwrap();
    assert_eq!(
        changes,
        vec![Change::AddNanos { ident: 1, nanos: 30, once: true }]
    );
    let (two, changes) = kqueue::Timer::new(&mut shared, at(40), None, clock).unwrap();
    assert_eq!(
        changes,
        vec![Change::AddNanos { ident: 2, nanos: 30, once: true }]
    );
    assert_eq!(one.unregister(&mut shared), (Change::Delete { ident: 1 }, true));
    let (_, changes) = kqueue::Timer::new(&mut shared, at(40), None, clock).unwrap();
    assert_eq!(
        changes,
        vec![Change::AddNanos { ident: 3, nanos: 30, once: true }]
    );
    assert_eq!(two.unregister(&mut shared), (Change::Delete { ident: 2 }, true));
}

#[test]
fn kqueue_unregistering_elsewhere_finds_nothing() {
    let clock = Clock::Nanos { now: 0 };
    let mut shared = SharedState::new();
    let (timer, _) = kqueue::Timer::new(&mut shared, at(1), None, clock).unwrap();
    let mut other = SharedState::new();
    assert!(timer.is_registered(&shared));
    assert!(!timer.is_registered(&other));
    assert_eq!(timer.unregister(&mut other), (Change::Delete { ident: 1 }, false));
}

#[test]
fn kqueue_expirations_reach_their_timer() {
    let waker = waker();
    let mut cx = Context::from_waker(&waker);
    let clock = Clock::Nanos { now: 0 };
    let mut shared = SharedState::new();
    let (mut one, _) = kqueue::Timer::new(&mut shared, at(1), Some(ns(50)), clock).unwrap();
    let (mut two, _) = kqueue::Timer::new(&mut shared, at(1), None, clock).unwrap();
    assert_eq!(one.poll_expired(&mut cx), Poll::Pending);
    assert_eq!(two.poll_expired(&mut cx), Poll::Pending);

    let events = vec![1, 2, 1, 1];
    assert!(shared.fits(&events, clock));
    assert_eq!(
        shared.dispatch(&events, clock),
        vec![Change::AddNanos { ident: 1, nanos: 50, once: false }]
    );
    assert_eq!(two.poll_expired(&mut cx), Poll::Ready(Some(1)));
    assert_eq!(two.poll_expired(&mut cx), Poll::Pending);
    let mut counted = 0;
    while let Poll::Ready(Some(count)) = one.poll_expired(&mut cx) {
        assert!(count >= 1);
        counted += count;
    }
    assert_eq!(counted, 3);
    assert_eq!(shared.dispatch(&vec![1], clock), vec![]);

    let changes = one.reset(&mut shared, at(9), Some(ns(60)), clock);
    assert_eq!(
        changes,
        vec![Change::AddNanos { ident: 1, nanos: 9, once: true }]
    );
    assert_eq!(
        shared.dispatch(&vec![1], clock),
        vec![Change::AddNanos { ident: 1, nanos: 60, once: false }]
    );
}

#[test]
fn kqueue_all_expirations_come_at_once() {
    let waker = waker();
    let mut cx = Context::from_waker(&waker);
    let clock = Clock::Nanos { now: 0 };
    let mut shared = SharedState::new();
    let (mut timer, _) = kqueue::Timer::new(&mut shared, at(1), None, clock).unwrap();
    shared.dispatch(&vec![1, 1, 1, 1, 1], clock);
    assert_eq!(timer.poll_expired(&mut cx), Poll::Ready(Some(5)));
    assert_eq!(timer.poll_expired(&mut cx), Poll::Pending);
}

#[test]
fn kqueue_batches_do_not_matter() {
    let clock = Clock::Nanos { now: 0 };
    let mut once = SharedState::new();
    let mut twice = SharedState::new();
    for shared in [&mut once, &mut twice] {
        let _ = kqueue::Timer::new(shared, at(1), Some(ns(5)), clock).unwrap();
        let _ = kqueue::Timer::new(shared, at(1), Some(ns(6)), clock).unwrap();
    }
    let together = once.dispatch(&vec![1, 2, 1], clock);
    let mut apart = twice.dispatch(&vec![1], clock);
    apart.extend(twice.dispatch(&vec![2, 1], clock));
    assert_eq!(together, apart);
}

#[test]
fn kqueue_some_events_cannot_be_taken_in() {
    let clock = Clock::Nanos { now: 0 };
    let mut shared = SharedState::new();
    let long = Duration::from_secs(1 << 40);
    let _ = kqueue::Timer::new(&mut shared, at(1), Some(long), clock).unwrap();
    assert!(!shared.fits(&vec![1], clock));
    assert!(!shared.fits(&vec![2], clock));
    assert!(shared.fits(&vec![], clock));
}

#[test]
fn kqueue_background_drains_the_queue() {
    assert_eq!(
        background_poll(BackgroundEvent::Polled { alive: false }),
        BackgroundAction::Return(Poll::Ready(()))
    );
    assert_eq!(
        background_poll(BackgroundEvent::Polled { alive: true }),
        BackgroundAction::PollReadiness
    );
    assert_eq!(
        background_poll(BackgroundEvent::Readiness(Poll::Ready(true))),
        BackgroundAction::Dispatch
    );
    assert_eq!(
        background_poll(BackgroundEvent::Dispatched),
        BackgroundAction::PollReadiness
    );
    assert_eq!(
        background_poll(BackgroundEvent::Readiness(Poll::Ready(false))),
        BackgroundAction::Return(Poll::Pending)
    );
    assert_eq!(
        background_poll(BackgroundEvent::Readiness(Poll::Pending)),
        BackgroundAction::Return(Poll::Pending)
    );
}

#[test]
fn permits_are_taken_all_but_at_least_one() {
    assert_eq!(permits_wanted(0), 1);
    assert_eq!(permits_wanted(1), 1);
    assert_eq!(permits_wanted(17), 17);
    assert_eq!(permits_wanted(u32::MAX as usize), u32::MAX);
    assert_eq!(permits_wanted(u32::MAX as usize + 1), u32::MAX);
}

#[test]
fn a_waiting_task_is_woken_by_one_expiration() {
    let woken = Arc::new(Counting(AtomicUsize::new(0)));
    let waker = Waker::from(woken.clone());
    let mut cx = Context::from_waker(&waker);
    let (mut notifier, mut waiter) = Notifier::new();
    assert_eq!(poll_expired(&mut waiter, &mut cx), Poll::Pending);
    assert_eq!(woken.0.load(Ordering::SeqCst), 0);
    notifier.announce();
    assert_eq!(woken.0.load(Ordering::SeqCst), 1);
    assert_eq!(poll_expired(&mut waiter, &mut cx), Poll::Ready(Some(1)));
    assert_eq!(poll_expired(&mut waiter, &mut cx), Poll::Pending);
}

#[test]
fn a_task_waits_for_as_many_permits_as_it_asked_for() {
    let woken = Arc::new(Counting(AtomicUsize::new(0)));
    let waker = Waker::from(woken.clone());
    let mut cx = Context::from_waker(&waker);
    let (mut notifier, mut waiter) = Notifier::new();
    assert_eq!(poll_counted(&mut waiter, &mut cx, 3), Poll::Pending);
    notifier.announce();
    notifier.announce();
    assert_eq!(woken.0.load(Ordering::SeqCst), 0);
    assert_eq!(poll_counted(&mut waiter, &mut cx, 3), Poll::Pending);
    notifier.announce();
    assert_eq!(woken.0.load(Ordering::SeqCst), 1);
    assert_eq!(poll_counted(&mut waiter, &mut cx, 3), Poll::Ready(Some(3)));
}

#[test]
fn a_new_request_replaces_the_one_before() {
    let waker = waker();
    let mut cx = Context::from_waker(&waker);
    let (mut notifier, mut waiter) = Notifier::new();
    assert_eq!(poll_counted(&mut waiter, &mut cx, 5), Poll::Pending);
    notifier.announce();
    notifier.announce();
    assert_eq!(poll_counted(&mut waiter, &mut cx, 2), Poll::Ready(Some(2)));
    assert_eq!(poll_counted(&mut waiter, &mut cx, 2), Poll::Pending);
}

#[test]
fn without_permits_nothing_is_counted() {
    let waker = waker();
    let mut cx = Context::from_waker(&waker);
    let (mut notifier, mut waiter) = Notifier::new();
    assert_eq!(counted(&mut waiter, Poll::Pending), Poll::Pending);
    assert_eq!(counted(&mut waiter, Poll::Ready(None)), Poll::Ready(None));
    notifier.announce();
    assert_eq!(poll_expired(&mut waiter, &mut cx), Poll::Ready(Some(1)));
}

#[test]
fn a_semaphore_has_room_for_so_many_expirations() {
    let most = usize::MAX / 8;
    let (mut notifier, _waiter) = Notifier::new();
    assert!(notifier.has_room(0));
    assert!(notifier.has_room(most));
    assert!(!notifier.has_room(most + 1));
    assert!(!notifier.has_room(usize::MAX));
    notifier.announce();
    assert!(notifier.has_room(most - 1));
    assert!(!notifier.has_room(most));
}

#[test]
fn expirations_are_conserved() {
    let waker = waker();
    let mut cx = Context::from_waker(&waker);
    let (mut notifier, mut waiter) = Notifier::new();
    let mut announced = 0;
    let mut total = 0;
    for round in 0..20 {
        for _ in 0..round % 4 {
            notifier.announce();
            announced += 1;
        }
        if round % 3 != 1 {
            if let Poll::Ready(Some(count)) = poll_expired(&mut waiter, &mut cx) {
                assert!(count >= 1);
                total += count;
            }
            assert!(total <= announced);
        }
    }
    while let Poll::Ready(Some(count)) = poll_expired(&mut waiter, &mut cx) {
        total += count;
    }
    assert_eq!(announced, 30);
    assert_eq!(total, announced);
}

#[test]
fn waitable_due_times_round_up() {
    assert_eq!(make_duetime(1_200, at(1_000)), -2);
    assert_eq!(make_duetime(1_201, at(1_000)), -3);
    assert_eq!(make_duetime(1_001, at(1_000)), -1);
    assert_eq!(make_duetime(1_000, at(1_000)), 0);
    assert_eq!(make_duetime(10, at(1_000)), 0);
    assert_eq!(waitable::duration_to_nseconds(Duration::new(1, 2)), 1_000_000_002);
    assert_eq!(waitable::instant_to_nseconds(at(77)), 77);
}

#[test]
fn waitable_timer_expires_once() {
    let waker = waker();
    let mut cx = Context::from_waker(&waker);
    let (mut timer, mut capsule) = waitable::Timer::new(Some(at(1_500)), None, at(1_000), at(1_000));
    assert_eq!(timer.due(), -5);
    assert!(capsule.expires_once());
    assert!(capsule.can_expire());
    assert_eq!(timer.poll_expired(&mut cx), Poll::Pending);
    assert_eq!(capsule.reset_timer(at(1_500)), None);
    assert_eq!(timer.poll_expired(&mut cx), Poll::Ready(Some(1)));
    assert_eq!(timer.poll_expired(&mut cx), Poll::Pending);
}

#[test]
fn waitable_timer_does_not_drift() {
    let waker = waker();
    let mut cx = Context::from_waker(&waker);
    let (mut timer, mut capsule) =
        waitable::Timer::new(Some(at(1_000)), Some(ns(1_000)), at(0), at(0));
    assert_eq!(timer.due(), -10);
    assert!(!capsule.expires_once());
    assert_eq!(capsule.reset_timer(at(1_300)), Some(-7));
    assert_eq!(capsule.reset_timer(at(2_000)), Some(-10));
    assert_eq!(capsule.reset_timer(at(5_000)), Some(0));
    assert_eq!(timer.poll_expired(&mut cx), Poll::Ready(Some(3)));
    let mut capsule = timer.reset(None, Some(ns(700)), at(100), at(250));
    assert_eq!(timer.due(), -6);
    assert_eq!(timer.poll_expired(&mut cx), Poll::Pending);
    assert_eq!(capsule.reset_timer(at(800)), Some(-7));
    assert_eq!(timer.poll_expired(&mut cx), Poll::Ready(Some(1)));
}

#[test]
fn waitable_timer_from_before_zero_does_not_drift() {
    let early = Instant::before_zero(ns(300)).unwrap();
    let (timer, mut capsule) = waitable::Timer::new(Some(early), Some(ns(1_000)), at(0), at(0));
    assert_eq!(timer.due(), 0);
    assert_eq!(capsule.reset_timer(at(0)), Some(-7));
    assert_eq!(capsule.reset_timer(at(900)), Some(-8));
}

#[test]
fn waitable_reset_discards_what_expired_before() {
    let waker = waker();
    let mut cx = Context::from_waker(&waker);
    let (mut timer, mut before) = waitable::Timer::new(Some(at(100)), Some(ns(100)), at(0), at(0));
    before.reset_timer(at(100));
    before.reset_timer(at(200));
    let mut capsule = timer.reset(Some(at(900)), None, at(250), at(250));
    assert_eq!(timer.due(), -7);
    assert!(capsule.expires_once());
    assert_eq!(timer.poll_expired(&mut cx), Poll::Pending);
    before.reset_timer(at(300));
    assert_eq!(timer.poll_expired(&mut cx), Poll::Pending);
    assert_eq!(capsule.reset_timer(at(900)), None);
    assert_eq!(timer.poll_expired(&mut cx), Poll::Ready(Some(1)));
}

#[test]
fn timerfd_reset_is_like_a_new_timer() {
    let mut timer = timerfd::Timer::new(Some(at(5)), Some(ns(3)), at(0));
    timer.reset(Some(at(70)), None, at(9));
    assert_eq!(timer.spec(), timerfd::Timer::new(Some(at(70)), None, at(0)).spec());
    assert_eq!(
        timer.spec(),
        TimerSpec {
            it_value: TimeSpec { tv_sec: 0, tv_nsec: 70 },
            it_interval: TimeSpec { tv_sec: 0, tv_nsec: 0 },
        }
    );
}

#[test]
fn waitable_fits_what_it_can_count() {
    assert!(waitable::Timer::fits(Some(at(1)), Some(ns(2)), at(0), at(0)));
    assert!(!waitable::Timer::fits(Some(at(u64::MAX)), Some(ns(1)), at(0), at(0)));
    assert!(waitable::Timer::fits(Some(at(u64::MAX)), None, at(0), at(0)));
    assert!(!waitable::Timer::fits(None, Some(Duration::from_secs(1 << 40)), at(0), at(0)));
}

#[test]
fn waitable_unregistering_may_be_pending() {
    assert_eq!(hresult_from_win32(ERROR_IO_PENDING), 0x8007_03E5u32 as i32);
    assert_eq!(hresult_from_win32(0), 0);
    assert_eq!(hresult_from_win32(0x8000_4005), 0x8000_4005u32 as i32);
    assert_eq!(hresult_from_win32(0x0001_0005), 0x8007_0005u32 as i32);
    assert_eq!(unregistered(None), Ok(()));
    assert_eq!(unregistered(Some(0x8007_03E5u32 as i32)), Ok(()));
    assert_eq!(unregistered(Some(5)), Err(5));
}
