//! Whole waits, driven by a simulated clock and simulated timers.
use hrtime::poll::Poll;
use hrtime::sleep::{SleepAction, SleepEvent};
use hrtime::timeout::{TimeoutAction, TimeoutEvent};
use hrtime::timer::Setting;
use hrtime::{
    interval, interval_at, sleep, sleep_until, timeout, timeout_at, Interval, MissedTickBehavior,
    Sleep, Timeout,
};
use std::time::Duration;

const TOLERANCE: Duration = Duration::from_millis(5);

const TIMER_REMEMBER_EXPIRATIONS: bool = hrtime::timerfd::TIMER_REMEMBER_EXPIRATIONS;

fn span(d: Duration) -> hrtime::Duration {
    hrtime::Duration::new(d.as_secs(), d.subsec_nanos())
}

/// A clock that stands still unless somebody waits.
struct Clock {
    now: Duration,
}

impl Clock {
    fn new() -> Clock {
        Clock {
            now: Duration::from_secs(1000),
        }
    }

    fn now(&self) -> hrtime::Instant {
        hrtime::Instant::after_zero(span(self.now)).unwrap()
    }

    fn at(&self, start: Duration, offset: Duration) -> hrtime::Instant {
        hrtime::Instant::after_zero(span(start + offset)).unwrap()
    }
}

/// A timer that counts its expirations.
struct Timer {
    first: u128,
    every: u128,
    seen: u128,
}

impl Timer {
    fn armed(setting: Setting) -> Timer {
        Timer {
            first: setting.deadline().as_nanos() as u128,
            every: setting.interval().map_or(0, |d| d.as_nanos()),
            seen: 0,
        }
    }

    fn next(&self) -> u128 {
        self.first + self.seen * self.every
    }

    fn poll(&mut self, clock: &Clock) -> Poll<u64> {
        let now = clock.now.as_nanos();
        let total = if now < self.first {
            0
        } else if self.every == 0 {
            1
        } else {
            (now - self.first) / self.every + 1
        };
        let count = total - self.seen;
        self.seen = total;
        if count == 0 {
            Poll::Pending
        } else {
            Poll::Ready(count as u64)
        }
    }
}

fn advance_to(clock: &mut Clock, nanos: u128) {
    clock.now = clock.now.max(Duration::from_nanos(nanos as u64));
}

fn poll_sleep(sleep: &mut Sleep, timer: &mut Timer, clock: &Clock) -> Poll<()> {
    let mut event = SleepEvent::Polled;
    loop {
        match sleep.poll(event) {
            SleepAction::PollTimer => event = SleepEvent::Timer(timer.poll(clock)),
            SleepAction::Return(answer) => return answer,
        }
    }
}

fn wait_sleep(mut sleep: Sleep, clock: &mut Clock) {
    let mut timer = Timer::armed(sleep.timer());
    while poll_sleep(&mut sleep, &mut timer, clock) == Poll::Pending {
        advance_to(clock, timer.next());
    }
    assert!(sleep.is_elapsed());
}

fn wait_timeout(mut limited: Timeout<Sleep>, clock: &mut Clock) -> Result<(), String> {
    let mut future_timer = Timer::armed(limited.get_ref().timer());
    let mut limit_timer = Timer::armed(limited.sleep().timer());
    loop {
        let mut event = TimeoutEvent::Polled;
        let answer = loop {
            match limited.poll(event) {
                TimeoutAction::PollFuture => {
                    event = TimeoutEvent::Future(poll_sleep(
                        limited.get_pin_mut(),
                        &mut future_timer,
                        clock,
                    ))
                }
                TimeoutAction::PollTimer => event = TimeoutEvent::Timer(limit_timer.poll(clock)),
                TimeoutAction::Return(answer) => break answer,
            }
        };
        match answer {
            Poll::Ready(result) => return result.map_err(|e| e.to_string()),
            Poll::Pending => advance_to(clock, future_timer.next().min(limit_timer.next())),
        }
    }
}

fn wait_tick(iv: &mut Interval, timer: &mut Timer, clock: &mut Clock) {
    loop {
        let expired = timer.poll(clock);
        let now = clock.now();
        match iv.poll_tick(expired, now) {
            Poll::Ready(tick) => {
                assert_eq!(tick, now);
                return;
            }
            Poll::Pending => advance_to(clock, timer.next()),
        }
    }
}

#[test]
fn test_sleep() {
    let mut clock = Clock::new();
    let start = clock.now;
    let duration = Duration::from_millis(100);
    wait_sleep(sleep(span(duration), clock.now()), &mut clock);
    let elapsed = clock.now - start;
    assert!(elapsed.abs_diff(duration) < TOLERANCE);
}

#[test]
fn test_sleep_until() {
    let mut clock = Clock::new();
    let start = clock.now;
    let duration = Duration::from_millis(100);
    let deadline = clock.at(start, duration);
    wait_sleep(sleep_until(deadline), &mut clock);
    let elapsed = clock.now - start;
    assert!(elapsed.abs_diff(duration) < TOLERANCE);
}

#[test]
fn test_timeout() {
    let mut clock = Clock::new();
    let start = clock.now;
    let duration = Duration::from_millis(100);
    let large_duration = Duration::from_secs(1);
    let small_duration = Duration::from_millis(10);
    let limited = timeout(
        span(duration),
        sleep(span(small_duration), clock.now()),
        clock.now(),
    );
    assert!(wait_timeout(limited, &mut clock).is_ok());
    let elapsed = clock.now - start;
    assert!(elapsed.abs_diff(small_duration) < TOLERANCE);

    let start = clock.now;
    let limited = timeout(
        span(duration),
        sleep(span(large_duration), clock.now()),
        clock.now(),
    );
    assert!(wait_timeout(limited, &mut clock).is_err());
    let elapsed = clock.now - start;
    assert!(elapsed.abs_diff(duration) < TOLERANCE);
}

#[test]
fn test_timeout_at() {
    let mut clock = Clock::new();
    let start = clock.now;
    let duration = Duration::from_millis(100);
    let large_duration = Duration::from_secs(1);
    let small_duration = Duration::from_millis(10);
    let limited = timeout_at(
        clock.at(start, duration),
        sleep(span(small_duration), clock.now()),
    );
    assert!(wait_timeout(limited, &mut clock).is_ok());
    let elapsed = clock.now - start;
    assert!(elapsed.abs_diff(small_duration) < TOLERANCE);

    let start = clock.now;
    let limited = timeout_at(
        clock.at(start, duration),
        sleep(span(large_duration), clock.now()),
    );
    assert!(wait_timeout(limited, &mut clock).is_err());
    let elapsed = clock.now - start;
    assert!(elapsed.abs_diff(duration) < TOLERANCE);
}

#[test]
fn test_interval() {
    let mut clock = Clock::new();
    let start = clock.now;
    let duration = Duration::from_millis(100);
    let mut iv = interval(span(duration), TIMER_REMEMBER_EXPIRATIONS, clock.now());
    let mut timer = Timer::armed(iv.timer());

    for i in 0..10u32 {
        wait_tick(&mut iv, &mut timer, &mut clock);
        let elapsed = clock.now - start;
        assert!(elapsed.abs_diff(duration * i) < TOLERANCE * (i + 1));
    }
}

#[test]
fn test_interval_at() {
    let mut clock = Clock::new();
    let start = clock.now;
    let duration = Duration::from_millis(100);
    let mut iv = interval_at(
        clock.at(start, duration),
        span(duration),
        TIMER_REMEMBER_EXPIRATIONS,
    );
    let mut timer = Timer::armed(iv.timer());

    for i in 1..=10u32 {
        wait_tick(&mut iv, &mut timer, &mut clock);
        let elapsed = clock.now - start;
        assert!(elapsed.abs_diff(duration * i) < TOLERANCE * i);
    }
}

#[test]
fn test_interval_burst() {
    let mut clock = Clock::new();
    let start = clock.now;
    let duration = Duration::from_millis(100);
    let mut iv = interval(span(duration), TIMER_REMEMBER_EXPIRATIONS, clock.now());
    let mut timer = Timer::armed(iv.timer());

    wait_sleep(sleep(span(duration * 3), clock.now()), &mut clock);
    wait_tick(&mut iv, &mut timer, &mut clock);
    wait_tick(&mut iv, &mut timer, &mut clock);
    wait_tick(&mut iv, &mut timer, &mut clock);
    wait_tick(&mut iv, &mut timer, &mut clock);
    wait_tick(&mut iv, &mut timer, &mut clock);
    let elapsed = clock.now - start;
    assert!(elapsed.abs_diff(duration * 4) < TOLERANCE * 5);
}

#[test]
fn test_interval_skip() {
    let mut clock = Clock::new();
    let start = clock.now;
    let duration = Duration::from_millis(100);
    let mut iv = interval(span(duration), TIMER_REMEMBER_EXPIRATIONS, clock.now());
    let mut timer = Timer::armed(iv.timer());
    iv.set_missed_tick_behavior(MissedTickBehavior::Skip);

    wait_sleep(sleep(span(duration * 3), clock.now()), &mut clock);
    wait_tick(&mut iv, &mut timer, &mut clock);
    wait_tick(&mut iv, &mut timer, &mut clock);
    let elapsed = clock.now - start;
    assert!(
        elapsed.abs_diff(duration * 4) < TOLERANCE * 5
            || elapsed.abs_diff(duration * 5) < TOLERANCE * 5
    );
}

#[test]
fn test_interval_reset() {
    let mut clock = Clock::new();
    let start = clock.now;
    let duration = Duration::from_millis(100);
    let mut iv = interval(span(duration), TIMER_REMEMBER_EXPIRATIONS, clock.now());
    let mut timer = Timer::armed(iv.timer());

    wait_tick(&mut iv, &mut timer, &mut clock);
    wait_tick(&mut iv, &mut timer, &mut clock);
    wait_tick(&mut iv, &mut timer, &mut clock);
    let elapsed = clock.now - start;
    assert!(elapsed.abs_diff(duration * 2) < TOLERANCE * 2);

    iv.reset_immediately(clock.now(), clock.now());
    timer = Timer::armed(iv.timer());
    wait_tick(&mut iv, &mut timer, &mut clock);
    wait_tick(&mut iv, &mut timer, &mut clock);
    wait_tick(&mut iv, &mut timer, &mut clock);
    let elapsed = clock.now - start;
    assert!(elapsed.abs_diff(duration * 4) < TOLERANCE * 4);

    if TIMER_REMEMBER_EXPIRATIONS {
        let deadline = clock.at(start, Duration::from_millis(250));
        assert!(iv.can_reset_at(deadline, clock.now()));
        iv.reset_at(deadline, clock.now());
        timer = Timer::armed(iv.timer());
        wait_tick(&mut iv, &mut timer, &mut clock);
        wait_tick(&mut iv, &mut timer, &mut clock);
        wait_tick(&mut iv, &mut timer, &mut clock);
        let elapsed = clock.now - start;
        assert!(elapsed.abs_diff(Duration::from_millis(450)) < TOLERANCE * 5);
    }
}
