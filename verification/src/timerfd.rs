//! Timers behind a file descriptor (`timerfd`).
use vstd::prelude::*;

use crate::poll::Poll;
use crate::time::{
    instant_to_duration, since_zero, Duration, Instant, INSTANT_MAX_NANOS, NANOS_PER_SEC,
};
use crate::timer::{first_expiration, span_or_zero, span_view, SettingView};

verus! {

/// The kernel counts the expirations between two reads.
pub const TIMER_REMEMBER_EXPIRATIONS: bool = true;

/// A span or an instant as the kernel takes it: seconds and a fraction.
#[derive(Debug, Clone, Copy, PartialEq, Eq, Structural)]
pub struct TimeSpec {
    pub tv_sec: i64,
    pub tv_nsec: i64,
}

/// What a timer is armed with, as the kernel takes it: the first expiration, and
/// the span between later ones, which is zero for a timer that expires once. The
/// kernel takes a first expiration at the clock's zero for none at all.
#[derive(Debug, Clone, Copy, PartialEq, Eq, Structural)]
pub struct TimerSpec {
    pub it_interval: TimeSpec,
    pub it_value: TimeSpec,
}

impl TimeSpec {
    /// Whether the fraction is less than a second.
    pub open spec fn wf(self) -> bool {
        0 <= self.tv_sec && 0 <= self.tv_nsec < NANOS_PER_SEC
    }

    /// The number of nanoseconds that it stands for.
    pub open spec fn nanos(self) -> int {
        self.tv_sec * NANOS_PER_SEC + self.tv_nsec
    }
}

/// The seconds and the fraction that make up so many nanoseconds.
pub open spec fn timespec_of(nanos: nat) -> TimeSpec {
    TimeSpec {
        tv_sec: (nanos / NANOS_PER_SEC as nat) as i64,
        tv_nsec: (nanos % NANOS_PER_SEC as nat) as i64,
    }
}

/// The spans whose seconds the kernel can take.
pub open spec fn fits_timespec(nanos: nat) -> bool {
    nanos / NANOS_PER_SEC as nat <= i64::MAX
}

/// A span as the kernel takes it.
pub fn duration_to_timespec(t: Duration) -> (spec: TimeSpec)
    requires
        fits_timespec(t@),
    ensures
        spec == timespec_of(t@),
{
    TimeSpec { tv_sec: t.as_secs() as i64, tv_nsec: t.subsec_nanos() as i64 }
}

/// An instant as the kernel takes it, in seconds since the clock's zero.
pub fn instant_to_timespec(t: Instant) -> (spec: TimeSpec)
    ensures
        spec == timespec_of(since_zero(t@)),
{
    proof {
        use_type_invariant(&t);
    }
    duration_to_timespec(instant_to_duration(t))
}

/// Whether the kernel can be given such a timer.
pub open spec fn can_arm(
    deadline: Option<Instant>,
    interval: Option<Duration>,
    now: int,
) -> bool {
    &&& deadline is None ==> now + span_or_zero(interval) <= INSTANT_MAX_NANOS
    &&& fits_timespec(span_or_zero(interval))
}

/// A timer that first expires at an instant and then again after each span.
pub open spec fn timerspec_of(first: int, interval: nat) -> TimerSpec {
    TimerSpec { it_value: timespec_of(since_zero(first)), it_interval: timespec_of(interval) }
}

/// A timer that expires at `deadline`, or, without one, an interval after `now`, and
/// then every `interval`, if any.
pub open spec fn armed(deadline: Option<Instant>, interval: Option<Duration>, now: int) -> TimerSpec {
    timerspec_of(first_expiration(deadline, interval, now), span_or_zero(interval))
}

impl TimerSpec {
    /// The schedule that it stands for, unless the first expiration is at the clock's
    /// zero.
    pub open spec fn setting(self) -> SettingView {
        SettingView {
            deadline: self.it_value.nanos(),
            interval: if self.it_interval.nanos() == 0 {
                None
            } else {
                Some(self.it_interval.nanos() as nat)
            },
        }
    }
}

/// What a timer is armed with: to expire at `deadline`, or, without one, an interval
/// after `now`, and then every `interval`, if any. `now` is a reading of the clock.
pub fn make_timerspec(deadline: Option<Instant>, interval: Option<Duration>, now: Instant) -> (spec:
    TimerSpec)
    requires
        can_arm(deadline, interval, now@),
    ensures
        spec == armed(deadline, interval, now@),
{
    let every = match interval {
        Some(interval) => interval,
        None => Duration::default(),
    };
    let first = match deadline {
        Some(deadline) => deadline,
        None => now.checked_add(every).unwrap(),
    };
    TimerSpec {
        it_value: instant_to_timespec(first),
        it_interval: duration_to_timespec(every),
    }
}

/// A timer, with what its file descriptor was last armed with. The times in it are
/// absolute readings of the monotonic clock.
#[derive(Debug)]
pub struct Timer {
    spec: TimerSpec,
}

impl View for Timer {
    type V = TimerSpec;

    closed spec fn view(&self) -> TimerSpec {
        self.spec
    }
}

/// What a timer is told while it is polled.
#[derive(Debug, PartialEq, Eq)]
pub enum TimerEvent {
    /// Somebody asks for expirations.
    Polled,
    /// Whether the descriptor can be read is known: `Ready(false)` if asking failed.
    Readiness(Poll<bool>),
    /// The descriptor was read: `size` bytes, which hold the number `expirations`
    /// if they are enough.
    Read { size: usize, expirations: u64 },
    /// Reading failed with this error number of the system, if it gave one.
    ReadFailed { errno: Option<i32> },
}

/// What is to be done next about a poll of a timer.
#[derive(Debug, PartialEq, Eq)]
pub enum TimerAction {
    /// Ask whether the descriptor can be read.
    PollReadiness,
    /// Note that it is about to be read, and read it.
    Read,
    /// Answer the poll.
    Return(Poll<u64>),
    /// Give up: the descriptor does not behave like a timer's.
    Fail(TimerFailure),
}

/// How a descriptor can fail to behave like a timer's.
#[derive(Debug, PartialEq, Eq)]
pub enum TimerFailure {
    /// It could not be polled.
    Poll,
    /// It gave another number of bytes than eight.
    Size,
    /// It could not be read.
    Read,
}

/// What is to be done about an event. `eagain` is the system's error number for
/// trying again later: nothing has expired after all.
pub open spec fn timer_action(event: TimerEvent, eagain: i32) -> TimerAction {
    match event {
        TimerEvent::Polled => TimerAction::PollReadiness,
        TimerEvent::Readiness(Poll::Pending) => TimerAction::Return(Poll::Pending),
        TimerEvent::Readiness(Poll::Ready(true)) => TimerAction::Read,
        TimerEvent::Readiness(Poll::Ready(false)) => TimerAction::Fail(TimerFailure::Poll),
        TimerEvent::Read { size, expirations } => if size == 8 {
            TimerAction::Return(Poll::Ready(expirations))
        } else {
            TimerAction::Fail(TimerFailure::Size)
        },
        TimerEvent::ReadFailed { errno } => if errno == Some(eagain) {
            TimerAction::Return(Poll::Pending)
        } else {
            TimerAction::Fail(TimerFailure::Read)
        },
    }
}

impl Timer {
    /// A timer that expires at `deadline`, or, without one, an interval after `now`,
    /// and then every `interval`, if any.
    pub fn new(deadline: Option<Instant>, interval: Option<Duration>, now: Instant) -> (timer:
        Timer)
        requires
            can_arm(deadline, interval, now@),
        ensures
            timer@ == armed(deadline, interval, now@),
    {
        Timer { spec: make_timerspec(deadline, interval, now) }
    }

    /// Whether such a timer can be made.
    pub fn fits(deadline: Option<Instant>, interval: Option<Duration>, now: Instant) -> (fits: bool)
        ensures
            fits == can_arm(deadline, interval, now@),
    {
        let every = match interval {
            Some(interval) => interval,
            None => Duration::default(),
        };
        (deadline.is_some() || now.checked_add(every).is_some()) && every.as_secs()
            <= i64::MAX as u64
    }

    /// Makes the timer expire as a new one would.
    pub fn reset(&mut self, deadline: Option<Instant>, interval: Option<Duration>, now: Instant)
        requires
            can_arm(deadline, interval, now@),
        ensures
            final(self)@ == armed(deadline, interval, now@),
    {
        self.spec = make_timerspec(deadline, interval, now);
    }

    /// What the file descriptor is to be armed with.
    pub fn spec(&self) -> (spec: TimerSpec)
        ensures
            spec == self@,
    {
        self.spec
    }

    /// Takes in an event and says what is to be done next.
    pub fn poll_expired(&mut self, event: TimerEvent, eagain: i32) -> (action: TimerAction)
        ensures
            final(self)@ == old(self)@,
            action == timer_action(event, eagain),
    {
        match event {
            TimerEvent::Polled => TimerAction::PollReadiness,
            TimerEvent::Readiness(Poll::Pending) => TimerAction::Return(Poll::Pending),
            TimerEvent::Readiness(Poll::Ready(readable)) => {
                if readable {
                    TimerAction::Read
                } else {
                    TimerAction::Fail(TimerFailure::Poll)
                }
            },
            TimerEvent::Read { size, expirations } => {
                if size == 8 {
                    TimerAction::Return(Poll::Ready(expirations))
                } else {
                    TimerAction::Fail(TimerFailure::Size)
                }
            },
            TimerEvent::ReadFailed { errno: Some(errno) } => {
                if errno == eagain {
                    TimerAction::Return(Poll::Pending)
                } else {
                    TimerAction::Fail(TimerFailure::Read)
                }
            },
            TimerEvent::ReadFailed { errno: None } => TimerAction::Fail(TimerFailure::Read),
        }
    }
}

/// One whole poll of a timer, with whether the descriptor can be read and with what
/// comes of reading it, where that is done.
pub open spec fn poll(readiness: Poll<bool>, read: TimerEvent, eagain: i32) -> TimerAction {
    match timer_action(TimerEvent::Polled, eagain) {
        TimerAction::PollReadiness => match timer_action(
            TimerEvent::Readiness(readiness),
            eagain,
        ) {
            TimerAction::Read => timer_action(read, eagain),
            other => other,
        },
        other => other,
    }
}

/// A poll is answered with expirations exactly if the descriptor can be read and gives
/// eight bytes, and then with the number in them; it is told to wait exactly if the
/// descriptor cannot be read yet, or says when it is read that it is to be tried again.
/// Anything else is a failure.
pub proof fn law_poll(readiness: Poll<bool>, read: TimerEvent, eagain: i32)
    requires
        read is Read || read is ReadFailed,
    ensures
        forall|n: u64|
            poll(readiness, read, eagain) == TimerAction::Return(Poll::Ready(n)) <==> readiness
                == Poll::Ready(true) && read == (TimerEvent::Read { size: 8, expirations: n }),
        poll(readiness, read, eagain) == TimerAction::Return(Poll::Pending) <==> readiness
            == Poll::<bool>::Pending || readiness == Poll::Ready(true) && read == (
        TimerEvent::ReadFailed { errno: Some(eagain) }),
        poll(readiness, read, eagain) is Return || poll(readiness, read, eagain) is Fail,
{
}

/// A timer that was reset is like a new one, whatever it was before, and both keep
/// exactly the schedule that was asked for: nothing expires before the deadline. The
/// deadlines that the kernel does not count are left out.
pub proof fn law_reset_starts_over(
    reset: TimerSpec,
    made: TimerSpec,
    deadline: Instant,
    interval: Option<Duration>,
    reset_at: int,
    made_at: int,
    t: int,
)
    requires
        reset == armed(Some(deadline), interval, reset_at),
        made == armed(Some(deadline), interval, made_at),
        0 < deadline@ <= INSTANT_MAX_NANOS,
        fits_timespec(span_or_zero(interval)),
    ensures
        reset == made,
        reset.setting().expirations_by(t) == (SettingView {
            deadline: deadline@,
            interval: span_view(interval),
        }).expirations_by(t),
        t < deadline@ ==> reset.setting().expirations_by(t) == 0,
{
    law_timerspec_keeps_the_schedule(deadline@, span_or_zero(interval));
}

/// Nothing is lost on the way to the kernel: the seconds and the fraction make up
/// the span again, and the fraction is less than a second.
pub proof fn law_timespec_is_exact(nanos: nat)
    requires
        fits_timespec(nanos),
    ensures
        timespec_of(nanos).wf(),
        timespec_of(nanos).nanos() == nanos,
{
}

/// Spans keep their order on the way to the kernel: by seconds first, then by
/// fraction.
pub proof fn law_timespec_keeps_order(a: nat, b: nat)
    requires
        fits_timespec(a),
        fits_timespec(b),
    ensures
        a < b <==> {
            ||| timespec_of(a).tv_sec < timespec_of(b).tv_sec
            ||| timespec_of(a).tv_sec == timespec_of(b).tv_sec && timespec_of(a).tv_nsec
                < timespec_of(b).tv_nsec
        },
{
}

/// The kernel is given the schedule that was asked for, to the nanosecond. A deadline
/// before the clock's zero, of which the kernel knows nothing, is left out.
pub proof fn law_timerspec_keeps_the_schedule(deadline: int, interval: nat)
    requires
        0 <= deadline <= INSTANT_MAX_NANOS,
        fits_timespec(interval),
    ensures
        timerspec_of(deadline, interval).it_value.nanos() == deadline,
        timerspec_of(deadline, interval).it_interval.nanos() == interval,
{
}

/// The kernel is given seconds and a fraction of less than a second that make up exactly
/// the span, and it can be given every span whose seconds fit.
pub proof fn law_seconds_and_fraction(nanos: nat)
    ensures
        fits_timespec(nanos) <==> nanos < 9_223_372_036_854_775_808_000_000_000,
        fits_timespec(nanos) ==> 0 <= timespec_of(nanos).tv_sec && 0 <= timespec_of(
            nanos,
        ).tv_nsec < 1_000_000_000 && timespec_of(nanos).tv_sec * 1_000_000_000 + timespec_of(
            nanos,
        ).tv_nsec == nanos,
{
}

/// A timer is armed with its first expiration, counted from the clock's zero, and with
/// its interval, which is empty for a timer that has none; a first expiration before the
/// clock's zero is brought forward to it.
pub proof fn law_armed_with_what_was_asked_for(
    deadline: Option<Instant>,
    interval: Option<Duration>,
    now: int,
    first: int,
)
    requires
        can_arm(deadline, interval, now),
        deadline matches Some(deadline) ==> first == deadline@ && first <= INSTANT_MAX_NANOS,
        deadline is None && interval is None ==> first == now,
        deadline is None ==> (interval matches Some(span) ==> first == now + span@),
    ensures
        ({
            let spec = armed(deadline, interval, now);
            let value = spec.it_value.tv_sec * 1_000_000_000 + spec.it_value.tv_nsec;
            let every = spec.it_interval.tv_sec * 1_000_000_000 + spec.it_interval.tv_nsec;
            &&& 0 <= spec.it_value.tv_nsec < 1_000_000_000
            &&& 0 <= spec.it_interval.tv_nsec < 1_000_000_000
            &&& first >= 0 ==> value == first
            &&& first < 0 ==> value == 0
            &&& interval matches Some(span) ==> every == span@
            &&& interval is None ==> every == 0
        }),
{
}

/// The kernel can be given every timer whose first expiration is an instant and whose
/// interval has seconds that fit.
pub proof fn law_what_can_be_armed(deadline: Instant, interval: Duration, now: int)
    ensures
        can_arm(Some(deadline), None, now),
        can_arm(Some(deadline), Some(interval), now) <==> interval@
            < 9_223_372_036_854_775_808_000_000_000,
        can_arm(None, None, now) <==> now <= INSTANT_MAX_NANOS,
        can_arm(None, Some(interval), now) <==> now + interval@ <= INSTANT_MAX_NANOS && interval@
            < 9_223_372_036_854_775_808_000_000_000,
{
}

/// A poll asks first whether the descriptor can be read, and reads it only then; each way
/// in which the descriptor fails is told apart.
pub proof fn law_failures_are_told_apart(
    size: usize,
    expirations: u64,
    errno: Option<i32>,
    eagain: i32,
)
    ensures
        timer_action(TimerEvent::Polled, eagain) is PollReadiness,
        timer_action(TimerEvent::Readiness(Poll::Ready(true)), eagain) is Read,
        timer_action(TimerEvent::Readiness(Poll::Pending), eagain) == TimerAction::Return(
            Poll::Pending,
        ),
        timer_action(TimerEvent::Readiness(Poll::Ready(false)), eagain) == TimerAction::Fail(
            TimerFailure::Poll,
        ),
        size == 8 ==> timer_action(TimerEvent::Read { size, expirations }, eagain)
            == TimerAction::Return(Poll::Ready(expirations)),
        size != 8 ==> timer_action(TimerEvent::Read { size, expirations }, eagain)
            == TimerAction::Fail(TimerFailure::Size),
        errno == Some(eagain) ==> timer_action(TimerEvent::ReadFailed { errno }, eagain)
            == TimerAction::Return(Poll::Pending),
        errno != Some(eagain) ==> timer_action(TimerEvent::ReadFailed { errno }, eagain)
            == TimerAction::Fail(TimerFailure::Read),
{
}

/// A timer tells how often it expired since it was last asked.
pub proof fn law_expirations_are_remembered()
    ensures
        TIMER_REMEMBER_EXPIRATIONS,
{
}

} // verus!
