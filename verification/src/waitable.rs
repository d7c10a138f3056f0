//! Waitable timers, which are told when to expire in units of 100 nanoseconds from
//! now, and made periodic by being set again each time.
use std::task::Context;
use vstd::prelude::*;

use crate::ends::{are_new_ends, GiverView, Waiter, WaiterView};
use crate::poll::Poll;
use crate::semaphore::{
    asked_for_all, is_run, law_expirations_are_conserved, total_announced, total_counted, Ends,
    Notifier, Step,
};
use crate::time::{instant_to_duration, since_zero, Duration, Instant, INSTANT_MAX_NANOS};
use crate::timer::{first_expiration, span_or_zero};

verus! {

/// Every expiration runs the callback, so none goes uncounted.
pub const TIMER_REMEMBER_EXPIRATIONS: bool = true;

/// What the callback of a timer works on: where expirations are announced, what the
/// timer is to be set to next, and how much later each time. A timer with the interval
/// zero expires once.
pub struct Capsule {
    notify: Notifier,
    deadline: u64,
    interval: u64,
}

/// The view of a [`Capsule`]; its times are in nanoseconds since the clock's zero.
pub struct CapsuleView {
    pub notify: GiverView,
    pub deadline: u64,
    pub interval: u64,
}

impl View for Capsule {
    type V = CapsuleView;

    closed spec fn view(&self) -> CapsuleView {
        CapsuleView { notify: self.notify@, deadline: self.deadline, interval: self.interval }
    }
}

/// The due time of a timer that is to expire at `deadline`: the time left, rounded
/// up to units of 100 nanoseconds, and negative, which is how a timer is told that
/// it counts from now on. It is zero if `deadline` has passed.
pub open spec fn due_time(deadline: nat, now: nat) -> int {
    if deadline <= now {
        0
    } else {
        -((deadline - now + 99) / 100)
    }
}

/// The length of a span in nanoseconds.
pub fn duration_to_nseconds(duration: Duration) -> (nanos: u64)
    requires
        duration@ <= u64::MAX,
    ensures
        nanos == duration@,
{
    duration.as_nanos() as u64
}

/// Nanoseconds since the clock's zero.
pub fn instant_to_nseconds(instant: Instant) -> (nanos: u64)
    requires
        instant@ <= u64::MAX,
    ensures
        nanos == since_zero(instant@),
{
    duration_to_nseconds(instant_to_duration(instant))
}

/// The due time of a timer that is to expire when the clock shows `deadline`
/// nanoseconds.
pub fn make_duetime(deadline: u64, now: Instant) -> (due: i64)
    requires
        now@ <= u64::MAX,
    ensures
        due == due_time(deadline as nat, since_zero(now@)),
{
    let left: u64 = deadline.saturating_sub(instant_to_nseconds(now));
    let units: u64 = left / 100 + if left % 100 == 0 {
        0
    } else {
        1
    };
    -(units as i64)
}

/// `a + b`, starting again at zero where that is too large.
pub open spec fn wrapping_sum(a: u64, b: u64) -> u64 {
    if a + b > u64::MAX {
        (a + b - u64::MAX - 1) as u64
    } else {
        (a + b) as u64
    }
}

impl CapsuleView {
    /// The capsule after an expiration: it was announced, and a periodic timer is due
    /// once more.
    pub open spec fn expired(self) -> CapsuleView {
        CapsuleView {
            notify: self.notify.after(1),
            deadline: if self.interval == 0 {
                self.deadline
            } else {
                wrapping_sum(self.deadline, self.interval)
            },
            ..self
        }
    }

    /// The capsule after so many expirations.
    pub open spec fn expired_times(self, n: nat) -> CapsuleView
        decreases n,
    {
        if n == 0 {
            self
        } else {
            self.expired_times((n - 1) as nat).expired()
        }
    }
}

impl Capsule {
    /// The timer's expirations were counted as they were announced.
    pub closed spec fn wf(self) -> bool {
        self.notify.wf()
    }

    /// Whether there is room to announce another expiration.
    pub fn can_expire(&self) -> (can: bool)
        requires
            self.wf(),
        ensures
            can == self@.notify.has_room(1),
    {
        self.notify.has_room(1)
    }

    /// Whether the timer expires only once.
    pub fn expires_once(&self) -> (once: bool)
        ensures
            once == (self@.interval == 0),
    {
        self.interval == 0
    }

    /// Announces an expiration; for a periodic timer, the due time to set it to. `now`
    /// is a reading of the clock.
    pub fn reset_timer(&mut self, now: Instant) -> (due: Option<i64>)
        requires
            old(self).wf(),
            old(self)@.notify.has_room(1),
            old(self)@.interval != 0 ==> now@ <= u64::MAX,
        ensures
            final(self).wf(),
            final(self)@ == old(self)@.expired(),
            match due {
                Some(due) => {
                    &&& old(self)@.interval != 0
                    &&& due == due_time(old(self)@.deadline as nat, since_zero(now@))
                },
                None => old(self)@.interval == 0,
            },
    {
        self.notify.announce();
        if self.interval != 0 {
            let deadline: u64 = self.deadline;
            self.deadline = deadline.wrapping_add(self.interval);
            Some(make_duetime(deadline, now))
        } else {
            None
        }
    }
}

/// Whether a timer can be made: its times, in nanoseconds, fit `u64`.
pub open spec fn can_arm(
    deadline: Option<Instant>,
    interval: Option<Duration>,
    called: int,
    now: int,
) -> bool {
    let first = first_expiration(deadline, interval, called);
    &&& now <= u64::MAX
    &&& span_or_zero(interval) <= u64::MAX
    &&& first <= INSTANT_MAX_NANOS
    &&& first + span_or_zero(interval) <= u64::MAX
}

/// A timer: what it was set to when it was made, and the end of its semaphore that
/// waits for expirations.
pub struct Timer {
    due: i64,
    waiter: Waiter,
}

/// The view of a [`Timer`].
pub struct TimerView {
    /// What the timer was set to when it was made.
    pub due: int,
    /// Where it waits for its expirations.
    pub waiter: WaiterView,
}

impl View for Timer {
    type V = TimerView;

    closed spec fn view(&self) -> TimerView {
        TimerView { due: self.due as int, waiter: self.waiter@ }
    }
}

/// Whether this is a new timer that first expires at `first` and then every `interval`,
/// with its capsule, made when the clock shows `now`.
pub open spec fn is_timer(
    timer: TimerView,
    capsule: CapsuleView,
    first: int,
    interval: nat,
    now: int,
) -> bool {
    &&& timer.due == due_time(since_zero(first), since_zero(now))
    &&& are_new_ends(capsule.notify, timer.waiter)
    &&& capsule.deadline == since_zero(first + interval)
    &&& capsule.interval == interval
}

impl Timer {
    /// A timer that expires at `deadline`, or, without one, an interval after `called`, a
    /// reading of the clock, and then every `interval`, if any; and what its callback
    /// works on. `now` is a later reading.
    pub fn new(
        deadline: Option<Instant>,
        interval: Option<Duration>,
        called: Instant,
        now: Instant,
    ) -> (made: (Timer, Capsule))
        requires
            can_arm(deadline, interval, called@, now@),
        ensures
            made.1.wf(),
            is_timer(
                made.0@,
                made.1@,
                first_expiration(deadline, interval, called@),
                span_or_zero(interval),
                now@,
            ),
    {
        let interval = match interval {
            Some(interval) => interval,
            None => Duration::default(),
        };
        let deadline = match deadline {
            Some(deadline) => deadline,
            None => called.checked_add(interval).unwrap(),
        };
        let due: i64 = make_duetime(instant_to_nseconds(deadline), now);
        let (notify, waiter) = Notifier::new();
        let capsule = Capsule {
            notify,
            deadline: instant_to_nseconds(deadline.checked_add(interval).unwrap()),
            interval: duration_to_nseconds(interval),
        };
        (Timer { due, waiter }, capsule)
    }

    /// Whether such a timer can be made.
    pub fn fits(
        deadline: Option<Instant>,
        interval: Option<Duration>,
        called: Instant,
        now: Instant,
    ) -> (fits: bool)
        ensures
            fits == can_arm(deadline, interval, called@, now@),
    {
        let every = match interval {
            Some(interval) => interval,
            None => Duration::default(),
        };
        let first: i128 = match deadline {
            Some(deadline) => deadline.as_nanos(),
            None => called.as_nanos() + every.as_nanos() as i128,
        };
        now.as_nanos() <= u64::MAX as i128 && every.as_nanos() <= u64::MAX as u128 && first
            <= INSTANT_MAX_NANOS && first + every.as_nanos() as i128 <= u64::MAX as i128
    }

    /// Replaces the timer by a new one, as [`Timer::new`] makes it, and gives what its callback works on.
    pub fn reset(
        &mut self,
        deadline: Option<Instant>,
        interval: Option<Duration>,
        called: Instant,
        now: Instant,
    ) -> (capsule: Capsule)
        requires
            can_arm(deadline, interval, called@, now@),
        ensures
            capsule.wf(),
            is_timer(
                final(self)@,
                capsule@,
                first_expiration(deadline, interval, called@),
                span_or_zero(interval),
                now@,
            ),
    {
        let (timer, capsule) = Timer::new(deadline, interval, called, now);
        *self = timer;
        capsule
    }

    /// What the timer is to be set to when it is made.
    pub fn due(&self) -> (due: i64)
        ensures
            due == self@.due,
    {
        self.due
    }

    /// Takes the expirations that were counted since the last time: `Pending` if
    /// there are none, `Ready(None)` if the semaphore is closed.
    pub fn poll_expired(&mut self, cx: &mut Context<'_>) -> (expired: Poll<Option<u64>>)
        ensures
            final(self)@ == (TimerView { waiter: final(self)@.waiter, ..old(self)@ }),
            asked_for_all(expired, old(self)@.waiter, final(self)@.waiter),
    {
        crate::semaphore::poll_expired(&mut self.waiter, cx)
    }
}

/// The error number with which the system says that an operation goes on.
pub const ERROR_IO_PENDING: u32 = 997;

/// The result code of a system error, a number whose upper half says that it is one:
/// 0x8007 above the lower half of the error number. Zero, and what is a result code
/// already, stay as they are. Result codes are read as signed numbers.
pub open spec fn hresult_of(error: u32) -> int {
    if error == 0 {
        0
    } else if error >= 0x8000_0000 {
        error - 0x1_0000_0000
    } else {
        0x8007_0000 + error % 0x1_0000 - 0x1_0000_0000
    }
}

/// The result code of a system error.
pub fn hresult_from_win32(error: u32) -> (code: i32)
    ensures
        code == hresult_of(error),
{
    if error == 0 {
        0
    } else if error >= 0x8000_0000 {
        (error as i64 - 0x1_0000_0000i64) as i32
    } else {
        (0x8007_0000i64 + (error % 0x1_0000) as i64 - 0x1_0000_0000i64) as i32
    }
}

/// What unregistering a wait came to, from the error code it returned, if any: that
/// the callback is still running is no failure, since it is waited for.
pub fn unregistered(error: Option<i32>) -> (result: Result<(), i32>)
    ensures
        result == match error {
            Some(code) => if code == hresult_of(ERROR_IO_PENDING) {
                Ok::<(), i32>(())
            } else {
                Err::<(), i32>(code)
            },
            None => Ok::<(), i32>(()),
        },
{
    match error {
        Some(code) => {
            if code == hresult_from_win32(ERROR_IO_PENDING) {
                Ok(())
            } else {
                Err(code)
            }
        },
        None => Ok(()),
    }
}

/// A timer never expires early by its due time, and less than a unit late.
pub proof fn law_due_time_rounds_up(deadline: nat, now: nat)
    requires
        now <= deadline,
    ensures
        deadline <= now + 100 * -due_time(deadline, now) < deadline + 100,
{
}

/// A deadline that has passed is due at once.
pub proof fn law_passed_deadline_is_due(deadline: nat, now: nat)
    requires
        deadline <= now,
    ensures
        due_time(deadline, now) == 0,
{
}

/// A timer that was reset is like a new one, whatever it was before: it is due at the
/// same time, goes on with the same interval, and nothing that expired before is left to
/// be counted.
pub proof fn law_reset_starts_over(
    reset: TimerView,
    reset_capsule: CapsuleView,
    made: TimerView,
    made_capsule: CapsuleView,
    first: int,
    interval: nat,
    now: int,
)
    requires
        is_timer(reset, reset_capsule, first, interval, now),
        is_timer(made, made_capsule, first, interval, now),
    ensures
        reset.due == made.due,
        reset_capsule.deadline == made_capsule.deadline,
        reset_capsule.interval == made_capsule.interval,
        reset_capsule.notify.given == made_capsule.notify.given == 0,
        reset.waiter.request == made.waiter.request,
        reset.waiter.taken == made.waiter.taken == 0,
        (Ends { notify: reset_capsule.notify, waiter: reset.waiter }).left() == 0,
        (Ends { notify: made_capsule.notify, waiter: made.waiter }).left() == 0,
{
}

/// A timer and its capsule.
pub struct Running {
    pub timer: TimerView,
    pub capsule: CapsuleView,
}

/// What happens to a timer.
pub enum TimerStep {
    /// It expires, and its callback runs.
    Expired,
    /// It is polled, and this is the answer.
    Polled(Poll<Option<u64>>),
}

impl TimerStep {
    /// What the step is at the ends of the timer's semaphore.
    pub open spec fn at_ends(self) -> Step {
        match self {
            TimerStep::Expired => Step::Announced(1),
            TimerStep::Polled(expired) => Step::Polled(expired),
        }
    }
}

impl Running {
    /// The ends of the timer's semaphore.
    pub open spec fn ends(self) -> Ends {
        Ends { notify: self.capsule.notify, waiter: self.timer.waiter }
    }

    /// Whether `after` is what a step leaves of the timer and its capsule.
    pub open spec fn steps_to(self, step: TimerStep, after: Running) -> bool {
        match step {
            TimerStep::Expired => {
                &&& after.capsule == self.capsule.expired()
                &&& after.timer == self.timer
            },
            TimerStep::Polled(expired) => {
                &&& after.capsule == self.capsule
                &&& after.timer == (TimerView { waiter: after.timer.waiter, ..self.timer })
                &&& asked_for_all(expired, self.timer.waiter, after.timer.waiter)
            },
        }
    }
}

/// No expiration of a timer is lost or counted again: from its making on, those that its
/// answers stood for and those that are left in its semaphore make up the runs of its
/// callback.
pub proof fn law_timer_counts_its_expirations(states: Seq<Running>, steps: Seq<TimerStep>)
    requires
        states.len() == steps.len() + 1,
        forall|i: int|
            0 <= i < steps.len() ==> (#[trigger] states[i]).steps_to(steps[i], states[i + 1]),
        are_new_ends(states[0].ends().notify, states[0].ends().waiter),
    ensures
        ({
            let at_ends = steps.map_values(|step: TimerStep| step.at_ends());
            total_counted(at_ends) + states.last().ends().left() == total_announced(at_ends)
        }),
{
    let at_ends = steps.map_values(|step: TimerStep| step.at_ends());
    let ends = states.map_values(|state: Running| state.ends());
    assert(is_run(ends, at_ends)) by {
        assert forall|i: int| 0 <= i < at_ends.len() implies (#[trigger] ends[i]).steps_to(
            at_ends[i],
            ends[i + 1],
        ) by {
            assert(states[i].steps_to(steps[i], states[i + 1]));
        }
    }
    law_expirations_are_conserved(ends, at_ends);
}

/// A periodic timer does not drift, however late its callback runs: the deadline it
/// is set to next after `n` expirations lies exactly `n + 1` intervals after the first,
/// and each of them was announced.
pub proof fn law_periodic_timer_does_not_drift(
    timer: TimerView,
    capsule: CapsuleView,
    first: int,
    interval: nat,
    now: int,
    n: nat,
)
    requires
        is_timer(timer, capsule, first, interval, now),
        0 <= first + interval,
        first + (n + 1) * interval <= u64::MAX,
    ensures
        capsule.expired_times(n).deadline == first + (n + 1) * interval,
        capsule.expired_times(n).interval == interval,
        capsule.expired_times(n).notify == (GiverView {
            semaphore: timer.waiter.semaphore,
            given: n,
        }),
    decreases n,
{
    assert((n + 1) * interval == n * interval + interval) by (nonlinear_arith);
    if n == 0 {
        assert(0 * interval == 0);
    } else {
        law_periodic_timer_does_not_drift(
            timer,
            capsule,
            first,
            interval,
            now,
            (n - 1) as nat,
        );
    }
}

/// A new timer never expires before its first expiration, and less than a unit of 100
/// nanoseconds after it; if that instant has passed, at once. Times before the clock's
/// zero count as zero.
pub proof fn law_new_timer_is_due_at_its_first_expiration(
    timer: TimerView,
    capsule: CapsuleView,
    first: int,
    interval: nat,
    now: int,
)
    requires
        is_timer(timer, capsule, first, interval, now),
    ensures
        0 <= now <= first ==> first <= now + 100 * -timer.due < first + 100,
        now < 0 <= first ==> first <= 100 * -timer.due < first + 100,
        first <= now ==> timer.due == 0,
        first <= 0 ==> timer.due == 0,
        0 <= first + interval ==> capsule.deadline == first + interval,
        first + interval <= 0 ==> capsule.deadline == 0,
        capsule.interval == interval,
        capsule.notify.semaphore == timer.waiter.semaphore,
        capsule.notify.given == 0,
        timer.waiter.taken == 0,
        timer.waiter.request is None,
{
}

/// An expiration is announced once, and moves the next deadline of a periodic timer by
/// exactly its interval, starting again at zero where a count of 64 bits ends; that of a
/// timer that expires once stays. The interval never changes.
pub proof fn law_expiration_moves_the_deadline(capsule: CapsuleView)
    ensures
        capsule.expired().notify.given == capsule.notify.given + 1,
        capsule.expired().notify.semaphore == capsule.notify.semaphore,
        capsule.expired().interval == capsule.interval,
        capsule.interval == 0 ==> capsule.expired().deadline == capsule.deadline,
        capsule.deadline + capsule.interval < 0x1_0000_0000_0000_0000
            ==> capsule.expired().deadline == capsule.deadline + capsule.interval,
        capsule.deadline + capsule.interval >= 0x1_0000_0000_0000_0000
            ==> capsule.expired().deadline + 0x1_0000_0000_0000_0000 == capsule.deadline
            + capsule.interval,
{
}

/// A timer can be made whenever its times, from the clock's zero on, fit 64 bits, and its
/// first expiration is an instant.
pub proof fn law_what_can_be_armed(
    deadline: Option<Instant>,
    interval: Option<Duration>,
    called: int,
    now: int,
    first: int,
    every: nat,
)
    requires
        interval is None ==> every == 0,
        interval matches Some(span) ==> every == span@,
        deadline is None ==> first == called + every,
        deadline matches Some(deadline) ==> first == deadline@,
    ensures
        can_arm(deadline, interval, called, now) <==> now < 0x1_0000_0000_0000_0000 && every
            < 0x1_0000_0000_0000_0000 && first <= INSTANT_MAX_NANOS && first + every
            < 0x1_0000_0000_0000_0000,
{
}

/// A system error keeps the lower half of its number in its result code, under the upper
/// half that says what it is; success, and what is a result code already, keep all of
/// their bits.
pub proof fn law_result_codes(error: u32)
    ensures
        error == 0 ==> hresult_of(error) == 0,
        error >= 0x8000_0000 ==> hresult_of(error) + 0x1_0000_0000 == error,
        0 < error < 0x8000_0000 ==> (hresult_of(error) + 0x1_0000_0000) / 0x1_0000 == 0x8007
            && (hresult_of(error) + 0x1_0000_0000) % 0x1_0000 == error % 0x1_0000,
        -0x8000_0000 <= hresult_of(error) <= 0x7fff_ffff,
{
}

/// A timer tells how often it expired since it was last asked.
pub proof fn law_expirations_are_remembered()
    ensures
        TIMER_REMEMBER_EXPIRATIONS,
{
}

} // verus!
