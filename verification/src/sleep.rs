//! Waiting until an instant has come.
use vstd::prelude::*;

use crate::poll::Poll;
use crate::time::{Duration, Instant, INSTANT_MAX_NANOS};
use crate::timer::{Setting, SettingView};

verus! {

/// A wait that completes when its timer expires.
///
/// The timer is armed as [`Sleep::timer`] says each time a sleep has been made or
/// reset.
pub struct Sleep {
    timer: Setting,
    deadline: Instant,
    elapsed: bool,
}

/// The view of a [`Sleep`].
pub struct SleepView {
    /// What the timer was last armed with.
    pub timer: SettingView,
    /// The instant at which the sleep completes.
    pub deadline: int,
    pub elapsed: bool,
}

/// What a sleep is told.
#[derive(Debug, PartialEq, Eq)]
pub enum SleepEvent {
    /// Somebody asks whether the sleep has completed.
    Polled,
    /// The timer was asked, and reports this many expirations or none yet.
    Timer(Poll<u64>),
}

/// What is to be done next about a poll of a sleep.
#[derive(Debug, PartialEq, Eq)]
pub enum SleepAction {
    /// Ask the timer, and tell the sleep what it reports.
    PollTimer,
    /// Answer the poll.
    Return(Poll<()>),
}

impl View for Sleep {
    type V = SleepView;

    closed spec fn view(&self) -> SleepView {
        SleepView {
            timer: self.timer@,
            deadline: self.deadline@,
            elapsed: self.elapsed,
        }
    }
}

impl SleepView {
    /// A new sleep.
    pub open spec fn until(deadline: int) -> SleepView {
        SleepView {
            timer: SettingView { deadline, interval: None },
            deadline,
            elapsed: false,
        }
    }

    /// Whether the timer expires once, at the deadline.
    pub open spec fn is_armed(self) -> bool {
        self.timer == (SettingView { deadline: self.deadline, interval: None })
    }

    /// The sleep after an event: it has elapsed once the timer has expired.
    pub open spec fn after(self, event: SleepEvent) -> SleepView {
        SleepView {
            elapsed: self.elapsed || event matches SleepEvent::Timer(Poll::Ready(_)),
            ..self
        }
    }

    /// What is to be done about an event: a sleep that has elapsed completes
    /// without asking its timer.
    pub open spec fn action(self, event: SleepEvent) -> SleepAction {
        if self.after(event).elapsed {
            SleepAction::Return(Poll::Ready(()))
        } else {
            match event {
                SleepEvent::Polled => SleepAction::PollTimer,
                SleepEvent::Timer(_) => SleepAction::Return(Poll::Pending),
            }
        }
    }

    /// One whole poll of the sleep, with what the timer reports if it is asked.
    pub open spec fn poll(self, expired: Poll<u64>) -> (Poll<()>, SleepView) {
        match self.action(SleepEvent::Polled) {
            SleepAction::Return(answer) => (answer, self.after(SleepEvent::Polled)),
            SleepAction::PollTimer => {
                let asked = self.after(SleepEvent::Polled);
                let event = SleepEvent::Timer(expired);
                (asked.action(event)->Return_0, asked.after(event))
            },
        }
    }
}

/// A sleep that completes at `deadline`.
pub fn sleep_until(deadline: Instant) -> (sleep: Sleep)
    ensures
        sleep@ == SleepView::until(deadline@),
{
    Sleep { timer: Setting::new(deadline, None), deadline, elapsed: false }
}

/// A sleep that completes when `duration` has passed since `now`.
pub fn sleep(duration: Duration, now: Instant) -> (sleep: Sleep)
    requires
        now@ + duration@ <= INSTANT_MAX_NANOS,
    ensures
        sleep@ == SleepView::until(now@ + duration@),
{
    sleep_until(now.checked_add(duration).unwrap())
}

impl Sleep {
    /// The timer expires once, at the deadline.
    #[verifier::type_invariant]
    pub open spec fn wf(self) -> bool {
        self@.is_armed()
    }

    /// Takes in an event and says what is to be done next.
    pub fn poll(&mut self, event: SleepEvent) -> (action: SleepAction)
        ensures
            final(self)@ == old(self)@.after(event),
            action == old(self)@.action(event),
    {
        proof {
            use_type_invariant(&*self);
        }
        if self.elapsed {
            return SleepAction::Return(Poll::Ready(()));
        }
        match event {
            SleepEvent::Polled => SleepAction::PollTimer,
            SleepEvent::Timer(expired) => {
                self.elapsed = expired.is_ready();
                if self.elapsed {
                    SleepAction::Return(Poll::Ready(()))
                } else {
                    SleepAction::Return(Poll::Pending)
                }
            },
        }
    }

    /// The instant at which the sleep completes.
    pub fn deadline(&self) -> (deadline: Instant)
        ensures
            deadline@ == self@.deadline,
    {
        self.deadline
    }

    /// Whether the sleep has been seen to complete.
    pub fn is_elapsed(&self) -> (elapsed: bool)
        ensures
            elapsed == self@.elapsed,
    {
        self.elapsed
    }

    /// What the timer was last armed with.
    pub fn timer(&self) -> (timer: Setting)
        ensures
            timer@ == self@.timer,
    {
        self.timer
    }

    /// Moves the sleep to another instant, whether it has elapsed or not: it completes
    /// at `deadline`, as a new one would.
    pub fn reset(&mut self, deadline: Instant)
        ensures
            final(self)@ == SleepView::until(deadline@),
    {
        *self = sleep_until(deadline);
    }
}

/// A sleep that has not elapsed completes with the first poll that finds its
/// timer expired, and no sooner.
pub proof fn law_completes_when_timer_expires(sleep: SleepView, expired: Poll<u64>)
    requires
        !sleep.elapsed,
    ensures
        sleep.poll(expired).0 is Ready <==> expired is Ready,
        sleep.poll(expired).1 == (SleepView { elapsed: expired is Ready, ..sleep }),
{
}

/// A sleep completes exactly from the instant on that its timer was last armed with,
/// if the timer reports an expiration as soon as there has been one.
pub proof fn law_completes_at_the_armed_instant(sleep: SleepView, expired: Poll<u64>, t: int)
    requires
        !sleep.elapsed,
        expired is Ready <==> sleep.timer.expirations_by(t) > 0,
    ensures
        sleep.poll(expired).0 is Ready <==> sleep.timer.deadline <= t,
{
    if sleep.timer.deadline <= t && sleep.timer.interval is Some && sleep.timer.interval->0 > 0 {
        vstd::arithmetic::div_mod::lemma_div_pos_is_pos(
            t - sleep.timer.deadline,
            sleep.timer.interval->0 as int,
        );
    }
}

/// A sleep completes exactly from its deadline on, if the timer reports an expiration
/// as soon as there has been one.
pub proof fn law_completes_at_its_deadline(sleep: SleepView, expired: Poll<u64>, t: int)
    requires
        sleep.is_armed(),
        !sleep.elapsed,
        expired is Ready <==> sleep.timer.expirations_by(t) > 0,
    ensures
        sleep.poll(expired).0 is Ready <==> sleep.deadline <= t,
        sleep.poll(expired).1.is_armed(),
{
    law_completes_at_the_armed_instant(sleep, expired, t);
}

/// After a reset a sleep waits again: whatever it was before, it has not elapsed, and it
/// completes exactly from the new deadline on, if its timer reports no expiration from
/// before the reset. A timer on a `kqueue` does report one that was not collected.
pub proof fn law_reset_waits_again(deadline: int, expired: Poll<u64>, t: int)
    requires
        expired is Ready <==> SleepView::until(deadline).timer.expirations_by(t) > 0,
    ensures
        !SleepView::until(deadline).elapsed,
        SleepView::until(deadline).deadline == deadline,
        SleepView::until(deadline).poll(expired).0 is Ready <==> deadline <= t,
{
    law_completes_at_its_deadline(SleepView::until(deadline), expired, t);
}

/// A sleep that has elapsed completes on every poll, stays as it is, and never
/// asks its timer again.
pub proof fn law_stays_complete(sleep: SleepView, expired: Poll<u64>)
    requires
        sleep.elapsed,
    ensures
        sleep.action(SleepEvent::Polled) != SleepAction::PollTimer,
        sleep.poll(expired).0 is Ready,
        sleep.poll(expired).1 == sleep,
{
}

/// The timer of a new sleep expires once, at the deadline.
pub proof fn law_expires_once_at_deadline(deadline: int, t: int)
    ensures
        SleepView::until(deadline).timer.expirations_by(t) == if t < deadline {
            0nat
        } else {
            1
        },
{
}

/// A new sleep has not elapsed, and its timer is armed to expire once, at the very
/// instant that the sleep is for.
pub proof fn law_new_sleep_is_armed(deadline: int)
    ensures
        SleepView::until(deadline).deadline == deadline,
        SleepView::until(deadline).timer.deadline == deadline,
        SleepView::until(deadline).timer.interval is None,
        !SleepView::until(deadline).elapsed,
{
}

/// A sleep that has not elapsed asks its timer each time it is polled, and goes by what
/// the timer says; one that has elapsed is done without asking. Nothing but an
/// expiration changes it.
pub proof fn law_sleep_goes_by_its_timer(sleep: SleepView, n: u64)
    ensures
        !sleep.elapsed ==> sleep.action(SleepEvent::Polled) is PollTimer,
        !sleep.elapsed ==> sleep.action(SleepEvent::Timer(Poll::Pending)) == SleepAction::Return(
            Poll::Pending,
        ),
        sleep.action(SleepEvent::Timer(Poll::Ready(n))) == SleepAction::Return(Poll::Ready(())),
        sleep.elapsed ==> sleep.action(SleepEvent::Polled) == SleepAction::Return(
            Poll::Ready(()),
        ),
        sleep.elapsed ==> sleep.action(SleepEvent::Timer(Poll::Pending)) == SleepAction::Return(
            Poll::Ready(()),
        ),
        sleep.after(SleepEvent::Polled) == sleep,
        sleep.after(SleepEvent::Timer(Poll::Pending)) == sleep,
        sleep.after(SleepEvent::Timer(Poll::Ready(n))).elapsed,
        sleep.after(SleepEvent::Timer(Poll::Ready(n))).deadline == sleep.deadline,
        sleep.after(SleepEvent::Timer(Poll::Ready(n))).timer == sleep.timer,
{
}

} // verus!
