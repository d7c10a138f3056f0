//! Giving a future a limited time.
use vstd::prelude::*;

use crate::error::Elapsed;
use crate::poll::Poll;
use crate::sleep::{sleep_until, Sleep, SleepAction, SleepEvent, SleepView};
use crate::time::{Duration, Instant, INSTANT_MAX_NANOS};

verus! {

/// A future together with the sleep that limits it.
pub struct Timeout<F> {
    future: F,
    sleep: Sleep,
}

/// What a timeout is told.
#[derive(Debug, PartialEq, Eq)]
pub enum TimeoutEvent<T> {
    /// Somebody asks whether the timeout has completed.
    Polled,
    /// The future was polled, with this outcome.
    Future(Poll<T>),
    /// The timer was asked, and reports this many expirations or none yet.
    Timer(Poll<u64>),
}

/// What is to be done next about a poll of a timeout.
#[derive(Debug, PartialEq, Eq)]
pub enum TimeoutAction<T> {
    /// Poll the future, and tell the timeout the outcome.
    PollFuture,
    /// Ask the timer, and tell the timeout what it reports.
    PollTimer,
    /// Answer the poll.
    Return(Poll<Result<T, Elapsed>>),
}

/// The view of a [`Timeout`].
pub struct TimeoutView<F> {
    pub future: F,
    pub sleep: SleepView,
}

impl<F> View for Timeout<F> {
    type V = TimeoutView<F>;

    closed spec fn view(&self) -> TimeoutView<F> {
        TimeoutView { future: self.future, sleep: self.sleep@ }
    }
}

/// The failure of a timeout.
pub open spec fn failed<T>() -> Poll<Result<T, Elapsed>> {
    Poll::Ready(Err(Elapsed::value()))
}

/// The sleep of a timeout after an event.
pub open spec fn sleep_after<T>(sleep: SleepView, event: TimeoutEvent<T>) -> SleepView {
    match event {
        TimeoutEvent::Timer(expired) => sleep.after(SleepEvent::Timer(expired)),
        _ => sleep,
    }
}

/// What is to be done about an event: a timeout whose sleep has elapsed fails
/// without polling the future; else the future is polled first and its output
/// counts; only if there is none the timer is asked, and its expiration counts.
pub open spec fn action<T>(sleep: SleepView, event: TimeoutEvent<T>) -> TimeoutAction<T> {
    match event {
        TimeoutEvent::Polled => if sleep.elapsed {
            TimeoutAction::Return(failed())
        } else {
            TimeoutAction::PollFuture
        },
        TimeoutEvent::Future(Poll::Ready(output)) => TimeoutAction::Return(
            Poll::Ready(Ok(output)),
        ),
        TimeoutEvent::Future(Poll::Pending) => if sleep.elapsed {
            TimeoutAction::Return(failed())
        } else {
            TimeoutAction::PollTimer
        },
        TimeoutEvent::Timer(expired) => if sleep.elapsed || expired is Ready {
            TimeoutAction::Return(failed())
        } else {
            TimeoutAction::Return(Poll::Pending)
        },
    }
}

/// The rest of a poll after the future has been polled: the answer, and the sleep
/// after it. `expired` is what the timer reports if it is asked.
pub open spec fn poll_rest<T>(sleep: SleepView, future: Poll<T>, expired: Poll<u64>) -> (
    Poll<Result<T, Elapsed>>,
    SleepView,
) {
    let polled = TimeoutEvent::Future(future);
    let asked = TimeoutEvent::Timer(expired);
    match action(sleep, polled) {
        TimeoutAction::Return(answer) => (answer, sleep_after(sleep, polled)),
        TimeoutAction::PollTimer => {
            let sleep = sleep_after(sleep, polled);
            (action::<T>(sleep, asked)->Return_0, sleep_after::<T>(sleep, asked))
        },
        TimeoutAction::PollFuture => (Poll::Pending, sleep_after(sleep, polled)),
    }
}

/// One whole poll of a timeout: the answer, and the sleep after it. `future` and
/// `expired` are the outcomes of polling the future and of asking the timer, where
/// that is done.
pub open spec fn poll<T>(sleep: SleepView, future: Poll<T>, expired: Poll<u64>) -> (
    Poll<Result<T, Elapsed>>,
    SleepView,
) {
    match action(sleep, TimeoutEvent::<T>::Polled) {
        TimeoutAction::Return(answer) => (answer, sleep_after(sleep, TimeoutEvent::<T>::Polled)),
        TimeoutAction::PollFuture => poll_rest(
            sleep_after(sleep, TimeoutEvent::<T>::Polled),
            future,
            expired,
        ),
        TimeoutAction::PollTimer => (
            Poll::Pending,
            sleep_after(sleep, TimeoutEvent::<T>::Polled),
        ),
    }
}

/// Limits `future` to the time until `deadline`.
pub fn timeout_at<F>(deadline: Instant, future: F) -> (timeout: Timeout<F>)
    ensures
        timeout@ == (TimeoutView { future, sleep: SleepView::until(deadline@) }),
{
    Timeout { future, sleep: sleep_until(deadline) }
}

/// Limits `future` to `duration` from `now` on.
pub fn timeout<F>(duration: Duration, future: F, now: Instant) -> (timeout: Timeout<F>)
    requires
        now@ + duration@ <= INSTANT_MAX_NANOS,
    ensures
        timeout@ == (TimeoutView { future, sleep: SleepView::until(now@ + duration@) }),
{
    timeout_at(now.checked_add(duration).unwrap(), future)
}

impl<F> Timeout<F> {
    /// Takes in an event and says what is to be done next.
    pub fn poll<T>(&mut self, event: TimeoutEvent<T>) -> (next: TimeoutAction<T>)
        ensures
            final(self)@ == (TimeoutView {
                sleep: sleep_after(old(self)@.sleep, event),
                ..old(self)@
            }),
            next == action(old(self)@.sleep, event),
    {
        match event {
            TimeoutEvent::Polled => {
                if self.sleep.is_elapsed() {
                    TimeoutAction::Return(Poll::Ready(Err(Elapsed::new())))
                } else {
                    TimeoutAction::PollFuture
                }
            },
            TimeoutEvent::Future(Poll::Ready(output)) => {
                TimeoutAction::Return(Poll::Ready(Ok(output)))
            },
            TimeoutEvent::Future(Poll::Pending) => {
                Self::limited(self.sleep.poll(SleepEvent::Polled))
            },
            TimeoutEvent::Timer(expired) => {
                Self::limited(self.sleep.poll(SleepEvent::Timer(expired)))
            },
        }
    }

    /// What the sleep's answer means to a future that has no output yet.
    fn limited<T>(sleep: SleepAction) -> (next: TimeoutAction<T>)
        ensures
            next == match sleep {
                SleepAction::PollTimer => TimeoutAction::<T>::PollTimer,
                SleepAction::Return(Poll::Ready(_)) => TimeoutAction::Return(failed()),
                SleepAction::Return(Poll::Pending) => TimeoutAction::Return(Poll::Pending),
            },
    {
        match sleep {
            SleepAction::PollTimer => TimeoutAction::PollTimer,
            SleepAction::Return(Poll::Ready(_)) => {
                TimeoutAction::Return(Poll::Ready(Err(Elapsed::new())))
            },
            SleepAction::Return(Poll::Pending) => TimeoutAction::Return(Poll::Pending),
        }
    }

    /// The sleep that limits the future.
    pub fn sleep(&self) -> (sleep: &Sleep)
        ensures
            sleep@ == self@.sleep,
    {
        &self.sleep
    }

    /// The future.
    pub fn get_ref(&self) -> (future: &F)
        ensures
            *future == self@.future,
    {
        &self.future
    }

    /// The future, to be changed in place.
    pub fn get_mut(&mut self) -> (future: &mut F)
        ensures
            *future == old(self)@.future,
            final(self)@ == (TimeoutView { future: *final(future), ..old(self)@ }),
    {
        &mut self.future
    }

    /// The place of the future within a timeout that must not move. Whoever calls
    /// this pins what it returns.
    pub fn get_pin_mut(&mut self) -> (future: &mut F)
        ensures
            *future == old(self)@.future,
            final(self)@ == (TimeoutView { future: *final(future), ..old(self)@ }),
    {
        &mut self.future
    }

    /// Gives the future back and drops the limit.
    pub fn into_inner(self) -> (future: F)
        ensures
            future == self@.future,
    {
        self.future
    }
}

/// A whole poll, in one piece: a sleep that has elapsed counts first, then the
/// future's output, then the timer.
pub proof fn law_poll<T>(sleep: SleepView, future: Poll<T>, expired: Poll<u64>)
    ensures
        poll(sleep, future, expired) == if sleep.elapsed {
            (failed::<T>(), sleep)
        } else {
            match future {
                Poll::Ready(output) => (Poll::Ready(Ok(output)), sleep),
                Poll::Pending => if expired is Ready {
                    (failed::<T>(), SleepView { elapsed: true, ..sleep })
                } else {
                    (Poll::Pending, sleep)
                },
            }
        },
{
}

/// A future that completes at once succeeds whatever its time limit, even if the
/// timer has expired already.
pub proof fn law_immediate_future_succeeds<T>(deadline: int, output: T, expired: Poll<u64>)
    ensures
        poll(SleepView::until(deadline), Poll::Ready(output), expired).0 == Poll::Ready(
            Ok::<T, Elapsed>(output),
        ),
{
    law_poll(SleepView::until(deadline), Poll::Ready(output), expired);
}

/// A run of polls of one timeout, up to the first that is answered: with the
/// outcomes of the future and of the timer at each poll, the answer of the last.
pub open spec fn outcome<T>(
    sleep: SleepView,
    futures: Seq<Poll<T>>,
    timers: Seq<Poll<u64>>,
) -> Poll<Result<T, Elapsed>>
    decreases futures.len(),
{
    if futures.len() == 0 || timers.len() == 0 {
        Poll::Pending
    } else {
        match poll(sleep, futures[0], timers[0]) {
            (Poll::Ready(result), _) => Poll::Ready(result),
            (Poll::Pending, after) => outcome(after, futures.drop_first(), timers.drop_first()),
        }
    }
}

/// A timeout succeeds with the future's output if the future completes at a poll
/// before which the timer had not expired, and fails if the timer expires first.
///
/// `done` is the first poll at which the future is ready or the timer expired.
pub proof fn law_first_to_finish_wins<T>(
    deadline: int,
    futures: Seq<Poll<T>>,
    timers: Seq<Poll<u64>>,
    done: int,
)
    requires
        futures.len() == timers.len(),
        0 <= done < futures.len(),
        forall|i: int| 0 <= i < done ==> futures[i] is Pending && timers[i] is Pending,
        futures[done] is Ready || timers[done] is Ready,
    ensures
        outcome(SleepView::until(deadline), futures, timers) == match futures[done] {
            Poll::Ready(output) => Poll::Ready(Ok::<T, Elapsed>(output)),
            Poll::Pending => failed::<T>(),
        },
{
    lemma_outcome(SleepView::until(deadline), futures, timers, done);
}

/// As long as neither is done, a timeout is not done either.
pub proof fn law_pending_while_neither_is_done<T>(
    deadline: int,
    futures: Seq<Poll<T>>,
    timers: Seq<Poll<u64>>,
)
    requires
        futures.len() == timers.len(),
        forall|i: int| 0 <= i < futures.len() ==> futures[i] is Pending && timers[i] is Pending,
    ensures
        outcome(SleepView::until(deadline), futures, timers) == Poll::<Result<T, Elapsed>>::Pending,
{
    lemma_idle(SleepView::until(deadline), futures, timers);
}

proof fn lemma_outcome<T>(
    sleep: SleepView,
    futures: Seq<Poll<T>>,
    timers: Seq<Poll<u64>>,
    done: int,
)
    requires
        !sleep.elapsed,
        futures.len() == timers.len(),
        0 <= done < futures.len(),
        forall|i: int| 0 <= i < done ==> futures[i] is Pending && timers[i] is Pending,
        futures[done] is Ready || timers[done] is Ready,
    ensures
        outcome(sleep, futures, timers) == match futures[done] {
            Poll::Ready(output) => Poll::Ready(Ok::<T, Elapsed>(output)),
            Poll::Pending => failed::<T>(),
        },
    decreases done,
{
    law_poll(sleep, futures[0], timers[0]);
    if done > 0 {
        lemma_outcome(sleep, futures.drop_first(), timers.drop_first(), done - 1);
    }
}

proof fn lemma_idle<T>(sleep: SleepView, futures: Seq<Poll<T>>, timers: Seq<Poll<u64>>)
    requires
        !sleep.elapsed,
        futures.len() == timers.len(),
        forall|i: int| 0 <= i < futures.len() ==> futures[i] is Pending && timers[i] is Pending,
    ensures
        outcome(sleep, futures, timers) == Poll::<Result<T, Elapsed>>::Pending,
    decreases futures.len(),
{
    if futures.len() > 0 {
        law_poll(sleep, futures[0], timers[0]);
        lemma_idle(sleep, futures.drop_first(), timers.drop_first());
    }
}

/// A timeout whose time has not run out asks the future each time it is polled, before
/// anything else; if the future has an output, that is the answer; if not, the timer is
/// asked, and what it says is the answer.
pub proof fn law_future_is_asked_first<T>(sleep: SleepView, output: T, n: u64)
    requires
        !sleep.elapsed,
    ensures
        action(sleep, TimeoutEvent::<T>::Polled) is PollFuture,
        action(sleep, TimeoutEvent::Future(Poll::Ready(output))) == TimeoutAction::Return(
            Poll::Ready(Ok::<T, Elapsed>(output)),
        ),
        action(sleep, TimeoutEvent::Future(Poll::<T>::Pending)) is PollTimer,
        action(sleep, TimeoutEvent::<T>::Timer(Poll::Pending)) == TimeoutAction::Return(
            Poll::<Result<T, Elapsed>>::Pending,
        ),
        action(sleep, TimeoutEvent::<T>::Timer(Poll::Ready(n))) matches TimeoutAction::Return(
            Poll::Ready(Err(_)),
        ),
{
}

/// Once its time has run out, a timeout fails without asking for anything; but an output
/// that the future does have still counts.
pub proof fn law_elapsed_timeout_fails<T>(sleep: SleepView, output: T, expired: Poll<u64>)
    requires
        sleep.elapsed,
    ensures
        action(sleep, TimeoutEvent::<T>::Polled) matches TimeoutAction::Return(
            Poll::Ready(Err(_)),
        ),
        action(sleep, TimeoutEvent::Future(Poll::<T>::Pending)) matches TimeoutAction::Return(
            Poll::Ready(Err(_)),
        ),
        action(sleep, TimeoutEvent::<T>::Timer(expired)) matches TimeoutAction::Return(
            Poll::Ready(Err(_)),
        ),
        action(sleep, TimeoutEvent::Future(Poll::Ready(output))) == TimeoutAction::Return(
            Poll::Ready(Ok::<T, Elapsed>(output)),
        ),
{
}

/// Only an expiration of its timer changes a timeout: its time has run out then, and
/// nothing else about it is different.
pub proof fn law_only_the_timer_ends_the_time<T>(sleep: SleepView, future: Poll<T>, n: u64)
    ensures
        sleep_after(sleep, TimeoutEvent::<T>::Polled) == sleep,
        sleep_after(sleep, TimeoutEvent::Future(future)) == sleep,
        sleep_after(sleep, TimeoutEvent::<T>::Timer(Poll::Pending)) == sleep,
        sleep_after(sleep, TimeoutEvent::<T>::Timer(Poll::Ready(n))).elapsed,
        sleep_after(sleep, TimeoutEvent::<T>::Timer(Poll::Ready(n))).deadline == sleep.deadline,
        sleep_after(sleep, TimeoutEvent::<T>::Timer(Poll::Ready(n))).timer == sleep.timer,
{
}

} // verus!
