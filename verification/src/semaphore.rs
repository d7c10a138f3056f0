//! Counting expirations with a semaphore: whoever sees a timer expire adds a permit,
//! and whoever waits for the timer takes all the permits there are.
use std::task::Context;
use tokio::sync::OwnedSemaphorePermit;
use vstd::prelude::*;

use crate::ends::{
    are_new_ends, made_with, permits_held, request_kept, source_of, Giver, GiverView, Waiter,
    WaiterView,
};
use crate::poll::Poll;

verus! {

/// Announces expirations, by permits to a semaphore. A semaphore has room for
/// `usize::MAX / 8` of them in all.
pub struct Notifier {
    giver: Giver,
    announced: usize,
}

impl View for Notifier {
    type V = GiverView;

    closed spec fn view(&self) -> GiverView {
        self.giver@
    }
}

impl Notifier {
    /// The semaphore was made without permits, and those given to it were counted.
    pub closed spec fn wf(self) -> bool {
        made_with(*self.giver@.semaphore) == 0 && self.announced == self.giver@.given
    }

    /// A new semaphore without permits: the end that announces expirations, and the
    /// end that waits for them.
    pub fn new() -> (pair: (Notifier, Waiter))
        ensures
            pair.0.wf(),
            are_new_ends(pair.0@, pair.1@),
    {
        let (giver, waiter) = Giver::new();
        (Notifier { giver, announced: 0 }, waiter)
    }

    /// Whether there is room to announce so many expirations more.
    pub fn has_room(&self, expirations: usize) -> (room: bool)
        requires
            self.wf(),
        ensures
            room == self@.has_room(expirations as nat),
    {
        expirations <= usize::MAX / 8 && self.announced <= usize::MAX / 8 - expirations
    }

    /// Announces one expiration, by a permit to the semaphore.
    pub fn announce(&mut self)
        requires
            old(self).wf(),
            old(self)@.has_room(1),
        ensures
            final(self).wf(),
            final(self)@ == old(self)@.after(1),
    {
        self.giver.add_permits(1);
        self.announced = self.announced + 1;
    }
}

/// How many expirations the answer to a poll stands for.
pub open spec fn count_of(expired: Poll<Option<u64>>) -> nat {
    match expired {
        Poll::Ready(Some(count)) => count as nat,
        _ => 0,
    }
}

/// The largest number of permits that can be taken at once.
pub open spec fn most_permits() -> nat {
    if u32::MAX <= usize::MAX / 8 {
        u32::MAX as nat
    } else {
        (usize::MAX / 8) as nat
    }
}

/// The number of permits to take when `available` are there: all of them, but at
/// least one, so that the task is woken when one is added.
pub open spec fn wanted(available: nat) -> nat {
    if available < 1 {
        1
    } else if available > most_permits() {
        most_permits()
    } else {
        available
    }
}

/// The number of permits to take when `available` are there.
pub fn permits_wanted(available: usize) -> (permits: u32)
    ensures
        permits == wanted(available as nat),
        1 <= permits <= usize::MAX / 8,
{
    let most: u32 = if usize::MAX / 8 < u32::MAX as usize {
        (usize::MAX / 8) as u32
    } else {
        u32::MAX
    };
    if available < 1 {
        1
    } else if available > most as usize {
        most
    } else {
        available as u32
    }
}

/// What the attempt to take permits says about the timer: the permits taken, which
/// are used up, are its expirations.
pub fn counted(waiter: &mut Waiter, taken: Poll<Option<OwnedSemaphorePermit>>) -> (expired: Poll<
    Option<u64>,
>)
    requires
        taken matches Poll::Ready(Some(permit)) ==> source_of(permit) == old(waiter)@.semaphore,
    ensures
        match taken {
            Poll::Ready(Some(permit)) => expired matches Poll::Ready(Some(count)) && count
                == permits_held(permit),
            Poll::Ready(None) => expired == Poll::Ready(None::<u64>),
            Poll::Pending => expired == Poll::<Option<u64>>::Pending,
        },
        final(waiter)@ == old(waiter)@.took(count_of(expired)),
{
    match taken {
        Poll::Ready(Some(permit)) => {
            let expirations: usize = permit.num_permits();
            waiter.forget(permit);
            Poll::Ready(Some(expirations as u64))
        },
        Poll::Ready(None) => Poll::Ready(None),
        Poll::Pending => Poll::Pending,
    }
}

/// Whether `expired`, and the waiter `after` it, are what comes of asking for `permits`
/// permits: the expirations are as many as were asked for and are taken for good, or
/// the task waits for just as many.
pub open spec fn asked_for(
    permits: nat,
    expired: Poll<Option<u64>>,
    before: WaiterView,
    after: WaiterView,
) -> bool {
    &&& expired matches Poll::Ready(Some(count)) ==> count == permits
    &&& after == (WaiterView { request: after.request, ..before.took(count_of(expired)) })
    &&& request_kept(before.request, permits, expired, after.request)
}

/// Whether that is what comes of asking for all the permits that the waiter found when
/// it looked, but at least one.
pub open spec fn asked_for_all(
    expired: Poll<Option<u64>>,
    before: WaiterView,
    after: WaiterView,
) -> bool {
    asked_for(wanted(after.seen), expired, WaiterView { seen: after.seen, ..before }, after)
}

/// Takes the expirations that were counted when `available` permits were there:
/// `Pending` if there are not as many now, and the task then waits for them;
/// `Ready(None)` if the semaphore is closed.
pub fn poll_counted(waiter: &mut Waiter, cx: &mut Context<'_>, available: usize) -> (expired: Poll<
    Option<u64>,
>)
    ensures
        asked_for(wanted(available as nat), expired, old(waiter)@, final(waiter)@),
{
    let taken = waiter.poll_acquire_many(cx, permits_wanted(available));
    counted(waiter, taken)
}

/// Takes all expirations that were counted since the last time: `Pending` if there
/// are none, `Ready(None)` if the semaphore is closed.
pub fn poll_expired(waiter: &mut Waiter, cx: &mut Context<'_>) -> (expired: Poll<Option<u64>>)
    ensures
        asked_for_all(expired, old(waiter)@, final(waiter)@),
{
    let available: usize = waiter.available_permits();
    poll_counted(waiter, cx, available)
}

/// The two ends of a semaphore.
pub struct Ends {
    pub notify: GiverView,
    pub waiter: WaiterView,
}

/// What happens at one of the ends.
pub enum Step {
    /// So many expirations are announced.
    Announced(nat),
    /// The other end is polled, and this is the answer.
    Polled(Poll<Option<u64>>),
}

impl Ends {
    /// The permits that are left in the semaphore: those that it was made with and those
    /// that it was given, but for the ones that were taken out for good.
    pub open spec fn left(self) -> int {
        made_with(*self.waiter.semaphore) + self.notify.given - self.waiter.taken
    }

    /// Whether `after` is what a step leaves of the ends.
    pub open spec fn steps_to(self, step: Step, after: Ends) -> bool {
        match step {
            Step::Announced(expirations) => {
                &&& after.notify == self.notify.after(expirations)
                &&& after.waiter == self.waiter
            },
            Step::Polled(expired) => {
                &&& after.notify == self.notify
                &&& asked_for_all(expired, self.waiter, after.waiter)
            },
        }
    }
}

/// Whether each of the steps leads from one of the states to the next.
pub open spec fn is_run(states: Seq<Ends>, steps: Seq<Step>) -> bool {
    &&& states.len() == steps.len() + 1
    &&& forall|i: int|
        0 <= i < steps.len() ==> (#[trigger] states[i]).steps_to(steps[i], states[i + 1])
}

/// All expirations that are announced in the steps.
pub open spec fn total_announced(steps: Seq<Step>) -> nat
    decreases steps.len(),
{
    if steps.len() == 0 {
        0
    } else {
        total_announced(steps.drop_last()) + match steps.last() {
            Step::Announced(expirations) => expirations,
            Step::Polled(_) => 0,
        }
    }
}

/// All expirations that the answers in the steps stand for.
pub open spec fn total_counted(steps: Seq<Step>) -> nat
    decreases steps.len(),
{
    if steps.len() == 0 {
        0
    } else {
        total_counted(steps.drop_last()) + match steps.last() {
            Step::Announced(_) => 0,
            Step::Polled(expired) => count_of(expired),
        }
    }
}

/// No expiration is lost or counted again. Each one announced is a permit given to the
/// semaphore, and each one counted is a permit taken out of it for good: from the making
/// of a semaphore on, in whatever order expirations are announced and polled for, those
/// that the answers stood for and those that are left in the semaphore make up the ones
/// announced. An answer that there are expirations stands for at least one.
pub proof fn law_expirations_are_conserved(states: Seq<Ends>, steps: Seq<Step>)
    requires
        is_run(states, steps),
        are_new_ends(states[0].notify, states[0].waiter),
    ensures
        total_counted(steps) + states.last().left() == total_announced(steps),
        states.last().notify.given == total_announced(steps),
        states.last().waiter.taken == total_counted(steps),
        states.last().waiter.semaphore == states[0].waiter.semaphore,
        states.last().notify.semaphore == states[0].waiter.semaphore,
        forall|i: int|
            0 <= i < steps.len() ==> (#[trigger] steps[i] matches Step::Polled(
                Poll::Ready(Some(count)),
            ) ==> count >= 1),
    decreases steps.len(),
{
    if steps.len() != 0 {
        let before = states.drop_last();
        let n = steps.len() - 1;
        assert(is_run(before, steps.drop_last())) by {
            assert forall|i: int| 0 <= i < n implies (#[trigger] before[i]).steps_to(
                steps.drop_last()[i],
                before[i + 1],
            ) by {
                assert(states[i].steps_to(steps[i], states[i + 1]));
            }
        }
        law_expirations_are_conserved(before, steps.drop_last());
        assert(states[n].steps_to(steps[n], states[n + 1]));
        assert forall|i: int| 0 <= i < steps.len() implies (#[trigger] steps[i] matches Step::Polled(
            Poll::Ready(Some(count)),
        ) ==> count >= 1) by {
            if i < n {
                assert(steps.drop_last()[i] == steps[i]);
            }
        }
    }
}

/// All permits that are there are asked for, as far as a number of 32 bits and an eighth
/// of `usize` reach, but never fewer than one.
pub proof fn law_all_permits_are_wanted(available: nat)
    ensures
        1 <= available <= u32::MAX && available <= usize::MAX / 8 ==> wanted(available)
            == available,
        available == 0 ==> wanted(available) == 1,
        available > u32::MAX || available > usize::MAX / 8 ==> wanted(available) == u32::MAX
            || wanted(available) == usize::MAX / 8,
        1 <= wanted(available) <= u32::MAX,
        wanted(available) <= usize::MAX / 8,
{
}

/// What a poll says is what it does: the expirations in its answer are the permits that
/// were asked for, and just so many more are taken out for good; without any, nothing is
/// taken, and the task either waits for the permits that were asked for, or, with a
/// closed semaphore, for none. It stays the same semaphore.
pub proof fn law_a_poll_takes_what_it_reports(
    permits: nat,
    expired: Poll<Option<u64>>,
    before: WaiterView,
    after: WaiterView,
)
    requires
        asked_for(permits, expired, before, after),
    ensures
        match expired {
            Poll::Ready(Some(count)) => {
                &&& count == permits
                &&& after.taken == before.taken + count
                &&& after.request != Some(permits) ==> before.request is None
                    && after.request is None
            },
            Poll::Ready(None) => after.taken == before.taken && after.request is None,
            Poll::Pending => after.taken == before.taken && after.request == Some(permits),
        },
        after.semaphore == before.semaphore,
        after.seen == before.seen,
{
}

/// A poll that finds permits and takes any takes all of them, and one that finds none
/// waits for one.
pub proof fn law_a_poll_takes_all_it_finds(
    expired: Poll<Option<u64>>,
    before: WaiterView,
    after: WaiterView,
)
    requires
        asked_for_all(expired, before, after),
        after.seen <= u32::MAX,
        after.seen <= usize::MAX / 8,
    ensures
        after.seen >= 1 ==> match expired {
            Poll::Ready(Some(count)) => count == after.seen && after.taken == before.taken + count,
            Poll::Ready(None) => after.taken == before.taken,
            Poll::Pending => after.taken == before.taken && after.request == Some(after.seen),
        },
        after.seen == 0 ==> match expired {
            Poll::Ready(Some(count)) => count == 1 && after.taken == before.taken + 1,
            Poll::Ready(None) => after.taken == before.taken,
            Poll::Pending => after.taken == before.taken && after.request == Some(1nat),
        },
        after.semaphore == before.semaphore,
{
}

} // verus!
