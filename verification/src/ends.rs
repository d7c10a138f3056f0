//! The two ends of a semaphore, and how many permits have gone through them.
//!
//! What is taken on trust of the semaphore is declared here. The counts of permits are
//! private to this file, so that elsewhere a permit is counted only by being given to the
//! semaphore or taken out of it.
use std::sync::Arc;
use std::task::Context;
use tokio::sync::{OwnedSemaphorePermit, Semaphore};
use tokio_util::sync::PollSemaphore;
use vstd::prelude::*;

use crate::poll::Poll;

verus! {

/// `std::task::Context`: the task that is to be woken.
#[verifier::external_type_specification]
#[verifier::external_body]
pub struct ExContext<'a>(std::task::Context<'a>);

/// `tokio::sync::Semaphore`: a count of permits, shared between tasks.
#[verifier::external_type_specification]
#[verifier::external_body]
pub struct ExSemaphore(tokio::sync::Semaphore);

/// `tokio_util::sync::PollSemaphore`: a semaphore that can be polled for permits.
#[verifier::external_type_specification]
#[verifier::external_body]
pub struct ExPollSemaphore(tokio_util::sync::PollSemaphore);

/// `tokio::sync::OwnedSemaphorePermit`: permits taken from a semaphore.
#[verifier::external_type_specification]
#[verifier::external_body]
pub struct ExOwnedSemaphorePermit(tokio::sync::OwnedSemaphorePermit);

/// The semaphore that a `PollSemaphore` takes permits from.
pub uninterp spec fn semaphore_of(waiter: PollSemaphore) -> Arc<Semaphore>;

/// How many permits the request that a `PollSemaphore` keeps is for, if it keeps one.
pub uninterp spec fn request_of(waiter: PollSemaphore) -> Option<nat>;

/// How many permits a `Semaphore` held at first.
pub uninterp spec fn made_with(semaphore: Semaphore) -> nat;

/// How many permits an `OwnedSemaphorePermit` holds.
pub uninterp spec fn permits_held(permit: OwnedSemaphorePermit) -> nat;

/// The semaphore that the permits of an `OwnedSemaphorePermit` were taken from, and to
/// which they go back unless they are forgotten.
pub uninterp spec fn source_of(permit: OwnedSemaphorePermit) -> Arc<Semaphore>;

/// `tokio::sync::Semaphore::new`: a semaphore that holds `permits` permits at first.
/// It panics above `usize::MAX >> 3`.
pub assume_specification[ Semaphore::new ](permits: usize) -> (semaphore: Semaphore)
    requires
        permits <= usize::MAX / 8,
    ensures
        made_with(semaphore) == permits,
;

/// `tokio_util::sync::PollSemaphore::new`: polls `semaphore` for permits. It keeps no
/// request at first.
pub assume_specification[ PollSemaphore::new ](semaphore: Arc<Semaphore>) -> (waiter:
    PollSemaphore)
    ensures
        semaphore_of(waiter) == semaphore,
        request_of(waiter) is None,
;

/// `tokio::sync::OwnedSemaphorePermit::num_permits`: the number of permits that
/// `permit` holds.
pub assume_specification[ OwnedSemaphorePermit::num_permits ](permit: &OwnedSemaphorePermit) -> (held:
    usize)
    ensures
        held == permits_held(*permit),
;

/// `std::sync::Arc::clone`: another handle to the same semaphore.
#[verifier::external_body]
fn share(semaphore: &Arc<Semaphore>) -> (handle: Arc<Semaphore>)
    ensures
        handle == *semaphore,
{
    semaphore.clone()
}

/// The end of a semaphore at which permits are given to it.
///
/// `given` is the number of permits that it has given to the semaphore. It is there for
/// proofs only; nothing but [`Giver::add_permits`] changes it.
pub struct Giver {
    semaphore: Arc<Semaphore>,
    given: Ghost<nat>,
}

/// The view of a [`Giver`].
pub struct GiverView {
    pub semaphore: Arc<Semaphore>,
    /// How many permits it has given to the semaphore.
    pub given: nat,
}

impl View for Giver {
    type V = GiverView;

    closed spec fn view(&self) -> GiverView {
        GiverView { semaphore: self.semaphore, given: self.given@ }
    }
}

impl GiverView {
    /// The giver after so many more permits.
    pub open spec fn after(self, permits: nat) -> GiverView {
        GiverView { given: self.given + permits, ..self }
    }

    /// Whether the semaphore can hold so many permits more, even if none has been taken
    /// out of it.
    pub open spec fn has_room(self, permits: nat) -> bool {
        made_with(*self.semaphore) + self.given + permits <= usize::MAX / 8
    }
}

/// The end of a semaphore that waits for permits and takes them.
///
/// `taken` is the number of permits that it has taken out of the semaphore for good, and
/// `seen` the number that it last found there. They are there for proofs only; nothing
/// but [`Waiter::forget`] changes the one, and nothing but [`Waiter::available_permits`]
/// the other.
pub struct Waiter {
    semaphore: PollSemaphore,
    taken: Ghost<nat>,
    seen: Ghost<nat>,
}

/// The view of a [`Waiter`].
pub struct WaiterView {
    pub semaphore: Arc<Semaphore>,
    /// How many permits its request is for, if it keeps one.
    pub request: Option<nat>,
    /// How many permits it has taken out of the semaphore for good.
    pub taken: nat,
    /// How many permits it found in the semaphore when it last looked.
    pub seen: nat,
}

impl View for Waiter {
    type V = WaiterView;

    closed spec fn view(&self) -> WaiterView {
        WaiterView {
            semaphore: semaphore_of(self.semaphore),
            request: request_of(self.semaphore),
            taken: self.taken@,
            seen: self.seen@,
        }
    }
}

impl WaiterView {
    /// The waiter after it has taken out so many more permits.
    pub open spec fn took(self, permits: nat) -> WaiterView {
        WaiterView { taken: self.taken + permits, ..self }
    }
}

/// Whether these are the two ends of a new semaphore: it was made without permits, and
/// nothing has been given, asked for, taken or found.
pub open spec fn are_new_ends(giver: GiverView, waiter: WaiterView) -> bool {
    &&& made_with(*waiter.semaphore) == 0
    &&& giver == (GiverView { semaphore: waiter.semaphore, given: 0 })
    &&& waiter == (WaiterView { semaphore: waiter.semaphore, request: None, taken: 0, seen: 0 })
}

/// What becomes of the request that a `PollSemaphore` keeps when it is asked for
/// `permits` permits. As long as they are waited for, it is a request for exactly so
/// many, whatever it was before. A closed semaphore leaves none. Once they are taken,
/// the next request is for as many again, or, if none was kept before, there may still
/// be none.
pub open spec fn request_kept<T>(
    before: Option<nat>,
    permits: nat,
    answer: Poll<Option<T>>,
    after: Option<nat>,
) -> bool {
    match answer {
        Poll::Pending => after == Some(permits),
        Poll::Ready(None) => after is None,
        Poll::Ready(Some(_)) => after == Some(permits) || before is None && after is None,
    }
}

impl Giver {
    /// A new semaphore without permits: the end at which they are given to it, and the
    /// end that waits for them.
    pub(crate) fn new() -> (pair: (Giver, Waiter))
        ensures
            are_new_ends(pair.0@, pair.1@),
    {
        let semaphore = Arc::new(Semaphore::new(0));
        let waiter = Waiter {
            semaphore: PollSemaphore::new(share(&semaphore)),
            taken: Ghost(0),
            seen: Ghost(0),
        };
        (Giver { semaphore, given: Ghost(0) }, waiter)
    }

    /// `tokio::sync::Semaphore::add_permits`: gives `n` permits to the semaphore, and
    /// wakes the task that waits for them. It panics if the semaphore would then hold
    /// more than `usize::MAX >> 3`. It never holds more than it was made with and was
    /// given here, because nobody else gives it any.
    #[verifier::external_body]
    pub(crate) fn add_permits(&mut self, n: usize)
        requires
            old(self)@.has_room(n as nat),
        ensures
            final(self)@ == old(self)@.after(n as nat),
    {
        self.semaphore.add_permits(n)
    }
}

impl Waiter {
    /// `tokio_util::sync::PollSemaphore::available_permits`: the number of permits that
    /// could be taken at the moment, which counts as seen. Other tasks change it at any
    /// time, so nothing else is said of it.
    #[verifier::external_body]
    pub(crate) fn available_permits(&mut self) -> (available: usize)
        ensures
            final(self)@ == (WaiterView { seen: available as nat, ..old(self)@ }),
    {
        self.semaphore.available_permits()
    }

    /// `tokio_util::sync::PollSemaphore::poll_acquire_many`: takes `permits` permits at
    /// once, or arranges for the task of `cx` to be woken when that may succeed. What is
    /// taken holds exactly as many permits as were asked for, from the semaphore that is
    /// polled; a closed one answers `Ready(None)`. Whether there are enough permits is
    /// for other tasks to decide. Asking for more than `usize::MAX >> 3` panics. The
    /// semaphore that is polled stays the same one, and nothing is taken out of it for
    /// good yet. An unanswered request is kept, and is for `permits` permits: one that
    /// was kept for another number is replaced, and what it had got so far goes back to
    /// the semaphore, which has room for all that it was ever given.
    #[verifier::external_body]
    pub(crate) fn poll_acquire_many(&mut self, cx: &mut Context<'_>, permits: u32) -> (taken: Poll<
        Option<OwnedSemaphorePermit>,
    >)
        requires
            permits <= usize::MAX / 8,
        ensures
            final(self)@ == (WaiterView { request: final(self)@.request, ..old(self)@ }),
            request_kept(old(self)@.request, permits as nat, taken, final(self)@.request),
            taken matches Poll::Ready(Some(permit)) ==> permits_held(permit) == permits
                && source_of(permit) == old(self)@.semaphore,
    {
        match self.semaphore.poll_acquire_many(cx, permits) {
            std::task::Poll::Ready(permit) => Poll::Ready(permit),
            std::task::Poll::Pending => Poll::Pending,
        }
    }

    /// `tokio::sync::OwnedSemaphorePermit::forget`: drops `permit` without giving its
    /// permits back to the semaphore. They count as taken out for good.
    #[verifier::external_body]
    pub(crate) fn forget(&mut self, permit: OwnedSemaphorePermit)
        requires
            source_of(permit) == old(self)@.semaphore,
        ensures
            final(self)@ == old(self)@.took(permits_held(permit)),
    {
        permit.forget()
    }
}

/// Permits given to a semaphore add up, and so do those taken out of it; nothing else
/// about the ends changes.
pub proof fn law_permits_add_up(giver: GiverView, waiter: WaiterView, permits: nat)
    ensures
        giver.after(permits).given == giver.given + permits,
        giver.after(permits).semaphore == giver.semaphore,
        waiter.took(permits).taken == waiter.taken + permits,
        waiter.took(permits).semaphore == waiter.semaphore,
        waiter.took(permits).request == waiter.request,
        waiter.took(permits).seen == waiter.seen,
{
}

/// There is room for more permits exactly as long as all that a semaphore ever got do
/// not exceed an eighth of `usize`.
pub proof fn law_room_for_permits(giver: GiverView, permits: nat)
    ensures
        giver.has_room(permits) <==> 8 * (made_with(*giver.semaphore) + giver.given + permits)
            <= usize::MAX,
{
}

/// New ends belong to one semaphore, and nothing has gone through either of them.
pub proof fn law_new_ends_are_idle(giver: GiverView, waiter: WaiterView)
    requires
        are_new_ends(giver, waiter),
    ensures
        giver.semaphore == waiter.semaphore,
        made_with(*giver.semaphore) == 0,
        giver.given == 0,
        waiter.taken == 0,
        waiter.request is None,
        waiter.seen == 0,
{
}

} // verus!
