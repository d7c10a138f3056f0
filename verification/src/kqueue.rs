//! Timers on a `kqueue`: the table of registered timers, and the changes that are
//! submitted to the queue.
use std::collections::BTreeMap;
use std::task::Context;
use vstd::arithmetic::div_mod::lemma_fundamental_div_mod;
use vstd::prelude::*;

use crate::ends::{are_new_ends, made_with, GiverView, Waiter, WaiterView};
use crate::poll::Poll;
use crate::semaphore::{
    asked_for_all, is_run, law_expirations_are_conserved, total_announced, total_counted, Ends,
    Notifier, Step,
};
use crate::time::{instant_to_duration, since_zero, Duration, Instant};
use crate::timer::span_view;
use crate::utils::{cvt, CallFailed};

verus! {

/// Expirations that pile up between two looks at the queue are reported as one
/// event, so their number is lost.
pub const TIMER_REMEMBER_EXPIRATIONS: bool = false;

/// How the queue measures time.
#[derive(Debug, Clone, Copy, PartialEq, Eq)]
pub enum Clock {
    /// In nanoseconds from the moment at which a timer is added; the clock shows
    /// `now` nanoseconds.
    Nanos { now: i64 },
    /// In ticks of the machine's clock, each of which takes `numer / denom`
    /// nanoseconds.
    MachTicks { numer: u32, denom: u32 },
}

/// A change to be submitted to the queue.
#[derive(Debug, Clone, Copy, PartialEq, Eq)]
pub enum Change {
    /// Add a timer that expires `nanos` nanoseconds from now, `once` or each time
    /// that much has passed.
    AddNanos { ident: usize, nanos: i64, once: bool },
    /// Add a timer that expires when the machine's clock shows `ticks`, or, if not
    /// `absolute`, each time that many ticks have passed.
    AddMachTicks { ident: usize, ticks: i64, absolute: bool },
    /// Remove a timer.
    Delete { ident: usize },
}

/// The length of a span in nanoseconds, as the queue takes it.
pub fn duration_to_nseconds(duration: Duration) -> (nanos: i64)
    requires
        duration@ <= i64::MAX,
    ensures
        nanos == duration@,
{
    duration.as_nanos() as i64
}

/// Nanoseconds since the clock's zero, as the queue takes them.
pub fn instant_to_nseconds(instant: Instant) -> (nanos: i64)
    requires
        instant@ <= i64::MAX,
    ensures
        nanos == since_zero(instant@),
{
    duration_to_nseconds(instant_to_duration(instant))
}

/// `n / d` rounded towards zero, for a positive `d`.
pub open spec fn quotient(n: int, d: int) -> int {
    if n >= 0 {
        n / d
    } else {
        -((-n) / d)
    }
}

/// Whether the numbers in the changes of [`arming`] fit.
pub open spec fn can_arm(duration: int, oneshot: bool, clock: Clock) -> bool {
    match clock {
        Clock::Nanos { now } => oneshot ==> i64::MIN <= duration - now <= i64::MAX,
        Clock::MachTicks { numer, denom } => numer != 0 && i64::MIN <= duration * denom
            <= i64::MAX,
    }
}

/// The changes that arm a timer: to expire once when the clock shows `duration`
/// nanoseconds, or, if not `oneshot`, each time that `duration` nanoseconds have
/// passed. Counting ticks, the queue has to forget the timer first.
pub open spec fn arming(ident: usize, duration: int, oneshot: bool, clock: Clock) -> Seq<Change> {
    match clock {
        Clock::Nanos { now } => seq![
            Change::AddNanos {
                ident,
                nanos: if oneshot {
                    (duration - now) as i64
                } else {
                    duration as i64
                },
                once: oneshot,
            },
        ],
        Clock::MachTicks { numer, denom } => seq![
            Change::Delete { ident },
            Change::AddMachTicks {
                ident,
                ticks: quotient(duration * denom, numer as int) as i64,
                absolute: oneshot,
            },
        ],
    }
}

/// Whether [`add_timer_to_kqueue`] can be asked for this.
pub fn fits(duration: i64, oneshot: bool, clock: Clock) -> (fits: bool)
    ensures
        fits == can_arm(duration as int, oneshot, clock),
{
    match clock {
        Clock::Nanos { now } => !oneshot || duration.checked_sub(now).is_some(),
        Clock::MachTicks { numer, denom } => {
            numer != 0 && duration.checked_mul(denom as i64).is_some()
        },
    }
}

/// The changes that arm a timer.
pub fn add_timer_to_kqueue(ident: usize, duration: i64, oneshot: bool, clock: Clock) -> (changes:
    Vec<Change>)
    requires
        can_arm(duration as int, oneshot, clock),
    ensures
        changes@ == arming(ident, duration as int, oneshot, clock),
{
    match clock {
        Clock::Nanos { now } => {
            let nanos: i64 = if oneshot {
                duration - now
            } else {
                duration
            };
            vec![Change::AddNanos { ident, nanos, once: oneshot }]
        },
        Clock::MachTicks { numer, denom } => {
            let ticks: i64 = duration * denom as i64 / numer as i64;
            vec![
                delete_timer_from_kqueue(ident),
                Change::AddMachTicks { ident, ticks, absolute: oneshot },
            ]
        },
    }
}

/// The change that removes a timer.
pub fn delete_timer_from_kqueue(ident: usize) -> (change: Change)
    ensures
        change == (Change::Delete { ident }),
{
    Change::Delete { ident }
}

/// The timers that have expired, when the queue was asked for events: `returned` is
/// what the call returned, the number of events or -1, and `eventlist` the idents
/// in the buffer that it filled.
pub fn wait_kqueue(returned: i32, eventlist: &Vec<usize>) -> (events: Result<
    Vec<usize>,
    CallFailed,
>)
    requires
        -1 <= returned <= eventlist@.len(),
    ensures
        match events {
            Ok(events) => returned != -1 && events@ == eventlist@.take(returned as int),
            Err(_) => returned == -1,
        },
{
    match cvt(returned) {
        Ok(nsignals) => {
            let mut events: Vec<usize> = Vec::new();
            let mut next: usize = 0;
            while next < nsignals as usize
                invariant
                    0 <= nsignals <= eventlist@.len(),
                    next <= nsignals,
                    events@ == eventlist@.take(next as int),
                decreases nsignals - next,
            {
                events.push(eventlist[next]);
                next = next + 1;
            }
            Ok(events)
        },
        Err(failed) => Err(failed),
    }
}

/// What is kept of a registered timer.
struct Entry {
    notify: Notifier,
    interval: Option<Duration>,
}

/// The registered timers, by the ident under which the queue knows them.
pub struct SharedState {
    timers: BTreeMap<usize, Entry>,
}

/// What is kept of a registered timer: where its expirations are announced, and the
/// interval in nanoseconds with which it is armed again when it expires.
pub struct EntryView {
    pub notify: GiverView,
    pub interval: Option<nat>,
}

impl View for SharedState {
    type V = Map<usize, EntryView>;

    closed spec fn view(&self) -> Map<usize, EntryView> {
        self.timers@.map_values(
            |e: Entry| EntryView { notify: e.notify@, interval: span_view(e.interval) },
        )
    }
}

/// Whether `ident` is the one to give to the next timer while those in `used` are
/// taken: one above the highest, or the lowest free one if there is none above.
pub open spec fn is_next_ident(used: Set<usize>, ident: usize) -> bool {
    &&& ident != 0
    &&& !used.contains(ident)
    &&& if used.contains(usize::MAX) {
        forall|i: usize| 1 <= i < ident ==> #[trigger] used.contains(i)
    } else {
        &&& forall|i: usize| #[trigger] used.contains(i) ==> i < ident
        &&& ident == 1 || used.contains((ident - 1) as usize)
    }
}

/// Whether no ident is left to give out.
pub open spec fn idents_run_out(used: Set<usize>) -> bool {
    forall|i: usize| i != 0 ==> #[trigger] used.contains(i)
}

/// How many of the events are of a timer.
pub open spec fn events_of(events: Seq<usize>, ident: usize) -> nat {
    events.to_multiset().count(ident)
}

/// The table after the events: each was announced where its timer's expirations are,
/// and the timers that expired have no interval any more.
pub open spec fn dispatched(table: Map<usize, EntryView>, events: Seq<usize>) -> Map<
    usize,
    EntryView,
> {
    Map::new(
        |ident: usize| table.contains_key(ident),
        |ident: usize|
            EntryView {
                notify: table[ident].notify.after(events_of(events, ident)),
                interval: if events_of(events, ident) > 0 {
                    None
                } else {
                    table[ident].interval
                },
            },
    )
}

/// The interval that is used on event number `i` to arm its timer: only the first
/// event of a timer finds one.
pub open spec fn rearm(table: Map<usize, EntryView>, events: Seq<usize>, i: int) -> Option<nat> {
    if events_of(events.take(i), events[i]) > 0 {
        None
    } else {
        table[events[i]].interval
    }
}

/// The changes to be submitted about the first `n` of the events: each timer that
/// has an interval is armed to expire every time that much has passed.
pub open spec fn rearmings(
    table: Map<usize, EntryView>,
    events: Seq<usize>,
    clock: Clock,
    n: int,
) -> Seq<Change>
    decreases n,
{
    if n <= 0 {
        seq![]
    } else {
        rearmings(table, events, clock, n - 1) + match rearm(table, events, n - 1) {
            Some(interval) => arming(events[n - 1], interval as int, false, clock),
            None => seq![],
        }
    }
}

/// Whether so many events of a timer can be taken in: it is registered, there is room to
/// announce them, and the queue can count its interval.
pub open spec fn events_can_dispatch(
    table: Map<usize, EntryView>,
    ident: usize,
    events: nat,
    clock: Clock,
) -> bool {
    &&& table.contains_key(ident)
    &&& table[ident].notify.has_room(events)
    &&& table[ident].interval matches Some(interval) ==> interval <= i64::MAX && can_arm(
        interval as int,
        false,
        clock,
    )
}

/// Whether the events can be taken in.
pub open spec fn can_dispatch(
    table: Map<usize, EntryView>,
    events: Seq<usize>,
    clock: Clock,
) -> bool {
    forall|i: int|
        0 <= i < events.len() ==> events_can_dispatch(
            table,
            #[trigger] events[i],
            events_of(events, events[i]),
            clock,
        )
}

/// Whether a timer can be armed to expire each time that `interval` has passed.
fn interval_fits(interval: Duration, clock: Clock) -> (fits: bool)
    ensures
        fits == (interval@ <= i64::MAX && can_arm(interval@ as int, false, clock)),
{
    interval.as_nanos() <= i64::MAX as u128 && fits(duration_to_nseconds(interval), false, clock)
}

/// How many of the events are of a timer.
fn count_events(events: &Vec<usize>, ident: usize) -> (count: usize)
    ensures
        count == events_of(events@, ident),
{
    let mut count: usize = 0;
    let mut next: usize = 0;
    proof {
        lemma_no_events(ident);
        assert(events@.take(0) =~= Seq::<usize>::empty());
    }
    while next < events.len()
        invariant
            next <= events@.len(),
            count <= next,
            count == events_of(events@.take(next as int), ident),
        decreases events@.len() - next,
    {
        proof {
            lemma_next_event(events@, next as int, ident);
        }
        if events[next] == ident {
            count = count + 1;
        }
        next = next + 1;
    }
    assert(events@.take(events@.len() as int) =~= events@);
    count
}

/// Without events there are none of any timer.
proof fn lemma_no_events(ident: usize)
    ensures
        events_of(Seq::<usize>::empty(), ident) == 0,
{
    broadcast use vstd::seq_lib::group_to_multiset_ensures;

    assert(Seq::<usize>::empty().to_multiset().len() == 0);
}

/// One event more is one more of its own timer.
proof fn lemma_next_event(events: Seq<usize>, i: int, ident: usize)
    requires
        0 <= i < events.len(),
    ensures
        events_of(events.take(i + 1), ident) == events_of(events.take(i), ident) + if events[i]
            == ident {
            1nat
        } else {
            0
        },
        events_of(events.take(i + 1), ident) <= events_of(events, ident),
{
    vstd::seq_lib::to_multiset_build(events.take(i), events[i]);
    assert(events.take(i + 1) =~= events.take(i).push(events[i]));
    vstd::seq_lib::lemma_multiset_commutative(events.take(i + 1), events.skip(i + 1));
    assert(events =~= events.take(i + 1) + events.skip(i + 1));
}

impl SharedState {
    /// No timer is registered under the ident zero, and the expirations of each were
    /// counted.
    pub open spec fn wf(self) -> bool {
        !self@.contains_key(0) && self.is_counted()
    }

    /// Each timer's expirations were counted as they were announced.
    pub closed spec fn is_counted(self) -> bool {
        forall|i: usize| #[trigger]
            self.timers@.contains_key(i) ==> self.timers@[i].notify.wf()
    }

    /// A table without timers.
    pub fn new() -> (shared: SharedState)
        ensures
            shared.wf(),
            shared@ == Map::<usize, EntryView>::empty(),
    {
        let shared = SharedState { timers: BTreeMap::new() };
        assert(shared@ =~= Map::<usize, EntryView>::empty());
        shared
    }

    /// The ident to give to the next timer, if there is one left.
    fn next_ident(&self) -> (ident: Option<usize>)
        requires
            self.wf(),
        ensures
            match ident {
                Some(i) => is_next_ident(self@.dom(), i),
                None => idents_run_out(self@.dom()),
            },
    {
        broadcast use vstd::std_specs::btree::group_btree_axioms, vstd::laws_cmp::group_laws_cmp;

        let mut last: usize = 0;
        for key in keys: self.timers.keys()
            invariant
                forall|i: int| 0 <= i < keys.index() ==> *#[trigger] keys.seq()[i] <= last,
                last == 0 || self.timers@.contains_key(last),
        {
            if last < *key {
                last = *key;
            }
        }
        assert(forall|i: usize| self.timers@.contains_key(i) ==> i <= last);
        if last < usize::MAX {
            return Some(last + 1);
        }
        let mut ident: usize = 1;
        while self.timers.contains_key(&ident)
            invariant
                1 <= ident,
                forall|i: usize| 1 <= i < ident ==> #[trigger] self@.contains_key(i),
            decreases usize::MAX - ident,
        {
            if ident == usize::MAX {
                return None;
            }
            ident = ident + 1;
        }
        Some(ident)
    }

    /// Registers a timer under a new ident: the ident, or `None`, and the table
    /// unchanged, if there is none left.
    fn register(&mut self, notify: Notifier, interval: Option<Duration>) -> (ident: Option<usize>)
        requires
            old(self).wf(),
            notify.wf(),
        ensures
            final(self).wf(),
            match ident {
                Some(i) => {
                    &&& is_next_ident(old(self)@.dom(), i)
                    &&& final(self)@ == old(self)@.insert(
                        i,
                        EntryView { notify: notify@, interval: span_view(interval) },
                    )
                },
                None => idents_run_out(old(self)@.dom()) && final(self)@ == old(self)@,
            },
    {
        broadcast use vstd::std_specs::btree::group_btree_axioms, vstd::laws_cmp::group_laws_cmp;

        let ident = self.next_ident();
        match ident {
            Some(i) => {
                self.timers.insert(i, Entry { notify, interval });
                assert(self@ =~= old(self)@.insert(
                    i,
                    EntryView { notify: notify@, interval: span_view(interval) },
                ));
            },
            None => {},
        }
        ident
    }

    /// Gives a timer another interval.
    fn set_interval(&mut self, ident: usize, interval: Option<Duration>)
        requires
            old(self).wf(),
            old(self)@.contains_key(ident),
        ensures
            final(self).wf(),
            final(self)@ == old(self)@.insert(
                ident,
                EntryView { interval: span_view(interval), ..old(self)@[ident] },
            ),
    {
        broadcast use vstd::std_specs::btree::group_btree_axioms, vstd::laws_cmp::group_laws_cmp;

        let entry = self.timers.remove(&ident).unwrap();
        self.timers.insert(ident, Entry { notify: entry.notify, interval });
        assert(self@ =~= old(self)@.insert(
            ident,
            EntryView { interval: span_view(interval), ..old(self)@[ident] },
        ));
    }

    /// Announces an expiration of a timer, and takes its interval, if it has one.
    fn expire(&mut self, ident: usize) -> (interval: Option<Duration>)
        requires
            old(self).wf(),
            old(self)@.contains_key(ident),
            old(self)@[ident].notify.has_room(1),
        ensures
            final(self).wf(),
            final(self)@ == old(self)@.insert(
                ident,
                EntryView { notify: old(self)@[ident].notify.after(1), interval: None },
            ),
            span_view(interval) == old(self)@[ident].interval,
    {
        broadcast use vstd::std_specs::btree::group_btree_axioms, vstd::laws_cmp::group_laws_cmp;

        let entry = self.timers.remove(&ident).unwrap();
        let interval = entry.interval;
        let mut notify = entry.notify;
        notify.announce();
        self.timers.insert(ident, Entry { notify, interval: None });
        assert(self@ =~= old(self)@.insert(
            ident,
            EntryView { notify: old(self)@[ident].notify.after(1), interval: None },
        ));
        interval
    }

    /// Takes a timer out of the table; whether there was such a timer.
    fn remove(&mut self, ident: usize) -> (removed: bool)
        requires
            old(self).wf(),
        ensures
            final(self).wf(),
            final(self)@ == old(self)@.remove(ident),
            removed == old(self)@.contains_key(ident),
    {
        broadcast use vstd::std_specs::btree::group_btree_axioms, vstd::laws_cmp::group_laws_cmp;

        let entry = self.timers.remove(&ident);
        assert(self@ =~= old(self)@.remove(ident));
        entry.is_some()
    }

    /// What is kept of the timer under this ident, if there is one.
    fn entry(&self, ident: usize) -> (entry: Option<&Entry>)
        ensures
            match entry {
                Some(entry) => self.timers@.contains_key(ident) && *entry == self.timers@[ident],
                None => !self.timers@.contains_key(ident),
            },
    {
        broadcast use vstd::std_specs::btree::group_btree_axioms, vstd::laws_cmp::group_laws_cmp;

        self.timers.get(&ident)
    }

    /// Whether so many events of this timer can be taken in.
    fn events_fit(&self, ident: usize, count: usize, clock: Clock) -> (fits: bool)
        requires
            self.wf(),
        ensures
            fits == events_can_dispatch(self@, ident, count as nat, clock),
    {
        match self.entry(ident) {
            Some(entry) => {
                entry.notify.has_room(count) && match entry.interval {
                    Some(interval) => interval_fits(interval, clock),
                    None => true,
                }
            },
            None => false,
        }
    }

    /// Whether [`SharedState::dispatch`] can be asked to take in these events.
    pub fn fits(&self, events: &Vec<usize>, clock: Clock) -> (fits: bool)
        requires
            self.wf(),
        ensures
            fits == can_dispatch(self@, events@, clock),
    {
        let mut next: usize = 0;
        while next < events.len()
            invariant
                next <= events@.len(),
                self.wf(),
                forall|i: int|
                    0 <= i < next ==> events_can_dispatch(
                        self@,
                        #[trigger] events@[i],
                        events_of(events@, events@[i]),
                        clock,
                    ),
            decreases events@.len() - next,
        {
            let ident: usize = events[next];
            if !self.events_fit(ident, count_events(events, ident), clock) {
                return false;
            }
            next = next + 1;
        }
        true
    }

    /// Takes in the events that the queue reports, one expiration each, in their
    /// order: announces them, and says which changes are to be submitted.
    pub fn dispatch(&mut self, events: &Vec<usize>, clock: Clock) -> (changes: Vec<Change>)
        requires
            old(self).wf(),
            can_dispatch(old(self)@, events@, clock),
        ensures
            final(self).wf(),
            final(self)@ == dispatched(old(self)@, events@),
            changes@ == rearmings(old(self)@, events@, clock, events@.len() as int),
    {
        broadcast use vstd::seq_lib::group_to_multiset_ensures;

        let mut changes: Vec<Change> = Vec::new();
        let mut next: usize = 0;
        assert(self@ =~= dispatched(old(self)@, events@.take(0)));
        while next < events.len()
            invariant
                next <= events@.len(),
                can_dispatch(old(self)@, events@, clock),
                self.wf(),
                self@ == dispatched(old(self)@, events@.take(next as int)),
                changes@ == rearmings(old(self)@, events@, clock, next as int),
            decreases events@.len() - next,
        {
            let ident: usize = events[next];
            let ghost seen = events@.take(next as int);
            let ghost more = events@.take(next + 1);
            proof {
                assert(events_can_dispatch(
                    old(self)@,
                    events@[next as int],
                    events_of(events@, ident),
                    clock,
                ));
                lemma_next_event(events@, next as int, ident);
            }
            let interval = self.expire(ident);
            proof {
                assert forall|other: usize| #[trigger]
                    events_of(more, other) == events_of(seen, other) + if other == ident {
                        1nat
                    } else {
                        0
                    } by {
                    lemma_next_event(events@, next as int, other);
                }
                assert(self@ =~= dispatched(old(self)@, more));
            }
            match interval {
                Some(interval) => {
                    let mut armed = add_timer_to_kqueue(
                        ident,
                        duration_to_nseconds(interval),
                        false,
                        clock,
                    );
                    changes.append(&mut armed);
                },
                None => {},
            }
            next = next + 1;
        }
        assert(events@.take(events@.len() as int) =~= events@);
        changes
    }
}

/// A timer in the queue: the ident it is registered under, and the end of its
/// semaphore that waits for expirations.
pub struct Timer {
    ident: usize,
    waiter: Waiter,
}

/// The view of a [`Timer`].
pub struct TimerView {
    pub ident: usize,
    /// Where it waits for its expirations.
    pub waiter: WaiterView,
}

impl View for Timer {
    type V = TimerView;

    closed spec fn view(&self) -> TimerView {
        TimerView { ident: self.ident, waiter: self.waiter@ }
    }
}

impl Timer {
    /// Registers a timer that expires at `deadline` and then every `interval`, if
    /// any: the timer, and the changes to be submitted; or `None`, and the table
    /// unchanged, if there is no ident left for it.
    pub fn new(
        shared: &mut SharedState,
        deadline: Instant,
        interval: Option<Duration>,
        clock: Clock,
    ) -> (made: Option<(Timer, Vec<Change>)>)
        requires
            old(shared).wf(),
            deadline@ <= i64::MAX,
            can_arm(since_zero(deadline@) as int, true, clock),
        ensures
            final(shared).wf(),
            match made {
                Some((timer, changes)) => {
                    &&& is_next_ident(old(shared)@.dom(), timer@.ident)
                    &&& final(shared)@ == old(shared)@.insert(
                        timer@.ident,
                        EntryView {
                            notify: GiverView {
                                semaphore: timer@.waiter.semaphore,
                                given: 0,
                            },
                            interval: span_view(interval),
                        },
                    )
                    &&& are_new_ends(final(shared)@[timer@.ident].notify, timer@.waiter)
                    &&& changes@ == arming(
                        timer@.ident,
                        since_zero(deadline@) as int,
                        true,
                        clock,
                    )
                },
                None => idents_run_out(old(shared)@.dom()) && final(shared)@ == old(shared)@,
            },
    {
        let (notify, waiter) = Notifier::new();
        match shared.register(notify, interval) {
            Some(ident) => {
                let changes = add_timer_to_kqueue(
                    ident,
                    instant_to_nseconds(deadline),
                    true,
                    clock,
                );
                Some((Timer { ident, waiter }, changes))
            },
            None => None,
        }
    }

    /// Makes the timer expire at `deadline` and then every `interval`, if any: the
    /// changes to be submitted.
    pub fn reset(
        &mut self,
        shared: &mut SharedState,
        deadline: Instant,
        interval: Option<Duration>,
        clock: Clock,
    ) -> (changes: Vec<Change>)
        requires
            old(shared).wf(),
            old(shared)@.contains_key(old(self)@.ident),
            deadline@ <= i64::MAX,
            can_arm(since_zero(deadline@) as int, true, clock),
        ensures
            *final(self) == *old(self),
            final(shared).wf(),
            final(shared)@ == old(shared)@.insert(
                old(self)@.ident,
                EntryView {
                    interval: span_view(interval),
                    ..old(shared)@[old(self)@.ident]
                },
            ),
            changes@ == arming(old(self)@.ident, since_zero(deadline@) as int, true, clock),
    {
        let changes = add_timer_to_kqueue(
            self.ident,
            instant_to_nseconds(deadline),
            true,
            clock,
        );
        shared.set_interval(self.ident, interval);
        changes
    }

    /// Takes the expirations that were counted since the last time: `Pending` if
    /// there are none, `Ready(None)` if the semaphore is closed.
    pub fn poll_expired(&mut self, cx: &mut Context<'_>) -> (expired: Poll<Option<u64>>)
        ensures
            final(self)@ == (TimerView { waiter: final(self)@.waiter, ..old(self)@ }),
            asked_for_all(expired, old(self)@.waiter, final(self)@.waiter),
    {
        crate::semaphore::poll_expired(&mut self.waiter, cx)
    }

    /// Whether the table knows the timer.
    pub fn is_registered(&self, shared: &SharedState) -> (registered: bool)
        ensures
            registered == shared@.contains_key(self@.ident),
    {
        shared.entry(self.ident).is_some()
    }

    /// Gives up the timer: the change to be submitted, and whether it was still
    /// registered.
    pub fn unregister(self, shared: &mut SharedState) -> (gone: (Change, bool))
        requires
            old(shared).wf(),
        ensures
            final(shared).wf(),
            final(shared)@ == old(shared)@.remove(self@.ident),
            gone.0 == (Change::Delete { ident: self@.ident }),
            gone.1 == old(shared)@.contains_key(self@.ident),
    {
        let removed = shared.remove(self.ident);
        (delete_timer_from_kqueue(self.ident), removed)
    }
}

/// What the task that watches the queue is told.
#[derive(Debug, PartialEq, Eq)]
pub enum BackgroundEvent {
    /// The task is polled; `alive` says whether any timer still uses the queue.
    Polled { alive: bool },
    /// Whether the queue has events is known: `Ready(false)` if asking failed.
    Readiness(Poll<bool>),
    /// The events were taken in and the changes submitted.
    Dispatched,
}

/// What the task that watches the queue is to do next.
#[derive(Debug, PartialEq, Eq)]
pub enum BackgroundAction {
    /// Ask whether the queue has events.
    PollReadiness,
    /// Take the events from the queue, dispatch them and submit the changes.
    Dispatch,
    /// Answer the poll.
    Return(Poll<()>),
}

/// What is to be done about an event: the task ends when nobody uses the queue any
/// more, and takes in events as long as there are any.
pub open spec fn background_action(event: BackgroundEvent) -> BackgroundAction {
    match event {
        BackgroundEvent::Polled { alive } => if alive {
            BackgroundAction::PollReadiness
        } else {
            BackgroundAction::Return(Poll::Ready(()))
        },
        BackgroundEvent::Readiness(Poll::Ready(true)) => BackgroundAction::Dispatch,
        BackgroundEvent::Readiness(_) => BackgroundAction::Return(Poll::Pending),
        BackgroundEvent::Dispatched => BackgroundAction::PollReadiness,
    }
}

/// Says what the task that watches the queue is to do next.
pub fn background_poll(event: BackgroundEvent) -> (action: BackgroundAction)
    ensures
        action == background_action(event),
{
    match event {
        BackgroundEvent::Polled { alive } => {
            if alive {
                BackgroundAction::PollReadiness
            } else {
                BackgroundAction::Return(Poll::Ready(()))
            }
        },
        BackgroundEvent::Readiness(Poll::Ready(true)) => BackgroundAction::Dispatch,
        BackgroundEvent::Readiness(_) => BackgroundAction::Return(Poll::Pending),
        BackgroundEvent::Dispatched => BackgroundAction::PollReadiness,
    }
}

/// A whole poll of the task that watches the queue, from `event` on, with what is found
/// each time it is asked whether the queue has events: how often events are taken in,
/// and the answer; or `None` if it is asked more often than that.
pub open spec fn background_run(event: BackgroundEvent, found: Seq<Poll<bool>>) -> Option<
    (nat, Poll<()>),
>
    decreases found.len(), (if event is Readiness { 1nat } else { 0 }),
{
    match background_action(event) {
        BackgroundAction::Return(answer) => Some((0, answer)),
        BackgroundAction::PollReadiness => if found.len() == 0 {
            None
        } else {
            background_run(BackgroundEvent::Readiness(found[0]), found.drop_first())
        },
        BackgroundAction::Dispatch => match background_run(BackgroundEvent::Dispatched, found) {
            Some((dispatches, answer)) => Some((dispatches + 1, answer)),
            None => None,
        },
    }
}

/// The task that watches the queue ends exactly when no timer uses it any more, whatever
/// the queue holds; it takes in no events then.
pub proof fn law_background_ends_without_timers(alive: bool, found: Seq<Poll<bool>>)
    ensures
        background_run(BackgroundEvent::Polled { alive }, found) matches Some((_, answer))
            ==> (answer == Poll::Ready(()) <==> !alive),
        !alive ==> background_run(BackgroundEvent::Polled { alive }, found) == Some(
            (0nat, Poll::Ready(())),
        ),
{
    if alive {
        lemma_goes_on(BackgroundEvent::Polled { alive }, found);
    }
}

proof fn lemma_goes_on(event: BackgroundEvent, found: Seq<Poll<bool>>)
    requires
        event != (BackgroundEvent::Polled { alive: false }),
    ensures
        background_run(event, found) matches Some((_, answer)) ==> answer is Pending,
    decreases found.len(), (if event is Readiness { 1nat } else { 0 }),
{
    match background_action(event) {
        BackgroundAction::Return(_) => {},
        BackgroundAction::PollReadiness => if found.len() != 0 {
            lemma_goes_on(BackgroundEvent::Readiness(found[0]), found.drop_first());
        },
        BackgroundAction::Dispatch => lemma_goes_on(BackgroundEvent::Dispatched, found),
    }
}

/// As long as a timer uses the queue, a poll of the task that watches it takes in events
/// once for each time that it finds some, and goes on to wait when it finds none or
/// asking fails.
pub proof fn law_background_drains_the_queue(found: Seq<Poll<bool>>)
    requires
        found.len() > 0,
        forall|i: int| 0 <= i < found.len() - 1 ==> #[trigger] found[i] == Poll::Ready(true),
        found.last() != Poll::Ready(true),
    ensures
        background_run(BackgroundEvent::Polled { alive: true }, found) == Some(
            ((found.len() - 1) as nat, Poll::<()>::Pending),
        ),
{
    lemma_drains(BackgroundEvent::Polled { alive: true }, found);
}

proof fn lemma_drains(event: BackgroundEvent, found: Seq<Poll<bool>>)
    requires
        background_action(event) == BackgroundAction::PollReadiness,
        found.len() > 0,
        forall|i: int| 0 <= i < found.len() - 1 ==> #[trigger] found[i] == Poll::Ready(true),
        found.last() != Poll::Ready(true),
    ensures
        background_run(event, found) == Some(((found.len() - 1) as nat, Poll::<()>::Pending)),
    decreases found.len(),
{
    reveal_with_fuel(background_run, 3);
    if found.len() > 1 {
        let rest = found.drop_first();
        assert(found[0] == Poll::Ready(true));
        assert forall|i: int| 0 <= i < rest.len() - 1 implies #[trigger] rest[i] == Poll::Ready(
            true,
        ) by {
            assert(found[i + 1] == Poll::Ready(true));
        }
        lemma_drains(BackgroundEvent::Dispatched, rest);
    }
}

/// There is one next ident exactly as long as not all are taken, and it is unique.
pub proof fn law_next_ident(used: Set<usize>)
    requires
        !used.contains(0),
    ensures
        (exists|i: usize| is_next_ident(used, i)) <==> !idents_run_out(used),
        forall|i: usize, j: usize| is_next_ident(used, i) && is_next_ident(used, j) ==> i == j,
{
    if !idents_run_out(used) {
        let free = choose|i: usize| i != 0 && !used.contains(i);
        if used.contains(usize::MAX) {
            let ident = lemma_lowest_free(used, free);
            assert(is_next_ident(used, ident));
        } else {
            let ident = lemma_above_highest(used, usize::MAX);
            assert(is_next_ident(used, ident));
        }
    }
    assert forall|i: usize, j: usize| is_next_ident(used, i) && is_next_ident(used, j) implies i
        == j by {
        if !used.contains(usize::MAX) {
            if i < j {
                assert(used.contains((j - 1) as usize));
            } else if j < i {
                assert(used.contains((i - 1) as usize));
            }
        } else {
            if i < j {
                assert(used.contains(i));
            } else if j < i {
                assert(used.contains(j));
            }
        }
    }
}

/// Registering a timer touches no other, and removing it gives the table back.
pub proof fn law_register_and_remove(
    table: Map<usize, EntryView>,
    ident: usize,
    entry: EntryView,
)
    requires
        is_next_ident(table.dom(), ident),
    ensures
        forall|other: usize| #[trigger]
            table.contains_key(other) ==> other != ident && table.insert(ident, entry)[other]
                == table[other],
        table.insert(ident, entry).remove(ident) == table,
{
    assert(table.insert(ident, entry).remove(ident) =~= table);
}

/// Whether the table knows a timer and counts its expirations where it waits for
/// them.
pub open spec fn is_linked(table: Map<usize, EntryView>, timer: TimerView) -> bool {
    table.contains_key(timer.ident) && table[timer.ident].notify.semaphore
        == timer.waiter.semaphore
}

/// Once registered, a timer stays linked to its own semaphore whatever happens to
/// the table: others are registered, reset or given up, or events are taken in.
pub proof fn law_timers_stay_linked(
    table: Map<usize, EntryView>,
    timer: TimerView,
    other: usize,
    entry: EntryView,
    interval: Option<nat>,
    events: Seq<usize>,
)
    requires
        is_linked(table, timer),
    ensures
        is_next_ident(table.dom(), other) ==> is_linked(table.insert(other, entry), timer),
        table.contains_key(other) ==> is_linked(
            table.insert(other, EntryView { interval, ..table[other] }),
            timer,
        ),
        other != timer.ident ==> is_linked(table.remove(other), timer),
        is_linked(dispatched(table, events), timer),
{
}

/// How the queue's events are cut into batches makes no difference: taking in `first`
/// and later `second` does the same as taking in both at once.
pub proof fn law_batches_do_not_matter(
    table: Map<usize, EntryView>,
    first: Seq<usize>,
    second: Seq<usize>,
    clock: Clock,
)
    requires
        forall|i: int| 0 <= i < first.len() ==> table.contains_key(#[trigger] first[i]),
        forall|i: int| 0 <= i < second.len() ==> table.contains_key(#[trigger] second[i]),
    ensures
        dispatched(dispatched(table, first), second) == dispatched(table, first + second),
        rearmings(table, first + second, clock, (first + second).len() as int) == rearmings(
            table,
            first,
            clock,
            first.len() as int,
        ) + rearmings(dispatched(table, first), second, clock, second.len() as int),
{
    let all = first + second;
    assert forall|ident: usize|
        events_of(all, ident) == #[trigger] events_of(first, ident) + events_of(second, ident) by {
        vstd::seq_lib::lemma_multiset_commutative(first, second);
    }
    assert(dispatched(dispatched(table, first), second) =~= dispatched(table, all));
    lemma_rearmings_of_first(table, first, second, clock, first.len() as int);
    lemma_rearmings_of_second(table, first, second, clock, second.len() as int);
}

/// A timer is armed with its interval once: after an expiration there is none left
/// to arm it with, until it is given another.
pub proof fn law_interval_is_used_once(
    table: Map<usize, EntryView>,
    first: Seq<usize>,
    second: Seq<usize>,
    i: int,
)
    requires
        forall|k: int| 0 <= k < first.len() ==> table.contains_key(#[trigger] first[k]),
        0 <= i < second.len(),
        first.contains(second[i]),
    ensures
        rearm(dispatched(table, first), second, i) is None,
{
    broadcast use vstd::seq_lib::group_to_multiset_ensures;

    let k = choose|k: int| 0 <= k < first.len() && first[k] == second[i];
    assert(table.contains_key(first[k]));
    assert(first.to_multiset().contains(second[i]));
}

/// An event of a timer that has an interval arms it once, to expire again each time
/// that the interval has passed; one of a timer that has none arms nothing. Either way
/// the timer has none afterwards.
pub proof fn law_event_arms_with_the_interval(
    table: Map<usize, EntryView>,
    ident: usize,
    clock: Clock,
)
    requires
        table.contains_key(ident),
    ensures
        rearmings(table, seq![ident], clock, 1) == match table[ident].interval {
            Some(interval) => arming(ident, interval as int, false, clock),
            None => seq![],
        },
        dispatched(table, seq![ident])[ident].interval is None,
        dispatched(table, seq![ident])[ident].notify == table[ident].notify.after(1),
{
    reveal_with_fuel(rearmings, 2);
    let events = seq![ident];
    assert(events.take(0) =~= Seq::<usize>::empty());
    vstd::seq_lib::to_multiset_build(Seq::<usize>::empty(), ident);
    assert(Seq::<usize>::empty().push(ident) =~= events);
    lemma_no_events(ident);
    assert(rearmings(table, events, clock, 1) =~= match table[ident].interval {
        Some(interval) => arming(ident, interval as int, false, clock),
        None => seq![],
    });
}

/// Of all the events of a timer only the first can arm it.
pub proof fn law_only_the_first_event_arms(
    table: Map<usize, EntryView>,
    events: Seq<usize>,
    i: int,
    j: int,
)
    requires
        0 <= i < j < events.len(),
        events[i] == events[j],
    ensures
        rearm(table, events, j) is None,
{
    broadcast use vstd::seq_lib::group_to_multiset_ensures;

    assert(events.take(j)[i] == events[j]);
    assert(events.take(j).to_multiset().contains(events[j]));
}

/// Going through the events in their order, the first one of each timer that has an
/// interval adds the changes that arm it to expire again each time that the interval has
/// passed; no other event adds anything.
pub proof fn law_first_events_arm_in_order(
    table: Map<usize, EntryView>,
    events: Seq<usize>,
    clock: Clock,
    i: int,
)
    requires
        0 <= i < events.len(),
    ensures
        rearmings(table, events, clock, 0) == Seq::<Change>::empty(),
        events.take(i).contains(events[i]) ==> rearmings(table, events, clock, i + 1)
            == rearmings(table, events, clock, i),
        !events.take(i).contains(events[i]) ==> rearmings(table, events, clock, i + 1) == rearmings(
            table,
            events,
            clock,
            i,
        ) + match table[events[i]].interval {
            Some(interval) => arming(events[i], interval as int, false, clock),
            None => seq![],
        },
{
    broadcast use vstd::seq_lib::group_to_multiset_ensures;

    assert(events.take(i).to_multiset().contains(events[i]) <==> events.take(i).contains(
        events[i],
    ));
    if events.take(i).contains(events[i]) {
        assert(rearmings(table, events, clock, i + 1) =~= rearmings(table, events, clock, i));
    }
}

/// The table, and one timer in it.
pub struct Registered {
    pub table: Map<usize, EntryView>,
    pub timer: TimerView,
}

/// What happens to a registered timer.
pub enum TimerStep {
    /// These events are taken in.
    Dispatched(Seq<usize>),
    /// The timer is polled, and this is the answer.
    Polled(Poll<Option<u64>>),
    /// It is reset, or other timers are registered, reset or given up.
    Rearranged,
}

impl TimerStep {
    /// What the step is at the ends of the timer's semaphore.
    pub open spec fn at_ends(self, ident: usize) -> Step {
        match self {
            TimerStep::Dispatched(events) => Step::Announced(events_of(events, ident)),
            TimerStep::Polled(expired) => Step::Polled(expired),
            TimerStep::Rearranged => Step::Announced(0),
        }
    }
}

impl Registered {
    /// The ends of the timer's semaphore.
    pub open spec fn ends(self) -> Ends {
        Ends { notify: self.table[self.timer.ident].notify, waiter: self.timer.waiter }
    }

    /// Whether `after` is what a step leaves of the timer and the table.
    pub open spec fn steps_to(self, step: TimerStep, after: Registered) -> bool {
        &&& self.table.contains_key(self.timer.ident)
        &&& match step {
            TimerStep::Dispatched(events) => {
                &&& after.table == dispatched(self.table, events)
                &&& after.timer == self.timer
            },
            TimerStep::Polled(expired) => {
                &&& after.table == self.table
                &&& after.timer == (TimerView { waiter: after.timer.waiter, ..self.timer })
                &&& asked_for_all(expired, self.timer.waiter, after.timer.waiter)
            },
            TimerStep::Rearranged => {
                &&& after.timer == self.timer
                &&& after.table[self.timer.ident].notify == self.table[self.timer.ident].notify
            },
        }
    }
}

/// No expiration of a timer is lost or counted again: from its making on, whatever
/// happens to it and to other timers, those that its answers stood for and those that
/// are left in its semaphore make up the events of it that were taken in.
pub proof fn law_timer_counts_its_events(
    ident: usize,
    states: Seq<Registered>,
    steps: Seq<TimerStep>,
)
    requires
        states.len() == steps.len() + 1,
        forall|i: int| 0 <= i < states.len() ==> (#[trigger] states[i]).timer.ident == ident,
        forall|i: int|
            0 <= i < steps.len() ==> (#[trigger] states[i]).steps_to(steps[i], states[i + 1]),
        are_new_ends(states[0].ends().notify, states[0].ends().waiter),
    ensures
        ({
            let at_ends = steps.map_values(|step: TimerStep| step.at_ends(ident));
            total_counted(at_ends) + states.last().ends().left() == total_announced(at_ends)
        }),
{
    let at_ends = steps.map_values(|step: TimerStep| step.at_ends(ident));
    let ends = states.map_values(|state: Registered| state.ends());
    assert(is_run(ends, at_ends)) by {
        assert forall|i: int| 0 <= i < at_ends.len() implies (#[trigger] ends[i]).steps_to(
            at_ends[i],
            ends[i + 1],
        ) by {
            assert(states[i].steps_to(steps[i], states[i + 1]));
            assert(states[i + 1].timer.ident == ident);
        }
    }
    law_expirations_are_conserved(ends, at_ends);
}

/// In ticks of the machine's clock an instant is rounded down by less than a tick.
pub proof fn law_mach_ticks_round_down(nanos: nat, numer: nat, denom: nat)
    requires
        numer > 0,
    ensures
        quotient((nanos * denom) as int, numer as int) * numer <= nanos * denom < (quotient(
            (nanos * denom) as int,
            numer as int,
        ) + 1) * numer,
{
    let n = (nanos * denom) as int;
    lemma_fundamental_div_mod(n, numer as int);
    assert((n / numer as int) * numer <= n < (n / numer as int + 1) * numer) by (nonlinear_arith)
        requires
            numer > 0,
            n == numer * (n / numer as int) + n % numer as int,
            0 <= n % (numer as int) < numer,
    ;
}

proof fn lemma_rearmings_of_first(
    table: Map<usize, EntryView>,
    first: Seq<usize>,
    second: Seq<usize>,
    clock: Clock,
    n: int,
)
    requires
        0 <= n <= first.len(),
    ensures
        rearmings(table, first + second, clock, n) == rearmings(table, first, clock, n),
    decreases n,
{
    if n > 0 {
        lemma_rearmings_of_first(table, first, second, clock, n - 1);
        assert((first + second).take(n - 1) =~= first.take(n - 1));
    }
}

proof fn lemma_rearmings_of_second(
    table: Map<usize, EntryView>,
    first: Seq<usize>,
    second: Seq<usize>,
    clock: Clock,
    n: int,
)
    requires
        0 <= n <= second.len(),
        forall|i: int| 0 <= i < second.len() ==> table.contains_key(#[trigger] second[i]),
    ensures
        rearmings(table, first + second, clock, first.len() + n) == rearmings(
            table,
            first + second,
            clock,
            first.len() as int,
        ) + rearmings(dispatched(table, first), second, clock, n),
    decreases n,
{
    if n > 0 {
        let i = n - 1;
        lemma_rearmings_of_second(table, first, second, clock, i);
        assert((first + second).take(first.len() + i) =~= first + second.take(i));
        vstd::seq_lib::lemma_multiset_commutative(first, second.take(i));
        assert(table.contains_key(second[i]));
        assert(rearm(table, first + second, first.len() + i) == rearm(
            dispatched(table, first),
            second,
            i,
        ));
    }
}

/// The lowest free ident, given a free one.
proof fn lemma_lowest_free(used: Set<usize>, free: usize) -> (ident: usize)
    requires
        free != 0,
        !used.contains(free),
    ensures
        ident != 0,
        !used.contains(ident),
        forall|i: usize| 1 <= i < ident ==> #[trigger] used.contains(i),
    decreases free,
{
    if forall|i: usize| 1 <= i < free ==> #[trigger] used.contains(i) {
        free
    } else {
        let lower = choose|i: usize| 1 <= i < free && !(#[trigger] used.contains(i));
        lemma_lowest_free(used, lower)
    }
}

/// The ident above the highest one taken, given a free one above all of them.
proof fn lemma_above_highest(used: Set<usize>, free: usize) -> (ident: usize)
    requires
        free != 0,
        !used.contains(0),
        !used.contains(free),
        forall|i: usize| #[trigger] used.contains(i) ==> i < free,
    ensures
        ident != 0,
        !used.contains(ident),
        forall|i: usize| #[trigger] used.contains(i) ==> i < ident,
        ident == 1 || used.contains((ident - 1) as usize),
    decreases free,
{
    let below = (free - 1) as usize;
    if free == 1 || used.contains(below) {
        free
    } else {
        lemma_above_highest(used, below)
    }
}

/// A number divided is cut off towards zero: what is lost is less than the divisor, and
/// of the sign of the number.
pub proof fn law_quotient_is_cut_off(n: int, d: int)
    requires
        d > 0,
    ensures
        n >= 0 ==> quotient(n, d) >= 0 && quotient(n, d) * d <= n < (quotient(n, d) + 1) * d,
        n <= 0 ==> quotient(n, d) <= 0 && (quotient(n, d) - 1) * d < n <= quotient(n, d) * d,
{
    let m = if n >= 0 {
        n
    } else {
        -n
    };
    lemma_fundamental_div_mod(m, d);
    let q = m / d;
    assert(q >= 0 && q * d <= m < (q + 1) * d) by (nonlinear_arith)
        requires
            d > 0,
            m >= 0,
            m == d * q + m % d,
            0 <= m % d < d,
            q == m / d,
    ;
    assert((-q) * d == -(q * d)) by (nonlinear_arith);
    assert((-q - 1) * d == -((q + 1) * d)) by (nonlinear_arith);
    if n == 0 {
        assert(q == 0) by (nonlinear_arith)
            requires
                q >= 0,
                q * d <= 0,
                d > 0,
        ;
    }
}

/// Counting nanoseconds, a timer that is to expire once is added to expire when the clock
/// has gone on from `now` to just the instant it is for, and a periodic one to expire each
/// time that just its span has passed; in one change, for the ident that was given.
pub proof fn law_nanos_lead_to_the_deadline(
    ident: usize,
    duration: int,
    oneshot: bool,
    now: i64,
)
    requires
        can_arm(duration, oneshot, Clock::Nanos { now }),
        i64::MIN <= duration <= i64::MAX,
    ensures
        arming(ident, duration, oneshot, Clock::Nanos { now }).len() == 1,
        arming(ident, duration, oneshot, Clock::Nanos { now })[0] matches Change::AddNanos {
            ident: of,
            nanos,
            once,
        } && of == ident && once == oneshot && (oneshot ==> now + nanos == duration) && (!oneshot
            ==> nanos == duration),
{
}

/// Counting ticks of the machine's clock, a timer is first removed and then added to
/// expire at, or every, as many whole ticks as there are in the time that was given, cut
/// off towards zero; absolutely if it is to expire once, for the ident that was given.
pub proof fn law_ticks_lead_to_the_deadline(
    ident: usize,
    duration: int,
    oneshot: bool,
    numer: u32,
    denom: u32,
)
    requires
        can_arm(duration, oneshot, Clock::MachTicks { numer, denom }),
    ensures
        arming(ident, duration, oneshot, Clock::MachTicks { numer, denom }).len() == 2,
        arming(ident, duration, oneshot, Clock::MachTicks { numer, denom })[0] == (
        Change::Delete { ident }),
        arming(
            ident,
            duration,
            oneshot,
            Clock::MachTicks { numer, denom },
        )[1] matches Change::AddMachTicks { ident: of, ticks, absolute } && of == ident && absolute
            == oneshot && (duration >= 0 ==> ticks * numer <= duration * denom < (ticks + 1)
            * numer) && (duration < 0 ==> (ticks - 1) * numer < duration * denom <= ticks * numer),
{
    let n = duration * denom;
    let d = numer as int;
    assert(duration >= 0 ==> n >= 0) by (nonlinear_arith)
        requires
            n == duration * denom,
    ;
    assert(duration < 0 ==> n <= 0) by (nonlinear_arith)
        requires
            n == duration * denom,
    ;
    law_quotient_is_cut_off(n, d);
    let q = quotient(n, d);
    assert(n >= 0 ==> q <= n) by (nonlinear_arith)
        requires
            d >= 1,
            n >= 0 ==> q >= 0 && q * d <= n,
    ;
    assert(n <= 0 ==> n <= q) by (nonlinear_arith)
        requires
            d >= 1,
            n <= 0 ==> q <= 0 && n <= q * d,
    ;
}

/// The queue can be given every time that it can count: a time from now on that fits, or,
/// in ticks of a length that is known, one whose count fits.
pub proof fn law_what_can_be_armed(duration: int, oneshot: bool, now: i64, numer: u32, denom: u32)
    ensures
        can_arm(duration, false, Clock::Nanos { now }),
        can_arm(duration, true, Clock::Nanos { now }) <==> now - 0x8000_0000_0000_0000 <= duration
            < now + 0x8000_0000_0000_0000,
        can_arm(duration, oneshot, Clock::MachTicks { numer, denom }) <==> numer > 0
            && -0x8000_0000_0000_0000 <= duration * denom < 0x8000_0000_0000_0000,
{
}

/// The first timer gets the ident 1, and the next one the ident above the highest that is
/// taken, as long as there is one above.
pub proof fn law_next_ident_is_above_the_highest(used: Set<usize>, highest: usize, ident: usize)
    requires
        !used.contains(0),
        forall|i: usize| #[trigger] used.contains(i) ==> i <= highest,
        highest < usize::MAX,
        used.contains(highest) || highest == 0,
    ensures
        is_next_ident(used, ident) <==> ident == highest + 1,
{
    if is_next_ident(used, ident) && ident != highest + 1 {
        assert(used.contains((ident - 1) as usize));
    }
}

/// When the highest ident of all is taken, the next timer gets the lowest that is free.
pub proof fn law_next_ident_is_the_lowest_free(used: Set<usize>, free: usize, ident: usize)
    requires
        used.contains(usize::MAX),
        free != 0,
        !used.contains(free),
        forall|i: usize| 1 <= i < free ==> #[trigger] used.contains(i),
    ensures
        is_next_ident(used, ident) <==> ident == free,
        !idents_run_out(used),
{
}

/// Idents run out exactly when all but zero are taken.
pub proof fn law_idents_run_out(used: Set<usize>, free: usize)
    ensures
        free != 0 && !used.contains(free) ==> !idents_run_out(used),
        (forall|i: usize| i != 0 ==> #[trigger] used.contains(i)) ==> idents_run_out(used),
{
}

/// Each event counts once, for its own timer and for no other.
pub proof fn law_each_event_counts_once(events: Seq<usize>, event: usize, ident: usize)
    ensures
        events_of(Seq::<usize>::empty(), ident) == 0,
        event == ident ==> events_of(events.push(event), ident) == events_of(events, ident) + 1,
        event != ident ==> events_of(events.push(event), ident) == events_of(events, ident),
{
    lemma_no_events(ident);
    vstd::seq_lib::to_multiset_build(events, event);
}

/// Taking in events gives each timer of which there are some as many permits as there
/// are, and takes its interval; the others keep theirs. No timer comes or goes, and each
/// keeps its semaphore.
pub proof fn law_events_reach_their_timers(
    table: Map<usize, EntryView>,
    events: Seq<usize>,
    ident: usize,
)
    ensures
        dispatched(table, events).contains_key(ident) <==> table.contains_key(ident),
        table.contains_key(ident) ==> {
            let before = table[ident];
            let after = dispatched(table, events)[ident];
            &&& after.notify.semaphore == before.notify.semaphore
            &&& after.notify.given == before.notify.given + events_of(events, ident)
            &&& events.contains(ident) ==> after.interval is None
            &&& !events.contains(ident) ==> after.interval == before.interval
        },
{
    broadcast use vstd::seq_lib::group_to_multiset_ensures;

    assert(events.to_multiset().contains(ident) <==> events.contains(ident));
}

/// Events can be taken in exactly if each is of a registered timer, the semaphore of
/// which has room for all of that timer's, and the interval of which, if it has one, the
/// queue can count.
pub proof fn law_what_can_be_dispatched(
    table: Map<usize, EntryView>,
    events: Seq<usize>,
    clock: Clock,
)
    ensures
        can_dispatch(table, events, clock) <==> forall|ident: usize| #[trigger]
            events.contains(ident) ==> {
                &&& table.contains_key(ident)
                &&& 8 * (made_with(*table[ident].notify.semaphore) + table[ident].notify.given
                    + events_of(events, ident)) <= usize::MAX
                &&& table[ident].interval matches Some(interval) ==> {
                    &&& interval < 0x8000_0000_0000_0000
                    &&& clock matches Clock::MachTicks { numer, denom } ==> numer > 0 && interval
                        * denom < 0x8000_0000_0000_0000
                }
            },
{
    assert forall|interval: nat, denom: u32| 0 <= #[trigger] (interval * denom) by {
        assert(interval * denom >= 0) by (nonlinear_arith);
    }
    if forall|ident: usize| #[trigger] events.contains(ident) ==> {
        &&& table.contains_key(ident)
        &&& 8 * (made_with(*table[ident].notify.semaphore) + table[ident].notify.given + events_of(
            events,
            ident,
        )) <= usize::MAX
        &&& table[ident].interval matches Some(interval) ==> {
            &&& interval < 0x8000_0000_0000_0000
            &&& clock matches Clock::MachTicks { numer, denom } ==> numer > 0 && interval * denom
                < 0x8000_0000_0000_0000
        }
    } {
        assert forall|i: int| 0 <= i < events.len() implies events_can_dispatch(
            table,
            #[trigger] events[i],
            events_of(events, events[i]),
            clock,
        ) by {
            assert(events.contains(events[i]));
        }
    }
    if can_dispatch(table, events, clock) {
        assert forall|ident: usize| #[trigger] events.contains(ident) implies events_can_dispatch(
            table,
            ident,
            events_of(events, ident),
            clock,
        ) by {
            let i = choose|i: int| 0 <= i < events.len() && events[i] == ident;
            assert(events_can_dispatch(table, events[i], events_of(events, events[i]), clock));
        }
    }
}

/// What the task that watches the queue does at each step: it asks whether the queue has
/// events when it is polled on behalf of a timer and after it has taken some in; it takes
/// them in when there are any, and else waits.
pub proof fn law_background_steps()
    ensures
        background_action(BackgroundEvent::Polled { alive: true }) is PollReadiness,
        background_action(BackgroundEvent::Polled { alive: false }) == BackgroundAction::Return(
            Poll::Ready(()),
        ),
        background_action(BackgroundEvent::Readiness(Poll::Ready(true))) is Dispatch,
        background_action(BackgroundEvent::Readiness(Poll::Ready(false)))
            == BackgroundAction::Return(Poll::Pending),
        background_action(BackgroundEvent::Readiness(Poll::Pending)) == BackgroundAction::Return(
            Poll::Pending,
        ),
        background_action(BackgroundEvent::Dispatched) is PollReadiness,
{
}

/// Timers on a queue do not tell how often they expired between two looks at it.
pub proof fn law_expirations_are_not_remembered()
    ensures
        !TIMER_REMEMBER_EXPIRATIONS,
{
}

} // verus!
