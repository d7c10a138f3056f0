//! Ticks at a fixed period.
use vstd::arithmetic::div_mod::{
    lemma_fundamental_div_mod, lemma_fundamental_div_mod_converse, lemma_mod_multiples_basic,
};
use vstd::prelude::*;

use crate::poll::Poll;
use crate::time::{Duration, Instant, INSTANT_MAX_NANOS};
use crate::timer::{lemma_whole_spans, Setting, SettingView};

verus! {

/// What an [`Interval`] does about ticks that nobody waited for.
#[derive(Debug, Clone, Copy, PartialEq, Eq, Structural)]
pub enum MissedTickBehavior {
    /// Deliver every missed tick, as fast as they are asked for.
    Burst,
    /// Start a new period at the late tick. Not implemented.
    Delay,
    /// Deliver one tick for all that were missed and stay on the schedule.
    Skip,
}

/// A sequence of ticks, one every `period`.
///
/// The timer that drives it is armed as [`Interval::timer`] says each time an
/// interval has been made or reset.
pub struct Interval {
    timer: Setting,
    period: Duration,
    expirations: u64,
    behavior: MissedTickBehavior,
    remembers: bool,
}

/// The view of an [`Interval`].
pub struct IntervalView {
    /// What the timer was last armed with.
    pub timer: SettingView,
    /// Nanoseconds between ticks.
    pub period: nat,
    /// Expirations that no tick has been delivered for yet.
    pub expirations: nat,
    pub behavior: MissedTickBehavior,
    /// Whether the timer counts the expirations that it was not asked about.
    pub remembers: bool,
}

impl View for Interval {
    type V = IntervalView;

    closed spec fn view(&self) -> IntervalView {
        IntervalView {
            timer: self.timer@,
            period: self.period@,
            expirations: self.expirations as nat,
            behavior: self.behavior,
            remembers: self.remembers,
        }
    }
}

/// Whether intervals over a timer of this kind can be given this behavior.
pub open spec fn behavior_supported(behavior: MissedTickBehavior, remembers: bool) -> bool {
    match behavior {
        MissedTickBehavior::Burst => remembers,
        MissedTickBehavior::Delay => false,
        MissedTickBehavior::Skip => true,
    }
}

/// How many expirations a report of the timer stands for.
pub open spec fn reported(expired: Poll<u64>) -> nat {
    match expired {
        Poll::Ready(n) => n as nat,
        Poll::Pending => 0,
    }
}

/// How many ticks of the schedule `start`, `start + period`, ... are due by `t`.
pub open spec fn ticks_due(start: int, period: nat, t: int) -> nat {
    if t < start {
        0
    } else {
        ((t - start) / period as int + 1) as nat
    }
}

/// Whether [`Interval::reset_at`] can work out the schedule: what it counts must
/// fit `u64`, and there must be an instant to arm the timer with.
pub open spec fn reset_fits(deadline: int, now: int, period: nat) -> bool {
    deadline <= now ==> {
        &&& now - deadline <= u64::MAX
        &&& period <= u64::MAX
        &&& ticks_due(deadline, period, now) <= u64::MAX
        &&& deadline + ticks_due(deadline, period, now) * period <= INSTANT_MAX_NANOS
    }
}

impl IntervalView {
    /// A new interval whose first tick is at `start`.
    pub open spec fn starting_at(start: int, period: nat, remembers: bool) -> IntervalView {
        IntervalView {
            timer: SettingView { deadline: start, interval: Some(period) },
            period,
            expirations: 0,
            behavior: if remembers {
                MissedTickBehavior::Burst
            } else {
                MissedTickBehavior::Skip
            },
            remembers,
        }
    }

    /// A new interval whose first tick is due at once and the second a period
    /// after `now`.
    pub open spec fn starting_now(now: int, period: nat, remembers: bool) -> IntervalView {
        IntervalView {
            expirations: 1,
            ..IntervalView::starting_at(now + period, period, remembers)
        }
    }

    /// Whether a tick is delivered when the timer reports `expired`.
    pub open spec fn ticks(self, expired: Poll<u64>) -> bool {
        self.expirations + reported(expired) != 0
    }

    /// The interval after the timer reported `expired` and a tick was delivered,
    /// if there was one to deliver.
    pub open spec fn polled(self, expired: Poll<u64>) -> IntervalView {
        let total = self.expirations + reported(expired);
        IntervalView {
            expirations: if total != 0 && self.behavior == MissedTickBehavior::Burst {
                (total - 1) as nat
            } else {
                0
            },
            ..self
        }
    }

    /// The interval when, at `now`, its next tick is moved to `deadline`.
    ///
    /// Every tick of the new schedule that is already due is pending, and the
    /// timer is armed with the first one that is not.
    pub open spec fn reset_to(self, deadline: int, now: int) -> IntervalView {
        let due = ticks_due(deadline, self.period, now);
        IntervalView {
            timer: SettingView {
                deadline: deadline + due * self.period,
                interval: Some(self.period),
            },
            expirations: due,
            ..self
        }
    }

    /// The interval when its next tick is moved to a period after `called`.
    pub open spec fn reset(self, called: int, now: int) -> IntervalView {
        self.reset_to(called + self.period, now)
    }

    /// The interval when its next tick is moved to `called`.
    pub open spec fn reset_immediately(self, called: int, now: int) -> IntervalView {
        self.reset_to(called, now)
    }

    /// The interval when its next tick is moved to `after` past `called`.
    pub open spec fn reset_after(self, after: nat, called: int, now: int) -> IntervalView {
        self.reset_to(called + after, now)
    }

    /// Ticks that have come due by `t`, delivered or pending, counted from the
    /// moment at which the timer was last armed.
    pub open spec fn due_by(self, t: int) -> nat {
        self.expirations + self.timer.expirations_by(t)
    }
}

/// An interval whose first tick is at `start`, and then one every `period`.
///
/// `remembers` says whether the timer counts expirations that it was not asked
/// about; only then can missed ticks be delivered one by one.
pub fn interval_at(start: Instant, period: Duration, remembers: bool) -> (interval: Interval)
    requires
        period@ > 0,
    ensures
        interval@ == IntervalView::starting_at(start@, period@, remembers),
{
    Interval {
        timer: Setting::new(start, Some(period)),
        period,
        expirations: 0,
        behavior: if remembers {
            MissedTickBehavior::Burst
        } else {
            MissedTickBehavior::Skip
        },
        remembers,
    }
}

/// An interval whose first tick completes at once, and then one every `period`
/// from `now`.
pub fn interval(period: Duration, remembers: bool, now: Instant) -> (interval: Interval)
    requires
        period@ > 0,
        now@ + period@ <= INSTANT_MAX_NANOS,
    ensures
        interval@ == IntervalView::starting_now(now@, period@, remembers),
{
    let mut interval = interval_at(now.checked_add(period).unwrap(), period, remembers);
    proof {
        use_type_invariant(&interval);
    }
    interval.expirations = 1;
    interval
}

impl Interval {
    /// The period is never zero, and the behavior always one that the timer supports.
    #[verifier::type_invariant]
    pub open spec fn wf(self) -> bool {
        self@.period > 0 && behavior_supported(self@.behavior, self@.remembers)
    }

    /// Takes in what the timer reports and delivers a tick if one is due, with
    /// the reading `now` of the clock.
    pub fn poll_tick(&mut self, expired: Poll<u64>, now: Instant) -> (tick: Poll<Instant>)
        requires
            old(self)@.expirations + reported(expired) <= u64::MAX,
        ensures
            final(self)@ == old(self)@.polled(expired),
            tick == if old(self)@.ticks(expired) {
                Poll::Ready(now)
            } else {
                Poll::Pending
            },
    {
        proof {
            use_type_invariant(&*self);
        }
        match expired {
            Poll::Ready(count) => {
                self.expirations = self.expirations + count;
            },
            Poll::Pending => {},
        }
        if self.expirations != 0 {
            self.expirations = match self.behavior {
                MissedTickBehavior::Burst => self.expirations - 1,
                _ => 0,
            };
            Poll::Ready(now)
        } else {
            Poll::Pending
        }
    }

    /// Whether [`Interval::reset_at`] can be asked for this `deadline` at `now`.
    pub fn can_reset_at(&self, deadline: Instant, now: Instant) -> (can: bool)
        ensures
            can == reset_fits(deadline@, now@, self@.period),
    {
        proof {
            use_type_invariant(self);
        }
        if now.is_before(deadline) {
            return true;
        }
        let past: u128 = now.duration_since(deadline).as_nanos();
        let period: u128 = self.period.as_nanos();
        if past > u64::MAX as u128 || period > u64::MAX as u128 {
            return false;
        }
        proof {
            lemma_next_tick(deadline@, period as nat, now@);
            lemma_fundamental_div_mod(past as int, period as int);
        }
        let due: u128 = past / period + 1;
        let next: i128 = now.as_nanos() - (past % period) as i128 + period as i128;
        due <= u64::MAX as u128 && next <= INSTANT_MAX_NANOS
    }

    /// Moves the next tick to `deadline`; `now` is the reading of the clock.
    ///
    /// Ticks that were pending are discarded. If `deadline` has passed, the ticks
    /// that are due since then are pending instead.
    pub fn reset_at(&mut self, deadline: Instant, now: Instant)
        requires
            reset_fits(deadline@, now@, old(self)@.period),
        ensures
            final(self)@ == old(self)@.reset_to(deadline@, now@),
    {
        proof {
            use_type_invariant(&*self);
            use_type_invariant(&deadline);
        }
        if now.is_before(deadline) {
            self.expirations = 0;
            self.timer = Setting::new(deadline, Some(self.period));
            assert(0 * self@.period == 0) by (nonlinear_arith);
            assert(self@.timer == old(self)@.reset_to(deadline@, now@).timer);
        } else {
            let past: u64 = now.duration_since(deadline).as_nanos() as u64;
            let divider: u64 = self.period.as_nanos() as u64;
            proof {
                lemma_next_tick(deadline@, divider as nat, now@);
            }
            self.expirations = past / divider + 1;
            let late: u64 = past % divider;
            assert(late <= past) by (nonlinear_arith)
                requires
                    late == past % divider,
                    divider > 0,
            ;
            let tick = now.checked_sub(Duration::from_nanos(late)).unwrap();
            let next = tick.checked_add(self.period).unwrap();
            assert(next@ == deadline@ + ticks_due(deadline@, self@.period, now@) * self@.period);
            self.timer = Setting::new(next, Some(self.period));
            assert(self@.timer == old(self)@.reset_to(deadline@, now@).timer);
            assert(self@.expirations == old(self)@.reset_to(deadline@, now@).expirations);
        }
    }

    /// Moves the next tick to a period after `called`, a reading of the clock;
    /// `now` is a later one.
    pub fn reset(&mut self, called: Instant, now: Instant)
        requires
            called@ + old(self)@.period <= INSTANT_MAX_NANOS,
            reset_fits(called@ + old(self)@.period, now@, old(self)@.period),
        ensures
            final(self)@ == old(self)@.reset(called@, now@),
    {
        self.reset_at(called.checked_add(self.period).unwrap(), now)
    }

    /// Moves the next tick to `called`, a reading of the clock; `now` is a later
    /// one.
    pub fn reset_immediately(&mut self, called: Instant, now: Instant)
        requires
            reset_fits(called@, now@, old(self)@.period),
        ensures
            final(self)@ == old(self)@.reset_immediately(called@, now@),
    {
        self.reset_at(called, now)
    }

    /// Moves the next tick to `after` past `called`, a reading of the clock;
    /// `now` is a later one.
    pub fn reset_after(&mut self, after: Duration, called: Instant, now: Instant)
        requires
            called@ + after@ <= INSTANT_MAX_NANOS,
            reset_fits(called@ + after@, now@, old(self)@.period),
        ensures
            final(self)@ == old(self)@.reset_after(after@, called@, now@),
    {
        self.reset_at(called.checked_add(after).unwrap(), now)
    }

    /// What is done about missed ticks.
    pub fn missed_tick_behavior(&self) -> (behavior: MissedTickBehavior)
        ensures
            behavior == self@.behavior,
    {
        self.behavior
    }

    /// Changes what is done about missed ticks.
    pub fn set_missed_tick_behavior(&mut self, behavior: MissedTickBehavior)
        requires
            behavior_supported(behavior, old(self)@.remembers),
        ensures
            final(self)@ == (IntervalView { behavior, ..old(self)@ }),
    {
        proof {
            use_type_invariant(&*self);
        }
        self.behavior = behavior;
    }

    /// Whether [`Interval::set_missed_tick_behavior`] can be asked for `behavior`.
    pub fn supports(&self, behavior: MissedTickBehavior) -> (supported: bool)
        ensures
            supported == behavior_supported(behavior, self@.remembers),
    {
        match behavior {
            MissedTickBehavior::Burst => self.remembers,
            MissedTickBehavior::Delay => false,
            MissedTickBehavior::Skip => true,
        }
    }

    /// The span between ticks.
    pub fn period(&self) -> (period: Duration)
        ensures
            period@ == self@.period,
    {
        self.period
    }

    /// Expirations that no tick has been delivered for yet.
    pub fn expirations(&self) -> (expirations: u64)
        ensures
            expirations == self@.expirations,
    {
        self.expirations
    }

    /// What the timer was last armed with.
    pub fn timer(&self) -> (timer: Setting)
        ensures
            timer@ == self@.timer,
    {
        self.timer
    }
}

/// The first tick after `now` on the schedule that starts at `start`.
proof fn lemma_next_tick(start: int, period: nat, now: int)
    requires
        start <= now,
        0 < period,
    ensures
        start + ticks_due(start, period, now) * period == now - (now - start) % period as int
            + period,
        now < start + ticks_due(start, period, now) * period <= now + period,
        ticks_due(start, period, now) == (now - start) / period as int + 1,
{
    let past = now - start;
    lemma_fundamental_div_mod(past, period as int);
    assert(past / period as int >= 0) by (nonlinear_arith)
        requires
            past >= 0,
            period > 0,
    ;
    assert((past / period as int + 1) * period == period * (past / period as int) + period)
        by (nonlinear_arith);
}

/// The ticks that a run of polls delivers, and what is pending after it.
pub open spec fn run(iv: IntervalView, reports: Seq<Poll<u64>>) -> (nat, IntervalView)
    decreases reports.len(),
{
    if reports.len() == 0 {
        (0, iv)
    } else {
        let (ticks, last) = run(iv, reports.drop_last());
        let ticks = if last.ticks(reports.last()) {
            ticks + 1
        } else {
            ticks
        };
        (ticks, last.polled(reports.last()))
    }
}

/// All expirations that the timer reports in a run of polls.
pub open spec fn total_reported(reports: Seq<Poll<u64>>) -> nat
    decreases reports.len(),
{
    if reports.len() == 0 {
        0
    } else {
        total_reported(reports.drop_last()) + reported(reports.last())
    }
}

/// How many polls of a run find that the timer has expired.
pub open spec fn reports_with_expiration(reports: Seq<Poll<u64>>) -> nat
    decreases reports.len(),
{
    if reports.len() == 0 {
        0
    } else {
        reports_with_expiration(reports.drop_last()) + if reported(reports.last()) != 0 {
            1nat
        } else {
            0
        }
    }
}

/// Under [`MissedTickBehavior::Burst`] no tick is lost and none is made up: over
/// any run of polls, the ticks delivered and those still pending are the ones
/// that were pending before and those that the timer reported.
pub proof fn law_burst_keeps_every_tick(iv: IntervalView, reports: Seq<Poll<u64>>)
    requires
        iv.behavior == MissedTickBehavior::Burst,
    ensures
        run(iv, reports).0 + run(iv, reports).1.expirations == iv.expirations + total_reported(
            reports,
        ),
        run(iv, reports).1 == (IntervalView { expirations: run(iv, reports).1.expirations, ..iv }),
    decreases reports.len(),
{
    if reports.len() != 0 {
        law_burst_keeps_every_tick(iv, reports.drop_last());
    }
}

/// Under [`MissedTickBehavior::Burst`] the ticks follow the schedule: once the timer
/// has reported all its expirations by the instant `t`, the ticks delivered and those
/// still pending are exactly the ones that have come due by `t`.
pub proof fn law_burst_follows_the_schedule(iv: IntervalView, reports: Seq<Poll<u64>>, t: int)
    requires
        iv.behavior == MissedTickBehavior::Burst,
        total_reported(reports) == iv.timer.expirations_by(t),
    ensures
        run(iv, reports).0 + run(iv, reports).1.expirations == iv.due_by(t),
{
    law_burst_keeps_every_tick(iv, reports);
}

/// Under [`MissedTickBehavior::Burst`] an interval catches up as fast as it is
/// polled: of any number of polls that find the timer idle, the first ones deliver
/// the pending ticks, one each, and the others nothing.
pub proof fn law_burst_catches_up(iv: IntervalView, polls: nat)
    requires
        iv.behavior == MissedTickBehavior::Burst,
    ensures
        run(iv, Seq::new(polls, |i: int| Poll::Pending)).0 == if polls < iv.expirations {
            polls
        } else {
            iv.expirations
        },
    decreases polls,
{
    let idle = Seq::new(polls, |i: int| Poll::<u64>::Pending);
    if polls != 0 {
        let fewer = (polls - 1) as nat;
        assert(idle.drop_last() =~= Seq::new(fewer, |i: int| Poll::<u64>::Pending));
        law_burst_catches_up(iv, fewer);
        law_burst_keeps_every_tick(iv, idle.drop_last());
        lemma_idle_reports_nothing(fewer);
    }
}

/// Under [`MissedTickBehavior::Skip`] however many expirations a poll finds, they
/// make one tick: over any run of polls there is one tick for each poll that
/// found the timer expired, and one more at the start if ticks were pending and
/// the first poll found nothing.
pub proof fn law_skip_merges_missed_ticks(iv: IntervalView, reports: Seq<Poll<u64>>)
    requires
        iv.behavior == MissedTickBehavior::Skip,
        reports.len() > 0,
    ensures
        run(iv, reports).0 == reports_with_expiration(reports) + if iv.expirations != 0
            && reported(reports[0]) == 0 {
            1nat
        } else {
            0
        },
        run(iv, reports).1 == (IntervalView { expirations: 0, ..iv }),
    decreases reports.len(),
{
    reveal_with_fuel(run, 2);
    reveal_with_fuel(reports_with_expiration, 2);
    if reports.len() > 1 {
        law_skip_merges_missed_ticks(iv, reports.drop_last());
    }
}

/// A poll that delivers no tick consumes none: the interval stays as it is.
pub proof fn law_idle_poll_changes_nothing(iv: IntervalView, expired: Poll<u64>)
    requires
        !iv.ticks(expired),
    ensures
        iv.polled(expired) == iv,
{
}

/// The first tick of [`interval`] completes at once, whatever the timer says.
pub proof fn law_first_tick_is_immediate(
    now: int,
    period: nat,
    remembers: bool,
    expired: Poll<u64>,
)
    ensures
        IntervalView::starting_now(now, period, remembers).ticks(expired),
{
}

/// [`interval`] keeps the schedule of [`interval_at`] started at the same
/// instant: from then on the same number of ticks has come due at every instant.
pub proof fn law_interval_starts_now(now: int, period: nat, remembers: bool, t: int)
    requires
        period > 0,
        now <= t,
    ensures
        IntervalView::starting_now(now, period, remembers).due_by(t)
            == IntervalView::starting_at(now, period, remembers).due_by(t),
{
    lemma_next_tick(now, period, now);
    assert(0int / period as int == 0) by (nonlinear_arith)
        requires
            period > 0,
    ;
    if now + period <= t {
        lemma_ticks_from_later(now, period, 1, t);
    } else {
        lemma_same_tick(now, period, now, t);
    }
}

/// A reset loses no tick of the new schedule and adds none: at every later
/// instant exactly the ticks at `deadline`, `deadline + period`, ... have come
/// due, whether `deadline` lay ahead or in the past.
pub proof fn law_reset_keeps_the_schedule(iv: IntervalView, deadline: int, now: int, t: int)
    requires
        iv.period > 0,
        now <= t,
    ensures
        iv.reset_to(deadline, now).due_by(t) == ticks_due(deadline, iv.period, t),
{
    if now < deadline {
        assert(deadline + 0 * iv.period == deadline);
    } else {
        lemma_next_tick(deadline, iv.period, now);
        if t < deadline + ticks_due(deadline, iv.period, now) * iv.period {
            lemma_same_tick(deadline, iv.period, now, t);
        } else {
            lemma_ticks_from_later(deadline, iv.period, ticks_due(deadline, iv.period, now), t);
        }
    }
}

/// The resets agree: at the same readings of the clock, each is a reset to the instant
/// that it names, one by the period is a plain reset, and one by nothing an immediate
/// reset.
pub proof fn law_resets_agree(iv: IntervalView, after: nat, called: int, now: int)
    ensures
        iv.reset_after(after, called, now) == iv.reset_to(called + after, now),
        iv.reset_after(iv.period, called, now) == iv.reset(called, now),
        iv.reset_after(0, called, now) == iv.reset_immediately(called, now),
        iv.reset(called, now) == iv.reset_to(called + iv.period, now),
        iv.reset_immediately(called, now) == iv.reset_to(called, now),
{
}

/// A reset discards missed ticks: what was pending before makes no difference.
pub proof fn law_reset_discards_pending(
    iv: IntervalView,
    pending: nat,
    deadline: int,
    now: int,
)
    ensures
        (IntervalView { expirations: pending, ..iv }).reset_to(deadline, now) == iv.reset_to(
            deadline,
            now,
        ),
{
}

/// After a reset to an instant that lies ahead, the timer is armed with exactly
/// that instant and nothing is delivered before it expires.
pub proof fn law_reset_ahead_waits(iv: IntervalView, deadline: int, now: int)
    requires
        now < deadline,
    ensures
        iv.reset_to(deadline, now).timer.deadline == deadline,
        !iv.reset_to(deadline, now).ticks(Poll::Pending),
        iv.reset_to(deadline, now).due_by(now) == 0,
{
    assert(0 * iv.period == 0);
}

/// After a reset to an instant that has come, a tick is delivered at once, and
/// the timer is armed with the next tick of the schedule: after `now`, at most a
/// period away, and a whole number of periods after `deadline`.
pub proof fn law_reset_behind_ticks_at_once(
    iv: IntervalView,
    deadline: int,
    now: int,
    expired: Poll<u64>,
)
    requires
        iv.period > 0,
        deadline <= now,
    ensures
        iv.reset_to(deadline, now).ticks(expired),
        now < iv.reset_to(deadline, now).timer.deadline <= now + iv.period,
        (iv.reset_to(deadline, now).timer.deadline - deadline) % iv.period as int == 0,
{
    lemma_next_tick(deadline, iv.period, now);
    lemma_mod_multiples_basic(
        ticks_due(deadline, iv.period, now) as int,
        iv.period as int,
    );
}

/// Skipping the first `skipped` ticks of a schedule and counting the rest.
proof fn lemma_ticks_from_later(start: int, period: nat, skipped: nat, t: int)
    requires
        period > 0,
        start + skipped * period <= t,
    ensures
        ticks_due(start, period, t) == skipped + ticks_due(start + skipped * period, period, t),
{
    let q = (t - start) / period as int;
    lemma_fundamental_div_mod(t - start, period as int);
    let r = (t - start) % period as int;
    assert(t - (start + skipped * period) == (q - skipped) * period + r) by (nonlinear_arith)
        requires
            t - start == period * q + r,
    ;
    lemma_fundamental_div_mod_converse(
        t - (start + skipped * period),
        period as int,
        q - skipped,
        r,
    );
}

/// Up to the next tick the number of ticks due stays the same.
proof fn lemma_same_tick(start: int, period: nat, now: int, t: int)
    requires
        period > 0,
        start <= now <= t < start + ticks_due(start, period, now) * period,
    ensures
        ticks_due(start, period, t) == ticks_due(start, period, now),
{
    let q = (now - start) / period as int;
    lemma_next_tick(start, period, now);
    lemma_fundamental_div_mod(now - start, period as int);
    let r = t - start - q * period;
    assert(0 <= r < period) by (nonlinear_arith)
        requires
            now - start == period * q + (now - start) % period as int,
            (now - start) % period as int >= 0,
            now <= t < start + (q + 1) * period,
            r == t - start - q * period,
    ;
    lemma_fundamental_div_mod_converse(t - start, period as int, q, r);
}

/// Polls that find nothing report nothing.
proof fn lemma_idle_reports_nothing(polls: nat)
    ensures
        total_reported(Seq::new(polls, |i: int| Poll::Pending)) == 0,
    decreases polls,
{
    let idle = Seq::new(polls, |i: int| Poll::<u64>::Pending);
    if polls != 0 {
        let fewer = (polls - 1) as nat;
        assert(idle.drop_last() =~= Seq::new(fewer, |i: int| Poll::<u64>::Pending));
        lemma_idle_reports_nothing(fewer);
    }
}

/// The ticks due by `t` are counted right: tick number `k` of the schedule, counted from
/// zero, is among them exactly if `t` has reached the instant `k` periods after the start.
pub proof fn law_ticks_due_counts_the_schedule(start: int, period: nat, t: int, k: nat)
    requires
        period > 0,
    ensures
        k < ticks_due(start, period, t) <==> start + k * period <= t,
{
    if t < start {
        assert(k * period >= 0) by (nonlinear_arith);
    } else {
        lemma_whole_spans(t - start, period, k);
    }
}

/// An interval started at an instant ticks then and every period after it: its timer is
/// armed with just that, nothing is pending, and its tick number `k`, counted from zero,
/// has come due exactly from the instant on that lies `k` periods after the start. It
/// delivers missed ticks one by one exactly if its timer counts them.
pub proof fn law_interval_at_ticks_from_its_start(
    start: int,
    period: nat,
    remembers: bool,
    t: int,
    k: nat,
)
    requires
        period > 0,
    ensures
        IntervalView::starting_at(start, period, remembers).timer.deadline == start,
        IntervalView::starting_at(start, period, remembers).timer.interval == Some(period),
        IntervalView::starting_at(start, period, remembers).expirations == 0,
        IntervalView::starting_at(start, period, remembers).period == period,
        IntervalView::starting_at(start, period, remembers).remembers == remembers,
        IntervalView::starting_at(start, period, remembers).behavior
            == MissedTickBehavior::Burst <==> remembers,
        IntervalView::starting_at(start, period, remembers).behavior == MissedTickBehavior::Skip
            <==> !remembers,
        k < IntervalView::starting_at(start, period, remembers).due_by(t) <==> start + k * period
            <= t,
        IntervalView::starting_at(start, period, remembers).due_by(t) == ticks_due(
            start,
            period,
            t,
        ),
{
    law_ticks_due_counts_the_schedule(start, period, t, k);
}

/// An interval ticks when it is made and every period after that: one tick is pending,
/// its timer is armed with the second, and its tick number `k`, counted from zero, has
/// come due exactly from the instant on that lies `k` periods after `now`.
pub proof fn law_interval_ticks_from_now(
    now: int,
    period: nat,
    remembers: bool,
    t: int,
    k: nat,
)
    requires
        period > 0,
        now <= t,
    ensures
        IntervalView::starting_now(now, period, remembers).timer.deadline == now + period,
        IntervalView::starting_now(now, period, remembers).timer.interval == Some(period),
        IntervalView::starting_now(now, period, remembers).expirations == 1,
        IntervalView::starting_now(now, period, remembers).period == period,
        IntervalView::starting_now(now, period, remembers).remembers == remembers,
        IntervalView::starting_now(now, period, remembers).behavior
            == MissedTickBehavior::Burst <==> remembers,
        IntervalView::starting_now(now, period, remembers).behavior == MissedTickBehavior::Skip
            <==> !remembers,
        k < IntervalView::starting_now(now, period, remembers).due_by(t) <==> now + k * period
            <= t,
        IntervalView::starting_now(now, period, remembers).due_by(t) == ticks_due(
            now,
            period,
            t,
        ),
{
    law_interval_starts_now(now, period, remembers, t);
    law_interval_at_ticks_from_its_start(now, period, remembers, t, k);
}

/// Every expiration that the timer reports counts once: with `pending` ticks before and
/// `n` expirations reported, a tick is delivered exactly if there is one, and then, under
/// [`MissedTickBehavior::Burst`], all but that one are pending, and otherwise none. A
/// poll changes nothing else.
pub proof fn law_each_reported_expiration_counts_once(iv: IntervalView, n: u64)
    ensures
        reported(Poll::Ready(n)) == n,
        reported(Poll::Pending) == 0,
        iv.ticks(Poll::Ready(n)) <==> iv.expirations + n > 0,
        iv.ticks(Poll::Pending) <==> iv.expirations > 0,
        iv.behavior == MissedTickBehavior::Burst && iv.expirations + n > 0 ==> iv.polled(
            Poll::Ready(n),
        ).expirations + 1 == iv.expirations + n,
        iv.behavior == MissedTickBehavior::Burst && iv.expirations > 0 ==> iv.polled(
            Poll::Pending,
        ).expirations + 1 == iv.expirations,
        iv.expirations + n == 0 ==> iv.polled(Poll::Ready(n)).expirations == 0,
        iv.expirations == 0 ==> iv.polled(Poll::Pending).expirations == 0,
        iv.behavior != MissedTickBehavior::Burst ==> iv.polled(Poll::Ready(n)).expirations == 0,
        iv.behavior != MissedTickBehavior::Burst ==> iv.polled(Poll::Pending).expirations == 0,
        forall|expired: Poll<u64>|
            {
                let after = #[trigger] iv.polled(expired);
                &&& after.timer == iv.timer
                &&& after.period == iv.period
                &&& after.behavior == iv.behavior
                &&& after.remembers == iv.remembers
            },
{
}

/// After a reset, the pending ticks are those of the new schedule that the clock has
/// reached, and the timer is armed with the first one that it has not: with `due` ticks
/// pending, the clock lies between the last of them and the next. A reset changes
/// nothing else.
pub proof fn law_reset_arms_the_next_tick(iv: IntervalView, deadline: int, now: int)
    requires
        iv.period > 0,
    ensures
        ({
            let after = iv.reset_to(deadline, now);
            let due = after.expirations;
            &&& now < deadline ==> due == 0
            &&& deadline <= now ==> due >= 1 && deadline + (due - 1) * iv.period <= now
            &&& now < deadline + due * iv.period
            &&& after.timer.deadline == deadline + due * iv.period
            &&& after.timer.interval == Some(iv.period)
            &&& after.period == iv.period
            &&& after.behavior == iv.behavior
            &&& after.remembers == iv.remembers
        }),
{
    let due = iv.reset_to(deadline, now).expirations;
    law_ticks_due_counts_the_schedule(deadline, iv.period, now, due);
    if deadline <= now {
        law_ticks_due_counts_the_schedule(deadline, iv.period, now, 0);
        law_ticks_due_counts_the_schedule(deadline, iv.period, now, (due - 1) as nat);
    }
}

/// A reset can be asked for whenever the numbers it works out fit: always, if the new
/// deadline lies ahead; else, with `k` ticks due and the next one at `next`, exactly if
/// the time passed, the period and `k` fit `u64`, and `next` is an instant.
pub proof fn law_reset_needs_room(deadline: int, now: int, period: nat, k: nat, next: int)
    requires
        period > 0,
    ensures
        now < deadline ==> reset_fits(deadline, now, period),
        deadline <= now && next == deadline + k * period && now < next <= now + period ==> (
        reset_fits(deadline, now, period) <==> now - deadline <= u64::MAX && period <= u64::MAX
            && k <= u64::MAX && next <= INSTANT_MAX_NANOS),
{
    if deadline <= now && next == deadline + k * period && now < next <= now + period {
        let due = ticks_due(deadline, period, now);
        lemma_next_tick(deadline, period, now);
        law_ticks_due_counts_the_schedule(deadline, period, now, k);
        assert(k > 0) by (nonlinear_arith)
            requires
                deadline <= now < deadline + k * period,
        ;
        assert((k - 1) * period == k * period - period) by (nonlinear_arith);
        law_ticks_due_counts_the_schedule(deadline, period, now, (k - 1) as nat);
        assert(due == k);
    }
}

/// Skipping missed ticks is always possible; delivering them one by one exactly if the
/// timer counts them; and starting a new period at a late tick never.
pub proof fn law_which_behaviors_are_supported(remembers: bool)
    ensures
        behavior_supported(MissedTickBehavior::Skip, remembers),
        behavior_supported(MissedTickBehavior::Burst, remembers) <==> remembers,
        !behavior_supported(MissedTickBehavior::Delay, remembers),
{
}

} // verus!
