//! What an operating-system timer is asked to do.
use vstd::prelude::*;

use crate::time::{Duration, Instant};

verus! {

/// A request to a timer: expire at `deadline` and, if there is an `interval`,
/// again each time that much has passed.
#[derive(Debug, Clone, Copy, PartialEq, Eq)]
pub struct Setting {
    deadline: Instant,
    interval: Option<Duration>,
}

/// The view of a [`Setting`], in nanoseconds.
pub struct SettingView {
    pub deadline: int,
    pub interval: Option<nat>,
}

/// The view of an optional span.
pub open spec fn span_view(span: Option<Duration>) -> Option<nat> {
    match span {
        Some(d) => Some(d@),
        None => None,
    }
}

/// The length of an optional span; without one it is empty.
pub open spec fn span_or_zero(span: Option<Duration>) -> nat {
    match span {
        Some(d) => d@,
        None => 0,
    }
}

/// The first expiration of a timer: at `deadline`, or, without one, an interval
/// after `now`.
pub open spec fn first_expiration(
    deadline: Option<Instant>,
    interval: Option<Duration>,
    now: int,
) -> int {
    match deadline {
        Some(deadline) => deadline@,
        None => now + span_or_zero(interval),
    }
}

impl View for Setting {
    type V = SettingView;

    closed spec fn view(&self) -> SettingView {
        SettingView { deadline: self.deadline@, interval: span_view(self.interval) }
    }
}

impl SettingView {
    /// How often a timer armed this way has expired by the instant `t`.
    pub open spec fn expirations_by(self, t: int) -> nat {
        if t < self.deadline {
            0
        } else {
            match self.interval {
                Some(period) => if period == 0 {
                    1
                } else {
                    ((t - self.deadline) / period as int + 1) as nat
                },
                None => 1,
            }
        }
    }
}

impl Setting {
    /// A timer that expires at `deadline` and then every `interval`, if any.
    pub fn new(deadline: Instant, interval: Option<Duration>) -> (setting: Setting)
        ensures
            setting@ == (SettingView { deadline: deadline@, interval: span_view(interval) }),
    {
        Setting { deadline, interval }
    }

    /// The first expiration.
    pub fn deadline(&self) -> (deadline: Instant)
        ensures
            deadline@ == self@.deadline,
    {
        self.deadline
    }

    /// The span between later expirations; `None` for a timer that expires once.
    pub fn interval(&self) -> (interval: Option<Duration>)
        ensures
            span_view(interval) == self@.interval,
    {
        self.interval
    }
}

/// Spans keep their length, and a missing one counts as empty.
pub proof fn law_spans_keep_their_length(span: Duration)
    ensures
        span_view(Some(span)) == Some(span@),
        span_view(None) is None,
        span_or_zero(Some(span)) == span@,
        span_or_zero(None) == 0,
{
}

/// A timer with a deadline first expires at it, whatever the clock shows; one without
/// first expires when its interval has passed, which takes no time if it has none.
pub proof fn law_first_expiration(deadline: Instant, interval: Option<Duration>, now: int)
    ensures
        first_expiration(Some(deadline), interval, now) == deadline@,
        interval matches Some(span) ==> first_expiration(None, interval, now) - now == span@,
        interval is None ==> first_expiration(None, interval, now) == now,
{
}

/// A timer expires at its deadline and again each time its interval has passed: its
/// expiration number `k`, counted from zero, has come exactly from the instant on that
/// lies `k` intervals after the deadline. One without an interval expires once.
pub proof fn law_expirations_follow_the_setting(deadline: int, interval: nat, t: int, k: nat)
    ensures
        interval > 0 ==> (k < (SettingView { deadline, interval: Some(interval) }).expirations_by(t)
            <==> deadline + k * interval <= t),
        k < (SettingView { deadline, interval: None }).expirations_by(t) <==> k == 0 && deadline
            <= t,
        k < (SettingView { deadline, interval: Some(0) }).expirations_by(t) <==> k == 0
            && deadline <= t,
{
    if interval > 0 {
        if t < deadline {
            assert(k * interval >= 0) by (nonlinear_arith);
        } else {
            lemma_whole_spans(t - deadline, interval, k);
        }
    }
}

/// So many whole spans have passed.
pub proof fn lemma_whole_spans(past: int, span: nat, k: nat)
    requires
        past >= 0,
        span > 0,
    ensures
        past / span as int >= 0,
        k < past / span as int + 1 <==> k * span <= past,
{
    let q = past / span as int;
    vstd::arithmetic::div_mod::lemma_fundamental_div_mod(past, span as int);
    assert(q >= 0) by (nonlinear_arith)
        requires
            past >= 0,
            span > 0,
            q == past / span as int,
    ;
    assert(k <= q <==> k * span <= past) by (nonlinear_arith)
        requires
            past == span * q + past % (span as int),
            0 <= past % (span as int) < span,
    ;
}

} // verus!
