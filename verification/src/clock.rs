use vstd::prelude::*;
use crate::span::Span;

verus! {

/// The time from `prior` to `now`, never negative.
pub open spec fn elapsed(prior: nat, now: nat) -> nat {
    if now >= prior {
        (now - prior) as nat
    } else {
        0
    }
}

/// Turns successive readings of a monotonic clock into elapsed spans.
///
/// A reading is the time since the clock's origin. A reading that lies before
/// the previous one counts as no time passed.
#[derive(Clone, Copy, Debug)]
pub struct ClockSource {
    prior: Span,
}

impl ClockSource {
    /// The reading that the next sample is measured from.
    pub closed spec fn prior(self) -> Span {
        self.prior
    }

    /// A clock whose first sample is measured from `now`.
    pub fn starting_at(now: Span) -> (c: ClockSource)
        ensures
            c.prior() == now,
    {
        ClockSource { prior: now }
    }

    /// The reading that the next sample is measured from.
    pub fn last_reading(&self) -> (r: Span)
        ensures
            r == self.prior(),
    {
        self.prior
    }

    /// The time from the reading `prior` to the reading `now`, clamped at zero.
    pub fn elapsed_since(prior: Span, now: Span) -> (dt: Span)
        ensures
            dt@ == elapsed(prior@, now@),
    {
        now.saturating_sub(prior)
    }

    /// Takes the reading `now`: returns the time since the previous reading
    /// and measures the next sample from `now`.
    pub fn sample(&mut self, now: Span) -> (dt: Span)
        ensures
            dt@ == elapsed(old(self).prior()@, now@),
            final(self).prior() == now,
    {
        let dt = ClockSource::elapsed_since(self.prior, now);
        self.prior = now;
        dt
    }
}

} // verus!
