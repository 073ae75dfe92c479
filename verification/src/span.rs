use vstd::prelude::*;

verus! {

/// Nanoseconds in one second.
pub const NANOS_PER_SEC: u32 = 1_000_000_000;

/// The longest time a `Span` can hold, in nanoseconds.
pub open spec fn max_span_nanos() -> nat {
    u64::MAX as nat * 1_000_000_000 + 999_999_999
}

/// A non-negative length of time: whole seconds and a sub-second part in
/// nanoseconds that always stays below one second.
#[derive(Clone, Copy, Debug, PartialEq, Eq, Structural)]
pub struct Span {
    secs: u64,
    nanos: u32,
}

impl View for Span {
    type V = nat;

    /// The whole length in nanoseconds.
    closed spec fn view(&self) -> nat {
        self.secs as nat * 1_000_000_000 + self.nanos as nat
    }
}

impl Span {
    #[verifier::type_invariant]
    spec fn normalized(self) -> bool {
        self.nanos < NANOS_PER_SEC
    }

    /// The empty span.
    pub fn zero() -> (r: Span)
        ensures
            r@ == 0,
    {
        Span { secs: 0, nanos: 0 }
    }

    /// Builds a span from seconds and nanoseconds, carrying whole seconds out
    /// of `nanos`. Fails only when the seconds no longer fit.
    pub fn new(secs: u64, nanos: u32) -> (r: Option<Span>)
        ensures
            r.is_some() <==> secs as nat * 1_000_000_000 + nanos as nat <= max_span_nanos(),
            r matches Some(s) ==> s@ == secs as nat * 1_000_000_000 + nanos as nat,
    {
        let carry: u32 = nanos / NANOS_PER_SEC;
        let rest: u32 = nanos % NANOS_PER_SEC;
        match secs.checked_add(carry as u64) {
            Some(total) => Some(Span { secs: total, nanos: rest }),
            None => None,
        }
    }

    /// Builds a span from a count of nanoseconds.
    pub fn from_nanos(total: u128) -> (r: Option<Span>)
        ensures
            r.is_some() <==> total <= max_span_nanos(),
            r matches Some(s) ==> s@ == total,
    {
        let secs: u128 = total / 1_000_000_000u128;
        let rest: u128 = total % 1_000_000_000u128;
        if secs <= u64::MAX as u128 {
            Some(Span { secs: secs as u64, nanos: rest as u32 })
        } else {
            None
        }
    }

    /// Builds a span from a count of nanoseconds that is known to fit.
    pub(crate) fn from_bounded_nanos(total: u128) -> (r: Span)
        requires
            total <= max_span_nanos(),
        ensures
            r@ == total,
    {
        let secs: u128 = total / 1_000_000_000u128;
        let rest: u128 = total % 1_000_000_000u128;
        Span { secs: secs as u64, nanos: rest as u32 }
    }

    /// The whole length in nanoseconds.
    pub fn as_nanos(self) -> (n: u128)
        ensures
            n == self@,
            n <= max_span_nanos(),
    {
        proof {
            use_type_invariant(self);
        }
        self.secs as u128 * 1_000_000_000u128 + self.nanos as u128
    }

    /// The whole seconds of the span.
    pub fn as_secs(self) -> (s: u64)
        ensures
            s == self@ / 1_000_000_000,
    {
        proof {
            use_type_invariant(self);
        }
        self.secs
    }

    /// What is left of the span below its whole seconds, in nanoseconds.
    pub fn subsec_nanos(self) -> (n: u32)
        ensures
            n == self@ % 1_000_000_000,
            n < NANOS_PER_SEC,
    {
        proof {
            use_type_invariant(self);
        }
        self.nanos
    }

    /// Whether this span is strictly shorter than `other`.
    pub fn less_than(self, other: Span) -> (b: bool)
        ensures
            b == (self@ < other@),
    {
        proof {
            use_type_invariant(self);
            use_type_invariant(other);
        }
        self.secs < other.secs || (self.secs == other.secs && self.nanos < other.nanos)
    }

    /// The time by which this span exceeds `other`, or nothing when it does
    /// not exceed it.
    pub fn saturating_sub(self, other: Span) -> (r: Span)
        ensures
            r@ == if self@ >= other@ { self@ - other@ } else { 0 },
    {
        proof {
            use_type_invariant(self);
            use_type_invariant(other);
        }
        if self.less_than(other) {
            Span::zero()
        } else if self.nanos >= other.nanos {
            Span { secs: self.secs - other.secs, nanos: self.nanos - other.nanos }
        } else {
            Span {
                secs: self.secs - other.secs - 1,
                nanos: self.nanos + NANOS_PER_SEC - other.nanos,
            }
        }
    }
}

} // verus!
