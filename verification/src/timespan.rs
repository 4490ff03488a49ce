//! Spans of time, counted in nanoseconds, as the progress messages carry them.

use vstd::prelude::*;

verus! {

/// The longest span: `u64::MAX` seconds and 999 999 999 nanoseconds (the
/// range of `std::time::Duration`).
pub open spec fn max_span_nanos() -> nat {
    18446744073709551615nat * 1000000000nat + 999999999nat
}

/// A span of time with nanosecond resolution, in the range of
/// `std::time::Duration`.
#[derive(Debug, Clone, Copy, PartialEq, Eq)]
pub struct TimeSpan {
    nanos: u128,
}

impl View for TimeSpan {
    type V = nat;

    closed spec fn view(&self) -> nat {
        self.nanos as nat
    }
}

impl TimeSpan {
    #[verifier::type_invariant]
    closed spec fn wf(self) -> bool {
        self.nanos <= max_span_nanos()
    }

    /// The empty span.
    pub fn zero() -> (r: TimeSpan)
        ensures
            r@ == 0,
    {
        TimeSpan { nanos: 0 }
    }

    /// A span of whole seconds.
    pub fn from_secs(secs: u64) -> (r: TimeSpan)
        ensures
            r@ == secs * 1000000000,
    {
        TimeSpan { nanos: (secs as u128) * 1000000000 }
    }

    /// A span of whole milliseconds.
    pub fn from_millis(millis: u64) -> (r: TimeSpan)
        ensures
            r@ == millis * 1000000,
    {
        TimeSpan { nanos: (millis as u128) * 1000000 }
    }

    /// A span of nanoseconds.
    pub fn from_nanos(nanos: u64) -> (r: TimeSpan)
        ensures
            r@ == nanos,
    {
        TimeSpan { nanos: nanos as u128 }
    }

    /// A span of whole seconds plus a fraction of a second in nanoseconds
    /// (the parts of a `Duration`).
    pub fn from_secs_nanos(secs: u64, subsec_nanos: u32) -> (r: TimeSpan)
        requires
            subsec_nanos < 1000000000,
        ensures
            r@ == secs * 1000000000 + subsec_nanos,
    {
        TimeSpan { nanos: (secs as u128) * 1000000000 + (subsec_nanos as u128) }
    }

    /// A span of nanoseconds given as a wide integer.
    pub fn from_nanos_wide(nanos: u128) -> (r: TimeSpan)
        requires
            nanos <= max_span_nanos(),
        ensures
            r@ == nanos,
    {
        TimeSpan { nanos }
    }

    /// The span in nanoseconds.
    pub fn as_nanos(&self) -> (r: u128)
        ensures
            r == self@,
            r <= max_span_nanos(),
    {
        proof { use_type_invariant(self); }
        self.nanos
    }

    /// The whole seconds of the span.
    pub fn as_secs(&self) -> (r: u64)
        ensures
            r == self@ / 1000000000,
    {
        proof { use_type_invariant(self); }
        (self.nanos / 1000000000) as u64
    }

    /// The nanoseconds beyond the whole seconds.
    pub fn subsec_nanos(&self) -> (r: u32)
        ensures
            r == self@ % 1000000000,
    {
        (self.nanos % 1000000000) as u32
    }

    /// Whether the span is empty.
    pub fn is_zero(&self) -> (r: bool)
        ensures
            r == (self@ == 0),
    {
        self.nanos == 0
    }

    /// The sum of two spans, or `None` when it leaves the range of `Duration`.
    pub fn checked_add(&self, other: &TimeSpan) -> (r: Option<TimeSpan>)
        ensures
            self@ + other@ <= max_span_nanos() ==> (r matches Some(s) && s@ == self@ + other@),
            self@ + other@ > max_span_nanos() ==> r is None,
    {
        proof {
            use_type_invariant(self);
            use_type_invariant(other);
        }
        let sum = self.nanos + other.nanos;
        if sum > 18446744073709551615u128 * 1000000000 + 999999999 {
            None
        } else {
            Some(TimeSpan { nanos: sum })
        }
    }
}

} // verus!
