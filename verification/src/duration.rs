//! Spans of time.

use vstd::prelude::*;

verus! {

/// Nanoseconds in a second.
pub const NANOS_PER_SEC: u128 = 1_000_000_000;

/// The longest span in nanoseconds: one nanosecond short of 2^64 seconds.
pub const MAX_NANOS: u128 = 18_446_744_073_709_551_615_999_999_999;

/// A span of time with the range and the resolution of `std::time::Duration`.
#[derive(Clone, Copy, Debug, PartialEq, Eq)]
pub struct Duration {
    nanos: u128,
}

/// A span is seen as its length in nanoseconds.
impl View for Duration {
    type V = nat;

    closed spec fn view(&self) -> nat {
        self.nanos as nat
    }
}

impl Duration {
    #[verifier::type_invariant]
    spec fn in_range(self) -> bool {
        self.nanos <= MAX_NANOS
    }

    /// The span of `secs` whole seconds and `subsec_nanos` nanoseconds.
    pub fn new(secs: u64, subsec_nanos: u32) -> (d: Duration)
        requires
            subsec_nanos < NANOS_PER_SEC,
        ensures
            d@ == secs * NANOS_PER_SEC + subsec_nanos,
    {
        Duration { nanos: secs as u128 * NANOS_PER_SEC + subsec_nanos as u128 }
    }

    /// The span of `secs` whole seconds.
    pub fn from_secs(secs: u64) -> (d: Duration)
        ensures
            d@ == secs * NANOS_PER_SEC,
    {
        Duration::new(secs, 0)
    }

    /// The length of the span in nanoseconds.
    pub fn as_nanos(&self) -> (n: u128)
        ensures
            n == self@,
            n <= MAX_NANOS,
    {
        proof {
            use_type_invariant(self);
        }
        self.nanos
    }

    /// The whole seconds of the span.
    pub fn as_secs(&self) -> (secs: u64)
        ensures
            secs == self@ / NANOS_PER_SEC as nat,
    {
        proof {
            use_type_invariant(self);
        }
        (self.nanos / NANOS_PER_SEC) as u64
    }

    /// The nanoseconds of the span past its whole seconds.
    pub fn subsec_nanos(&self) -> (nanos: u32)
        ensures
            nanos == self@ % NANOS_PER_SEC as nat,
    {
        (self.nanos % NANOS_PER_SEC) as u32
    }

    /// Whether `factor` repetitions of the span are still a span.
    pub open spec fn repeats(self, factor: u32) -> bool {
        self@ * factor <= MAX_NANOS
    }

    /// Whether `factor` repetitions of the span are still a span.
    pub fn can_repeat(&self, factor: u32) -> (fits: bool)
        ensures
            fits == self.repeats(factor),
            fits == (self@ * factor <= MAX_NANOS),
    {
        proof {
            use_type_invariant(self);
            assert(self.nanos * factor <= MAX_NANOS * 0xffff_ffff) by (nonlinear_arith)
                requires
                    self.nanos <= MAX_NANOS,
                    0 <= factor <= 0xffff_ffff,
            ;
        }
        self.nanos * factor as u128 <= MAX_NANOS
    }

    /// `factor` repetitions of the span; see `repeated_length`.
    pub closed spec fn repeated(self, factor: u32) -> Duration {
        Duration { nanos: (self.nanos * factor) as u128 }
    }

    /// `factor` repetitions of the span.
    pub fn repeat(self, factor: u32) -> (d: Duration)
        requires
            self.repeats(factor),
        ensures
            d == self.repeated(factor),
            d@ == self@ * factor,
    {
        Duration { nanos: self.nanos * factor as u128 }
    }
}

/// The longest span is that of the largest number of seconds and the largest
/// number of nanoseconds past them.
pub proof fn the_longest_span()
    ensures
        NANOS_PER_SEC == 1_000_000_000,
        MAX_NANOS == 0xffff_ffff_ffff_ffff * 1_000_000_000 + 999_999_999,
{
}

/// Whether a span can be repeated is a matter of the length that results.
pub proof fn repeats_up_to_the_longest_span(d: Duration, factor: u32)
    ensures
        d.repeats(factor) <==> d@ * factor <= MAX_NANOS,
{
}

/// The length of `factor` repetitions of a span is `factor` times its length.
pub proof fn repeated_length(d: Duration, factor: u32)
    requires
        d.repeats(factor),
    ensures
        d.repeated(factor)@ == d@ * factor,
{
}

/// Spans of one length are one span.
pub proof fn same_length_same_span(a: Duration, b: Duration)
    requires
        a@ == b@,
    ensures
        a == b,
{
}

} // verus!
