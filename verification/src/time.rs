use vstd::prelude::*;

verus! {

/// Nanoseconds in one second.
pub const NANOS_PER_SEC: u128 = 1_000_000_000;

/// The largest span a `Duration` can hold: `u64::MAX` seconds plus
/// 999 999 999 nanoseconds.
pub const MAX_NANOS: u128 = 18_446_744_073_709_551_615_999_999_999;

/// A span of time with nanosecond resolution, held as a plain count of
/// nanoseconds that never exceeds [`MAX_NANOS`].
#[derive(Clone, Copy, Debug, PartialEq, Eq, Structural, PartialOrd, Ord, Hash)]
pub struct Duration {
    nanos: u128,
}

impl View for Duration {
    type V = nat;

    /// The span in nanoseconds.
    closed spec fn view(&self) -> nat {
        self.nanos as nat
    }
}

impl Duration {
    #[verifier::type_invariant]
    closed spec fn bounded(self) -> bool {
        self.nanos <= MAX_NANOS
    }

    /// Two spans are the same value exactly when they hold the same number
    /// of nanoseconds.
    pub proof fn lemma_view_determines(a: Duration, b: Duration)
        requires
            a@ == b@,
        ensures
            a == b,
    {
    }

    /// The span holding `n` nanoseconds; it is a valid span when `n` is at
    /// most [`MAX_NANOS`].
    pub closed spec fn of_nanos(n: nat) -> Duration {
        Duration { nanos: n as u128 }
    }

    /// A span built from a nanosecond count within range holds exactly that
    /// count.
    pub broadcast proof fn lemma_of_nanos(n: nat)
        requires
            n <= MAX_NANOS,
        ensures
            #[trigger] Duration::of_nanos(n)@ == n,
    {
    }

    /// Every span is the span built from its own nanosecond count.
    pub proof fn lemma_of_view(d: Duration)
        ensures
            d == Duration::of_nanos(d@),
    {
    }

    /// The empty span.
    pub fn zero() -> (d: Duration)
        ensures
            d@ == 0,
            d == Duration::of_nanos(0),
    {
        Duration { nanos: 0 }
    }

    /// A span of `nanos` nanoseconds.
    pub fn from_nanos(nanos: u64) -> (d: Duration)
        ensures
            d@ == nanos,
    {
        Duration { nanos: nanos as u128 }
    }

    /// A span of `micros` microseconds.
    pub fn from_micros(micros: u64) -> (d: Duration)
        ensures
            d@ == micros * 1000,
            d == Duration::of_nanos((micros * 1000) as nat),
    {
        Duration { nanos: micros as u128 * 1000 }
    }

    /// A span of `millis` milliseconds.
    pub fn from_millis(millis: u64) -> (d: Duration)
        ensures
            d@ == millis * 1_000_000,
    {
        Duration { nanos: millis as u128 * 1_000_000 }
    }

    /// A span of `secs` seconds.
    pub fn from_secs(secs: u64) -> (d: Duration)
        ensures
            d@ == secs * 1_000_000_000,
    {
        Duration { nanos: secs as u128 * NANOS_PER_SEC }
    }

    /// A span of `secs` seconds and `subsec_nanos` nanoseconds.
    pub fn from_secs_nanos(secs: u64, subsec_nanos: u32) -> (d: Duration)
        requires
            subsec_nanos < NANOS_PER_SEC,
        ensures
            d@ == secs * 1_000_000_000 + subsec_nanos,
    {
        Duration { nanos: secs as u128 * NANOS_PER_SEC + subsec_nanos as u128 }
    }

    /// Whether the span is empty.
    pub fn is_zero(&self) -> (b: bool)
        ensures
            b == (self@ == 0),
    {
        self.nanos == 0
    }

    /// The span in whole nanoseconds, which never exceed [`MAX_NANOS`].
    pub fn as_nanos(&self) -> (n: u128)
        ensures
            n == self@,
            self@ <= MAX_NANOS,
    {
        proof {
            use_type_invariant(self);
        }
        self.nanos
    }

    /// The span in whole microseconds, rounded down.
    pub fn as_micros(&self) -> (n: u128)
        ensures
            n == self@ / 1000,
    {
        self.nanos / 1000
    }

    /// The whole seconds of the span.
    pub fn as_secs(&self) -> (n: u64)
        ensures
            n == self@ / 1_000_000_000,
    {
        proof {
            use_type_invariant(self);
        }
        (self.nanos / NANOS_PER_SEC) as u64
    }

    /// The nanoseconds beyond the whole seconds of the span.
    pub fn subsec_nanos(&self) -> (n: u32)
        ensures
            n == self@ % 1_000_000_000,
    {
        (self.nanos % NANOS_PER_SEC) as u32
    }

    /// The sum of two spans, or the largest span where the sum does not fit.
    pub fn saturating_add(self, other: Duration) -> (d: Duration)
        ensures
            d@ == if self@ + other@ <= MAX_NANOS { self@ + other@ } else { MAX_NANOS as nat },
            d == Duration::of_nanos(d@),
    {
        proof {
            use_type_invariant(&self);
            use_type_invariant(&other);
        }
        let sum = self.nanos + other.nanos;
        if sum <= MAX_NANOS {
            Duration { nanos: sum }
        } else {
            Duration { nanos: MAX_NANOS }
        }
    }

    /// The difference of two spans, or the empty span where `other` is the
    /// longer one.
    pub fn saturating_sub(self, other: Duration) -> (d: Duration)
        ensures
            d@ == if self@ >= other@ { self@ - other@ } else { 0 },
            d == Duration::of_nanos(d@),
    {
        proof {
            use_type_invariant(&self);
        }
        if self.nanos >= other.nanos {
            Duration { nanos: self.nanos - other.nanos }
        } else {
            Duration { nanos: 0 }
        }
    }

    /// Whether this span is no longer than `other`.
    pub fn le(&self, other: &Duration) -> (b: bool)
        ensures
            b == (self@ <= other@),
    {
        self.nanos <= other.nanos
    }
}

/// The span between two monotonic microsecond ticks, or the empty span when
/// `later` is not after `earlier`.
pub open spec fn tick_span(later: u64, earlier: u64) -> Duration {
    Duration::of_nanos(if later >= earlier { ((later - earlier) * 1000) as nat } else { 0 })
}

/// The span between two monotonic microsecond ticks, or the empty span when
/// `later` is not after `earlier`.
pub fn tick_duration(later: u64, earlier: u64) -> (d: Duration)
    ensures
        d@ == if later >= earlier { (later - earlier) * 1000 } else { 0 },
        d == tick_span(later, earlier),
{
    Duration::from_micros(later.saturating_sub(earlier))
}

/// The tick for a clock reading of `elapsed_micros` microseconds since the
/// monitor's epoch: one more than the reading, so that a tick is never zero,
/// with readings past `u64::MAX - 1` held at that bound.
pub fn tick_from_elapsed_micros(elapsed_micros: u128) -> (t: u64)
    ensures
        t == if elapsed_micros < u64::MAX - 1 { elapsed_micros + 1 } else { u64::MAX as int },
        t >= 1,
{
    let bounded = if elapsed_micros < (u64::MAX - 1) as u128 {
        elapsed_micros as u64
    } else {
        u64::MAX - 1
    };
    bounded + 1
}

} // verus!
