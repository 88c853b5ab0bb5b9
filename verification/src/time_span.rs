//! Spans of time with nanosecond resolution.
use vstd::prelude::*;

verus! {

/// A non-negative span of time: whole seconds and the nanoseconds beyond them.
#[derive(Debug, Clone, Copy, PartialEq, Eq, Structural)]
pub struct TimeSpan {
    pub secs: u64,
    pub nanos: u32,
}

/// Two to the power of 64.
pub open spec fn two_pow_64() -> int {
    0x1_0000_0000_0000_0000
}

/// What `n` is when its two's complement pattern is read as a `u64`.
pub open spec fn as_unsigned(n: int) -> int {
    if n < 0 {
        n + two_pow_64()
    } else {
        n
    }
}

/// What the low 64 bits of `n` are when they are read as an `i64`.
pub open spec fn low_signed(n: int) -> int {
    let low = n % two_pow_64();
    if low > i64::MAX {
        low - two_pow_64()
    } else {
        low
    }
}

/// Reads the two's complement pattern of `n` as a `u64`.
pub fn unsigned_bits(n: i64) -> (bits: u64)
    ensures
        bits == as_unsigned(n as int),
{
    if n < 0 {
        (n as i128 + 0x1_0000_0000_0000_0000i128) as u64
    } else {
        n as u64
    }
}

/// Reads the low 64 bits of `n` as an `i64`.
pub fn signed_low_bits(n: u128) -> (low: i64)
    ensures
        low == low_signed(n as int),
{
    let low: u128 = n % 0x1_0000_0000_0000_0000u128;
    if low > 0x7fff_ffff_ffff_ffffu128 {
        (low as i128 - 0x1_0000_0000_0000_0000i128) as i64
    } else {
        low as i64
    }
}

/// The span that is `nanos` nanoseconds long.
pub open spec fn span_of_nanos(nanos: int) -> TimeSpan {
    TimeSpan { secs: (nanos / 1_000_000_000) as u64, nanos: (nanos % 1_000_000_000) as u32 }
}

impl TimeSpan {
    /// Less than a second is left beyond the whole seconds.
    pub open spec fn valid(self) -> bool {
        self.nanos < 1_000_000_000
    }

    /// The length of the span in nanoseconds.
    pub open spec fn total_nanos(self) -> int {
        self.secs * 1_000_000_000 + self.nanos
    }

    /// A span of `secs` seconds.
    pub fn from_secs(secs: u64) -> (span: TimeSpan)
        ensures
            span == span_of_nanos(secs * 1_000_000_000),
    {
        TimeSpan { secs, nanos: 0 }
    }

    /// A span of `millis` milliseconds.
    pub fn from_millis(millis: u64) -> (span: TimeSpan)
        ensures
            span == span_of_nanos(millis * 1_000_000),
    {
        TimeSpan { secs: millis / 1000, nanos: ((millis % 1000) as u32) * 1_000_000 }
    }

    /// A span of `micros` microseconds.
    pub fn from_micros(micros: u64) -> (span: TimeSpan)
        ensures
            span == span_of_nanos(micros * 1000),
    {
        TimeSpan { secs: micros / 1_000_000, nanos: ((micros % 1_000_000) as u32) * 1000 }
    }

    /// The whole microseconds in the span.
    pub fn as_micros(&self) -> (micros: u128)
        ensures
            micros == self.total_nanos() / 1000,
    {
        self.secs as u128 * 1_000_000 + (self.nanos / 1000) as u128
    }

    /// The two spans one after the other.
    pub fn plus(&self, other: TimeSpan) -> (sum: TimeSpan)
        requires
            self.valid(),
            other.valid(),
            self.total_nanos() + other.total_nanos() < two_pow_64() * 1_000_000_000,
        ensures
            sum == span_of_nanos(self.total_nanos() + other.total_nanos()),
    {
        let nanos: u32 = self.nanos + other.nanos;
        if nanos >= 1_000_000_000 {
            TimeSpan { secs: self.secs + other.secs + 1, nanos: nanos - 1_000_000_000 }
        } else {
            TimeSpan { secs: self.secs + other.secs, nanos }
        }
    }
}

} // verus!
