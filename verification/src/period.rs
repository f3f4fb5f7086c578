//! Quantization of a requested duration into a bounded resolution class.

use vstd::arithmetic::div_mod::{
    lemma_div_is_ordered, lemma_div_multiples_vanish_fancy, lemma_fundamental_div_mod,
    lemma_mod_division_less_than_divisor,
};
use vstd::prelude::*;

verus! {

/// Tightest resolution class, in milliseconds.
pub const MIN_PERIOD_MS: u8 = 1;

/// Coarsest class, in milliseconds. This value is a sentinel meaning "no
/// elevation needed": requests in this class never keep the OS policy raised.
pub const MAX_PERIOD_MS: u8 = 16;

/// Nanoseconds per millisecond, the granularity of a resolution class.
pub const NANOS_PER_MILLI: u32 = 1_000_000;

/// Nanoseconds per second.
pub const NANOS_PER_SEC: u32 = 1_000_000_000;

/// A duration as plain values: whole seconds plus additional nanoseconds.
#[derive(Clone, Copy, Debug, PartialEq, Eq, Structural)]
pub struct Span {
    pub secs: u64,
    pub nanos: u32,
}

impl Span {
    /// The duration as a total count of nanoseconds.
    pub open spec fn total_nanos(&self) -> int {
        self.secs * (NANOS_PER_SEC as int) + self.nanos
    }

    pub fn new(secs: u64, nanos: u32) -> (s: Span)
        ensures
            s.secs == secs,
            s.nanos == nanos,
    {
        Span { secs, nanos }
    }

    /// A duration of a whole number of milliseconds.
    pub fn from_millis(ms: u64) -> (s: Span)
        ensures
            s.total_nanos() == ms * (NANOS_PER_MILLI as int),
    {
        let secs = ms / 1_000;
        let rem = ms % 1_000;
        proof {
            lemma_fundamental_div_mod(ms as int, 1_000);
            lemma_mod_division_less_than_divisor(ms as int, 1_000);
        }
        Span { secs, nanos: (rem as u32) * NANOS_PER_MILLI }
    }
}

/// The requested duration rounded up to a whole number of milliseconds.
pub open spec fn ceil_millis(nanos: int) -> int {
    (nanos + (NANOS_PER_MILLI - 1)) / (NANOS_PER_MILLI as int)
}

/// The resolution class for a request of `nanos` nanoseconds: the duration is
/// rounded up (never down: under-requesting resolution is unsafe) to whole
/// milliseconds, then clamped into `[MIN_PERIOD_MS, MAX_PERIOD_MS]`.
pub open spec fn quantize(nanos: int) -> int {
    let c = ceil_millis(nanos);
    if c < MIN_PERIOD_MS as int {
        MIN_PERIOD_MS as int
    } else if c > MAX_PERIOD_MS as int {
        MAX_PERIOD_MS as int
    } else {
        c
    }
}

/// One resolution class: a count of milliseconds in
/// `[MIN_PERIOD_MS, MAX_PERIOD_MS]`. Smaller is a stronger request.
#[derive(Clone, Copy, Debug, PartialEq, Eq, Structural)]
pub struct Period(u8);

impl View for Period {
    type V = int;

    closed spec fn view(&self) -> int {
        self.0 as int
    }
}

impl Period {
    /// A period is well formed when it lies in the clamped range.
    pub open spec fn wf(&self) -> bool {
        MIN_PERIOD_MS as int <= self@ <= MAX_PERIOD_MS as int
    }

    pub fn new(ms: u8) -> (p: Period)
        requires
            MIN_PERIOD_MS <= ms <= MAX_PERIOD_MS,
        ensures
            p@ == ms,
            p.wf(),
    {
        Period(ms)
    }

    /// The class as an unsigned integer, the form the platform layer passes
    /// to the OS timer-period calls.
    pub fn as_uint(&self) -> (r: u32)
        ensures
            r == self@,
    {
        self.0 as u32
    }

    /// Whether this is the sentinel class that requests no elevation.
    pub open spec fn spec_is_disabled(&self) -> bool {
        self@ == MAX_PERIOD_MS as int
    }

    pub fn is_disabled(&self) -> (r: bool)
        ensures
            r == self.spec_is_disabled(),
    {
        self.0 == MAX_PERIOD_MS
    }

    /// Quantize a requested duration: round up to whole milliseconds, then
    /// clamp into the class range. Total over every duration value; very
    /// coarse requests saturate to the disabled class.
    pub fn from_duration(d: Span) -> (p: Period)
        ensures
            p@ == quantize(d.total_nanos()),
            p.wf(),
    {
        let threshold: u32 = (MAX_PERIOD_MS as u32 - 1) * NANOS_PER_MILLI;
        if d.secs > 0 || d.nanos > threshold {
            proof {
                let n = d.total_nanos();
                if d.secs > 0 {
                    assert(n >= NANOS_PER_SEC as int);
                }
                assert(n + (NANOS_PER_MILLI - 1) >= MAX_PERIOD_MS as int * NANOS_PER_MILLI as int);
                lemma_div_is_ordered(
                    MAX_PERIOD_MS as int * NANOS_PER_MILLI as int,
                    n + (NANOS_PER_MILLI - 1),
                    NANOS_PER_MILLI as int,
                );
                lemma_div_multiples_vanish_fancy(
                    MAX_PERIOD_MS as int,
                    0,
                    NANOS_PER_MILLI as int,
                );
                assert(ceil_millis(n) >= MAX_PERIOD_MS as int);
            }
            Period(MAX_PERIOD_MS)
        } else if d.nanos == 0 {
            Period(MIN_PERIOD_MS)
        } else {
            let ms: u32 = (d.nanos + (NANOS_PER_MILLI - 1)) / NANOS_PER_MILLI;
            proof {
                let n = d.total_nanos();
                assert(n == d.nanos as int);
                lemma_div_is_ordered(
                    NANOS_PER_MILLI as int,
                    n + (NANOS_PER_MILLI - 1),
                    NANOS_PER_MILLI as int,
                );
                lemma_div_multiples_vanish_fancy(1, 0, NANOS_PER_MILLI as int);
                lemma_div_is_ordered(
                    n + (NANOS_PER_MILLI - 1),
                    MAX_PERIOD_MS as int * NANOS_PER_MILLI as int - 1,
                    NANOS_PER_MILLI as int,
                );
                lemma_div_multiples_vanish_fancy(
                    MAX_PERIOD_MS as int - 1,
                    NANOS_PER_MILLI as int - 1,
                    NANOS_PER_MILLI as int,
                );
                assert(MIN_PERIOD_MS as int <= ceil_millis(n) < MAX_PERIOD_MS as int);
            }
            Period(ms as u8)
        }
    }
}

/// The view of an optional period, for contracts over "a class or none".
pub open spec fn opt_val(p: Option<Period>) -> Option<int> {
    match p {
        Some(x) => Some(x@),
        None => None,
    }
}

/// Rounding to whole milliseconds is a true ceiling: the chosen multiple of a
/// millisecond is at least the request and overshoots by less than one unit.
pub proof fn lemma_ceil_millis_is_ceiling(n: int)
    requires
        0 <= n,
    ensures
        n <= ceil_millis(n) * (NANOS_PER_MILLI as int),
        ceil_millis(n) * (NANOS_PER_MILLI as int) < n + NANOS_PER_MILLI as int,
{
    let d = NANOS_PER_MILLI as int;
    lemma_fundamental_div_mod(n + (d - 1), d);
    lemma_mod_division_less_than_divisor(n + (d - 1), d);
}

/// Quantization is monotonic: a looser request never yields a tighter class.
pub proof fn lemma_quantize_monotonic(n1: int, n2: int)
    requires
        0 <= n1 <= n2,
    ensures
        quantize(n1) <= quantize(n2),
{
    let d = NANOS_PER_MILLI as int;
    lemma_div_is_ordered(n1 + (d - 1), n2 + (d - 1), d);
}

/// Monotonicity stated over durations: if one duration is at most another,
/// its resolution class is at most the other's.
pub proof fn lemma_from_duration_monotonic(d1: Span, d2: Span)
    requires
        d1.total_nanos() <= d2.total_nanos(),
    ensures
        quantize(d1.total_nanos()) <= quantize(d2.total_nanos()),
{
    assert(0 <= d1.total_nanos());
    lemma_quantize_monotonic(d1.total_nanos(), d2.total_nanos());
}

/// Quantization is idempotent on boundary values: a request of exactly `k`
/// milliseconds, for `k` within the class range, lands in class `k`.
pub proof fn lemma_quantize_exact(k: int)
    requires
        MIN_PERIOD_MS as int <= k <= MAX_PERIOD_MS as int,
    ensures
        quantize(k * (NANOS_PER_MILLI as int)) == k,
{
    let d = NANOS_PER_MILLI as int;
    lemma_div_multiples_vanish_fancy(k, d - 1, d);
    assert(d * k + (d - 1) == k * d + (d - 1));
}

/// A request at or beyond the top of the class range saturates to the
/// disabled sentinel, which never elevates the OS policy.
pub proof fn lemma_quantize_saturates(n: int)
    requires
        n > (MAX_PERIOD_MS as int - 1) * (NANOS_PER_MILLI as int),
    ensures
        quantize(n) == MAX_PERIOD_MS as int,
{
    let d = NANOS_PER_MILLI as int;
    lemma_div_is_ordered(MAX_PERIOD_MS as int * d, n + (d - 1), d);
    lemma_div_multiples_vanish_fancy(MAX_PERIOD_MS as int, 0, d);
}

} // verus!
