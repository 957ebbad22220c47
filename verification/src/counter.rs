//! Wraparound-aware arithmetic on raw hardware counter values.
//!
//! The hardware counter is monotonic but wraps modulo its width. A delta
//! between two successive readings therefore assumes at most one wrap; an
//! interval long enough for more than one wrap cannot be decoded reliably
//! and is flagged as suspect instead.

use vstd::prelude::*;

verus! {

/// Energy delta between two successive counter values, assuming at most
/// one wrap: the plain difference when the counter advanced, and the
/// distance through the wrap point when it restarted from zero.
pub open spec fn wrap_delta_spec(prev: int, curr: int, modulus: int) -> int {
    if curr >= prev {
        curr - prev
    } else {
        modulus - prev + curr
    }
}

/// More than one wrap could have occurred: the counter can plausibly
/// advance by a full modulus or more within the elapsed time.
pub open spec fn multi_wrap_possible_spec(elapsed: int, max_rate: int, modulus: int) -> bool {
    elapsed * max_rate >= modulus
}

/// A delta is suspect when the interval admits more than one wrap, or
/// when the delta exceeds the largest energy the interval allows.
pub open spec fn suspect_spec(delta: int, elapsed: int, max_rate: int, modulus: int) -> bool {
    ||| multi_wrap_possible_spec(elapsed, max_rate, modulus)
    ||| delta > elapsed * max_rate
}

/// Subtracts two successive raw counter values with single-wrap
/// correction.
pub fn wrapping_delta(prev: u64, curr: u64, modulus: u64) -> (delta: u64)
    requires
        0 < modulus,
        prev < modulus,
        curr < modulus,
    ensures
        delta == wrap_delta_spec(prev as int, curr as int, modulus as int),
        delta < modulus,
{
    if curr >= prev {
        curr - prev
    } else {
        (modulus - prev) + curr
    }
}

/// Decides whether a delta over an interval must be marked suspect.
pub fn is_suspect(delta: u64, elapsed: u64, max_rate: u64, modulus: u64) -> (suspect: bool)
    ensures
        suspect == suspect_spec(delta as int, elapsed as int, max_rate as int, modulus as int),
{
    proof {
        assert((elapsed as int) * (max_rate as int) <= (u64::MAX as int) * (u64::MAX as int)
            < u128::MAX as int) by (nonlinear_arith)
            requires
                elapsed <= u64::MAX,
                max_rate <= u64::MAX,
        ;
    }
    let product: u128 = (elapsed as u128) * (max_rate as u128);
    product >= (modulus as u128) || (delta as u128) > product
}

/// Wraparound correctness: when the counter wraps between two consecutive
/// reads (the new value is below the previous one), the delta is exactly
/// the distance through the wrap point, `(modulus - prev) + curr`, and is
/// never negative.
pub proof fn lemma_wraparound_delta(prev: int, curr: int, modulus: int)
    requires
        0 <= curr < prev < modulus,
    ensures
        wrap_delta_spec(prev, curr, modulus) == (modulus - prev) + curr,
        wrap_delta_spec(prev, curr, modulus) >= 0,
{
}

/// A delta computed from in-range counter values always lies below the
/// modulus and is never negative, wrapped or not.
pub proof fn lemma_delta_in_range(prev: int, curr: int, modulus: int)
    requires
        0 <= prev < modulus,
        0 <= curr < modulus,
    ensures
        0 <= wrap_delta_spec(prev, curr, modulus) < modulus,
{
}

} // verus!
