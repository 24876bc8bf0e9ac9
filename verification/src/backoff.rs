//! Exponential backoff between attempts, in milliseconds.

use vstd::arithmetic::power2::{lemma_pow2_pos, lemma_pow2_unfold, pow2};
use vstd::prelude::*;

verus! {

/// The delay that follows a delay: twice as long, but no longer than the cap.
pub open spec fn doubled(delay: u64, cap: u64) -> u64 {
    if 2 * delay <= cap {
        (2 * delay) as u64
    } else {
        cap
    }
}

/// The delay before the attempt that follows the given number of failures in a
/// row, less one.
pub open spec fn delay_after(initial: u64, cap: u64, failures: nat) -> u64
    decreases failures,
{
    if failures == 0 {
        initial
    } else {
        doubled(delay_after(initial, cap, (failures - 1) as nat), cap)
    }
}

/// Twice the delay, but no more than the cap.
pub fn next_delay(delay: u64, cap: u64) -> (r: u64)
    ensures
        r == doubled(delay, cap),
{
    if delay <= cap / 2 {
        2 * delay
    } else {
        cap
    }
}

/// Doubling never exceeds the cap.
pub proof fn doubled_within_cap(delay: u64, cap: u64)
    ensures
        doubled(delay, cap) <= cap,
        delay <= cap ==> delay <= doubled(delay, cap),
{
}

/// The delays grow as powers of two until they reach the cap.
pub proof fn delays_double_up_to_cap(initial: u64, cap: u64, failures: nat)
    requires
        initial <= cap,
    ensures
        delay_after(initial, cap, failures) == if initial * pow2(failures) <= cap {
            initial * pow2(failures)
        } else {
            cap as int
        },
    decreases failures,
{
    if failures == 0 {
        vstd::arithmetic::power2::lemma2_to64();
        assert(initial * 1 == initial) by (nonlinear_arith);
    } else {
        let before = (failures - 1) as nat;
        delays_double_up_to_cap(initial, cap, before);
        lemma_pow2_unfold(failures);
        lemma_pow2_pos(before);
        let p = pow2(before) as int;
        let i = initial as int;
        assert(i * (2 * p) == 2 * (i * p)) by (nonlinear_arith);
        assert(i * p >= 0) by (nonlinear_arith)
            requires
                i >= 0,
                p > 0,
        ;
    }
}

} // verus!
