//! Combination of the two steering bytes of an input report into one
//! steering reading on a scale of 0 to 100.
//!
//! The coarse byte is divided by 256 and the fine byte by 255. The two
//! divisors differ in the wheel's established readings and are kept as they
//! are; the arithmetic is exact, over a common denominator.
use vstd::prelude::*;
use vstd::arithmetic::div_mod::lemma_div_is_ordered;

verus! {

/// Denominator shared by both contributions: 256 * 255 * 256.
pub const STEERING_DEN: u64 = 16711680;

/// Weight of the coarse byte over `STEERING_DEN`:
/// `(c / 256) * (100 - 100 / 256)` is `c * 6502500 / 16711680`.
pub const COARSE_WEIGHT: u64 = 6502500;

/// Weight of the fine byte over `STEERING_DEN`:
/// `(f / 255) * (100 / 256)` is `f * 25600 / 16711680`.
pub const FINE_WEIGHT: u64 = 25600;

/// The exact sum of both contributions, scaled by `STEERING_DEN`.
pub open spec fn steering_numerator(coarse: u8, fine: u8) -> int {
    COARSE_WEIGHT * coarse + FINE_WEIGHT * fine
}

/// The steering reading: the exact sum rounded to the nearest integer,
/// halves rounded up (the sum is never negative).
pub open spec fn steering_scale(coarse: u8, fine: u8) -> int {
    (2 * steering_numerator(coarse, fine) + STEERING_DEN) / (2 * STEERING_DEN as int)
}

/// The steering reading of every pair of bytes lies in `0..=100`.
pub proof fn lemma_steering_scale_bounded(coarse: u8, fine: u8)
    ensures
        0 <= steering_scale(coarse, fine) <= 100,
{
    let n = steering_numerator(coarse, fine);
    assert(0 <= n <= 6528100 * 255) by (nonlinear_arith)
        requires
            n == 6502500 * coarse + 25600 * fine,
            0 <= coarse <= 255,
            0 <= fine <= 255,
    ;
    let x = 2 * n + STEERING_DEN;
    lemma_div_is_ordered(x, 3346042680, 2 * STEERING_DEN as int);
    lemma_div_is_ordered(0, x, 2 * STEERING_DEN as int);
    assert(3346042680int / 33423360int == 100);
}

/// Combines the coarse byte (report offset 5) and the fine byte (offset 4)
/// into a steering reading in `0..=100`.
pub fn steering_value(coarse: u8, fine: u8) -> (r: u8)
    ensures
        r as int == steering_scale(coarse, fine),
        r <= 100,
{
    proof {
        lemma_steering_scale_bounded(coarse, fine);
    }
    let n: u64 = COARSE_WEIGHT * (coarse as u64) + FINE_WEIGHT * (fine as u64);
    let q: u64 = (2 * n + STEERING_DEN) / (2 * STEERING_DEN);
    q as u8
}

} // verus!
