//! Pricing: the demand curve, the coverage multiplier and the early-adopter discount.

use vstd::prelude::*;
use crate::types::CoverageLevel;

verus! {

/// Policies sold before this many are on the books get the early-adopter discount.
pub const EARLY_BIRD_LIMIT: u64 = 100;

/// `r` is the integer square root of `n`: the one number whose square is at most
/// `n` while the square of its successor is above `n`.
pub open spec fn is_floor_sqrt(n: nat, r: nat) -> bool {
    r * r <= n < (r + 1) * (r + 1)
}

/// The integer square root of `n`, rounded down.
pub open spec fn floor_sqrt(n: nat) -> nat {
    choose|r: nat| is_floor_sqrt(n, r)
}

/// The curve factor: one more than the integer square root of the number of
/// policies sold so far.
pub open spec fn curve_factor(total_policies: nat) -> nat {
    1 + floor_sqrt(total_policies)
}

/// The premium before any discount.
pub open spec fn premium_of(total_policies: nat, base_rate: nat, coverage: CoverageLevel) -> nat {
    base_rate * coverage.spec_multiplier() * curve_factor(total_policies)
}

/// The premium after the early-adopter discount: a tenth off, rounded in the
/// pool's favour, while fewer than a hundred policies are on the books.
pub open spec fn discounted(premium: nat, total_policies: nat) -> nat {
    if total_policies < EARLY_BIRD_LIMIT {
        (premium - premium / 10) as nat
    } else {
        premium
    }
}

/// Squaring keeps order on the naturals.
proof fn lemma_square_monotone(a: nat, b: nat)
    requires
        a <= b,
    ensures
        a * a <= b * b,
{
    assert(a * a <= b * b) by (nonlinear_arith)
        requires
            0 <= a <= b,
    ;
}

/// At most one number is the integer square root of `n`.
pub proof fn lemma_floor_sqrt_unique(n: nat, r1: nat, r2: nat)
    requires
        is_floor_sqrt(n, r1),
        is_floor_sqrt(n, r2),
    ensures
        r1 == r2,
{
    if r1 < r2 {
        lemma_square_monotone(r1 + 1, r2);
    } else if r2 < r1 {
        lemma_square_monotone(r2 + 1, r1);
    }
}

/// Every natural number has an integer square root, and `floor_sqrt` is it.
pub proof fn lemma_floor_sqrt(n: nat)
    ensures
        is_floor_sqrt(n, floor_sqrt(n)),
    decreases n,
{
    if n == 0 {
        assert(0nat * 0nat == 0 && (0nat + 1) * (0nat + 1) == 1) by (nonlinear_arith);
        assert(is_floor_sqrt(0, 0));
    } else {
        let m = (n - 1) as nat;
        lemma_floor_sqrt(m);
        let r = floor_sqrt(m);
        if (r + 1) * (r + 1) <= n {
            assert((r + 2) * (r + 2) > (r + 1) * (r + 1)) by (nonlinear_arith);
            assert(is_floor_sqrt(n, r + 1));
        } else {
            assert(is_floor_sqrt(n, r));
        }
    }
}

/// A number that squares to at most `n`, with a successor that squares above `n`,
/// is `floor_sqrt(n)`.
pub proof fn lemma_floor_sqrt_is(n: nat, r: nat)
    requires
        is_floor_sqrt(n, r),
    ensures
        floor_sqrt(n) == r,
{
    lemma_floor_sqrt_unique(n, r, floor_sqrt(n));
}

/// The exact integer square root of `n`, found by bisection on integers alone, so
/// that every host computes the same curve.
pub fn integer_sqrt(n: u64) -> (r: u64)
    ensures
        r == floor_sqrt(n as nat),
        r < 0x1_0000_0000,
{
    let mut lo: u64 = 0;
    let mut hi: u64 = 0x1_0000_0000;
    assert(0x1_0000_0000u64 * 0x1_0000_0000u64 > n) by (nonlinear_arith)
        requires
            n <= u64::MAX,
    ;
    while hi - lo > 1
        invariant
            lo < hi <= 0x1_0000_0000,
            lo * lo <= n < hi * hi,
        decreases hi - lo,
    {
        let mid: u64 = lo + (hi - lo) / 2;
        assert(mid * mid <= 0xffff_ffff * 0xffff_ffff) by (nonlinear_arith)
            requires
                0 <= mid <= 0xffff_ffff,
        ;
        if mid * mid <= n {
            lo = mid;
        } else {
            hi = mid;
        }
    }
    proof {
        lemma_floor_sqrt_is(n as nat, lo as nat);
    }
    lo
}

/// The base rate scaled by the tier is no more than the premium, since the curve
/// factor is at least one.
proof fn lemma_scaled_rate_within_premium(base_rate: nat, multiplier: nat, curve: nat)
    requires
        curve >= 1,
    ensures
        base_rate * multiplier <= base_rate * multiplier * curve,
{
    assert(base_rate * multiplier <= base_rate * multiplier * curve) by (nonlinear_arith)
        requires
            curve >= 1,
    ;
}

/// The premium for a policy of the given coverage at the given base rate, when
/// `total_policies` have been sold so far: the base rate, times the tier's
/// multiplier, times the curve factor.
pub fn calculate_premium_with_coverage(
    total_policies: u64,
    base_rate: u64,
    coverage: CoverageLevel,
) -> (premium: u64)
    requires
        premium_of(total_policies as nat, base_rate as nat, coverage) <= u64::MAX,
    ensures
        premium == premium_of(total_policies as nat, base_rate as nat, coverage),
{
    let multiplier: u64 = coverage.multiplier();
    let curve: u64 = 1 + integer_sqrt(total_policies);
    proof {
        lemma_scaled_rate_within_premium(base_rate as nat, multiplier as nat, curve as nat);
    }
    base_rate * multiplier * curve
}

/// The premium as `calculate_premium_with_coverage` gives it, or `None` where it
/// is too large for a `u64`.
pub fn checked_premium(total_policies: u64, base_rate: u64, coverage: CoverageLevel) -> (premium:
    Option<u64>)
    ensures
        premium == if premium_of(total_policies as nat, base_rate as nat, coverage) <= u64::MAX {
            Some(premium_of(total_policies as nat, base_rate as nat, coverage) as u64)
        } else {
            None
        },
{
    let multiplier: u64 = coverage.multiplier();
    let curve: u64 = 1 + integer_sqrt(total_policies);
    match base_rate.checked_mul(multiplier) {
        Some(scaled) => scaled.checked_mul(curve),
        None => {
            proof {
                lemma_scaled_rate_within_premium(
                    base_rate as nat,
                    multiplier as nat,
                    curve as nat,
                );
            }
            None
        },
    }
}

/// Takes a tenth off the premium while fewer than a hundred policies have been
/// sold; from the hundredth on the premium passes unchanged.
pub fn apply_early_bird_discount(premium: u64, total_policies: u64) -> (adjusted: u64)
    ensures
        adjusted == discounted(premium as nat, total_policies as nat),
        adjusted <= premium,
{
    if total_policies < EARLY_BIRD_LIMIT {
        premium - (premium / 10)
    } else {
        premium
    }
}

} // verus!
