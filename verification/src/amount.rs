//! Integer arithmetic on money and ratios. Amounts are whole micro-dollars,
//! ratios are parts per million; sums stay at the largest representable
//! value once they reach it.

use vstd::prelude::*;

verus! {

/// One, as a ratio in parts per million.
pub const PPM: u64 = 1_000_000;

/// Micro-dollars in a dollar.
pub const MICRO_USD: u64 = 1_000_000;

/// The sum of two amounts, held at the largest representable amount.
pub open spec fn capped_sum(a: u64, b: u64) -> u64 {
    if a + b > u64::MAX {
        u64::MAX
    } else {
        (a + b) as u64
    }
}

/// The sum of two counters, held at the largest representable count.
pub open spec fn capped_count(a: u32, b: u32) -> u32 {
    if a + b > u32::MAX {
        u32::MAX
    } else {
        (a + b) as u32
    }
}

/// A number, held at the largest representable amount.
pub open spec fn capped(n: int) -> u64 {
    if n > u64::MAX {
        u64::MAX
    } else if n < 0 {
        0
    } else {
        n as u64
    }
}

/// Computes [`capped_sum`].
pub fn add_amount(a: u64, b: u64) -> (r: u64)
    ensures
        r == capped_sum(a, b),
{
    if a > u64::MAX - b {
        u64::MAX
    } else {
        a + b
    }
}

/// Computes [`capped_count`].
pub fn add_count(a: u32, b: u32) -> (r: u32)
    ensures
        r == capped_count(a, b),
{
    if a > u32::MAX - b {
        u32::MAX
    } else {
        a + b
    }
}

/// `amount * numerator / denominator`, rounded down and capped.
pub open spec fn scaled(amount: u64, numerator: u64, denominator: u64) -> u64 {
    capped((amount * numerator) / (denominator as int))
}

/// Computes [`scaled`].
pub fn scale(amount: u64, numerator: u64, denominator: u64) -> (r: u64)
    requires
        denominator > 0,
    ensures
        r == scaled(amount, numerator, denominator),
{
    assert(amount * numerator <= u64::MAX * u64::MAX) by (nonlinear_arith)
        requires
            amount <= u64::MAX,
            numerator <= u64::MAX,
    ;
    let product: u128 = (amount as u128) * (numerator as u128);
    let q: u128 = product / (denominator as u128);
    if q > u64::MAX as u128 {
        u64::MAX
    } else {
        q as u64
    }
}

} // verus!
