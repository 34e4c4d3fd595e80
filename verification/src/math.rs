//! Fixed-point math utilities: saturating arithmetic over unsigned 64-bit
//! magnitudes and basis-point (1/10000) scaling.
//!
//! No engine may use wrapping or panicking arithmetic; everything funnels
//! through the saturating operations specified here.

use vstd::prelude::*;

verus! {

/// One whole unit expressed in basis points (1/10000).
pub const BPS_DENOMINATOR: u64 = 10000;

/// Saturating addition: `a + b`, capped at `u64::MAX`.
pub open spec fn sat_add(a: u64, b: u64) -> u64 {
    if a + b > u64::MAX {
        u64::MAX
    } else {
        (a + b) as u64
    }
}

/// Saturating subtraction: `a - b`, floored at 0.
pub open spec fn sat_sub(a: u64, b: u64) -> u64 {
    if a < b {
        0u64
    } else {
        (a - b) as u64
    }
}

/// Saturating multiplication: `a * b`, capped at `u64::MAX`.
pub open spec fn sat_mul(a: u64, b: u64) -> u64 {
    if a * b > u64::MAX {
        u64::MAX
    } else {
        (a * b) as u64
    }
}

/// Basis-point scaling: `amount * bps / 10000` with a saturating product and
/// flooring (integer) division.
pub open spec fn bps_scale(amount: u64, bps: u64) -> u64 {
    sat_mul(amount, bps) / BPS_DENOMINATOR
}

/// Reputation scores can never be observed negative: a saturating
/// subtraction floors at zero, and never exceeds the minuend.
pub proof fn lemma_sat_sub_floors_at_zero(a: u64, b: u64)
    ensures
        sat_sub(a, b) >= 0,
        sat_sub(a, b) <= a,
        b <= a ==> sat_sub(a, b) == a - b,
        b > a ==> sat_sub(a, b) == 0,
{
}

pub fn saturating_mul(a: u64, b: u64) -> (r: u64)
    ensures
        r == sat_mul(a, b),
{
    match a.checked_mul(b) {
        Some(v) => v,
        None => u64::MAX,
    }
}

/// Executable basis-point scaling, matching `bps_scale` exactly.
pub fn apply_bps(amount: u64, bps: u64) -> (r: u64)
    ensures
        r == bps_scale(amount, bps),
{
    saturating_mul(amount, bps) / BPS_DENOMINATOR
}

} // verus!
