//! Saturating arithmetic on coin amounts: results clamp at the bounds of an
//! `i64` instead of wrapping, the same as the standard library's
//! `saturating_*` methods.

use vstd::prelude::*;

verus! {

/// Clamps an exact value into the range of an `i64`.
pub open spec fn saturate(x: int) -> i64 {
    if x > i64::MAX {
        i64::MAX
    } else if x < i64::MIN {
        i64::MIN
    } else {
        x as i64
    }
}

/// `a * b`, clamped to the range of an `i64`.
pub fn saturating_mul(a: i64, b: i64) -> (r: i64)
    ensures
        r == saturate(a * b),
{
    match a.checked_mul(b) {
        Some(product) => product,
        None => {
            if (a < 0) == (b < 0) {
                assert(a * b > i64::MAX) by (nonlinear_arith)
                    requires
                        (a < 0) == (b < 0),
                        a * b > i64::MAX || a * b < i64::MIN,
                ;
                i64::MAX
            } else {
                assert(a * b < i64::MIN) by (nonlinear_arith)
                    requires
                        (a < 0) != (b < 0),
                        a * b > i64::MAX || a * b < i64::MIN,
                ;
                i64::MIN
            }
        },
    }
}

/// `a + b`, clamped to the range of an `i64`.
pub fn saturating_add(a: i64, b: i64) -> (r: i64)
    ensures
        r == saturate(a + b),
{
    match a.checked_add(b) {
        Some(sum) => sum,
        None => {
            if a < 0 {
                i64::MIN
            } else {
                i64::MAX
            }
        },
    }
}

} // verus!
