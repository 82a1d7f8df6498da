//! Placing an iso-line between two samples.

use vstd::prelude::*;
use crate::fixed::UNIT;

verus! {

/// The size of an integer.
pub open spec fn magnitude(n: int) -> int {
    if n >= 0 {
        n
    } else {
        -n
    }
}

/// The quotient of `n` by `d`, rounded towards zero.
pub open spec fn quotient_towards_zero(n: int, d: int) -> int {
    if (n >= 0) == (d > 0) {
        magnitude(n) / magnitude(d)
    } else {
        -(magnitude(n) / magnitude(d))
    }
}

/// Where the field crosses one, between a sample of intensity `a` and a
/// neighbour of intensity `b`, as a share of the way from the first to the
/// second: `(1 - a) / (b - a)` in `UNIT`-ths, rounded towards zero.
pub open spec fn crossing(a: int, b: int) -> int {
    quotient_towards_zero((UNIT - a) * UNIT, b - a)
}

/// The share of the way from a sample of intensity `a` to one of intensity `b`
/// at which the field crosses one. Two equal samples have no crossing.
pub fn interpolate(a: i64, b: i64) -> (share: Option<i128>)
    ensures
        share is None <==> a == b,
        share is Some ==> share->Some_0 == crossing(a as int, b as int),
{
    if a == b {
        return None;
    }
    let rise: i128 = UNIT as i128 - a as i128;
    let run: i128 = b as i128 - a as i128;
    let rise_size: u128 = if rise >= 0 {
        rise as u128
    } else {
        (-rise) as u128
    };
    let run_size: u128 = if run >= 0 {
        run as u128
    } else {
        (-run) as u128
    };
    assert(rise_size * (UNIT as u128) <= 0x1_0000_0000_0000_0000 * 1_000_000_000)
        by (nonlinear_arith)
        requires
            rise_size <= 0x1_0000_0000_0000_0000,
            UNIT == 1_000_000_000,
    ;
    let scaled: u128 = rise_size * (UNIT as u128);
    assert(magnitude((UNIT - a) * UNIT) == scaled) by (nonlinear_arith)
        requires
            scaled == rise_size * UNIT,
            rise_size == magnitude(UNIT - a),
            UNIT > 0,
    ;
    assert(((UNIT - a) * UNIT >= 0) == (rise >= 0)) by (nonlinear_arith)
        requires
            rise == UNIT - a,
            UNIT > 0,
    ;
    let size: u128 = scaled / run_size;
    assert(size <= scaled) by (nonlinear_arith)
        requires
            size == scaled / run_size,
            0 < run_size,
            0 <= scaled,
    ;
    if (rise >= 0) == (run > 0) {
        Some(size as i128)
    } else {
        Some(-(size as i128))
    }
}

} // verus!
