//! Distances on the torus.
//!
//! Both axes wrap: the square's opposite edges are neighbours. An offset
//! longer than half the domain's side is replaced by the shorter way round.
//! An offset is wrapped once, which is all that two coordinates of the domain
//! need; coordinates outside the domain are taken as they are.

use vstd::prelude::*;
use crate::fixed::{SPAN, UNIT};
use crate::root::{integer_root, lemma_root_monotone, root};

verus! {

/// An offset along one axis, taken the shorter way round the torus.
pub open spec fn wrap_delta(d: int) -> int {
    if d > UNIT {
        d - SPAN
    } else if d < -UNIT {
        d + SPAN
    } else {
        d
    }
}

/// The wrapped offset from coordinate `from` to coordinate `to`.
pub open spec fn wrapped_offset(from: int, to: int) -> int {
    wrap_delta(to - from)
}

/// Square of the straight-line distance between two points.
pub open spec fn plain_distance_squared(ax: int, ay: int, bx: int, by: int) -> int {
    (bx - ax) * (bx - ax) + (by - ay) * (by - ay)
}

/// Square of the distance between two points on the torus.
pub open spec fn distance_squared(ax: int, ay: int, bx: int, by: int) -> int {
    wrapped_offset(ax, bx) * wrapped_offset(ax, bx) + wrapped_offset(ay, by) * wrapped_offset(
        ay,
        by,
    )
}

/// The straight-line distance between two points, rounded down.
pub open spec fn plain_distance(ax: int, ay: int, bx: int, by: int) -> int {
    root(plain_distance_squared(ax, ay, bx, by))
}

/// The distance between two points on the torus, rounded down.
pub open spec fn distance(ax: int, ay: int, bx: int, by: int) -> int {
    root(distance_squared(ax, ay, bx, by))
}

/// Wrapping an offset the other way gives the opposite offset.
pub proof fn lemma_wrap_delta_odd(d: int)
    ensures
        wrap_delta(-d) == -wrap_delta(d),
{
}

/// Wrapping never lengthens an offset, and what it returns of an offset between
/// two coordinates of the domain is at most half the domain's side.
pub proof fn lemma_wrap_delta_shorter(d: int)
    ensures
        wrap_delta(d) * wrap_delta(d) <= d * d,
        -SPAN <= d <= SPAN ==> -UNIT <= wrap_delta(d) <= UNIT,
{
    let w = wrap_delta(d);
    assert(w * w <= d * d) by (nonlinear_arith)
        requires
            (0 <= w <= d) || (d <= w <= 0) || (-d <= w <= d) || (d <= w <= -d),
    ;
}

/// The distance on the torus does not depend on the direction in which it is
/// measured.
pub proof fn lemma_distance_symmetric(px: int, py: int, qx: int, qy: int)
    ensures
        distance_squared(px, py, qx, qy) == distance_squared(qx, qy, px, py),
        distance(px, py, qx, qy) == distance(qx, qy, px, py),
{
    lemma_wrap_delta_odd(qx - px);
    lemma_wrap_delta_odd(qy - py);
    let wx = wrap_delta(qx - px);
    let wy = wrap_delta(qy - py);
    assert(wrap_delta(px - qx) == -wx);
    assert(wrap_delta(py - qy) == -wy);
    assert((-wx) * (-wx) == wx * wx) by (nonlinear_arith);
    assert((-wy) * (-wy) == wy * wy) by (nonlinear_arith);
}

/// The distance on the torus is never longer than the straight-line distance.
pub proof fn lemma_distance_at_most_plain(px: int, py: int, qx: int, qy: int)
    ensures
        0 <= distance_squared(px, py, qx, qy) <= plain_distance_squared(px, py, qx, qy),
        distance(px, py, qx, qy) <= plain_distance(px, py, qx, qy),
{
    lemma_wrap_delta_shorter(qx - px);
    lemma_wrap_delta_shorter(qy - py);
    let wx = wrap_delta(qx - px);
    let wy = wrap_delta(qy - py);
    assert(0 <= wx * wx) by (nonlinear_arith);
    assert(0 <= wy * wy) by (nonlinear_arith);
    lemma_root_monotone(
        distance_squared(px, py, qx, qy),
        plain_distance_squared(px, py, qx, qy),
    );
}

/// Takes an offset the shorter way round the torus.
pub fn wrap(d: i64) -> (w: i64)
    ensures
        w == wrap_delta(d as int),
{
    if d > UNIT {
        d - SPAN
    } else if d < -UNIT {
        d + SPAN
    } else {
        d
    }
}

/// The wrapped offset from `from` to `to`, for any two coordinates.
pub fn offset(from: i32, to: i32) -> (w: i64)
    ensures
        w == wrapped_offset(from as int, to as int),
        -0x1_0000_0000 < w < 0x1_0000_0000,
{
    wrap(to as i64 - from as i64)
}

/// Square of the distance on the torus between `(ax, ay)` and `(bx, by)`.
pub fn toroidal_distance_squared(ax: i32, ay: i32, bx: i32, by: i32) -> (d2: u128)
    ensures
        d2 == distance_squared(ax as int, ay as int, bx as int, by as int),
        d2 < 0x2_0000_0000_0000_0000,
{
    let wx: i128 = offset(ax, bx) as i128;
    let wy: i128 = offset(ay, by) as i128;
    assert(0 <= wx * wx < 0x1_0000_0000_0000_0000) by (nonlinear_arith)
        requires
            -0x1_0000_0000 < wx < 0x1_0000_0000,
    ;
    assert(0 <= wy * wy < 0x1_0000_0000_0000_0000) by (nonlinear_arith)
        requires
            -0x1_0000_0000 < wy < 0x1_0000_0000,
    ;
    (wx * wx + wy * wy) as u128
}

/// The distance on the torus between `(ax, ay)` and `(bx, by)`, rounded down.
pub fn toroidal_distance(ax: i32, ay: i32, bx: i32, by: i32) -> (d: u128)
    ensures
        d == distance(ax as int, ay as int, bx as int, by as int),
{
    integer_root(toroidal_distance_squared(ax, ay, bx, by))
}

} // verus!
