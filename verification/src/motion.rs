//! Motion of the circles under pairwise forces.
//!
//! One step gives every circle a new velocity and a new position, each
//! computed from the state before the step: the result does not depend on the
//! order in which the circles are visited. Time is counted in whole ticks and
//! a velocity is a distance per tick.

use vstd::prelude::*;
use crate::fixed::UNIT;
use crate::root::{integer_root, is_root, root};
use crate::torus::{
    distance_squared, lemma_distance_symmetric, lemma_wrap_delta_odd, offset,
    toroidal_distance_squared, wrapped_offset,
};

verus! {

/// The largest speed along one axis, in `UNIT`-ths per tick.
pub const V_MAX: i32 = 500_000;

/// The force coefficient `k`, in `UNIT`-ths.
pub const FORCE_COEFF: u128 = 10_000;

/// The most circles that one step takes: with no more than these, the sums
/// of the forces fit the widest machine integers.
pub const MAX_CIRCLES: usize = 65536;

/// Why a step was refused.
#[derive(Clone, Copy, Debug, PartialEq, Eq, Structural)]
pub enum MotionError {
    /// The state holds more than `MAX_CIRCLES` circles.
    TooManyCircles,
}

/// A circle with its velocity. The radius never changes.
#[derive(Clone, Copy, Debug, PartialEq, Eq, Structural)]
pub struct MovingCircle {
    pub x: i32,
    pub y: i32,
    pub r: i32,
    pub dx: i32,
    pub dy: i32,
}

/// The force along one axis that a circle of radius `r` feels from another
/// one: `-k r^2 / d^2`, times the share `w / d` of that axis, where `w` is the
/// wrapped offset from the other circle to this one and `d2` the square of
/// their distance. The size is rounded down; the sign is opposite to that of
/// `w`, so the force draws the circle towards the other one. Where there is
/// no offset along the axis there is no force along it, so two circles at one
/// place exert none.
pub open spec fn axis_pull(r: int, w: int, d2: int) -> int {
    if d2 <= 0 || w == 0 {
        0
    } else {
        let size = (FORCE_COEFF * (r * r) * (if w >= 0 {
            w
        } else {
            -w
        })) / (d2 * root(d2));
        if w >= 0 {
            -size
        } else {
            size
        }
    }
}

/// The force that `me` feels from `other`, along x and along y.
pub open spec fn pull(me: MovingCircle, other: MovingCircle) -> (int, int) {
    let d2 = distance_squared(other.x as int, other.y as int, me.x as int, me.y as int);
    (
        axis_pull(me.r as int, wrapped_offset(other.x as int, me.x as int), d2),
        axis_pull(me.r as int, wrapped_offset(other.y as int, me.y as int), d2),
    )
}

/// Sum of the forces that circle `i` feels from the circles before position
/// `n`, itself left out. Each axis has its own sum.
pub open spec fn net_pull(circles: Seq<MovingCircle>, i: int, n: int) -> (int, int)
    decreases n,
{
    if n <= 0 {
        (0, 0)
    } else {
        let rest = net_pull(circles, i, n - 1);
        if n - 1 == i {
            rest
        } else {
            let one = pull(circles[i], circles[n - 1]);
            (rest.0 + one.0, rest.1 + one.1)
        }
    }
}

/// A velocity held within `V_MAX` in either direction.
pub open spec fn clamp_velocity(v: int) -> int {
    if v > V_MAX {
        V_MAX as int
    } else if v < -V_MAX {
        -V_MAX
    } else {
        v
    }
}

/// A coordinate after `elapsed` ticks at velocity `v`. One that leaves the
/// domain below reappears at the upper edge, one that leaves it above at the
/// lower edge.
pub open spec fn advance(p: int, v: int, elapsed: int) -> int {
    let q = p + v * elapsed;
    if q < -UNIT {
        UNIT as int
    } else if q > UNIT {
        -UNIT
    } else {
        q
    }
}

/// A circle after the force `(fx, fy)` has acted on it for one step of
/// `elapsed` ticks: the force is added to the velocity, the velocity is
/// clamped, and the position advances by the new velocity.
pub open spec fn moved(me: MovingCircle, fx: int, fy: int, elapsed: int) -> MovingCircle {
    let dx = clamp_velocity(me.dx + fx);
    let dy = clamp_velocity(me.dy + fy);
    MovingCircle {
        x: advance(me.x as int, dx, elapsed) as i32,
        y: advance(me.y as int, dy, elapsed) as i32,
        r: me.r,
        dx: dx as i32,
        dy: dy as i32,
    }
}

/// Circle `i` after one step of the whole state.
pub open spec fn stepped(before: Seq<MovingCircle>, i: int, elapsed: int) -> MovingCircle {
    let force = net_pull(before, i, before.len() as int);
    moved(before[i], force.0, force.1, elapsed)
}

/// The circle lies in the domain and is no faster than `V_MAX` along either axis.
pub open spec fn settled(c: MovingCircle) -> bool {
    &&& -UNIT <= c.x <= UNIT
    &&& -UNIT <= c.y <= UNIT
    &&& -V_MAX <= c.dx <= V_MAX
    &&& -V_MAX <= c.dy <= V_MAX
}

/// Whatever the force and wherever the circle was, after a step it lies in the
/// domain, its speed along each axis is at most `V_MAX`, and its radius is
/// what it was.
pub proof fn lemma_moved_settled(me: MovingCircle, fx: int, fy: int, elapsed: int)
    ensures
        settled(moved(me, fx, fy, elapsed)),
        moved(me, fx, fy, elapsed).r == me.r,
{
}

/// A circle that leaves the domain does not stop at the edge it crossed: it
/// reappears at the opposite one.
pub proof fn lemma_advance_teleports(p: int, v: int, elapsed: int)
    ensures
        p + v * elapsed < -UNIT ==> advance(p, v, elapsed) == UNIT,
        p + v * elapsed > UNIT ==> advance(p, v, elapsed) == -UNIT,
        -UNIT <= p + v * elapsed <= UNIT ==> advance(p, v, elapsed) == p + v * elapsed,
{
}

/// A step of no duration leaves a position of the domain where it is; the
/// velocity is still updated and clamped.
pub proof fn lemma_zero_elapsed(me: MovingCircle, fx: int, fy: int)
    requires
        -UNIT <= me.x <= UNIT,
        -UNIT <= me.y <= UNIT,
    ensures
        moved(me, fx, fy, 0).x == me.x,
        moved(me, fx, fy, 0).y == me.y,
        moved(me, fx, fy, 0).dx == clamp_velocity(me.dx + fx),
        moved(me, fx, fy, 0).dy == clamp_velocity(me.dy + fy),
{
}

/// A circle alone feels no force: a step of a circle within the speed limit
/// that stays in the domain keeps its velocity and moves it by velocity times
/// elapsed time.
pub proof fn lemma_single_coasts(me: MovingCircle, elapsed: int)
    requires
        -V_MAX <= me.dx <= V_MAX,
        -V_MAX <= me.dy <= V_MAX,
        -UNIT <= me.x + me.dx * elapsed <= UNIT,
        -UNIT <= me.y + me.dy * elapsed <= UNIT,
    ensures
        net_pull(seq![me], 0, 1) == (0int, 0int),
        stepped(seq![me], 0, elapsed).dx == me.dx,
        stepped(seq![me], 0, elapsed).dy == me.dy,
        stepped(seq![me], 0, elapsed).x == me.x + me.dx * elapsed,
        stepped(seq![me], 0, elapsed).y == me.y + me.dy * elapsed,
{
    let s = seq![me];
    assert(net_pull(s, 0, 0) == (0int, 0int));
    assert(net_pull(s, 0, 1) == (0int, 0int));
    assert(s[0] == me);
}

/// Two circles of equal radius draw each other with forces of equal size and
/// opposite direction, along each axis.
pub proof fn lemma_pull_opposite(a: MovingCircle, b: MovingCircle)
    requires
        a.r == b.r,
    ensures
        pull(a, b).0 == -pull(b, a).0,
        pull(a, b).1 == -pull(b, a).1,
{
    lemma_distance_symmetric(a.x as int, a.y as int, b.x as int, b.y as int);
    lemma_wrap_delta_odd(a.x - b.x);
    lemma_wrap_delta_odd(a.y - b.y);
}

/// The force along one axis between two circles at distance `d`, the root of
/// `d2`, for the wrapped offset `w` along that axis.
fn axis_force(r: i32, w: i64, d2: u128, d: u128) -> (f: i128)
    requires
        -0x1_0000_0000 < w < 0x1_0000_0000,
        0 < d2 < 0x4_0000_0000_0000_0000,
        is_root(d as int, d2 as int),
        d == root(d2 as int),
        d < 0x2_0000_0000,
    ensures
        f == axis_pull(r as int, w as int, d2 as int),
        -0x1000_0000_0000_0000_0000_0000_0000 <= f <= 0x1000_0000_0000_0000_0000_0000_0000,
{
    if w == 0 {
        return 0;
    }
    let length: u128 = if w >= 0 {
        w as u128
    } else {
        (-w) as u128
    };
    let radius: i128 = r as i128;
    assert(0 <= radius * radius <= 0x4000_0000_0000_0000) by (nonlinear_arith)
        requires
            -0x8000_0000 <= radius <= 0x8000_0000,
    ;
    let r2: u128 = (radius * radius) as u128;
    assert(0 <= FORCE_COEFF * r2 <= 10_000 * 0x4000_0000_0000_0000) by (nonlinear_arith)
        requires
            r2 <= 0x4000_0000_0000_0000,
            FORCE_COEFF == 10_000,
    ;
    let scaled: u128 = FORCE_COEFF * r2;
    assert(0 <= scaled * length <= 10_000 * 0x4000_0000_0000_0000 * 0x1_0000_0000)
        by (nonlinear_arith)
        requires
            scaled <= 10_000 * 0x4000_0000_0000_0000,
            length <= 0x1_0000_0000,
    ;
    assert(0 < d) by {
        if d == 0 {
            assert((d + 1) * (d + 1) == 1) by (nonlinear_arith)
                requires
                    d == 0,
            ;
        }
    }
    assert(0 < d2 * d <= 0x4_0000_0000_0000_0000 * 0x2_0000_0000) by (nonlinear_arith)
        requires
            0 < d2 <= 0x4_0000_0000_0000_0000,
            0 < d <= 0x2_0000_0000,
    ;
    let numerator: u128 = scaled * length;
    let denominator: u128 = d2 * d;
    let size: u128 = numerator / denominator;
    assert(size <= numerator) by (nonlinear_arith)
        requires
            size == numerator / denominator,
            0 < denominator,
            0 <= numerator,
    ;
    if w >= 0 {
        -(size as i128)
    } else {
        size as i128
    }
}

/// The force that `me` feels from `other`, along x and along y.
pub fn pull_between(me: &MovingCircle, other: &MovingCircle) -> (force: (i128, i128))
    ensures
        force.0 == pull(*me, *other).0,
        force.1 == pull(*me, *other).1,
        -0x1000_0000_0000_0000_0000_0000_0000 <= force.0 <= 0x1000_0000_0000_0000_0000_0000_0000,
        -0x1000_0000_0000_0000_0000_0000_0000 <= force.1 <= 0x1000_0000_0000_0000_0000_0000_0000,
{
    let d2: u128 = toroidal_distance_squared(other.x, other.y, me.x, me.y);
    if d2 == 0 {
        return (0, 0);
    }
    let d: u128 = integer_root(d2);
    let wx: i64 = offset(other.x, me.x);
    let wy: i64 = offset(other.y, me.y);
    (axis_force(me.r, wx, d2, d), axis_force(me.r, wy, d2, d))
}

/// The force that circle `i` feels from all the others, along x and along y.
pub fn net_force(circles: &Vec<MovingCircle>, i: usize) -> (force: (i128, i128))
    requires
        i < circles@.len() <= MAX_CIRCLES,
    ensures
        force.0 == net_pull(circles@, i as int, circles@.len() as int).0,
        force.1 == net_pull(circles@, i as int, circles@.len() as int).1,
{
    let me: MovingCircle = circles[i];
    let mut fx: i128 = 0;
    let mut fy: i128 = 0;
    let mut j: usize = 0;
    while j < circles.len()
        invariant
            j <= circles@.len() <= MAX_CIRCLES,
            i < circles@.len(),
            me == circles@[i as int],
            fx == net_pull(circles@, i as int, j as int).0,
            fy == net_pull(circles@, i as int, j as int).1,
            -j * 0x1000_0000_0000_0000_0000_0000_0000 <= fx <= j
                * 0x1000_0000_0000_0000_0000_0000_0000,
            -j * 0x1000_0000_0000_0000_0000_0000_0000 <= fy <= j
                * 0x1000_0000_0000_0000_0000_0000_0000,
        decreases circles@.len() - j,
    {
        if j != i {
            let one: (i128, i128) = pull_between(&me, &circles[j]);
            fx = fx + one.0;
            fy = fy + one.1;
        }
        j += 1;
    }
    (fx, fy)
}

/// A velocity after a force has been added to it, held within `V_MAX`.
pub fn accelerate(v: i32, force: i128) -> (w: i32)
    ensures
        w == clamp_velocity(v + force),
        -V_MAX <= w <= V_MAX,
{
    let room_above: i128 = V_MAX as i128 - v as i128;
    let room_below: i128 = -(V_MAX as i128) - v as i128;
    if force > room_above {
        V_MAX
    } else if force < room_below {
        -V_MAX
    } else {
        (v as i128 + force) as i32
    }
}

/// A coordinate after `elapsed` ticks at a velocity within `V_MAX`.
pub fn advance_coord(p: i32, v: i32, elapsed: u32) -> (q: i32)
    requires
        -V_MAX <= v <= V_MAX,
    ensures
        q == advance(p as int, v as int, elapsed as int),
        -UNIT <= q <= UNIT,
{
    let speed: i64 = v as i64;
    let ticks: i64 = elapsed as i64;
    assert(-500_000 * 0x1_0000_0000 <= speed * ticks <= 500_000 * 0x1_0000_0000)
        by (nonlinear_arith)
        requires
            -500_000 <= speed <= 500_000,
            0 <= ticks <= 0x1_0000_0000,
    ;
    let target: i64 = p as i64 + speed * ticks;
    if target < -UNIT {
        UNIT as i32
    } else if target > UNIT {
        (-UNIT) as i32
    } else {
        target as i32
    }
}

/// The circle after the force `(fx, fy)` has acted on it for `elapsed` ticks.
pub fn move_circle(me: &MovingCircle, fx: i128, fy: i128, elapsed: u32) -> (after: MovingCircle)
    ensures
        after == moved(*me, fx as int, fy as int, elapsed as int),
        settled(after),
        after.r == me.r,
{
    let dx: i32 = accelerate(me.dx, fx);
    let dy: i32 = accelerate(me.dy, fy);
    MovingCircle {
        x: advance_coord(me.x, dx, elapsed),
        y: advance_coord(me.y, dy, elapsed),
        r: me.r,
        dx,
        dy,
    }
}

/// Advances every circle by one step of `elapsed` ticks. Each circle's force
/// is taken from the state before the step. A state of more than
/// `MAX_CIRCLES` circles is refused and left as it is.
pub fn step(circles: &mut Vec<MovingCircle>, elapsed: u32) -> (outcome: Result<(), MotionError>)
    ensures
        outcome is Ok <==> old(circles)@.len() <= MAX_CIRCLES,
        outcome is Err ==> outcome == Err::<(), MotionError>(MotionError::TooManyCircles)
            && final(circles)@ == old(circles)@,
        outcome is Ok ==> final(circles)@.len() == old(circles)@.len(),
        outcome is Ok ==> forall|i: int|
            0 <= i < old(circles)@.len() ==> #[trigger] final(circles)@[i] == stepped(
                old(circles)@,
                i,
                elapsed as int,
            ),
        outcome is Ok ==> forall|i: int|
            0 <= i < old(circles)@.len() ==> settled(#[trigger] final(circles)@[i])
                && final(circles)@[i].r == old(circles)@[i].r,
{
    if circles.len() > MAX_CIRCLES {
        return Err(MotionError::TooManyCircles);
    }
    let mut next: Vec<MovingCircle> = Vec::with_capacity(circles.len());
    let mut i: usize = 0;
    while i < circles.len()
        invariant
            circles@ == old(circles)@,
            i <= circles@.len() <= MAX_CIRCLES,
            next@.len() == i,
            forall|k: int|
                0 <= k < i ==> #[trigger] next@[k] == stepped(circles@, k, elapsed as int),
            forall|k: int|
                0 <= k < i ==> settled(#[trigger] next@[k]) && next@[k].r == circles@[k].r,
        decreases circles@.len() - i,
    {
        let force: (i128, i128) = net_force(circles, i);
        let after: MovingCircle = move_circle(&circles[i], force.0, force.1, elapsed);
        next.push(after);
        i += 1;
    }
    *circles = next;
    Ok(())
}

} // verus!
