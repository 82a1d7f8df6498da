//! The metaball field and its samples on the lattice.
//!
//! A circle of radius `r` adds `r^2 / d^2` to the field at a point whose
//! distance from its centre, on the torus, is `d`. The field at a point is the
//! sum over all circles, held down to `CEILING`. At a circle's own centre the
//! term has no value; there the field is `CEILING`.

use vstd::prelude::*;
use crate::fixed::{CEILING, GRID_LEN, SAMPLES, STEP, UNIT};
use crate::torus::{distance_squared, toroidal_distance_squared};

verus! {

/// An influence source: a centre and a radius, each in `UNIT`-ths.
#[derive(Clone, Copy, Debug, PartialEq, Eq, Structural)]
pub struct Circle {
    pub x: i32,
    pub y: i32,
    pub r: i32,
}

/// The smaller of two integers.
pub open spec fn least(a: int, b: int) -> int {
    if a <= b {
        a
    } else {
        b
    }
}

/// What one circle adds to the field at `(px, py)`, held down to `CEILING`:
/// `r^2 / d^2` in `UNIT`-ths, rounded down, and `CEILING` at the centre itself.
pub open spec fn contribution(c: Circle, px: int, py: int) -> int {
    let d2 = distance_squared(c.x as int, c.y as int, px, py);
    if d2 == 0 {
        CEILING as int
    } else {
        least(CEILING as int, ((c.r as int) * (c.r as int) * UNIT) / d2)
    }
}

/// Sum of the contributions of all circles at `(px, py)`.
pub open spec fn field_sum(circles: Seq<Circle>, px: int, py: int) -> int
    decreases circles.len(),
{
    if circles.len() == 0 {
        0
    } else {
        field_sum(circles.drop_last(), px, py) + contribution(circles.last(), px, py)
    }
}

/// The field at `(px, py)`: the sum of the contributions, held down to `CEILING`.
pub open spec fn field_at(circles: Seq<Circle>, px: int, py: int) -> int {
    least(CEILING as int, field_sum(circles, px, py))
}

/// Coordinate of the lattice line with the given index: line 0 lies at `-UNIT`,
/// line `CELLS` at `UNIT`.
pub open spec fn grid_coord(index: int) -> int {
    index * STEP - UNIT
}

/// The sample with row-major position `i`: the field at column `i % SAMPLES`,
/// row `i / SAMPLES`.
pub open spec fn grid_sample(circles: Seq<Circle>, i: int) -> int {
    field_at(circles, grid_coord(i % (SAMPLES as int)), grid_coord(i / (SAMPLES as int)))
}

/// The lattice of samples, row by row.
pub open spec fn field_grid(circles: Seq<Circle>) -> Seq<i64> {
    Seq::new(GRID_LEN as nat, |i: int| grid_sample(circles, i) as i64)
}

/// A contribution is never negative and never above `CEILING`, whatever the sign
/// of the radius.
pub proof fn lemma_contribution_bounds(c: Circle, px: int, py: int)
    ensures
        0 <= contribution(c, px, py) <= CEILING,
{
    let d2 = distance_squared(c.x as int, c.y as int, px, py);
    let r = c.r as int;
    crate::torus::lemma_distance_at_most_plain(c.x as int, c.y as int, px, py);
    if d2 != 0 {
        assert(0 <= r * r * UNIT) by (nonlinear_arith);
        assert(0 <= (r * r * UNIT) / d2) by (nonlinear_arith)
            requires
                0 <= r * r * UNIT,
                0 < d2,
        ;
    }
}

/// The field lies between zero and `CEILING` at every point, for any circles.
pub proof fn lemma_field_bounds(circles: Seq<Circle>, px: int, py: int)
    ensures
        0 <= field_sum(circles, px, py),
        0 <= field_at(circles, px, py) <= CEILING,
    decreases circles.len(),
{
    if circles.len() > 0 {
        lemma_field_bounds(circles.drop_last(), px, py);
        lemma_contribution_bounds(circles.last(), px, py);
    }
}

/// With no circles the field is zero everywhere.
pub proof fn lemma_empty_field(px: int, py: int)
    ensures
        field_at(Seq::<Circle>::empty(), px, py) == 0,
{
}

/// What `c` adds to the field at `(px, py)`.
pub fn contribution_at(c: &Circle, px: i32, py: i32) -> (v: i64)
    ensures
        v == contribution(*c, px as int, py as int),
        0 <= v <= CEILING,
{
    proof {
        lemma_contribution_bounds(*c, px as int, py as int);
    }
    let d2: u128 = toroidal_distance_squared(c.x, c.y, px, py);
    if d2 == 0 {
        return CEILING;
    }
    let r: i128 = c.r as i128;
    assert(0 <= r * r <= 0x4000_0000_0000_0000) by (nonlinear_arith)
        requires
            -0x8000_0000 <= r <= 0x8000_0000,
    ;
    let r2: u128 = (r * r) as u128;
    assert(r2 * (UNIT as u128) <= 0x4000_0000_0000_0000 * 1_000_000_000) by (nonlinear_arith)
        requires
            r2 <= 0x4000_0000_0000_0000,
            UNIT == 1_000_000_000,
    ;
    let quotient: u128 = (r2 * (UNIT as u128)) / d2;
    if quotient > CEILING as u128 {
        CEILING
    } else {
        quotient as i64
    }
}

/// The field of `circles` at `(px, py)`.
pub fn sample(circles: &Vec<Circle>, px: i32, py: i32) -> (v: i64)
    ensures
        v == field_at(circles@, px as int, py as int),
        0 <= v <= CEILING,
{
    let mut total: i64 = 0;
    let mut k: usize = 0;
    while k < circles.len()
        invariant
            k <= circles.len(),
            0 <= total <= CEILING,
            total == field_at(circles@.take(k as int), px as int, py as int),
        decreases circles.len() - k,
    {
        let term: i64 = contribution_at(&circles[k], px, py);
        proof {
            let next = circles@.take(k + 1);
            assert(next.drop_last() =~= circles@.take(k as int));
            assert(next.last() == circles@[k as int]);
            lemma_field_bounds(circles@.take(k as int), px as int, py as int);
        }
        total = if total + term > CEILING {
            CEILING
        } else {
            total + term
        };
        k += 1;
    }
    assert(circles@.take(k as int) =~= circles@);
    total
}

/// Coordinate of the lattice line with the given index.
pub fn line_coord(index: usize) -> (p: i32)
    requires
        index < SAMPLES,
    ensures
        p == grid_coord(index as int),
        -UNIT <= p <= UNIT,
{
    (index as i64 * STEP - UNIT) as i32
}

/// Samples the field of `circles` on the whole lattice, row by row.
pub fn sample_grid(circles: &Vec<Circle>) -> (grid: Vec<i64>)
    ensures
        grid@.len() == GRID_LEN,
        grid@ == field_grid(circles@),
        forall|i: int| 0 <= i < GRID_LEN ==> 0 <= #[trigger] grid@[i] <= CEILING,
{
    let mut grid: Vec<i64> = Vec::with_capacity(GRID_LEN);
    let mut row: usize = 0;
    while row < SAMPLES
        invariant
            row <= SAMPLES,
            grid@.len() == row * SAMPLES,
            forall|i: int| 0 <= i < grid@.len() ==> #[trigger] grid@[i] == grid_sample(circles@, i),
            forall|i: int| 0 <= i < grid@.len() ==> 0 <= #[trigger] grid@[i] <= CEILING,
        decreases SAMPLES - row,
    {
        let py: i32 = line_coord(row);
        let mut col: usize = 0;
        while col < SAMPLES
            invariant
                row < SAMPLES,
                col <= SAMPLES,
                py == grid_coord(row as int),
                grid@.len() == row * SAMPLES + col,
                forall|i: int|
                    0 <= i < grid@.len() ==> #[trigger] grid@[i] == grid_sample(circles@, i),
                forall|i: int| 0 <= i < grid@.len() ==> 0 <= #[trigger] grid@[i] <= CEILING,
            decreases SAMPLES - col,
        {
            let px: i32 = line_coord(col);
            let value: i64 = sample(circles, px, py);
            proof {
                let i = grid@.len() as int;
                assert(i % (SAMPLES as int) == col);
                assert(i / (SAMPLES as int) == row);
            }
            grid.push(value);
            col += 1;
        }
        row += 1;
    }
    assert(grid@ =~= field_grid(circles@));
    grid
}

} // verus!
