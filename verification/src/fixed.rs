//! The fixed-point scale and the constants of the lattice.

use vstd::prelude::*;

verus! {

/// The integer that stands for the real number one.
pub const UNIT: i64 = 1_000_000_000;

/// The side length of the toroidal domain, two in real terms.
pub const SPAN: i64 = 2_000_000_000;

/// The largest field intensity that is ever stored, one hundred in real terms.
pub const CEILING: i64 = 100_000_000_000;

/// Cells per axis of the lattice.
pub const CELLS: usize = 100;

/// Samples per axis of the lattice: one more than the cells.
pub const SAMPLES: usize = 101;

/// Distance between neighbouring samples, `SPAN / CELLS`.
pub const STEP: i64 = 20_000_000;

/// Number of samples of the whole lattice, `SAMPLES * SAMPLES`.
pub const GRID_LEN: usize = 10201;

/// Number of vertex intensities of the packed mesh, `CELLS * CELLS * 6`.
pub const MESH_LEN: usize = 60000;

/// The constants agree with one another.
pub proof fn lemma_constants()
    ensures
        SPAN == 2 * UNIT,
        CEILING == 100 * UNIT,
        SAMPLES == CELLS + 1,
        STEP * CELLS == SPAN,
        GRID_LEN == SAMPLES * SAMPLES,
        MESH_LEN == CELLS * CELLS * 6,
{
}

} // verus!
