//! Packing a lattice of samples into a triangle list.
//!
//! Each cell of the lattice becomes two triangles that share the diagonal
//! from its top-left to its bottom-right corner. Only intensities are stored:
//! a renderer rebuilds the positions from the same layout. The packing moves
//! samples and never reads them, so it serves any sample type.

use vstd::prelude::*;
use crate::fixed::{CELLS, GRID_LEN, MESH_LEN, SAMPLES};

verus! {

/// Row offset, within its cell, of the corner that vertex `k` of the cell takes.
pub open spec fn corner_row(k: int) -> int {
    if k == 1 || k == 2 || k == 5 {
        1
    } else {
        0
    }
}

/// Column offset, within its cell, of the corner that vertex `k` of the cell takes.
pub open spec fn corner_col(k: int) -> int {
    if k == 2 || k == 4 || k == 5 {
        1
    } else {
        0
    }
}

/// Row-major position of the sample at `(row, col)`.
pub open spec fn grid_index(row: int, col: int) -> int {
    row * (SAMPLES as int) + col
}

/// Position in the lattice of the sample that mesh vertex `i` repeats.
pub open spec fn vertex_source(i: int) -> int {
    let cell = i / 6;
    let k = i % 6;
    grid_index(cell / (CELLS as int) + corner_row(k), cell % (CELLS as int) + corner_col(k))
}

/// The triangle list of a lattice: `MESH_LEN` intensities, six per cell, cells in
/// row-major order.
pub open spec fn mesh_of<T>(grid: Seq<T>) -> Seq<T> {
    Seq::new(MESH_LEN as nat, |i: int| grid[vertex_source(i)])
}

/// Every mesh vertex repeats a sample that the lattice holds.
pub proof fn lemma_vertex_source_in_grid(i: int)
    requires
        0 <= i < MESH_LEN,
    ensures
        0 <= vertex_source(i) < GRID_LEN,
{
}

/// Vertex `k` of the cell at `(row, col)` repeats the corner of that cell which
/// `corner_row` and `corner_col` give: top-left, bottom-left, bottom-right, then
/// top-left, top-right, bottom-right.
pub proof fn lemma_cell_vertex<T>(grid: Seq<T>, row: int, col: int, k: int)
    requires
        grid.len() == GRID_LEN,
        0 <= row < CELLS,
        0 <= col < CELLS,
        0 <= k < 6,
    ensures
        0 <= (row * CELLS + col) * 6 + k < MESH_LEN,
        mesh_of(grid)[(row * CELLS + col) * 6 + k] == grid[grid_index(
            row + corner_row(k),
            col + corner_col(k),
        )],
{
}

/// A bound that holds of every sample holds of every mesh vertex.
pub proof fn lemma_mesh_within(grid: Seq<i64>, low: int, high: int)
    requires
        grid.len() == GRID_LEN,
        forall|j: int| 0 <= j < grid.len() ==> low <= #[trigger] grid[j] <= high,
    ensures
        mesh_of(grid).len() == MESH_LEN,
        forall|i: int| 0 <= i < MESH_LEN ==> low <= #[trigger] mesh_of(grid)[i] <= high,
{
    assert forall|i: int| 0 <= i < MESH_LEN implies low <= #[trigger] mesh_of(grid)[i] <= high by {
        lemma_vertex_source_in_grid(i);
    }
}

/// Packs a lattice of `GRID_LEN` samples into its triangle list.
pub fn pack_mesh<T: Copy>(grid: &Vec<T>) -> (mesh: Vec<T>)
    requires
        grid@.len() == GRID_LEN,
    ensures
        mesh@.len() == MESH_LEN,
        mesh@ == mesh_of(grid@),
{
    let mut mesh: Vec<T> = Vec::with_capacity(MESH_LEN);
    let mut row: usize = 0;
    while row < CELLS
        invariant
            row <= CELLS,
            grid@.len() == GRID_LEN,
            mesh@.len() == row * CELLS * 6,
            forall|i: int| 0 <= i < mesh@.len() ==> mesh@[i] == grid@[vertex_source(i)],
        decreases CELLS - row,
    {
        let mut col: usize = 0;
        while col < CELLS
            invariant
                row < CELLS,
                col <= CELLS,
                grid@.len() == GRID_LEN,
                mesh@.len() == (row * CELLS + col) * 6,
                forall|i: int| 0 <= i < mesh@.len() ==> mesh@[i] == grid@[vertex_source(i)],
            decreases CELLS - col,
        {
            let top_left: T = grid[row * SAMPLES + col];
            let top_right: T = grid[row * SAMPLES + col + 1];
            let bottom_left: T = grid[(row + 1) * SAMPLES + col];
            let bottom_right: T = grid[(row + 1) * SAMPLES + col + 1];
            let ghost base: int = mesh@.len() as int;
            mesh.push(top_left);
            mesh.push(bottom_left);
            mesh.push(bottom_right);
            mesh.push(top_left);
            mesh.push(top_right);
            mesh.push(bottom_right);
            proof {
                assert forall|i: int| base <= i < base + 6 implies mesh@[i] == grid@[vertex_source(
                    i,
                )] by {
                    assert(i / 6 == row * CELLS + col);
                    assert((row * CELLS + col) / (CELLS as int) == row);
                    assert((row * CELLS + col) % (CELLS as int) == col);
                }
            }
            col += 1;
        }
        row += 1;
    }
    assert(mesh@ =~= mesh_of(grid@));
    mesh
}

} // verus!
