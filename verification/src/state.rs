//! The sampler's reusable buffers.

use vstd::prelude::*;
use crate::field::{field_grid, sample_grid, Circle};
use crate::fixed::{CEILING, GRID_LEN, MESH_LEN};
use crate::mesh::{lemma_mesh_within, mesh_of, pack_mesh};

verus! {

/// The lattice of samples and the triangle list packed from it, as of the last
/// update.
pub struct MetaballState {
    points: Vec<i64>,
    weights: Vec<i64>,
}

/// A buffer of `len` zeros.
fn zeros(len: usize) -> (buffer: Vec<i64>)
    ensures
        buffer@.len() == len,
        forall|i: int| 0 <= i < len ==> buffer@[i] == 0,
{
    let mut buffer: Vec<i64> = Vec::with_capacity(len);
    while buffer.len() < len
        invariant
            buffer@.len() <= len,
            forall|i: int| 0 <= i < buffer@.len() ==> buffer@[i] == 0,
        decreases len - buffer@.len(),
    {
        buffer.push(0);
    }
    buffer
}

impl MetaballState {
    /// The samples of the lattice, row by row.
    pub closed spec fn points(&self) -> Seq<i64> {
        self.points@
    }

    /// The vertex intensities of the mesh, six per cell.
    pub closed spec fn weights(&self) -> Seq<i64> {
        self.weights@
    }

    /// Both buffers have their fixed lengths, each value lies between zero and
    /// `CEILING`, and the mesh is the one packed from the samples.
    pub open spec fn wf(&self) -> bool {
        &&& self.points().len() == GRID_LEN
        &&& self.weights().len() == MESH_LEN
        &&& self.weights() == mesh_of(self.points())
        &&& forall|i: int| 0 <= i < GRID_LEN ==> 0 <= #[trigger] self.points()[i] <= CEILING
        &&& forall|i: int| 0 <= i < MESH_LEN ==> 0 <= #[trigger] self.weights()[i] <= CEILING
    }

    /// A state whose field is zero everywhere.
    pub fn new() -> (state: MetaballState)
        ensures
            state.wf(),
            forall|i: int| 0 <= i < GRID_LEN ==> state.points()[i] == 0,
            forall|i: int| 0 <= i < MESH_LEN ==> state.weights()[i] == 0,
    {
        let state = MetaballState { points: zeros(GRID_LEN), weights: zeros(MESH_LEN) };
        proof {
            assert forall|i: int| 0 <= i < MESH_LEN implies state.weights@[i] == mesh_of(
                state.points@,
            )[i] by {
                crate::mesh::lemma_vertex_source_in_grid(i);
            }
            assert(state.weights@ =~= mesh_of(state.points@));
        }
        state
    }

    /// Samples the field of `circles` on the lattice, packs the mesh anew and
    /// returns it. Nothing of the earlier contents remains.
    pub fn update_weights(&mut self, circles: &Vec<Circle>) -> (buffer: &Vec<i64>)
        ensures
            final(self).wf(),
            final(self).points() == field_grid(circles@),
            final(self).weights() == mesh_of(field_grid(circles@)),
            buffer@ == final(self).weights(),
    {
        let points: Vec<i64> = sample_grid(circles);
        let weights: Vec<i64> = pack_mesh(&points);
        proof {
            lemma_mesh_within(points@, 0, CEILING as int);
        }
        self.points = points;
        self.weights = weights;
        &self.weights
    }

    /// The samples of the lattice as of the last update.
    pub fn grid_samples(&self) -> (samples: &Vec<i64>)
        ensures
            samples@ == self.points(),
    {
        &self.points
    }

    /// The vertex intensities of the mesh as of the last update.
    pub fn vertex_weights(&self) -> (buffer: &Vec<i64>)
        ensures
            buffer@ == self.weights(),
    {
        &self.weights
    }
}

} // verus!
