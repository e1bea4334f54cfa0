use vstd::prelude::*;
use crate::gpu::{basic_mesh, normal_mapped_mesh};

verus! {

/// A basic mesh in the resource table, with its per-instance matrices.
pub struct Basic<M> {
    pub resource: basic_mesh::Mesh,
    pub model_matrix: M,
    pub normal_matrix: M,
}

/// A normal-mapped mesh in the resource table, with its per-instance
/// matrices.
pub struct NormalMapped<M> {
    pub resource: normal_mapped_mesh::Mesh,
    pub model_matrix: M,
    pub normal_matrix: M,
}

} // verus!
