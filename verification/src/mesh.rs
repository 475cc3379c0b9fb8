//! Records kept by the preloaded mesh store. The store owns long-lived GPU
//! vertex and index buffers outside this core; replay only needs each mesh's
//! pipeline variant and its vertex or index count, so those are what the
//! records hold.

use vstd::prelude::*;
use crate::pipeline::Pipeline;

verus! {

/// A preloaded non-indexed mesh: its resident vertex buffer is keyed by the
/// mesh's id in the store.
#[derive(Clone, Copy, Debug, Eq, PartialEq)]
pub struct Mesh {
    pub vertex_count: u32,
    pub pipeline: Pipeline,
}

/// A preloaded indexed mesh: its resident vertex and index buffers are keyed
/// by the mesh's id in the store.
#[derive(Clone, Copy, Debug, Eq, PartialEq)]
pub struct IndexedMesh {
    pub index_count: u32,
    pub pipeline: Pipeline,
}

/// The index list of the shared unit quad, two counter-clockwise triangles.
pub fn quad_indices() -> (r: [u16; 6])
    ensures
        r@ == seq![0u16, 1u16, 2u16, 2u16, 3u16, 0u16],
{
    let r = [0u16, 1, 2, 2, 3, 0];
    proof {
        assert(r@ =~= seq![0u16, 1u16, 2u16, 2u16, 3u16, 0u16]);
    }
    r
}

} // verus!
