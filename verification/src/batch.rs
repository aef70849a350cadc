//! Batch storage: visible scene instances grouped by (material,
//! geometry) pairs, ready for submission. Instances of one batch share
//! one material state and one vertex layout, so a pass binds one
//! program and one geometry buffer per batch.

use vstd::prelude::*;
use crate::cache::{ShaderResource, SurfaceResource};
use crate::math::Mat4;
use crate::scene::Handle;

verus! {

/// One drawable instance of a batch.
#[derive(Clone, Debug, PartialEq, Eq)]
pub struct SurfaceInstance {
    pub world_transform: Mat4,
    pub bone_matrices: Vec<Mat4>,
    pub owner: Handle,
}

/// A group of instances sharing one material and one geometry.
#[derive(Clone, Debug, PartialEq, Eq)]
pub struct Batch {
    /// The material's shader asset snapshot.
    pub material: ShaderResource,
    /// The shared geometry data snapshot.
    pub data: SurfaceResource,
    pub instances: Vec<SurfaceInstance>,
    pub is_skinned: bool,
}

/// The per-frame collection of batches, handed over complete and
/// immutable for the frame by the scene producers.
pub struct BatchStorage {
    pub batches: Vec<Batch>,
}

impl BatchStorage {
    /// An empty storage.
    pub fn new() -> (r: BatchStorage)
        ensures
            r.batches@.len() == 0,
    {
        BatchStorage { batches: Vec::new() }
    }
}

} // verus!
