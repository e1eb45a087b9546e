//! A mesh placed in the world.

use vstd::prelude::*;

use crate::gfx::transform::Transform;
use crate::mesh::Mesh;

verus! {

/// A mesh together with the transform that places it.
pub struct Model {
    pub mesh: Mesh,
    pub transform: Transform,
}

impl Model {
    /// The model drawing `mesh` at `transform`.
    pub fn new(mesh: Mesh, transform: Transform) -> (m: Self)
        ensures
            m.mesh == mesh,
            m.transform == transform,
    {
        Self { mesh, transform }
    }
}

} // verus!
