use vstd::prelude::*;

use crate::gfx::transform::Transform;

verus! {

/// Something that lives in the world and owns a transform.
pub struct Entity {
    pub transform: Transform,
}

impl Entity {
    /// An entity placed at `transform`.
    pub fn new(transform: Transform) -> (e: Self)
        ensures
            e.transform == transform,
    {
        Self { transform }
    }
}

} // verus!
