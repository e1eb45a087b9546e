use vstd::prelude::*;

verus! {

/// `glam::Vec3`, carried through the library without being read.
#[verifier::external_type_specification]
#[verifier::external_body]
pub struct ExVec3(glam::Vec3);

/// `glam::Quat`, carried through the library without being read.
#[verifier::external_type_specification]
#[verifier::external_body]
pub struct ExQuat(glam::Quat);

/// Placement of an object in the world: position, rotation and scale.
pub struct Transform {
    pub position: glam::Vec3,
    pub rotation: glam::Quat,
    pub scale: glam::Vec3,
}

impl Transform {
    /// Builds a transform from its three parts.
    pub fn new(position: glam::Vec3, rotation: glam::Quat, scale: glam::Vec3) -> (t: Self)
        ensures
            t.position == position,
            t.rotation == rotation,
            t.scale == scale,
    {
        Transform { position, rotation, scale }
    }
}

} // verus!
