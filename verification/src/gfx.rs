//! Graphics-side data: transforms, vertices, materials and scenes.

pub mod material;
pub mod scene;
pub mod transform;
pub mod vertex;
