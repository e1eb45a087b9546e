//! Mesh loading and scene storage used by the renderer.

pub mod mesh;
pub mod scene;
