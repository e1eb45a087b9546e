//! Verified core of a small wgpu renderer: scene handles, frame timing,
//! mesh assembly, texture upload planning and GPU byte layouts.

pub mod bytes;
pub mod entity;
pub mod fps;
pub mod gfx;
pub mod layout;
pub mod mesh;
pub mod model;
pub mod renderer;
pub mod scene;
pub mod timestep;
pub mod vertex;
