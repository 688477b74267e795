//! Core of a small deferred-shading renderer: scene and camera data model,
//! resource table, vertex layout arithmetic, and the multi-pass frame
//! protocol, expressed as a backend-agnostic command plan.

pub mod algebra;
pub mod camera;
pub mod command;
pub mod framebuffer;
pub mod geo;
pub mod light;
pub mod math;
pub mod material;
pub mod mesh;
pub mod render_object;
pub mod renderer;
pub mod resources;
pub mod scene;
pub mod shader;
pub mod texture;
pub mod timer;
pub mod transform;
pub mod vertex;
