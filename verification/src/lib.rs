//! Verified core of a small spinning-cube renderer: the procedural
//! checkerboard texture, the cube mesh and its index buffer, the vertex
//! layout, the spotlight preset cycle and the window/frame control logic.
//! Everything that talks to the GPU, the window system or floating point
//! lives outside this crate.

pub mod mesh;
pub mod gpu;
pub mod light;
pub mod controls;
