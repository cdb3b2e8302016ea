//! The rendering core of a small 3D viewer: a frame-driven value animator,
//! a lazily compiled shader-program cache, polygon fan triangulation and the
//! bookkeeping of the GPU objects that a renderer owns.
//!
//! Everything here works on plain values. GPU objects are named by the
//! integer handles that the graphics driver gives out; the code that talks to
//! the driver performs the actions that these types decide on.

pub mod animation;
pub mod command;
pub mod gpu;
pub mod polygon;
pub mod program;
