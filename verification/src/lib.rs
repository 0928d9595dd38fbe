//! A small real-time particle simulation: a fixed-timestep physics core with
//! render-state interpolation, the vector and matrix types it is built on,
//! and the plain data types the windowing and rendering layers exchange.
//!
//! Every real quantity is a [`fixed::Fixed`], a saturating fixed-point number,
//! so that the simulation is exact, reproducible and provable.

pub mod fixed;
pub mod number;
pub mod utility;
pub mod sequence;
pub mod vec2;
pub mod vec3;
pub mod vec4;
pub mod mat2x3;
pub mod mat4;
pub mod colors;
pub mod colormap;
pub mod unique_resource;
pub mod scope_guard;
pub mod random;
pub mod particles;
pub mod world;
pub mod laws;
pub mod keysyms;
pub mod events;
pub mod x11_input;
pub mod win32_input;
pub mod renderer;
