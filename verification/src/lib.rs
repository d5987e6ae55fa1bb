//! A software (CPU-only) 3D rasterizer core.
//!
//! Triangle meshes are transformed through a model -> world -> view ->
//! projection pipeline and rasterized into a pixel buffer with per-pixel
//! depth testing and per-vertex lighting.
//!
//! All geometry is carried in signed 64-bit fixed-point numbers with a
//! scale of 2^16 (see the `fx` module); the window system and model
//! loading live outside this crate and only hand plain values in.

pub mod display;
pub mod matrix;
pub mod mesh;
pub mod rasterization;
pub mod vector;
pub mod fx;
