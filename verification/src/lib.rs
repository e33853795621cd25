//! Core of a small recursive ray tracer.
//!
//! The scene geometry, shading and windowing live in the host program; this
//! crate holds the exactly-specified integer core that the renderer is built
//! on: the frame buffer, texel addressing and bilinear blending for texture
//! sampling, and the row-major pixel enumeration that fixes the order in
//! which rays are traced and pixel bytes are written.

pub mod frame_buffer;
pub mod raster;
pub mod texture;
