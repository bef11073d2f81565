//! GPU texture backend core: creation of sampled textures (single image and
//! stacked arrays), off-screen render targets, and pixel readback from GPU
//! memory into CPU-side pixel buffers.
//!
//! All CPU-side pixel data uses one fixed layout: 4 bytes per pixel in the
//! order B, G, R, A, row-major, with no padding between rows.

pub mod drawable;
pub mod gpu;
pub mod pixel;
pub mod rows;
pub mod texture;
pub mod transform;
