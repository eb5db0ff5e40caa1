//! Integer core of a small Whitted-style ray tracer: the row-major
//! framebuffer, the mapping from a pixel to its primary ray on the image
//! plane, the checkerboard tiling, and the byte layout of an 8-bit RGB image.
pub mod camera;
pub mod checker;
pub mod framebuffer;

pub use framebuffer::Framebuffer;
