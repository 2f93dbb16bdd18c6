//! The rendering core of an interactive Mandelbrot viewer: the hue gradient,
//! the colouring of escape results, the assembly of the pixel buffer, the
//! render worker's command coalescing and the session's decisions on input
//! events.

pub mod fixed;
pub mod pixel;
pub mod palette;
pub mod escape;
pub mod image;
pub mod scheduler;
pub mod session;
