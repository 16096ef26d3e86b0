//! Verified core of a Mandelbrot-set renderer.
//!
//! The library covers the integer-valued parts of the pipeline: the pixel
//! grid with its row-major enumeration order, the RGB color samples, and the
//! binary PPM (P6) encoding of a finished pixel buffer. The floating-point
//! escape-time iteration itself lives outside the library.

pub mod image;
pub mod ppm;
