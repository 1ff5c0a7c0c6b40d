//! Escape-time rendering of the Mandelbrot set.
//!
//! The library classifies points of the complex plane by how quickly the
//! orbit of `z <- z * z + c` escapes a fixed radius, samples a rectangular
//! region of the plane over a pixel grid, and maps every escape count to a
//! display color. Complex values are carried as opaque `complex_numbers`
//! values; the arithmetic on them stands behind a small trusted layer, and
//! everything around it -- the iteration loop, the grid traversal and the
//! color rule -- is verified.

pub mod color;
pub mod complex;
pub mod escape;
pub mod grid;
