//! A square grid of pixel intensities loaded from an image, and grid points
//! addressed by their row-major index.

pub mod decode;
pub mod matrix;
pub mod point;

pub use matrix::{LoadError, Matrix};
pub use point::Point;
