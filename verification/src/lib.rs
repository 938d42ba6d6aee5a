//! Discrete two-dimensional convolution of a rectangular grid of samples
//! with a kernel grid, with zero padding at the border.
//!
//! The engine is written once against the [`Matrix`] interface, so it works
//! on any backing storage, and once over the element type, so the same pass
//! serves single-channel samples and multi-channel [`SubPixels`]. It comes in
//! a plain variant (`*` and `+`) and in a saturating variant
//! ([`SaturatingMul`] and [`SaturatingAdd`]).
//!
//! Every executable function carries a contract over a mathematical model of
//! its arguments: a grid is its width, its height and the sequence of its
//! cells in row-major order, and the result of a convolution is the
//! sequence [`model::convolution`].
pub mod convolution;
pub mod kernel;
pub mod laws;
pub mod matrix;
pub mod model;
pub mod saturating;
pub mod subpixels;

pub use crate::convolution::{
    accumulated_cell, alignment_of_tap, alignment_to_choke_padding, alignments_fit_in, convolve2d,
    convolve2d_saturating, saturating_accumulated_cell, saturating_scaled_element, scaled_element,
    update_buffer, update_buffer_saturating, write_convolution, write_convolution_saturating,
};
pub use crate::matrix::{DynamicMatrix, FlippedMatrix, Matrix, MatrixMut, StaticMatrix};
pub use crate::saturating::{SaturatingAdd, SaturatingMul};
pub use crate::subpixels::SubPixels;
