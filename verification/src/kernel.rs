//! Kernels with fixed coefficients, commonly used for edge detection.
pub mod laplacian;
pub mod sobel;
