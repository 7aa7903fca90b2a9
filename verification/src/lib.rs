//! Verified core of a spectrogram renderer.
//!
//! The library covers the numeric pipeline that turns a flat sample
//! sequence into a colored pixel grid: the frame layout of the short-time
//! Fourier transform, the color tables and gradient lookup, and the
//! resampling / max-pooling rasterizer that maps a matrix of gradient
//! indices to an RGB image. Floating-point evaluation (window
//! coefficients, the FFT itself, decibel conversion and HSL
//! interpolation) lives outside the verified core; the functions here
//! receive and produce plain integer data.

pub mod audio;
pub mod cli;
pub mod raster;
pub mod scalc;
pub mod srend;
