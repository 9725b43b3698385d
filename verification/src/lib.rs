//! Anomaly-detection postprocessing and visualization.
//!
//! The crate turns the numeric output tensors of an external inference engine
//! into per-item results (quantized single-channel heat rasters with attached
//! confidence scores) and renders those rasters onto a caller-owned canvas.
//! Tensor values are carried as fixed-point numbers (see [`fixed`]), so the
//! clamping and quantization rules are exact integer arithmetic.
use vstd::prelude::*;

pub mod config;
pub mod fixed;
pub mod heatmap;
pub mod models;
pub mod raster;
pub mod render;
pub mod strategy;
pub mod style;
pub mod tensor;
pub mod y;

verus! {

/// The error kinds this crate's fallible operations surface.  A failure of
/// the external inference engine is no kind of this library's: the callers
/// that run the engine pass it through unchanged, with its content, beside
/// these.
#[derive(Clone, Copy, Debug, PartialEq, Eq, Structural)]
pub enum Error {
    /// Fewer output tensors than the strategy requires, or a tensor whose
    /// rank or dimensions do not fit the expected layout convention.
    ShapeMismatch,
    /// A raw pixel buffer whose size does not match the declared
    /// width times height of the raster being built.
    BufferConstructionFailure,
}

} // verus!
