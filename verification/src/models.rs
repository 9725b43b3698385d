//! The supported model families.
//!
//! Each model is a thin value: the declared input size its external
//! preprocessor should use, and the postprocessing strategy configuration of
//! its family.  `forward` maps the engine's output tensors for one call to
//! one result per batch item; the callers that run the external engine hand
//! its outputs here.
pub mod dinomaly;
pub mod glass;
pub mod uninet;
