//! The UniNet model family: dual-tensor postprocessing.
//!
//! As Dinomaly: tensor 0 is the global anomaly score and tensor 2 the
//! spatial map, but only three tensors are required and the declared input
//! size falls back to 392.
use vstd::prelude::*;

use crate::config::{spec_ixx, Config};
use crate::strategy::{run_strategy, strategy_post, Convention, StrategyCfg};
use crate::tensor::Tensor;
use crate::y::Y;
use crate::Error;

verus! {

/// The declared input size used when the configuration gives none.
pub const UNINET_DEFAULT_SIZE: u64 = 392;

/// The UniNet anomaly-detection model.
pub struct UniNet {
    input_height: u64,
    input_width: u64,
    strategy: StrategyCfg,
}

impl UniNet {
    /// The declared input height its preprocessor should use.
    pub closed spec fn spec_input_height(self) -> u64 {
        self.input_height
    }

    /// The declared input width its preprocessor should use.
    pub closed spec fn spec_input_width(self) -> u64 {
        self.input_width
    }

    /// The postprocessing strategy configuration.
    pub closed spec fn spec_strategy(self) -> StrategyCfg {
        self.strategy
    }

    #[verifier::type_invariant]
    pub open spec fn wf(self) -> bool {
        self.spec_strategy().wf()
    }

    /// Build the model from its configuration.  The declared input size
    /// comes from the configuration's input-0 axes 2 and 3, with 392 as the
    /// fallback; the strategy is the dual-tensor convention with the score
    /// in tensor 0, the map in tensor 2, and three tensors required.
    pub fn new(config: &Config) -> (r: UniNet)
        ensures
            r.spec_input_height() == match spec_ixx(config.spec_model_ixx(), 0, 2) {
                Some(v) => v,
                None => UNINET_DEFAULT_SIZE,
            },
            r.spec_input_width() == match spec_ixx(config.spec_model_ixx(), 0, 3) {
                Some(v) => v,
                None => UNINET_DEFAULT_SIZE,
            },
            r.spec_strategy() == (StrategyCfg {
                convention: Convention::Dual { score_idx: 0, map_idx: 2 },
                min_tensors: 3,
                edge_ignore_pixels: 0,
                resize: None,
                mean_prob: false,
            }),
    {
        let input_height: u64 = match config.try_height() {
            Some(v) => v,
            None => UNINET_DEFAULT_SIZE,
        };
        let input_width: u64 = match config.try_width() {
            Some(v) => v,
            None => UNINET_DEFAULT_SIZE,
        };
        UniNet {
            input_height,
            input_width,
            strategy: StrategyCfg {
                convention: Convention::Dual { score_idx: 0, map_idx: 2 },
                min_tensors: 3,
                edge_ignore_pixels: 0,
                resize: None,
                mean_prob: false,
            },
        }
    }

    /// The declared input height.
    pub fn input_height(&self) -> (r: u64)
        ensures
            r == self.spec_input_height(),
    {
        self.input_height
    }

    /// The declared input width.
    pub fn input_width(&self) -> (r: u64)
        ensures
            r == self.spec_input_width(),
    {
        self.input_width
    }

    /// Postprocess the engine's output tensors for one forward call: one
    /// result per batch item, in batch order, as the strategy contract
    /// says.
    pub fn forward(&self, xs: &Vec<Tensor>) -> (r: Result<Vec<Y>, Error>)
        ensures
            strategy_post(self.spec_strategy(), xs@, r),
    {
        proof {
            use_type_invariant(self);
        }
        run_strategy(&self.strategy, xs)
    }
}

} // verus!
