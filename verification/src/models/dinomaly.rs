//! The Dinomaly model family: dual-tensor postprocessing.
//!
//! The engine emits at least four tensors; tensor 0 is the global anomaly
//! score and tensor 2 the spatial anomaly map.  The global score is
//! authoritative: it is clamped and attached as the heatmap's confidence,
//! never recomputed from the map.
use vstd::prelude::*;

use crate::config::{spec_ixx, Config, ResizeFilter, ResizeMode};
use crate::strategy::{run_strategy, strategy_post, Convention, StrategyCfg};
use crate::tensor::Tensor;
use crate::y::Y;
use crate::Error;

verus! {

/// The declared input size used when the configuration gives none.
pub const DINOMALY_DEFAULT_SIZE: u64 = 384;

impl Config {
    /// The stock configuration of the Dinomaly family: batch 2, 3 channels,
    /// 392 by 392 input, exact-fit Lanczos3 resize, normalization with the
    /// ImageNet per-channel mean and standard deviation (in thousandths).
    pub fn dinomaly() -> (r: Config)
        ensures
            r.spec_model_ixx() == seq![
                (0usize, 0usize, 2u64),
                (0usize, 1usize, 3u64),
                (0usize, 2usize, 392u64),
                (0usize, 3usize, 392u64),
            ],
            spec_ixx(r.spec_model_ixx(), 0, 2) == Some(392u64),
            spec_ixx(r.spec_model_ixx(), 0, 3) == Some(392u64),
            r.spec_resize_mode() == ResizeMode::FitExact,
            r.spec_resize_filter() == ResizeFilter::Lanczos3,
            r.spec_normalize() == true,
            r.spec_image_mean() == seq![485u32, 456u32, 406u32],
            r.spec_image_std() == seq![229u32, 224u32, 225u32],
    {
        let mean: Vec<u32> = vec![485, 456, 406];
        let std_dev: Vec<u32> = vec![229, 224, 225];
        let c = Config::default().with_model_ixx(0, 0, 2).with_model_ixx(0, 1, 3).with_model_ixx(
            0,
            2,
            392,
        ).with_model_ixx(0, 3, 392).with_resize_mode(ResizeMode::FitExact).with_resize_filter(
            ResizeFilter::Lanczos3,
        ).with_normalize(true).with_image_std(std_dev.as_slice()).with_image_mean(mean.as_slice());
        proof {
            lemma_ixx_four(c.spec_model_ixx(), 2, 392);
            assert(c.spec_model_ixx() =~= seq![
                (0usize, 0usize, 2u64),
                (0usize, 1usize, 3u64),
                (0usize, 2usize, 392u64),
                (0usize, 3usize, 392u64),
            ]);
            assert(mean@ =~= seq![485u32, 456u32, 406u32]);
            assert(std_dev@ =~= seq![229u32, 224u32, 225u32]);
        }
        c
    }
}

/// Evaluates the height and width hint lookups on the stock four-entry hint
/// list `[(0,0,batch), (0,1,channels), (0,2,size), (0,3,size)]`.
pub proof fn lemma_ixx_four(entries: Seq<(usize, usize, u64)>, batch: u64, size: u64)
    requires
        entries.len() == 4,
        entries[1].0 == 0 && entries[1].1 == 1,
        entries[2] == (0usize, 2usize, size),
        entries[3] == (0usize, 3usize, size),
    ensures
        spec_ixx(entries, 0, 2) == Some(size),
        spec_ixx(entries, 0, 3) == Some(size),
{
    assert(entries.last() == entries[3]);
    assert(spec_ixx(entries, 0, 3) == Some(size));
    assert(entries.drop_last().last() == entries[2]);
    assert(spec_ixx(entries.drop_last(), 0, 2) == Some(size));
    assert(spec_ixx(entries, 0, 2) == spec_ixx(entries.drop_last(), 0, 2));
}

/// The Dinomaly anomaly-detection model.
pub struct Dinomaly {
    input_height: u64,
    input_width: u64,
    strategy: StrategyCfg,
}

impl Dinomaly {
    /// The declared input height its preprocessor should use.
    pub closed spec fn spec_input_height(self) -> u64 {
        self.input_height
    }

    /// The declared input width its preprocessor should use.
    pub closed spec fn spec_input_width(self) -> u64 {
        self.input_width
    }

    /// The postprocessing strategy configuration.
    pub closed spec fn spec_strategy(self) -> StrategyCfg {
        self.strategy
    }

    #[verifier::type_invariant]
    pub open spec fn wf(self) -> bool {
        self.spec_strategy().wf()
    }

    /// Build the model from its configuration.  The declared input size
    /// comes from the configuration's input-0 axes 2 and 3, with 384 as the
    /// fallback; the strategy is the dual-tensor convention with the score
    /// in tensor 0, the map in tensor 2, and four tensors required.
    pub fn new(config: &Config) -> (r: Dinomaly)
        ensures
            r.spec_input_height() == match spec_ixx(config.spec_model_ixx(), 0, 2) {
                Some(v) => v,
                None => DINOMALY_DEFAULT_SIZE,
            },
            r.spec_input_width() == match spec_ixx(config.spec_model_ixx(), 0, 3) {
                Some(v) => v,
                None => DINOMALY_DEFAULT_SIZE,
            },
            r.spec_strategy() == (StrategyCfg {
                convention: Convention::Dual { score_idx: 0, map_idx: 2 },
                min_tensors: 4,
                edge_ignore_pixels: 0,
                resize: None,
                mean_prob: false,
            }),
    {
        let input_height: u64 = match config.try_height() {
            Some(v) => v,
            None => DINOMALY_DEFAULT_SIZE,
        };
        let input_width: u64 = match config.try_width() {
            Some(v) => v,
            None => DINOMALY_DEFAULT_SIZE,
        };
        Dinomaly {
            input_height,
            input_width,
            strategy: StrategyCfg {
                convention: Convention::Dual { score_idx: 0, map_idx: 2 },
                min_tensors: 4,
                edge_ignore_pixels: 0,
                resize: None,
                mean_prob: false,
            },
        }
    }

    /// The declared input height.
    pub fn input_height(&self) -> (r: u64)
        ensures
            r == self.spec_input_height(),
    {
        self.input_height
    }

    /// The declared input width.
    pub fn input_width(&self) -> (r: u64)
        ensures
            r == self.spec_input_width(),
    {
        self.input_width
    }

    /// Postprocess the engine's output tensors for one forward call: one
    /// result per batch item, in batch order, as the strategy contract
    /// says.
    pub fn forward(&self, xs: &Vec<Tensor>) -> (r: Result<Vec<Y>, Error>)
        ensures
            strategy_post(self.spec_strategy(), xs@, r),
    {
        proof {
            use_type_invariant(self);
        }
        run_strategy(&self.strategy, xs)
    }
}

} // verus!
