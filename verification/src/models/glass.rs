//! The GLASS model family: single-tensor postprocessing with an
//! edge-ignore band.
//!
//! The engine's tensor 0 alone is the spatial map.  The confidence is
//! derived: the max over the clamped values after the configured edge-ignore
//! band forces border columns to zero, so a border artifact cannot inflate
//! the reported score.
use vstd::prelude::*;

use crate::config::{spec_ixx, Config, ResizeFilter, ResizeMode};
use crate::models::dinomaly::lemma_ixx_four;
use crate::strategy::{run_strategy, strategy_post, Convention, StrategyCfg};
use crate::tensor::Tensor;
use crate::y::Y;
use crate::Error;

verus! {

/// The declared input size used when the configuration gives none.
pub const GLASS_DEFAULT_SIZE: u64 = 256;

impl Config {
    /// The stock configuration of the GLASS family: batch 1, 3 channels,
    /// 384 by 384 input, exact-fit Catmull-Rom resize, normalization with
    /// the ImageNet per-channel mean and standard deviation (in
    /// thousandths).
    pub fn glass() -> (r: Config)
        ensures
            r.spec_model_ixx() == seq![
                (0usize, 0usize, 1u64),
                (0usize, 1usize, 3u64),
                (0usize, 2usize, 384u64),
                (0usize, 3usize, 384u64),
            ],
            spec_ixx(r.spec_model_ixx(), 0, 2) == Some(384u64),
            spec_ixx(r.spec_model_ixx(), 0, 3) == Some(384u64),
            r.spec_resize_mode() == ResizeMode::FitExact,
            r.spec_resize_filter() == ResizeFilter::CatmullRom,
            r.spec_normalize() == true,
            r.spec_image_mean() == seq![485u32, 456u32, 406u32],
            r.spec_image_std() == seq![229u32, 224u32, 225u32],
    {
        let mean: Vec<u32> = vec![485, 456, 406];
        let std_dev: Vec<u32> = vec![229, 224, 225];
        let c = Config::default().with_model_ixx(0, 0, 1).with_model_ixx(0, 1, 3).with_model_ixx(
            0,
            2,
            384,
        ).with_model_ixx(0, 3, 384).with_resize_mode(ResizeMode::FitExact).with_resize_filter(
            ResizeFilter::CatmullRom,
        ).with_normalize(true).with_image_mean(mean.as_slice()).with_image_std(std_dev.as_slice());
        proof {
            lemma_ixx_four(c.spec_model_ixx(), 1, 384);
            assert(c.spec_model_ixx() =~= seq![
                (0usize, 0usize, 1u64),
                (0usize, 1usize, 3u64),
                (0usize, 2usize, 384u64),
                (0usize, 3usize, 384u64),
            ]);
            assert(mean@ =~= seq![485u32, 456u32, 406u32]);
            assert(std_dev@ =~= seq![229u32, 224u32, 225u32]);
        }
        c
    }
}

/// The GLASS anomaly-detection model.
pub struct GLASS {
    input_height: u64,
    input_width: u64,
    strategy: StrategyCfg,
}

impl GLASS {
    /// The declared input height its preprocessor should use.
    pub closed spec fn spec_input_height(self) -> u64 {
        self.input_height
    }

    /// The declared input width its preprocessor should use.
    pub closed spec fn spec_input_width(self) -> u64 {
        self.input_width
    }

    /// The postprocessing strategy configuration.
    pub closed spec fn spec_strategy(self) -> StrategyCfg {
        self.strategy
    }

    #[verifier::type_invariant]
    pub open spec fn wf(self) -> bool {
        self.spec_strategy().wf()
    }

    /// Build the model from its configuration.  The declared input size
    /// comes from the configuration's input-0 axes 2 and 3, with 256 as the
    /// fallback; the strategy is the single-tensor convention on tensor 0
    /// with no edge-ignore band.
    pub fn new(config: &Config) -> (r: GLASS)
        ensures
            r.spec_input_height() == match spec_ixx(config.spec_model_ixx(), 0, 2) {
                Some(v) => v,
                None => GLASS_DEFAULT_SIZE,
            },
            r.spec_input_width() == match spec_ixx(config.spec_model_ixx(), 0, 3) {
                Some(v) => v,
                None => GLASS_DEFAULT_SIZE,
            },
            r.spec_strategy() == (StrategyCfg {
                convention: Convention::Single { map_idx: 0 },
                min_tensors: 1,
                edge_ignore_pixels: 0,
                resize: None,
                mean_prob: false,
            }),
    {
        let input_height: u64 = match config.try_height() {
            Some(v) => v,
            None => GLASS_DEFAULT_SIZE,
        };
        let input_width: u64 = match config.try_width() {
            Some(v) => v,
            None => GLASS_DEFAULT_SIZE,
        };
        GLASS {
            input_height,
            input_width,
            strategy: StrategyCfg {
                convention: Convention::Single { map_idx: 0 },
                min_tensors: 1,
                edge_ignore_pixels: 0,
                resize: None,
                mean_prob: false,
            },
        }
    }

    /// Set the width of the edge-ignore band: columns closer than this to
    /// the left or right edge are forced to zero in the raster and in the
    /// score aggregation.
    pub fn with_edge_ignore_pixels(self, pixels: u32) -> (r: GLASS)
        ensures
            r.spec_strategy() == (StrategyCfg { edge_ignore_pixels: pixels, ..self.spec_strategy() }),
            r.spec_input_height() == self.spec_input_height(),
            r.spec_input_width() == self.spec_input_width(),
    {
        proof {
            use_type_invariant(&self);
        }
        GLASS {
            strategy: StrategyCfg { edge_ignore_pixels: pixels, ..self.strategy },
            ..self
        }
    }

    /// The declared input height.
    pub fn input_height(&self) -> (r: u64)
        ensures
            r == self.spec_input_height(),
    {
        self.input_height
    }

    /// The declared input width.
    pub fn input_width(&self) -> (r: u64)
        ensures
            r == self.spec_input_width(),
    {
        self.input_width
    }

    /// Postprocess the engine's output tensors for one forward call: one
    /// result per batch item, in batch order, as the strategy contract
    /// says.
    pub fn forward(&self, xs: &Vec<Tensor>) -> (r: Result<Vec<Y>, Error>)
        ensures
            strategy_post(self.spec_strategy(), xs@, r),
    {
        proof {
            use_type_invariant(self);
        }
        run_strategy(&self.strategy, xs)
    }
}

} // verus!
