//! The per-input result container and its companion value types.
//!
//! One `Y` is produced per input image per forward call.  Its fields are
//! additive and independent: a strategy populates only what it produces, and
//! an absent field means "not applicable for this model", not an error.
use vstd::prelude::*;

use crate::Error;
use crate::fixed::{clamp01, clamp01_spec, SCALE};
use crate::heatmap::Heatmap;
use crate::raster::{gray_from_raw, gray_px, gray_to_vec, GrayBuf, RgbaBuf};

verus! {

/// A named scalar probability with an optional numeric id and a confidence
/// in the unit interval.
pub struct Prob {
    name: String,
    id: Option<usize>,
    confidence: i64,
}

impl Prob {
    /// The display name.
    pub closed spec fn spec_name(self) -> Seq<char> {
        self.name@
    }

    /// The numeric id, when one was set.
    pub closed spec fn spec_id(self) -> Option<usize> {
        self.id
    }

    /// The fixed-point confidence.
    pub closed spec fn spec_confidence(self) -> i64 {
        self.confidence
    }

    /// The confidence always lies in the unit interval.
    #[verifier::type_invariant]
    pub open spec fn wf(self) -> bool {
        0 <= self.spec_confidence() <= SCALE
    }

    /// Build a named score; the confidence is clamped into the unit
    /// interval whatever the source value was.
    pub fn new(name: &str, confidence: i64) -> (r: Prob)
        ensures
            r.spec_name() == name@,
            r.spec_id() is None,
            r.spec_confidence() == clamp01_spec(confidence as int),
    {
        Prob { name: name.to_owned(), id: None, confidence: clamp01(confidence) }
    }

    /// Set the numeric id.
    pub fn with_id(self, id: usize) -> (r: Prob)
        ensures
            r.spec_id() == Some(id),
            r.spec_name() == self.spec_name(),
            r.spec_confidence() == self.spec_confidence(),
    {
        proof {
            use_type_invariant(&self);
        }
        Prob { id: Some(id), ..self }
    }

    /// The display name.
    pub fn name(&self) -> (r: &String)
        ensures
            r@ == self.spec_name(),
    {
        &self.name
    }

    /// The numeric id, when one was set.
    pub fn id(&self) -> (r: Option<usize>)
        ensures
            r == self.spec_id(),
    {
        self.id
    }

    /// The fixed-point confidence, always in `[0, SCALE]`.
    pub fn confidence(&self) -> (r: i64)
        ensures
            r == self.spec_confidence(),
            0 <= r <= SCALE,
    {
        proof {
            use_type_invariant(self);
        }
        self.confidence
    }
}

/// A single-channel 8-bit mask raster.
pub struct Mask {
    map: GrayBuf,
    width: u32,
    height: u32,
}

impl Mask {
    /// The raster bytes, row-major.
    pub closed spec fn spec_px(self) -> Seq<u8> {
        gray_px(self.map)
    }

    /// The raster width.
    pub closed spec fn spec_width(self) -> u32 {
        self.width
    }

    /// The raster height.
    pub closed spec fn spec_height(self) -> u32 {
        self.height
    }

    /// The raster holds one byte per pixel.
    #[verifier::type_invariant]
    pub open spec fn wf(self) -> bool {
        self.spec_px().len() == self.spec_width() * self.spec_height()
    }

    /// Build a mask from raw raster bytes.  The buffer length must be
    /// exactly `width * height`; any other length is a
    /// `BufferConstructionFailure`.
    pub fn new(u8s: &[u8], width: u32, height: u32) -> (r: Result<Mask, Error>)
        ensures
            match r {
                Ok(m) => {
                    &&& u8s@.len() == width * height
                    &&& m.spec_px() == u8s@
                    &&& m.spec_width() == width
                    &&& m.spec_height() == height
                },
                Err(e) => {
                    &&& e == Error::BufferConstructionFailure
                    &&& u8s@.len() != width * height
                },
            },
    {
        let n: usize = u8s.len();
        proof {
            assert((width as int) * (height as int) <= 0xffff_ffff * 0xffff_ffff)
                by (nonlinear_arith)
                requires width <= 0xffff_ffffu32, height <= 0xffff_ffffu32;
        }
        if n as u64 != (width as u64) * (height as u64) {
            return Err(Error::BufferConstructionFailure);
        }
        let mut data: Vec<u8> = Vec::new();
        let mut i: usize = 0;
        while i < n
            invariant
                0 <= i <= n,
                n == u8s@.len(),
                data@ == u8s@.take(i as int),
            decreases n - i,
        {
            data.push(u8s[i]);
            proof {
                assert(data@ =~= u8s@.take(i + 1));
            }
            i += 1;
        }
        proof {
            assert(data@ =~= u8s@);
        }
        match gray_from_raw(width, height, data) {
            Some(map) => Ok(Mask { map, width, height }),
            None => Err(Error::BufferConstructionFailure),
        }
    }

    /// The raster bytes, row-major.
    pub fn to_vec(&self) -> (r: Vec<u8>)
        ensures
            r@ == self.spec_px(),
    {
        gray_to_vec(&self.map)
    }

    /// The raster width.
    pub fn width(&self) -> (r: u32)
        ensures
            r == self.spec_width(),
    {
        self.width
    }

    /// The raster height.
    pub fn height(&self) -> (r: u32)
        ensures
            r == self.spec_height(),
    {
        self.height
    }

    /// The raster width and height.
    pub fn dimensions(&self) -> (r: (u32, u32))
        ensures
            r.0 == self.spec_width(),
            r.1 == self.spec_height(),
    {
        (self.width, self.height)
    }
}

/// Container for the results of one input image: independent optional
/// collections of heatmaps, probability scores, masks and raw images.
pub struct Y {
    heatmaps: Option<Vec<Heatmap>>,
    probs: Option<Vec<Prob>>,
    masks: Option<Vec<Mask>>,
    images: Option<Vec<RgbaBuf>>,
}

impl Y {
    /// The heatmaps, when the strategy produced any.
    pub closed spec fn spec_heatmaps(self) -> Option<Seq<Heatmap>> {
        match self.heatmaps {
            Some(v) => Some(v@),
            None => None,
        }
    }

    /// The probability scores, when the strategy produced any.
    pub closed spec fn spec_probs(self) -> Option<Seq<Prob>> {
        match self.probs {
            Some(v) => Some(v@),
            None => None,
        }
    }

    /// The masks, when the strategy produced any.
    pub closed spec fn spec_masks(self) -> Option<Seq<Mask>> {
        match self.masks {
            Some(v) => Some(v@),
            None => None,
        }
    }

    /// The raw images, when the strategy produced any.
    pub closed spec fn spec_images(self) -> Option<Seq<RgbaBuf>> {
        match self.images {
            Some(v) => Some(v@),
            None => None,
        }
    }

    /// Attach heatmaps.
    pub fn with_heatmaps(self, xs: Vec<Heatmap>) -> (r: Y)
        ensures
            r.spec_heatmaps() == Some(xs@),
            r.spec_probs() == self.spec_probs(),
            r.spec_masks() == self.spec_masks(),
            r.spec_images() == self.spec_images(),
    {
        Y { heatmaps: Some(xs), ..self }
    }

    /// Attach probability scores.
    pub fn with_probs(self, xs: Vec<Prob>) -> (r: Y)
        ensures
            r.spec_probs() == Some(xs@),
            r.spec_heatmaps() == self.spec_heatmaps(),
            r.spec_masks() == self.spec_masks(),
            r.spec_images() == self.spec_images(),
    {
        Y { probs: Some(xs), ..self }
    }

    /// Attach masks.
    pub fn with_masks(self, xs: Vec<Mask>) -> (r: Y)
        ensures
            r.spec_masks() == Some(xs@),
            r.spec_heatmaps() == self.spec_heatmaps(),
            r.spec_probs() == self.spec_probs(),
            r.spec_images() == self.spec_images(),
    {
        Y { masks: Some(xs), ..self }
    }

    /// Attach raw images.
    pub fn with_images(self, xs: Vec<RgbaBuf>) -> (r: Y)
        ensures
            r.spec_images() == Some(xs@),
            r.spec_heatmaps() == self.spec_heatmaps(),
            r.spec_probs() == self.spec_probs(),
            r.spec_masks() == self.spec_masks(),
    {
        Y { images: Some(xs), ..self }
    }

    /// The heatmaps, when any were attached.
    pub fn heatmaps(&self) -> (r: Option<&Vec<Heatmap>>)
        ensures
            match r {
                Some(v) => self.spec_heatmaps() == Some(v@),
                None => self.spec_heatmaps() is None,
            },
    {
        self.heatmaps.as_ref()
    }

    /// The probability scores, when any were attached.
    pub fn probs(&self) -> (r: Option<&Vec<Prob>>)
        ensures
            match r {
                Some(v) => self.spec_probs() == Some(v@),
                None => self.spec_probs() is None,
            },
    {
        self.probs.as_ref()
    }

    /// The masks, when any were attached.
    pub fn masks(&self) -> (r: Option<&Vec<Mask>>)
        ensures
            match r {
                Some(v) => self.spec_masks() == Some(v@),
                None => self.spec_masks() is None,
            },
    {
        self.masks.as_ref()
    }

    /// The raw images, when any were attached.
    pub fn images(&self) -> (r: Option<&Vec<RgbaBuf>>)
        ensures
            match r {
                Some(v) => self.spec_images() == Some(v@),
                None => self.spec_images() is None,
            },
    {
        self.images.as_ref()
    }
}

impl Default for Y {
    /// The empty result: no field applies.
    fn default() -> (r: Y)
        ensures
            r.spec_heatmaps() is None,
            r.spec_probs() is None,
            r.spec_masks() is None,
            r.spec_images() is None,
    {
        Y { heatmaps: None, probs: None, masks: None, images: None }
    }
}

} // verus!
