//! The heatmap value type: a single-channel 8-bit raster with identity and
//! confidence metadata.
//!
//! The raster dimensions are set once at construction and never change; a
//! confidence, when present, is always clamped into the unit interval (in
//! fixed point, `[0, SCALE]`).
use vstd::prelude::*;

use crate::Error;
use crate::fixed::{clamp01, clamp01_spec, SCALE};
use crate::raster::{gray_clone, gray_from_raw, gray_px, gray_to_vec, GrayBuf};
use crate::style::Style;

verus! {

/// A single-channel 8-bit raster with optional identity, confidence and
/// per-instance style.
pub struct Heatmap {
    map: GrayBuf,
    width: u32,
    height: u32,
    uid: usize,
    id: Option<usize>,
    name: Option<String>,
    confidence: Option<i64>,
    style: Option<Style>,
}

impl Heatmap {
    /// The raster bytes, row-major.
    pub closed spec fn spec_px(self) -> Seq<u8> {
        gray_px(self.map)
    }

    /// The raster width.
    pub closed spec fn spec_width(self) -> u32 {
        self.width
    }

    /// The raster height.
    pub closed spec fn spec_height(self) -> u32 {
        self.height
    }

    /// The sequence index of the input this heatmap belongs to.
    pub closed spec fn spec_uid(self) -> usize {
        self.uid
    }

    /// The category id, when one was set.
    pub closed spec fn spec_id(self) -> Option<usize> {
        self.id
    }

    /// The display name, when one was set.
    pub closed spec fn spec_name(self) -> Option<Seq<char>> {
        match self.name {
            Some(n) => Some(n@),
            None => None,
        }
    }

    /// The fixed-point confidence, when one was set.
    pub closed spec fn spec_confidence(self) -> Option<i64> {
        self.confidence
    }

    /// The per-instance style override, when one was set.
    pub closed spec fn spec_style(self) -> Option<Style> {
        self.style
    }

    /// The raster holds one byte per pixel, and a confidence, when present,
    /// lies in the unit interval.
    #[verifier::type_invariant]
    pub open spec fn wf(self) -> bool {
        &&& self.spec_px().len() == self.spec_width() * self.spec_height()
        &&& match self.spec_confidence() {
            Some(c) => 0 <= c <= SCALE,
            None => true,
        }
    }

    /// Build a heatmap from raw raster bytes.  The buffer length must be
    /// exactly `width * height`; any other length is a
    /// `BufferConstructionFailure`.
    pub fn new(u8s: &[u8], width: u32, height: u32) -> (r: Result<Heatmap, Error>)
        ensures
            match r {
                Ok(h) => {
                    &&& u8s@.len() == width * height
                    &&& h.spec_px() == u8s@
                    &&& h.spec_width() == width
                    &&& h.spec_height() == height
                    &&& h.spec_uid() == 0
                    &&& h.spec_id() is None
                    &&& h.spec_name() is None
                    &&& h.spec_confidence() is None
                    &&& h.spec_style() is None
                },
                Err(e) => {
                    &&& e == Error::BufferConstructionFailure
                    &&& u8s@.len() != width * height
                },
            },
    {
        let n: usize = u8s.len();
        proof {
            assert((width as int) * (height as int) <= 0xffff_ffff * 0xffff_ffff)
                by (nonlinear_arith)
                requires width <= 0xffff_ffffu32, height <= 0xffff_ffffu32;
        }
        if n as u64 != (width as u64) * (height as u64) {
            return Err(Error::BufferConstructionFailure);
        }
        let mut data: Vec<u8> = Vec::new();
        let mut i: usize = 0;
        while i < n
            invariant
                0 <= i <= n,
                n == u8s@.len(),
                data@ == u8s@.take(i as int),
            decreases n - i,
        {
            data.push(u8s[i]);
            proof {
                assert(data@ =~= u8s@.take(i + 1));
            }
            i += 1;
        }
        proof {
            assert(data@ =~= u8s@);
        }
        match gray_from_raw(width, height, data) {
            Some(map) => Ok(
                Heatmap {
                    map,
                    width,
                    height,
                    uid: 0,
                    id: None,
                    name: None,
                    confidence: None,
                    style: None,
                },
            ),
            None => Err(Error::BufferConstructionFailure),
        }
    }

    /// Build a heatmap that takes ownership of an already-built raster.
    pub(crate) fn from_parts(map: GrayBuf, width: u32, height: u32) -> (r: Heatmap)
        requires
            gray_px(map).len() == width * height,
        ensures
            r.spec_px() == gray_px(map),
            r.spec_width() == width,
            r.spec_height() == height,
            r.spec_uid() == 0,
            r.spec_id() is None,
            r.spec_name() is None,
            r.spec_confidence() is None,
            r.spec_style() is None,
    {
        Heatmap { map, width, height, uid: 0, id: None, name: None, confidence: None, style: None }
    }

    /// The raster bytes, row-major.
    pub fn to_vec(&self) -> (r: Vec<u8>)
        ensures
            r@ == self.spec_px(),
    {
        gray_to_vec(&self.map)
    }

    /// A copy of the raster.
    pub fn img(&self) -> (r: GrayBuf)
        ensures
            gray_px(r) == self.spec_px(),
    {
        gray_clone(&self.map)
    }

    /// The raster height.
    pub fn height(&self) -> (r: u32)
        ensures
            r == self.spec_height(),
    {
        self.height
    }

    /// The raster width.
    pub fn width(&self) -> (r: u32)
        ensures
            r == self.spec_width(),
    {
        self.width
    }

    /// The raster width and height.
    pub fn dimensions(&self) -> (r: (u32, u32))
        ensures
            r.0 == self.spec_width(),
            r.1 == self.spec_height(),
    {
        (self.width, self.height)
    }

    /// Set the sequence index of the input this heatmap belongs to.
    pub fn with_uid(self, uid: usize) -> (r: Heatmap)
        ensures
            r.spec_uid() == uid,
            r.spec_px() == self.spec_px(),
            r.spec_width() == self.spec_width(),
            r.spec_height() == self.spec_height(),
            r.spec_id() == self.spec_id(),
            r.spec_name() == self.spec_name(),
            r.spec_confidence() == self.spec_confidence(),
            r.spec_style() == self.spec_style(),
    {
        proof {
            use_type_invariant(&self);
        }
        Heatmap { uid, ..self }
    }

    /// Set the category id.
    pub fn with_id(self, id: usize) -> (r: Heatmap)
        ensures
            r.spec_id() == Some(id),
            r.spec_px() == self.spec_px(),
            r.spec_width() == self.spec_width(),
            r.spec_height() == self.spec_height(),
            r.spec_uid() == self.spec_uid(),
            r.spec_name() == self.spec_name(),
            r.spec_confidence() == self.spec_confidence(),
            r.spec_style() == self.spec_style(),
    {
        proof {
            use_type_invariant(&self);
        }
        Heatmap { id: Some(id), ..self }
    }

    /// Set the display name.
    pub fn with_name(self, name: &str) -> (r: Heatmap)
        ensures
            r.spec_name() == Some(name@),
            r.spec_px() == self.spec_px(),
            r.spec_width() == self.spec_width(),
            r.spec_height() == self.spec_height(),
            r.spec_uid() == self.spec_uid(),
            r.spec_id() == self.spec_id(),
            r.spec_confidence() == self.spec_confidence(),
            r.spec_style() == self.spec_style(),
    {
        proof {
            use_type_invariant(&self);
        }
        Heatmap { name: Some(name.to_owned()), ..self }
    }

    /// Attach a confidence, clamped into the unit interval whatever the
    /// source value was.
    pub fn with_confidence(self, confidence: i64) -> (r: Heatmap)
        ensures
            r.spec_confidence() == Some(clamp01_spec(confidence as int) as i64),
            r.spec_px() == self.spec_px(),
            r.spec_width() == self.spec_width(),
            r.spec_height() == self.spec_height(),
            r.spec_uid() == self.spec_uid(),
            r.spec_id() == self.spec_id(),
            r.spec_name() == self.spec_name(),
            r.spec_style() == self.spec_style(),
    {
        proof {
            use_type_invariant(&self);
        }
        Heatmap { confidence: Some(clamp01(confidence)), ..self }
    }

    /// Attach a per-instance style override.
    pub fn with_style(self, style: Style) -> (r: Heatmap)
        ensures
            r.spec_style() == Some(style),
            r.spec_px() == self.spec_px(),
            r.spec_width() == self.spec_width(),
            r.spec_height() == self.spec_height(),
            r.spec_uid() == self.spec_uid(),
            r.spec_id() == self.spec_id(),
            r.spec_name() == self.spec_name(),
            r.spec_confidence() == self.spec_confidence(),
    {
        proof {
            use_type_invariant(&self);
        }
        Heatmap { style: Some(style), ..self }
    }

    /// The sequence index of the input this heatmap belongs to.
    pub fn uid(&self) -> (r: usize)
        ensures
            r == self.spec_uid(),
    {
        self.uid
    }

    /// The display name, when one was set.
    pub fn name(&self) -> (r: Option<&String>)
        ensures
            match r {
                Some(n) => self.spec_name() == Some(n@),
                None => self.spec_name() is None,
            },
    {
        self.name.as_ref()
    }

    /// The fixed-point confidence, when one was set; always in `[0, SCALE]`.
    pub fn confidence(&self) -> (r: Option<i64>)
        ensures
            r == self.spec_confidence(),
            match r {
                Some(c) => 0 <= c <= SCALE,
                None => true,
            },
    {
        proof {
            use_type_invariant(self);
        }
        self.confidence
    }

    /// The category id, when one was set.
    pub fn id(&self) -> (r: Option<usize>)
        ensures
            r == self.spec_id(),
    {
        self.id
    }

    /// The per-instance style override, when one was set.
    pub fn style(&self) -> (r: Option<&Style>)
        ensures
            match r {
                Some(s) => self.spec_style() == Some(*s),
                None => self.spec_style() is None,
            },
    {
        self.style.as_ref()
    }
}

impl PartialEq for Heatmap {
    /// Two heatmaps are equal when their rasters are: the same dimensions
    /// and the same bytes.  Identity, confidence and style do not enter the
    /// comparison.
    fn eq(&self, other: &Heatmap) -> (r: bool) {
        if self.width != other.width || self.height != other.height {
            return false;
        }
        let a = gray_to_vec(&self.map);
        let b = gray_to_vec(&other.map);
        let n: usize = a.len();
        if n != b.len() {
            return false;
        }
        let mut i: usize = 0;
        while i < n
            invariant
                0 <= i <= n,
                n == a@.len(),
                n == b@.len(),
                a@ == self.spec_px(),
                b@ == other.spec_px(),
                forall|j: int| 0 <= j < i ==> a@[j] == b@[j],
            decreases n - i,
        {
            if a[i] != b[i] {
                return false;
            }
            i += 1;
        }
        proof {
            assert(a@ =~= b@);
        }
        true
    }
}

impl vstd::std_specs::cmp::PartialEqSpecImpl for Heatmap {
    open spec fn obeys_eq_spec() -> bool {
        true
    }

    open spec fn eq_spec(&self, other: &Heatmap) -> bool {
        &&& self.spec_width() == other.spec_width()
        &&& self.spec_height() == other.spec_height()
        &&& self.spec_px() == other.spec_px()
    }
}

} // verus!
