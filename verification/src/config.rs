//! Static model configuration.
//!
//! A configuration is plain data supplied at construction: declared input
//! tensor dimensions (as (input, axis, size) hints) and the parameters the
//! external preprocessing pipeline reads — resize mode and filter,
//! normalization flag, and per-channel mean and standard deviation.  Means
//! and standard deviations are stored in thousandths (485 stands for 0.485).
use vstd::prelude::*;

verus! {

/// How the external preprocessor fits an input image to the model's input.
#[derive(Clone, Copy, Debug, PartialEq, Eq, Structural)]
pub enum ResizeMode {
    /// Resize to exactly the declared input size.
    FitExact,
    /// Resize keeping the aspect ratio, padding the rest.
    Letterbox,
}

/// A resize filter: applied by the external preprocessor on input images,
/// and by a postprocessing strategy's optional raster resize.
#[derive(Clone, Copy, Debug, PartialEq, Eq, Structural)]
pub enum ResizeFilter {
    Bilinear,
    CatmullRom,
    Lanczos3,
    Nearest,
}

/// The last value set for `(input, axis)` in a hint list, scanning from the
/// end.
pub open spec fn spec_ixx(entries: Seq<(usize, usize, u64)>, input: int, axis: int) -> Option<u64>
    decreases entries.len(),
{
    if entries.len() == 0 {
        None
    } else if entries.last().0 == input && entries.last().1 == axis {
        Some(entries.last().2)
    } else {
        spec_ixx(entries.drop_last(), input, axis)
    }
}

/// Static model configuration.
pub struct Config {
    model_ixx: Vec<(usize, usize, u64)>,
    resize_mode: ResizeMode,
    resize_filter: ResizeFilter,
    normalize: bool,
    image_mean: Vec<u32>,
    image_std: Vec<u32>,
}

impl Config {
    /// The declared input dimension hints, in the order they were set.
    pub closed spec fn spec_model_ixx(self) -> Seq<(usize, usize, u64)> {
        self.model_ixx@
    }

    /// The resize mode.
    pub closed spec fn spec_resize_mode(self) -> ResizeMode {
        self.resize_mode
    }

    /// The resize filter.
    pub closed spec fn spec_resize_filter(self) -> ResizeFilter {
        self.resize_filter
    }

    /// Whether the preprocessor normalizes.
    pub closed spec fn spec_normalize(self) -> bool {
        self.normalize
    }

    /// The per-channel mean, in thousandths.
    pub closed spec fn spec_image_mean(self) -> Seq<u32> {
        self.image_mean@
    }

    /// The per-channel standard deviation, in thousandths.
    pub closed spec fn spec_image_std(self) -> Seq<u32> {
        self.image_std@
    }

    /// Set a declared dimension: axis `axis` of input `input` is `value`.
    pub fn with_model_ixx(self, input: usize, axis: usize, value: u64) -> (r: Config)
        ensures
            r.spec_model_ixx() == self.spec_model_ixx().push((input, axis, value)),
            r.spec_resize_mode() == self.spec_resize_mode(),
            r.spec_resize_filter() == self.spec_resize_filter(),
            r.spec_normalize() == self.spec_normalize(),
            r.spec_image_mean() == self.spec_image_mean(),
            r.spec_image_std() == self.spec_image_std(),
    {
        let mut model_ixx = self.model_ixx;
        model_ixx.push((input, axis, value));
        Config { model_ixx, ..self }
    }

    /// Set the resize mode.
    pub fn with_resize_mode(self, mode: ResizeMode) -> (r: Config)
        ensures
            r.spec_resize_mode() == mode,
            r.spec_model_ixx() == self.spec_model_ixx(),
            r.spec_resize_filter() == self.spec_resize_filter(),
            r.spec_normalize() == self.spec_normalize(),
            r.spec_image_mean() == self.spec_image_mean(),
            r.spec_image_std() == self.spec_image_std(),
    {
        Config { resize_mode: mode, ..self }
    }

    /// Set the resize filter.
    pub fn with_resize_filter(self, filter: ResizeFilter) -> (r: Config)
        ensures
            r.spec_resize_filter() == filter,
            r.spec_model_ixx() == self.spec_model_ixx(),
            r.spec_resize_mode() == self.spec_resize_mode(),
            r.spec_normalize() == self.spec_normalize(),
            r.spec_image_mean() == self.spec_image_mean(),
            r.spec_image_std() == self.spec_image_std(),
    {
        Config { resize_filter: filter, ..self }
    }

    /// Set whether the preprocessor normalizes.
    pub fn with_normalize(self, normalize: bool) -> (r: Config)
        ensures
            r.spec_normalize() == normalize,
            r.spec_model_ixx() == self.spec_model_ixx(),
            r.spec_resize_mode() == self.spec_resize_mode(),
            r.spec_resize_filter() == self.spec_resize_filter(),
            r.spec_image_mean() == self.spec_image_mean(),
            r.spec_image_std() == self.spec_image_std(),
    {
        Config { normalize, ..self }
    }

    /// Set the per-channel mean, in thousandths.
    pub fn with_image_mean(self, mean: &[u32]) -> (r: Config)
        ensures
            r.spec_image_mean() == mean@,
            r.spec_model_ixx() == self.spec_model_ixx(),
            r.spec_resize_mode() == self.spec_resize_mode(),
            r.spec_resize_filter() == self.spec_resize_filter(),
            r.spec_normalize() == self.spec_normalize(),
            r.spec_image_std() == self.spec_image_std(),
    {
        Config { image_mean: copy_u32s(mean), ..self }
    }

    /// Set the per-channel standard deviation, in thousandths.
    pub fn with_image_std(self, std_dev: &[u32]) -> (r: Config)
        ensures
            r.spec_image_std() == std_dev@,
            r.spec_model_ixx() == self.spec_model_ixx(),
            r.spec_resize_mode() == self.spec_resize_mode(),
            r.spec_resize_filter() == self.spec_resize_filter(),
            r.spec_normalize() == self.spec_normalize(),
            r.spec_image_mean() == self.spec_image_mean(),
    {
        Config { image_std: copy_u32s(std_dev), ..self }
    }

    /// The last value declared for axis `axis` of input `input`.
    pub fn ixx(&self, input: usize, axis: usize) -> (r: Option<u64>)
        ensures
            r == spec_ixx(self.spec_model_ixx(), input as int, axis as int),
    {
        let mut found: Option<u64> = None;
        let mut i: usize = 0;
        while i < self.model_ixx.len()
            invariant
                0 <= i <= self.model_ixx@.len(),
                found == spec_ixx(self.model_ixx@.take(i as int), input as int, axis as int),
            decreases self.model_ixx@.len() - i,
        {
            proof {
                assert(self.model_ixx@.take(i + 1).drop_last() =~= self.model_ixx@.take(i as int));
                assert(self.model_ixx@.take(i + 1).last() == self.model_ixx@[i as int]);
            }
            let entry = self.model_ixx[i];
            if entry.0 == input && entry.1 == axis {
                found = Some(entry.2);
            }
            i += 1;
        }
        proof {
            assert(self.model_ixx@.take(self.model_ixx@.len() as int) =~= self.model_ixx@);
        }
        found
    }

    /// The declared input height (input 0, axis 2), when one was set.
    pub fn try_height(&self) -> (r: Option<u64>)
        ensures
            r == spec_ixx(self.spec_model_ixx(), 0, 2),
    {
        self.ixx(0, 2)
    }

    /// The declared input width (input 0, axis 3), when one was set.
    pub fn try_width(&self) -> (r: Option<u64>)
        ensures
            r == spec_ixx(self.spec_model_ixx(), 0, 3),
    {
        self.ixx(0, 3)
    }

    /// The resize mode.
    pub fn resize_mode(&self) -> (r: ResizeMode)
        ensures
            r == self.spec_resize_mode(),
    {
        self.resize_mode
    }

    /// The resize filter.
    pub fn resize_filter(&self) -> (r: ResizeFilter)
        ensures
            r == self.spec_resize_filter(),
    {
        self.resize_filter
    }

    /// Whether the preprocessor normalizes.
    pub fn normalize(&self) -> (r: bool)
        ensures
            r == self.spec_normalize(),
    {
        self.normalize
    }

    /// The per-channel mean, in thousandths.
    pub fn image_mean(&self) -> (r: &Vec<u32>)
        ensures
            r@ == self.spec_image_mean(),
    {
        &self.image_mean
    }

    /// The per-channel standard deviation, in thousandths.
    pub fn image_std(&self) -> (r: &Vec<u32>)
        ensures
            r@ == self.spec_image_std(),
    {
        &self.image_std
    }
}

impl Default for Config {
    /// An empty configuration: no dimension hints, exact-fit bilinear
    /// resize, no normalization, no mean or standard deviation.
    fn default() -> (r: Config)
        ensures
            r.spec_model_ixx() == Seq::<(usize, usize, u64)>::empty(),
            r.spec_resize_mode() == ResizeMode::FitExact,
            r.spec_resize_filter() == ResizeFilter::Bilinear,
            r.spec_normalize() == false,
            r.spec_image_mean() == Seq::<u32>::empty(),
            r.spec_image_std() == Seq::<u32>::empty(),
    {
        Config {
            model_ixx: Vec::new(),
            resize_mode: ResizeMode::FitExact,
            resize_filter: ResizeFilter::Bilinear,
            normalize: false,
            image_mean: Vec::new(),
            image_std: Vec::new(),
        }
    }
}

/// Copy a slice of channel parameters into an owned vector.
fn copy_u32s(xs: &[u32]) -> (r: Vec<u32>)
    ensures
        r@ == xs@,
{
    let n: usize = xs.len();
    let mut out: Vec<u32> = Vec::new();
    let mut i: usize = 0;
    while i < n
        invariant
            0 <= i <= n,
            n == xs@.len(),
            out@ == xs@.take(i as int),
        decreases n - i,
    {
        out.push(xs[i]);
        proof {
            assert(out@ =~= xs@.take(i + 1));
        }
        i += 1;
    }
    proof {
        assert(out@ =~= xs@);
    }
    out
}

} // verus!
