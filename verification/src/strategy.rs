//! The postprocessing strategy: from the engine's output tensor sequence to
//! one result per batch item.
//!
//! The strategies of the supported model families differ only in
//! configuration, not in code: which tensor holds the spatial map, whether a
//! separate tensor holds an authoritative global score, how wide the
//! edge-ignore band is, whether the raster is resized to a fixed output
//! size, and whether a mean score is exposed.  For every batch index the
//! spatial slice is squeezed by rank inspection, clamped into the unit
//! interval and quantized to an 8-bit raster
//! (`floor(clamp(v, 0, 1) * 255)`); columns inside the edge-ignore band are
//! forced to zero both in the raster and in the score aggregation.  The
//! confidence is the clamped global score where one is supplied, else the
//! max over the clamped, edge-masked values, starting from zero.
use vstd::prelude::*;

use crate::Error;
use crate::config::ResizeFilter;
use crate::fixed::{clamp01, clamp01_spec, lemma_clamp01_in_unit, quant_spec, quantize, SCALE};
use crate::heatmap::Heatmap;
use crate::raster::{filter_code, gray_from_raw, gray_resize, gray_resized};
use crate::tensor::Tensor;
use crate::y::{Prob, Y};
use vstd::arithmetic::div_mod::{lemma_div_is_ordered, lemma_div_multiples_vanish};

verus! {

/// Which tensor-layout convention a model family emits.
#[derive(Clone, Copy, Debug, PartialEq, Eq, Structural)]
pub enum Convention {
    /// `tensors[score_idx]` is the global score, shape `[B]` or `[B, 1]`;
    /// `tensors[map_idx]` is the spatial map, shape `[B, H, W]` or
    /// `[B, 1, H, W]`.  The global score is authoritative, never recomputed
    /// from the map.
    Dual { score_idx: usize, map_idx: usize },
    /// `tensors[map_idx]` alone is the spatial map; the confidence is
    /// derived as the max over the clamped, edge-masked values.
    Single { map_idx: usize },
}

/// A raster resize applied after quantization, before the raster is
/// wrapped as a heatmap: a presentation choice, configured explicitly.
#[derive(Clone, Copy, Debug, PartialEq, Eq, Structural)]
pub struct ResizeTarget {
    pub width: u32,
    pub height: u32,
    pub filter: ResizeFilter,
}

/// The explicit configuration of a postprocessing strategy.
#[derive(Clone, Copy, Debug, PartialEq, Eq, Structural)]
pub struct StrategyCfg {
    /// Where the strategy's tensors stand in the output sequence.
    pub convention: Convention,
    /// Fewer output tensors than this is a `ShapeMismatch`.
    pub min_tensors: usize,
    /// Columns closer than this to the left or right edge are forced to
    /// zero in the raster and in the score aggregation.
    pub edge_ignore_pixels: u32,
    /// Resize the quantized raster to this target before wrapping it, when
    /// set.  The confidence is aggregated from the unresized map.
    pub resize: Option<ResizeTarget>,
    /// Under the single-tensor convention, also expose the mean of the
    /// clamped, edge-masked values as a probability named "mean".
    pub mean_prob: bool,
}

impl StrategyCfg {
    /// The index of the spatial-map tensor.
    pub open spec fn spec_map_idx(self) -> int {
        match self.convention {
            Convention::Dual { map_idx, .. } => map_idx as int,
            Convention::Single { map_idx } => map_idx as int,
        }
    }

    /// A configuration is valid when every tensor index it names lies below
    /// the required minimum tensor count, and a resize target, when set,
    /// describes a raster whose buffer fits in memory.
    pub open spec fn wf(self) -> bool {
        &&& self.min_tensors >= 1
        &&& match self.convention {
            Convention::Dual { score_idx, map_idx } => score_idx < self.min_tensors && map_idx
                < self.min_tensors,
            Convention::Single { map_idx } => map_idx < self.min_tensors,
        }
        &&& match self.resize {
            Some(rt) => rt.width * rt.height <= usize::MAX,
            None => true,
        }
    }
}

/// A spatial-map tensor has rank 3 (`[B, H, W]`) or rank 4 with at least one
/// channel (`[B, C, H, W]`; channel 0 is read).
pub open spec fn map_rank_ok(t: Tensor) -> bool {
    ||| t.spec_dims().len() == 3
    ||| (t.spec_dims().len() == 4 && t.spec_dims()[1] >= 1)
}

/// The batch dimension of a spatial-map tensor.
pub open spec fn map_batch(t: Tensor) -> int {
    t.spec_dims()[0] as int
}

/// The channel count of a spatial-map tensor (1 when the axis is absent).
pub open spec fn map_chans(t: Tensor) -> int {
    if t.spec_dims().len() == 4 {
        t.spec_dims()[1] as int
    } else {
        1
    }
}

/// The map height.
pub open spec fn map_h(t: Tensor) -> int {
    if t.spec_dims().len() == 4 {
        t.spec_dims()[2] as int
    } else {
        t.spec_dims()[1] as int
    }
}

/// The map width.
pub open spec fn map_w(t: Tensor) -> int {
    if t.spec_dims().len() == 4 {
        t.spec_dims()[3] as int
    } else {
        t.spec_dims()[2] as int
    }
}

/// A usable spatial-map tensor: the right rank, and raster dimensions that
/// fit the 32-bit sizes a raster is built with.
pub open spec fn map_tensor_ok(t: Tensor) -> bool {
    &&& map_rank_ok(t)
    &&& map_h(t) <= u32::MAX
    &&& map_w(t) <= u32::MAX
}

/// A usable score tensor for batch size `b`: shape `[b]` or `[b, k]` with
/// `k >= 1` (entry `[i, 0]` is read).
pub open spec fn score_tensor_ok(t: Tensor, b: int) -> bool {
    ||| (t.spec_dims().len() == 1 && t.spec_dims()[0] == b)
    ||| (t.spec_dims().len() == 2 && t.spec_dims()[0] == b && t.spec_dims()[1] >= 1)
}

/// The raw global score of batch item `i`: `[i]` for rank 1, `[i, 0]` for
/// rank 2.
pub open spec fn score_val(t: Tensor, i: int) -> int {
    if t.spec_dims().len() == 1 {
        t.spec_data()[i] as int
    } else {
        t.spec_data()[i * t.spec_dims()[1]] as int
    }
}

/// The tensor sequence satisfies the configured convention.
pub open spec fn shapes_ok(cfg: StrategyCfg, xs: Seq<Tensor>) -> bool {
    &&& xs.len() >= cfg.min_tensors
    &&& map_tensor_ok(xs[cfg.spec_map_idx()])
    &&& match cfg.convention {
        Convention::Dual { score_idx, .. } => score_tensor_ok(
            xs[score_idx as int],
            map_batch(xs[cfg.spec_map_idx()]),
        ),
        Convention::Single { .. } => true,
    }
}

/// Flat offset of channel 0 of batch item `i` in the map tensor.
pub open spec fn item_base(t: Tensor, i: int) -> int {
    i * (map_chans(t) * (map_h(t) * map_w(t)))
}

/// The squeezed 2-D `[H, W]` slice of batch item `i`, flattened row-major.
pub open spec fn item_slice(t: Tensor, i: int) -> Seq<i64> {
    t.spec_data().subrange(item_base(t, i), item_base(t, i) + map_h(t) * map_w(t))
}

/// A column inside the edge-ignore band of width `e`.
pub open spec fn edge_zeroed(x: int, w: int, e: int) -> bool {
    x < e || x + e >= w
}

/// The raster byte of a sample at column `x`: zero inside the edge-ignore
/// band, else the quantized clamped value.
pub open spec fn byte_spec(v: int, x: int, w: int, e: int) -> int {
    if edge_zeroed(x, w, e) {
        0
    } else {
        quant_spec(v)
    }
}

/// The value a sample at column `x` contributes to the score aggregation:
/// zero inside the edge-ignore band, else the clamped value.
pub open spec fn eff_spec(v: int, x: int, w: int, e: int) -> int {
    if edge_zeroed(x, w, e) {
        0
    } else {
        clamp01_spec(v)
    }
}

/// Max of the effective values over the first `n` pixels of a row-major
/// `[H, W]` slice, starting from zero.
pub open spec fn max_eff_upto(s: Seq<i64>, w: int, e: int, n: int) -> int
    decreases n,
{
    if n <= 0 {
        0
    } else {
        let prev = max_eff_upto(s, w, e, n - 1);
        let cur = eff_spec(s[n - 1] as int, (n - 1) % w, w, e);
        if cur > prev {
            cur
        } else {
            prev
        }
    }
}

/// The derived max score lies in the unit interval.
pub proof fn lemma_max_eff_in_unit(s: Seq<i64>, w: int, e: int, n: int)
    ensures
        0 <= max_eff_upto(s, w, e, n) <= SCALE,
    decreases n,
{
    if n > 0 {
        lemma_max_eff_in_unit(s, w, e, n - 1);
        lemma_clamp01_in_unit(s[n - 1] as int);
    }
}

/// Sum of the effective values over the first `n` pixels of a row-major
/// `[H, W]` slice.
pub open spec fn sum_eff_upto(s: Seq<i64>, w: int, e: int, n: int) -> int
    decreases n,
{
    if n <= 0 {
        0
    } else {
        sum_eff_upto(s, w, e, n - 1) + eff_spec(s[n - 1] as int, (n - 1) % w, w, e)
    }
}

/// The sum of `n` effective values lies between 0 and `n` (scaled).
pub proof fn lemma_sum_eff_bound(s: Seq<i64>, w: int, e: int, n: int)
    requires
        n >= 0,
    ensures
        0 <= sum_eff_upto(s, w, e, n) <= n * SCALE,
    decreases n,
{
    if n > 0 {
        lemma_sum_eff_bound(s, w, e, n - 1);
        lemma_clamp01_in_unit(s[n - 1] as int);
        assert(n * (SCALE as int) == (n - 1) * (SCALE as int) + SCALE);
    }
}

/// The mean of the effective values of batch item `i`, zero for an empty
/// map.
pub open spec fn mean_spec(t: Tensor, i: int, e: int) -> int {
    let n = map_h(t) * map_w(t);
    if n <= 0 {
        0
    } else {
        sum_eff_upto(item_slice(t, i), map_w(t), e, n) / n
    }
}

/// The mean score lies in the unit interval.
pub proof fn lemma_mean_in_unit(t: Tensor, i: int, e: int)
    requires
        map_h(t) * map_w(t) >= 0,
    ensures
        0 <= mean_spec(t, i, e) <= SCALE,
{
    let n = map_h(t) * map_w(t);
    if n > 0 {
        let s = sum_eff_upto(item_slice(t, i), map_w(t), e, n);
        lemma_sum_eff_bound(item_slice(t, i), map_w(t), e, n);
        lemma_div_is_ordered(0, s, n);
        lemma_div_multiples_vanish(0, n);
        lemma_div_is_ordered(s, n * SCALE, n);
        lemma_div_multiples_vanish(SCALE as int, n);
        assert(n * (SCALE as int) == (SCALE as int) * n) by (nonlinear_arith);
    }
}

/// The quantized, edge-masked raster of batch item `i`, before any resize.
pub open spec fn quant_map(t: Tensor, i: int, e: int) -> Seq<u8> {
    Seq::new(
        (map_h(t) * map_w(t)) as nat,
        |p: int| byte_spec(item_slice(t, i)[p] as int, p % map_w(t), map_w(t), e) as u8,
    )
}

/// The confidence attached to batch item `i`: the clamped global score for
/// the dual convention, the max over the clamped edge-masked map values for
/// the single convention.
pub open spec fn conf_spec(cfg: StrategyCfg, xs: Seq<Tensor>, i: int) -> int {
    match cfg.convention {
        Convention::Dual { score_idx, .. } => clamp01_spec(score_val(xs[score_idx as int], i)),
        Convention::Single { .. } => {
            let t = xs[cfg.spec_map_idx()];
            max_eff_upto(item_slice(t, i), map_w(t), cfg.edge_ignore_pixels as int, map_h(t)
                * map_w(t))
        },
    }
}

/// What the result of batch item `i` holds: exactly one heatmap, whose
/// raster is the quantized edge-masked slice (resized when the strategy is
/// configured to) and whose confidence is `conf_spec`; a "mean" probability
/// when the strategy is configured to derive one; no other field applies.
pub open spec fn item_ok(cfg: StrategyCfg, xs: Seq<Tensor>, i: int, y: Y) -> bool {
    let t = xs[cfg.spec_map_idx()];
    let w = map_w(t);
    let h = map_h(t);
    let e = cfg.edge_ignore_pixels as int;
    &&& y.spec_heatmaps() matches Some(hs) && hs.len() == 1 && {
        let hm = hs[0];
        &&& match cfg.resize {
            None => {
                &&& hm.spec_width() == w
                &&& hm.spec_height() == h
                &&& hm.spec_px() == quant_map(t, i, e)
            },
            Some(rt) => {
                &&& hm.spec_width() == rt.width
                &&& hm.spec_height() == rt.height
                &&& hm.spec_px() == gray_resized(
                    quant_map(t, i, e),
                    w,
                    h,
                    rt.width as int,
                    rt.height as int,
                    filter_code(rt.filter),
                )
            },
        }
        &&& hm.spec_confidence() == Some(conf_spec(cfg, xs, i) as i64)
        &&& hm.spec_uid() == 0
        &&& hm.spec_id() is None
        &&& hm.spec_name() is None
        &&& hm.spec_style() is None
    }
    &&& match cfg.convention {
        Convention::Single { .. } => {
            if cfg.mean_prob {
                y.spec_probs() matches Some(ps) && ps.len() == 1 && {
                    let p = ps[0];
                    &&& p.spec_name() == "mean"@
                    &&& p.spec_id() is None
                    &&& p.spec_confidence() == mean_spec(t, i, e) as i64
                }
            } else {
                y.spec_probs() is None
            }
        },
        Convention::Dual { .. } => y.spec_probs() is None,
    }
    &&& y.spec_masks() is None
    &&& y.spec_images() is None
}

/// The full contract of a strategy run: on conforming shapes, one result
/// per batch index, in batch order, each as `item_ok` says; otherwise a
/// `ShapeMismatch` and no partial results.
pub open spec fn strategy_post(cfg: StrategyCfg, xs: Seq<Tensor>, r: Result<Vec<Y>, Error>) -> bool {
    match r {
        Ok(ys) => {
            &&& shapes_ok(cfg, xs)
            &&& ys@.len() == map_batch(xs[cfg.spec_map_idx()])
            &&& (forall|i: int| 0 <= i < ys@.len() ==> item_ok(cfg, xs, i, #[trigger] ys@[i]))
        },
        Err(e) => {
            &&& e == Error::ShapeMismatch
            &&& !shapes_ok(cfg, xs)
        },
    }
}

/// Whatever the source tensors hold, an attached confidence lies in the
/// unit interval: the dual convention clamps the global score, the single
/// convention aggregates values that are clamped first.
pub proof fn lemma_confidence_in_unit(cfg: StrategyCfg, xs: Seq<Tensor>, i: int)
    ensures
        0 <= conf_spec(cfg, xs, i) <= SCALE,
{
    match cfg.convention {
        Convention::Dual { score_idx, .. } => {
            lemma_clamp01_in_unit(score_val(xs[score_idx as int], i));
        },
        Convention::Single { .. } => {
            let t = xs[cfg.spec_map_idx()];
            lemma_max_eff_in_unit(
                item_slice(t, i),
                map_w(t),
                cfg.edge_ignore_pixels as int,
                map_h(t) * map_w(t),
            );
        },
    }
}

/// Under the dual-tensor convention the confidence comes from the global
/// score alone: two tensor sequences with the same score tensor give the
/// same confidence, whatever their spatial maps hold.
pub proof fn lemma_dual_confidence_from_score_only(
    cfg: StrategyCfg,
    xs1: Seq<Tensor>,
    xs2: Seq<Tensor>,
    i: int,
)
    requires
        cfg.convention matches Convention::Dual { score_idx, .. } && xs1[score_idx as int]
            == xs2[score_idx as int],
    ensures
        conf_spec(cfg, xs1, i) == conf_spec(cfg, xs2, i),
{
}

/// Run a postprocessing strategy over the output tensors of one forward
/// call.
#[verifier::loop_isolation(false)]
pub fn run_strategy(cfg: &StrategyCfg, xs: &Vec<Tensor>) -> (r: Result<Vec<Y>, Error>)
    requires
        cfg.wf(),
    ensures
        strategy_post(*cfg, xs@, r),
{
    if xs.len() < cfg.min_tensors {
        return Err(Error::ShapeMismatch);
    }
    let map_idx: usize = match cfg.convention {
        Convention::Dual { map_idx, .. } => map_idx,
        Convention::Single { map_idx } => map_idx,
    };
    let t: &Tensor = &xs[map_idx];
    proof {
        use_type_invariant(t);
    }
    let rank: usize = t.rank();
    if rank != 3 && rank != 4 {
        return Err(Error::ShapeMismatch);
    }
    if rank == 4 && t.dim(1) == 0 {
        return Err(Error::ShapeMismatch);
    }
    let b: usize = t.dim(0);
    let c: usize = if rank == 4 {
        t.dim(1)
    } else {
        1
    };
    let h: usize = if rank == 4 {
        t.dim(2)
    } else {
        t.dim(1)
    };
    let w: usize = if rank == 4 {
        t.dim(3)
    } else {
        t.dim(2)
    };
    if w as u64 > u32::MAX as u64 || h as u64 > u32::MAX as u64 {
        return Err(Error::ShapeMismatch);
    }
    // The score tensor, when the convention has one, must cover the batch.
    match cfg.convention {
        Convention::Dual { score_idx, .. } => {
            let s: &Tensor = &xs[score_idx];
            let sr: usize = s.rank();
            if sr == 1 {
                if s.dim(0) != b {
                    return Err(Error::ShapeMismatch);
                }
            } else if sr == 2 {
                if s.dim(0) != b || s.dim(1) == 0 {
                    return Err(Error::ShapeMismatch);
                }
            } else {
                return Err(Error::ShapeMismatch);
            }
        },
        Convention::Single { .. } => {},
    }
    proof {
        assert(shapes_ok(*cfg, xs@));
    }
    let ghost tg: Tensor = xs@[cfg.spec_map_idx()];
    let total: usize = t.len();
    proof {
        crate::tensor::lemma_dims_product_nonneg(tg.spec_dims());
        lemma_map_geometry(tg, b as int, c as int, h as int, w as int);
        assert(total as int == (b as int) * ((c as int) * ((h as int) * (w as int))));
    }
    let e: u32 = cfg.edge_ignore_pixels;
    let mut ys: Vec<Y> = Vec::new();
    let mut i: usize = 0;
    while i < b
        invariant
            0 <= i <= b,
            ys@.len() == i,
            forall|j: int| 0 <= j < i ==> item_ok(*cfg, xs@, j, #[trigger] ys@[j]),
        decreases b - i,
    {
        proof {
            lemma_item_arith(b as int, c as int, h as int, w as int, i as int);
        }
        let chw: usize = c * (h * w);
        let base: usize = i * chw;
        let n_px: usize = h * w;
        let mut bytes: Vec<u8> = Vec::new();
        let mut max_raw: i64 = 0;
        let mut sum_raw: u128 = 0;
        let mut p: usize = 0;
        while p < n_px
            invariant
                0 <= p <= n_px,
                bytes@.len() == p,
                forall|q: int|
                    0 <= q < p ==> #[trigger] bytes@[q] as int == byte_spec(
                        item_slice(tg, i as int)[q] as int,
                        q % (w as int),
                        w as int,
                        e as int,
                    ),
                max_raw == max_eff_upto(
                    item_slice(tg, i as int),
                    w as int,
                    e as int,
                    p as int,
                ),
                sum_raw == sum_eff_upto(
                    item_slice(tg, i as int),
                    w as int,
                    e as int,
                    p as int,
                ),
            decreases n_px - p,
        {
            proof {
                assert(w != 0) by {
                    if w == 0 {
                        assert((h as int) * 0 == 0) by (nonlinear_arith);
                    }
                }
            }
            let xx: usize = p % w;
            let v: i64 = t.get(base + p);
            proof {
                assert(item_slice(tg, i as int)[p as int] == tg.spec_data()[base + p]);
                assert((p as int) % (w as int) == xx as int);
            }
            let zeroed: bool = (xx as u64) < (e as u64) || (xx as u64) + (e as u64) >= (w as u64);
            proof {
                assert(zeroed == edge_zeroed(xx as int, w as int, e as int));
            }
            let byte: u8 = if zeroed {
                0u8
            } else {
                quantize(v)
            };
            bytes.push(byte);
            let effv: i64 = if zeroed {
                0i64
            } else {
                clamp01(v)
            };
            if effv > max_raw {
                max_raw = effv;
            }
            proof {
                lemma_sum_eff_bound(item_slice(tg, i as int), w as int, e as int, p as int);
                lemma_clamp01_in_unit(v as int);
                assert((p as int) * (SCALE as int) + SCALE == ((p + 1) as int) * (SCALE as int));
                assert(((p + 1) as int) * (SCALE as int) <= (n_px as int) * (SCALE as int))
                    by (nonlinear_arith)
                    requires
                        (p + 1) as int <= n_px as int;
                assert((n_px as int) * (SCALE as int) <= 0xffff_ffff_ffff_ffff * (SCALE as int))
                    by (nonlinear_arith)
                    requires
                        n_px as int <= 0xffff_ffff_ffff_ffff;
            }
            sum_raw = sum_raw + (effv as u128);
            p += 1;
        }
        // Wrap the quantized slice as a heatmap and attach the confidence.
        proof {
            assert((w as int) * (h as int) == (h as int) * (w as int)) by (nonlinear_arith);
            assert(bytes@ =~= quant_map(tg, i as int, e as int));
        }
        let base_map = match gray_from_raw(w as u32, h as u32, bytes) {
            Some(m) => m,
            None => {
                return Err(Error::ShapeMismatch);
            },
        };
        let hm = match cfg.resize {
            None => Heatmap::from_parts(base_map, w as u32, h as u32),
            Some(rt) => {
                let resized = gray_resize(&base_map, rt.width, rt.height, rt.filter);
                Heatmap::from_parts(resized, rt.width, rt.height)
            },
        };
        let conf_raw: i64 = match cfg.convention {
            Convention::Dual { score_idx, .. } => {
                let s: &Tensor = &xs[score_idx];
                let slen: usize = s.len();
                proof {
                    use_type_invariant(s);
                    lemma_score_arith(*s, b as int, i as int);
                    assert(slen == s.spec_data().len());
                }
                if s.rank() == 1 {
                    s.get(i)
                } else {
                    s.get(i * s.dim(1))
                }
            },
            Convention::Single { .. } => {
                proof {
                    lemma_max_eff_in_unit(
                        item_slice(tg, i as int),
                        w as int,
                        e as int,
                        n_px as int,
                    );
                }
                max_raw
            },
        };
        let hm = hm.with_confidence(conf_raw);
        let mut hs: Vec<Heatmap> = Vec::new();
        hs.push(hm);
        let mut y = Y::default().with_heatmaps(hs);
        let emit_mean: bool = match cfg.convention {
            Convention::Single { .. } => cfg.mean_prob,
            Convention::Dual { .. } => false,
        };
        if emit_mean {
            proof {
                lemma_sum_eff_bound(item_slice(tg, i as int), w as int, e as int, n_px as int);
                lemma_mean_in_unit(tg, i as int, e as int);
            }
            let mean_raw: i64 = if n_px == 0 {
                0
            } else {
                proof {
                    lemma_div_is_ordered(
                        sum_raw as int,
                        (n_px as int) * (SCALE as int),
                        n_px as int,
                    );
                    lemma_div_multiples_vanish(SCALE as int, n_px as int);
                    assert((n_px as int) * (SCALE as int) == (SCALE as int) * (n_px as int))
                        by (nonlinear_arith);
                }
                (sum_raw / (n_px as u128)) as i64
            };
            let mut ps: Vec<Prob> = Vec::new();
            ps.push(Prob::new("mean", mean_raw));
            y = y.with_probs(ps);
        }
        proof {
            assert(item_ok(*cfg, xs@, i as int, y));
        }
        ys.push(y);
        i += 1;
    }
    Ok(ys)
}

/// Relates a map tensor's dimensions to its flat data length.
proof fn lemma_map_geometry(t: Tensor, b: int, c: int, h: int, w: int)
    requires
        t.wf(),
        map_rank_ok(t),
        b == map_batch(t),
        c == map_chans(t),
        h == map_h(t),
        w == map_w(t),
    ensures
        t.spec_data().len() == b * (c * (h * w)),
        c >= 1,
        h >= 0,
        w >= 0,
        b >= 0,
{
    let dims = t.spec_dims();
    if dims.len() == 3 {
        let s1 = dims.drop_first();
        let s2 = s1.drop_first();
        let s3 = s2.drop_first();
        assert(s3 =~= Seq::<usize>::empty());
        assert(crate::tensor::dims_product(s3) == 1);
        assert(crate::tensor::dims_product(s2) == w * 1);
        assert(crate::tensor::dims_product(s1) == h * (w * 1));
        assert(crate::tensor::dims_product(dims) == b * (h * (w * 1)));
        assert(b * (h * (w * 1)) == b * (1 * (h * w))) by (nonlinear_arith);
    } else {
        let s1 = dims.drop_first();
        let s2 = s1.drop_first();
        let s3 = s2.drop_first();
        let s4 = s3.drop_first();
        assert(s4 =~= Seq::<usize>::empty());
        assert(crate::tensor::dims_product(s4) == 1);
        assert(crate::tensor::dims_product(s3) == w * 1);
        assert(crate::tensor::dims_product(s2) == h * (w * 1));
        assert(crate::tensor::dims_product(s1) == c * (h * (w * 1)));
        assert(crate::tensor::dims_product(dims) == b * (c * (h * (w * 1))));
        assert(b * (c * (h * (w * 1))) == b * (c * (h * w))) by (nonlinear_arith);
    }
}

/// Bounds for the slice of batch item `i`: the item block lies inside the
/// data, and the `[H, W]` slice inside the item block.
proof fn lemma_item_arith(b: int, c: int, h: int, w: int, i: int)
    requires
        0 <= i < b,
        c >= 1,
        h >= 0,
        w >= 0,
    ensures
        h * w >= 0,
        0 <= i * (c * (h * w)),
        h * w <= c * (h * w),
        c * (h * w) <= b * (c * (h * w)),
        i * (c * (h * w)) + c * (h * w) <= b * (c * (h * w)),
{
    assert(h * w >= 0) by (nonlinear_arith)
        requires h >= 0, w >= 0;
    assert(c * (h * w) >= h * w) by (nonlinear_arith)
        requires c >= 1, h * w >= 0;
    assert(i * (c * (h * w)) >= 0) by (nonlinear_arith)
        requires i >= 0, c * (h * w) >= 0;
    assert(c * (h * w) <= b * (c * (h * w))) by (nonlinear_arith)
        requires b >= 1, c * (h * w) >= 0;
    assert(i * (c * (h * w)) + c * (h * w) <= b * (c * (h * w))) by (nonlinear_arith)
        requires i < b, c * (h * w) >= 0;
}

/// Bounds for reading the global score of batch item `i`.
proof fn lemma_score_arith(s: Tensor, b: int, i: int)
    requires
        s.wf(),
        score_tensor_ok(s, b),
        0 <= i < b,
    ensures
        s.spec_dims().len() == 1 ==> i < s.spec_data().len(),
        s.spec_dims().len() == 2 ==> i * s.spec_dims()[1] + 1 <= s.spec_data().len(),
        s.spec_dims().len() == 2 ==> score_val(s, i) == s.spec_data()[i * s.spec_dims()[1]] as int,
{
    let dims = s.spec_dims();
    if dims.len() == 1 {
        assert(dims.drop_first() =~= Seq::<usize>::empty());
        assert(crate::tensor::dims_product(dims.drop_first()) == 1);
        assert(crate::tensor::dims_product(dims) == (dims[0] as int) * 1);
    } else {
        let k = dims[1] as int;
        assert(dims.drop_first().drop_first() =~= Seq::<usize>::empty());
        assert(crate::tensor::dims_product(dims.drop_first().drop_first()) == 1);
        assert(dims.drop_first()[0] == dims[1]);
        assert(crate::tensor::dims_product(dims.drop_first()) == k * 1);
        assert(crate::tensor::dims_product(dims) == (dims[0] as int) * (k * 1));
        assert((dims[0] as int) * (k * 1) == b * k) by (nonlinear_arith)
            requires (dims[0] as int) == b;
        assert(i * k + k <= b * k) by (nonlinear_arith)
            requires i < b, k >= 0;
        assert(i * k + 1 <= i * k + k);
    }
}

} // verus!
