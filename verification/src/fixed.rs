//! Fixed-point representation of tensor values.
//!
//! A raw value `v: i64` stands for the real number `v / SCALE`.  The engine's
//! spatial maps and scores are nominally in the unit interval but may stray
//! outside it, so every consumer first clamps into `[0, SCALE]`; the 8-bit
//! raster value of a sample is `floor(clamp(v, 0, 1) * 255)`, computed here
//! exactly.  Quantization truncates toward zero, it does not round.
use vstd::prelude::*;

verus! {

/// Denominator of the fixed-point representation: a raw `v` stands for `v / SCALE`.
pub const SCALE: i64 = 0x1_0000_0000;

/// The value of `v / SCALE` clamped into the unit interval, still scaled:
/// the result is in `[0, SCALE]`.
pub open spec fn clamp01_spec(v: int) -> int {
    if v < 0 {
        0
    } else if v > SCALE {
        SCALE as int
    } else {
        v
    }
}

/// The raster byte of a sample: `floor(clamp(v, 0, 1) * 255)` in fixed point.
pub open spec fn quant_spec(v: int) -> int {
    clamp01_spec(v) * 255 / (SCALE as int)
}

/// Every clamped value lies in `[0, 1]` (scaled: `[0, SCALE]`), whatever the input.
pub proof fn lemma_clamp01_in_unit(v: int)
    ensures
        0 <= clamp01_spec(v) <= SCALE,
{
}

/// Every quantized byte lies in `[0, 255]`, whatever the input.
pub proof fn lemma_quant_in_byte(v: int)
    ensures
        0 <= quant_spec(v) <= 255,
{
    let c = clamp01_spec(v);
    assert(0 <= c * 255 <= (SCALE as int) * 255) by (nonlinear_arith)
        requires 0 <= c <= SCALE as int;
    assert(c * 255 / (SCALE as int) <= 255) by (nonlinear_arith)
        requires 0 <= c * 255 <= (SCALE as int) * 255;
    assert(c * 255 / (SCALE as int) >= 0) by (nonlinear_arith)
        requires c * 255 >= 0;
}

/// Clamp a raw fixed-point sample into the unit interval.
pub fn clamp01(v: i64) -> (r: i64)
    ensures
        r == clamp01_spec(v as int),
{
    if v < 0 {
        0
    } else if v > SCALE {
        SCALE
    } else {
        v
    }
}

/// Quantize a raw fixed-point sample to its 8-bit raster value:
/// `floor(clamp(v, 0, 1) * 255)`.
pub fn quantize(v: i64) -> (r: u8)
    ensures
        r as int == quant_spec(v as int),
{
    let c = clamp01(v);
    proof {
        lemma_quant_in_byte(v as int);
    }
    ((c * 255) / SCALE) as u8
}

} // verus!
