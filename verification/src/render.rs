//! The heatmap renderer: composite heatmaps onto a shared RGBA canvas.
//!
//! For each heatmap the style is resolved with the three-tier precedence
//! (instance style, else the context's category default, else the built-in
//! default), the raster is colored through the 256-entry lookup table or
//! the built-in two-segment gradient, centered on the canvas, and the
//! resulting overlay — fully transparent outside the raster footprint — is
//! alpha-blended over the canvas at offset (0, 0).  Draw order is list
//! order: later heatmaps paint over earlier ones.
use vstd::prelude::*;
use vstd::arithmetic::div_mod::lemma_fundamental_div_mod_converse;

use crate::heatmap::Heatmap;
use crate::raster::{
    rgba_dims, rgba_from_raw, rgba_h, rgba_over, rgba_overlay, rgba_px, rgba_w, RgbaBuf,
};
use crate::style::{
    opt_deref, resolve_style, resolve_style_spec, Color, DrawContext, Style, DEFAULT_FILL_ALPHA,
};
use crate::Error;

verus! {

/// The fill alpha governing a draw: the resolved style's alpha, else the
/// built-in default of 120.
pub open spec fn resolved_alpha(local: Option<Style>, global: Option<Style>) -> u8 {
    let chosen: Option<u8> = if local is Some {
        local->0.spec_alpha()
    } else if global is Some {
        global->0.spec_alpha()
    } else {
        None
    };
    match chosen {
        Some(a) => a,
        None => DEFAULT_FILL_ALPHA,
    }
}

/// The color table governing a draw: the resolved style's table, when it
/// has one.
pub open spec fn resolved_cmap(local: Option<Style>, global: Option<Style>) -> Option<Seq<Color>> {
    if local is Some {
        local->0.spec_colormap()
    } else if global is Some {
        global->0.spec_colormap()
    } else {
        None
    }
}

/// Red channel of the built-in gradient, exact integer form of
/// `min(2 * v/255, 1)` scaled to 8-bit.
pub open spec fn gradient_r(v: int) -> int {
    if v <= 127 {
        2 * v
    } else {
        255
    }
}

/// Green channel of the built-in gradient, exact integer form of
/// `min(2 * (1 - v/255), 1)` scaled to 8-bit.
pub open spec fn gradient_g(v: int) -> int {
    if v <= 127 {
        255
    } else {
        2 * (255 - v)
    }
}

/// Channel `chan` (R, G, B, A in order) of the color a raster value is
/// mapped to: through the lookup table when one governs, else through the
/// built-in green-yellow-red gradient; the alpha channel is the resolved
/// fill alpha either way.
pub open spec fn color_at(v: int, cmap: Option<Seq<Color>>, alpha: u8, chan: int) -> int {
    match cmap {
        Some(m) => {
            if chan == 0 {
                m[v].r as int
            } else if chan == 1 {
                m[v].g as int
            } else if chan == 2 {
                m[v].b as int
            } else {
                alpha as int
            }
        },
        None => {
            if chan == 0 {
                gradient_r(v)
            } else if chan == 1 {
                gradient_g(v)
            } else if chan == 2 {
                0
            } else {
                alpha as int
            }
        },
    }
}

/// The centering offset of a raster on a canvas along one axis:
/// `max(0, (canvas - raster) / 2)`, integer division.
pub open spec fn center_offset(canvas_dim: int, raster_dim: int) -> int {
    if canvas_dim > raster_dim {
        (canvas_dim - raster_dim) / 2
    } else {
        0
    }
}

/// Byte `k` of the canvas-sized overlay of a raster `map` (`mw` by `mh`)
/// centered on a `cw` by `ch` canvas: inside the raster footprint the
/// mapped color channel, outside it zero (fully transparent).
pub open spec fn overlay_byte(
    map: Seq<u8>,
    mw: int,
    mh: int,
    cmap: Option<Seq<Color>>,
    alpha: u8,
    cw: int,
    ch: int,
    k: int,
) -> int {
    let pix = k / 4;
    let chan = k % 4;
    let y = pix / cw;
    let x = pix % cw;
    let xo = center_offset(cw, mw);
    let yo = center_offset(ch, mh);
    if xo <= x < xo + mw && yo <= y < yo + mh {
        color_at(map[(y - yo) * mw + (x - xo)] as int, cmap, alpha, chan)
    } else {
        0
    }
}

/// The canvas-sized overlay buffer of one heatmap draw.
pub open spec fn overlay_spec(
    map: Seq<u8>,
    mw: int,
    mh: int,
    cmap: Option<Seq<Color>>,
    alpha: u8,
    cw: int,
    ch: int,
) -> Seq<u8> {
    Seq::new((4 * cw * ch) as nat, |k: int| overlay_byte(map, mw, mh, cmap, alpha, cw, ch, k) as u8)
}

/// Canvas pixel (x, y) lies outside the centered footprint of an `mw` by
/// `mh` raster on a `cw` by `ch` canvas.
pub open spec fn outside_footprint(x: int, y: int, mw: int, mh: int, cw: int, ch: int) -> bool {
    !(center_offset(cw, mw) <= x < center_offset(cw, mw) + mw && center_offset(ch, mh) <= y
        < center_offset(ch, mh) + mh)
}

/// The canvas contents after one heatmap draw: the overlay of the heatmap
/// under its resolved style, alpha-blended over the contents before.
pub open spec fn draw_spec(
    hm: Heatmap,
    ctx: DrawContext,
    cw: int,
    ch: int,
    before: Seq<u8>,
) -> Seq<u8> {
    rgba_over(
        cw,
        ch,
        before,
        overlay_spec(
            hm.spec_px(),
            hm.spec_width() as int,
            hm.spec_height() as int,
            resolved_cmap(hm.spec_style(), ctx.heatmap_style),
            resolved_alpha(hm.spec_style(), ctx.heatmap_style),
            cw,
            ch,
        ),
    )
}

/// The canvas contents after drawing a list of heatmaps in order.
pub open spec fn draw_seq_spec(
    items: Seq<Heatmap>,
    ctx: DrawContext,
    cw: int,
    ch: int,
    before: Seq<u8>,
) -> Seq<u8>
    decreases items.len(),
{
    if items.len() == 0 {
        before
    } else {
        draw_seq_spec(items.drop_first(), ctx, cw, ch, draw_spec(items[0], ctx, cw, ch, before))
    }
}

/// Index arithmetic of a canvas byte: pixel `(x, y)` of a `cw`-wide canvas
/// owns bytes `4 * (y * cw + x)` through `+ 3`.
proof fn lemma_pixel_index(y: int, x: int, chan: int, cw: int)
    requires
        0 <= x < cw,
        0 <= y,
        0 <= chan < 4,
    ensures
        (4 * (y * cw + x) + chan) / 4 == y * cw + x,
        (4 * (y * cw + x) + chan) % 4 == chan,
        (y * cw + x) / cw == y,
        (y * cw + x) % cw == x,
{
    assert(y * cw >= 0) by (nonlinear_arith)
        requires y >= 0, cw >= 0;
    lemma_fundamental_div_mod_converse(4 * (y * cw + x) + chan, 4, y * cw + x, chan);
    lemma_fundamental_div_mod_converse(y * cw + x, cw, y, x);
}

/// Build the canvas-sized colored overlay for one heatmap: transparent
/// outside the centered raster footprint, the mapped color inside.
#[verifier::loop_isolation(false)]
fn build_overlay(hm: &Heatmap, cmap: Option<&Vec<Color>>, alpha: u8, cw: u32, ch: u32) -> (r:
    RgbaBuf)
    requires
        match cmap {
            Some(m) => m@.len() == 256,
            None => true,
        },
    ensures
        rgba_w(r) == cw,
        rgba_h(r) == ch,
        rgba_px(r) == overlay_spec(
            hm.spec_px(),
            hm.spec_width() as int,
            hm.spec_height() as int,
            match cmap {
                Some(m) => Some(m@),
                None => None,
            },
            alpha,
            cw as int,
            ch as int,
        ),
{
    let ghost cmap_spec: Option<Seq<Color>> = match cmap {
        Some(m) => Some(m@),
        None => None,
    };
    let map_vec: Vec<u8> = hm.to_vec();
    let map_len: usize = map_vec.len();
    let mw: u32 = hm.width();
    let mh: u32 = hm.height();
    proof {
        use_type_invariant(hm);
    }
    let xo: u32 = if cw > mw {
        (cw - mw) / 2
    } else {
        0
    };
    let yo: u32 = if ch > mh {
        (ch - mh) / 2
    } else {
        0
    };
    proof {
        assert(xo as int == center_offset(cw as int, mw as int));
        assert(yo as int == center_offset(ch as int, mh as int));
    }
    let mut buf: Vec<u8> = Vec::new();
    let mut y: u32 = 0;
    while y < ch
        invariant
            0 <= y <= ch,
            buf@.len() == 4 * ((y as int) * (cw as int)),
            forall|k: int|
                0 <= k < buf@.len() ==> #[trigger] buf@[k] as int == overlay_byte(
                    hm.spec_px(),
                    mw as int,
                    mh as int,
                    cmap_spec,
                    alpha,
                    cw as int,
                    ch as int,
                    k,
                ),
        decreases ch - y,
    {
        let mut x: u32 = 0;
        while x < cw
            invariant
                0 <= x <= cw,
                y < ch,
                buf@.len() == 4 * ((y as int) * (cw as int) + x as int),
                forall|k: int|
                    0 <= k < buf@.len() ==> #[trigger] buf@[k] as int == overlay_byte(
                        hm.spec_px(),
                        mw as int,
                        mh as int,
                        cmap_spec,
                        alpha,
                        cw as int,
                        ch as int,
                        k,
                    ),
            decreases cw - x,
        {
            let inside: bool = x >= xo && x - xo < mw && y >= yo && y - yo < mh;
            let (r_b, g_b, b_b): (u8, u8, u8) = if inside {
                let yy: usize = (y - yo) as usize;
                let xx: usize = (x - xo) as usize;
                proof {
                    assert((yy as int) * (mw as int) + (xx as int) < (mw as int) * (mh as int))
                        by (nonlinear_arith)
                        requires
                            0 <= (yy as int) < (mh as int),
                            0 <= (xx as int) < (mw as int);
                }
                let v: u8 = map_vec[yy * (mw as usize) + xx];
                match cmap {
                    Some(m) => {
                        let c: Color = m[v as usize];
                        (c.r, c.g, c.b)
                    },
                    None => {
                        if v <= 127 {
                            (2 * v, 255u8, 0u8)
                        } else {
                            (255u8, 2 * (255 - v), 0u8)
                        }
                    },
                }
            } else {
                (0u8, 0u8, 0u8)
            };
            let a_b: u8 = if inside {
                alpha
            } else {
                0u8
            };
            proof {
                lemma_pixel_index(y as int, x as int, 0, cw as int);
                lemma_pixel_index(y as int, x as int, 1, cw as int);
                lemma_pixel_index(y as int, x as int, 2, cw as int);
                lemma_pixel_index(y as int, x as int, 3, cw as int);
            }
            buf.push(r_b);
            buf.push(g_b);
            buf.push(b_b);
            buf.push(a_b);
            x += 1;
        }
        proof {
            assert(((y as int) + 1) * (cw as int) == (y as int) * (cw as int) + (cw as int))
                by (nonlinear_arith);
        }
        y += 1;
    }
    proof {
        assert(buf@.len() == 4 * (cw as int) * (ch as int)) by (nonlinear_arith)
            requires buf@.len() == 4 * ((ch as int) * (cw as int));
        assert(buf@ =~= overlay_spec(
            hm.spec_px(),
            mw as int,
            mh as int,
            cmap_spec,
            alpha,
            cw as int,
            ch as int,
        ));
    }
    match rgba_from_raw(cw, ch, buf) {
        Some(img) => img,
        None => {
            proof {
                assert(false);
            }
            unreached()
        },
    }
}

impl Heatmap {
    /// Composite this heatmap onto the canvas: resolve the style with the
    /// three-tier precedence, color and center the raster, and alpha-blend
    /// the overlay over the canvas in place.  The canvas dimensions are
    /// untouched, and so is every canvas pixel outside the centered raster
    /// footprint, where the overlay is fully transparent.
    pub fn draw(&self, ctx: &DrawContext, canvas: &mut RgbaBuf) -> (r: Result<(), Error>)
        ensures
            r is Ok,
            rgba_w(*final(canvas)) == rgba_w(*old(canvas)),
            rgba_h(*final(canvas)) == rgba_h(*old(canvas)),
            rgba_px(*final(canvas)) == draw_spec(
                *self,
                *ctx,
                rgba_w(*old(canvas)) as int,
                rgba_h(*old(canvas)) as int,
                rgba_px(*old(canvas)),
            ),
            forall|x: int, y: int, c: int|
                0 <= x < rgba_w(*old(canvas)) && 0 <= y < rgba_h(*old(canvas)) && 0 <= c < 4
                    && outside_footprint(
                    x,
                    y,
                    self.spec_width() as int,
                    self.spec_height() as int,
                    rgba_w(*old(canvas)) as int,
                    rgba_h(*old(canvas)) as int,
                ) ==> #[trigger] rgba_px(*final(canvas))[4 * (y * (rgba_w(*old(canvas)) as int)
                    + x) + c] == rgba_px(*old(canvas))[4 * (y * (rgba_w(*old(canvas)) as int) + x)
                    + c],
    {
        let builtin: Style = Style::new();
        let local: Option<&Style> = self.style();
        let global: Option<&Style> = ctx.heatmap_style.as_ref();
        let style: &Style = resolve_style(local, global, &builtin);
        proof {
            use_type_invariant(style);
            assert(opt_deref(local) == self.spec_style());
            assert(opt_deref(global) == ctx.heatmap_style);
        }
        let alpha: u8 = match style.color_fill_alpha() {
            Some(a) => a,
            None => DEFAULT_FILL_ALPHA,
        };
        let cmap: Option<&Vec<Color>> = style.colormap256();
        proof {
            assert(alpha == resolved_alpha(self.spec_style(), ctx.heatmap_style));
            assert(match cmap {
                Some(m) => Some(m@),
                None => None,
            } == resolved_cmap(self.spec_style(), ctx.heatmap_style));
        }
        let dims: (u32, u32) = rgba_dims(canvas);
        let overlay: RgbaBuf = build_overlay(self, cmap, alpha, dims.0, dims.1);
        rgba_overlay(canvas, &overlay);
        proof {
            let cw = rgba_w(*old(canvas)) as int;
            let ch = rgba_h(*old(canvas)) as int;
            let mw = self.spec_width() as int;
            let mh = self.spec_height() as int;
            let top = rgba_px(overlay);
            assert forall|x: int, y: int, c: int|
                0 <= x < cw && 0 <= y < ch && 0 <= c < 4 && outside_footprint(
                    x,
                    y,
                    mw,
                    mh,
                    cw,
                    ch,
                ) implies #[trigger] rgba_px(*canvas)[4 * (y * cw + x) + c] == rgba_px(
                *old(canvas),
            )[4 * (y * cw + x) + c] by {
                assert(0 <= y * cw + x && y * cw + x + 1 <= ch * cw) by (nonlinear_arith)
                    requires
                        0 <= x < cw,
                        0 <= y < ch;
                assert(cw * ch == ch * cw) by (nonlinear_arith);
                lemma_pixel_index(y, x, 3, cw);
                lemma_pixel_index(y, x, c, cw);
                let p = y * cw + x;
                assert(0 <= 4 * p + 3 && 4 * p + 3 < 4 * cw * ch) by (nonlinear_arith)
                    requires
                        0 <= p,
                        p + 1 <= cw * ch;
                assert(top[4 * p + 3] == overlay_byte(
                    self.spec_px(),
                    mw,
                    mh,
                    resolved_cmap(self.spec_style(), ctx.heatmap_style),
                    resolved_alpha(self.spec_style(), ctx.heatmap_style),
                    cw,
                    ch,
                    4 * p + 3,
                ) as u8);
                assert(overlay_byte(
                    self.spec_px(),
                    mw,
                    mh,
                    resolved_cmap(self.spec_style(), ctx.heatmap_style),
                    resolved_alpha(self.spec_style(), ctx.heatmap_style),
                    cw,
                    ch,
                    4 * p + 3,
                ) == 0);
                assert(top[4 * p + 3] == 0);
            }
        }
        Ok(())
    }
}

/// Draw each heatmap of a list onto the canvas, in list order: later
/// entries paint over earlier ones.  The canvas dimensions are untouched.
pub fn draw_heatmaps(items: &Vec<Heatmap>, ctx: &DrawContext, canvas: &mut RgbaBuf) -> (r: Result<
    (),
    Error,
>)
    ensures
        r is Ok,
        rgba_w(*final(canvas)) == rgba_w(*old(canvas)),
        rgba_h(*final(canvas)) == rgba_h(*old(canvas)),
        rgba_px(*final(canvas)) == draw_seq_spec(
            items@,
            *ctx,
            rgba_w(*old(canvas)) as int,
            rgba_h(*old(canvas)) as int,
            rgba_px(*old(canvas)),
        ),
{
    let ghost cw: int = rgba_w(*canvas) as int;
    let ghost ch: int = rgba_h(*canvas) as int;
    let ghost before: Seq<u8> = rgba_px(*canvas);
    let mut i: usize = 0;
    while i < items.len()
        invariant
            0 <= i <= items@.len(),
            rgba_w(*canvas) as int == cw,
            rgba_h(*canvas) as int == ch,
            rgba_px(*canvas) == draw_seq_spec(items@.take(i as int), *ctx, cw, ch, before),
        decreases items@.len() - i,
    {
        proof {
            lemma_draw_seq_snoc(items@.take(i as int), items@[i as int], *ctx, cw, ch, before);
            assert(items@.take(i + 1) =~= items@.take(i as int).push(items@[i as int]));
        }
        match items[i].draw(ctx, canvas) {
            Ok(()) => {},
            Err(e) => {
                return Err(e);
            },
        }
        i += 1;
    }
    proof {
        assert(items@.take(items@.len() as int) =~= items@);
    }
    Ok(())
}

/// Drawing a list and then one more is drawing the list, then the last.
proof fn lemma_draw_seq_snoc(
    s: Seq<Heatmap>,
    x: Heatmap,
    ctx: DrawContext,
    cw: int,
    ch: int,
    before: Seq<u8>,
)
    ensures
        draw_seq_spec(s.push(x), ctx, cw, ch, before) == draw_spec(
            x,
            ctx,
            cw,
            ch,
            draw_seq_spec(s, ctx, cw, ch, before),
        ),
    decreases s.len(),
{
    if s.len() == 0 {
        assert(s.push(x)[0] == x);
        assert(s.push(x).drop_first() =~= Seq::<Heatmap>::empty());
        assert(draw_seq_spec(s, ctx, cw, ch, before) == before);
        assert(draw_seq_spec(s.push(x), ctx, cw, ch, before) == draw_seq_spec(
            Seq::<Heatmap>::empty(),
            ctx,
            cw,
            ch,
            draw_spec(x, ctx, cw, ch, before),
        ));
        assert(draw_seq_spec(
            Seq::<Heatmap>::empty(),
            ctx,
            cw,
            ch,
            draw_spec(x, ctx, cw, ch, before),
        ) == draw_spec(x, ctx, cw, ch, before));
    } else {
        assert(s.push(x)[0] == s[0]);
        assert(s.push(x).drop_first() =~= s.drop_first().push(x));
        lemma_draw_seq_snoc(s.drop_first(), x, ctx, cw, ch, draw_spec(s[0], ctx, cw, ch, before));
        assert(draw_seq_spec(s.push(x), ctx, cw, ch, before) == draw_seq_spec(
            s.drop_first().push(x),
            ctx,
            cw,
            ch,
            draw_spec(s[0], ctx, cw, ch, before),
        ));
        assert(draw_seq_spec(s, ctx, cw, ch, before) == draw_seq_spec(
            s.drop_first(),
            ctx,
            cw,
            ch,
            draw_spec(s[0], ctx, cw, ch, before),
        ));
    }
}

/// Rendering is deterministic: the canvas contents after a draw are a
/// function of the heatmap, the draw context and the canvas contents
/// before, so rendering the same heatmap with the same style onto two
/// canvases with byte-identical contents leaves byte-identical contents.
pub proof fn lemma_render_deterministic(
    hm: Heatmap,
    ctx: DrawContext,
    cw: int,
    ch: int,
    c1: Seq<u8>,
    c2: Seq<u8>,
)
    requires
        c1 == c2,
    ensures
        draw_spec(hm, ctx, cw, ch, c1) == draw_spec(hm, ctx, cw, ch, c2),
{
}

/// Centering: a raster drawn on a larger canvas is written at offset
/// `((cw - mw) / 2, (ch - mh) / 2)`; the four bytes of the overlay pixel at
/// `(x + xo, y + yo)` are exactly the mapped color of raster pixel
/// `(x, y)`.
pub proof fn lemma_overlay_centering(
    map: Seq<u8>,
    mw: int,
    mh: int,
    cmap: Option<Seq<Color>>,
    alpha: u8,
    cw: int,
    ch: int,
    x: int,
    y: int,
    chan: int,
)
    requires
        0 <= x < mw,
        0 <= y < mh,
        x + center_offset(cw, mw) < cw,
        y + center_offset(ch, mh) < ch,
        0 <= chan < 4,
    ensures
        overlay_spec(map, mw, mh, cmap, alpha, cw, ch)[4 * ((y + center_offset(ch, mh)) * cw + (x
            + center_offset(cw, mw))) + chan] == color_at(map[y * mw + x] as int, cmap, alpha, chan) as u8,
{
    let xo = center_offset(cw, mw);
    let yo = center_offset(ch, mh);
    let cx = x + xo;
    let cy = y + yo;
    lemma_pixel_index(cy, cx, chan, cw);
    let k = 4 * (cy * cw + cx) + chan;
    assert(0 <= cy * cw + cx) by (nonlinear_arith)
        requires cy >= 0, cw > 0, cx >= 0;
    assert(cy * cw + cx < ch * cw) by (nonlinear_arith)
        requires 0 <= cy < ch, 0 <= cx < cw;
    assert(4 * (cy * cw + cx) + chan < 4 * cw * ch) by (nonlinear_arith)
        requires cy * cw + cx < ch * cw, chan < 4;
    assert(overlay_byte(map, mw, mh, cmap, alpha, cw, ch, k) == color_at(
        map[y * mw + x] as int,
        cmap,
        alpha,
        chan,
    ));
}

} // verus!
