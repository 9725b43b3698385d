//! Rendering styles and their three-tier resolution.
//!
//! A style carries a fill alpha and an optional 256-entry color lookup table.
//! When a drawable is rendered, its style is resolved with precedence: the
//! instance's own style, else the caller-supplied per-category default from
//! the draw context, else the built-in default (no table, alpha 120).
use vstd::prelude::*;

use crate::Error;

verus! {

/// The fill alpha used when the resolved style does not carry one.
pub const DEFAULT_FILL_ALPHA: u8 = 120;

/// An RGB triple of a color lookup table entry.
#[derive(Clone, Copy, Debug, PartialEq, Eq, Structural)]
pub struct Color {
    pub r: u8,
    pub g: u8,
    pub b: u8,
}

/// Rendering configuration: fill alpha and optional 256-entry color table.
pub struct Style {
    color_fill_alpha: Option<u8>,
    colormap256: Option<Vec<Color>>,
}

impl Style {
    /// The fill alpha, when one was set.
    pub closed spec fn spec_alpha(self) -> Option<u8> {
        self.color_fill_alpha
    }

    /// The color lookup table, when one was set.
    pub closed spec fn spec_colormap(self) -> Option<Seq<Color>> {
        match self.colormap256 {
            Some(m) => Some(m@),
            None => None,
        }
    }

    /// A color table, when present, has exactly one entry per raster value.
    #[verifier::type_invariant]
    pub open spec fn wf(self) -> bool {
        match self.spec_colormap() {
            Some(m) => m.len() == 256,
            None => true,
        }
    }

    /// The built-in default style: no alpha override, no color table.
    pub fn new() -> (r: Style)
        ensures
            r.spec_alpha() is None,
            r.spec_colormap() is None,
    {
        Style { color_fill_alpha: None, colormap256: None }
    }

    /// Set the fill alpha.
    pub fn with_color_fill_alpha(self, alpha: u8) -> (r: Style)
        ensures
            r.spec_alpha() == Some(alpha),
            r.spec_colormap() == self.spec_colormap(),
    {
        proof {
            use_type_invariant(&self);
        }
        Style { color_fill_alpha: Some(alpha), ..self }
    }

    /// Set the color lookup table.  A table must hold exactly 256 entries,
    /// one per raster value; any other length is a `ShapeMismatch`.
    pub fn with_colormap256(self, table: Vec<Color>) -> (r: Result<Style, Error>)
        ensures
            match r {
                Ok(s) => {
                    &&& table@.len() == 256
                    &&& s.spec_colormap() == Some(table@)
                    &&& s.spec_alpha() == self.spec_alpha()
                },
                Err(e) => e == Error::ShapeMismatch && table@.len() != 256,
            },
    {
        if table.len() != 256 {
            return Err(Error::ShapeMismatch);
        }
        Ok(Style { colormap256: Some(table), ..self })
    }

    /// The fill alpha, when one was set.
    pub fn color_fill_alpha(&self) -> (r: Option<u8>)
        ensures
            r == self.spec_alpha(),
    {
        self.color_fill_alpha
    }

    /// The color lookup table, when one was set.
    pub fn colormap256(&self) -> (r: Option<&Vec<Color>>)
        ensures
            match r {
                Some(m) => self.spec_colormap() == Some(m@),
                None => self.spec_colormap() is None,
            },
    {
        self.colormap256.as_ref()
    }
}

/// The context a draw call carries: the caller-supplied default style for
/// heatmaps, used when a heatmap has no style of its own.
pub struct DrawContext {
    pub heatmap_style: Option<Style>,
}

impl DrawContext {
    /// A context with no global default style.
    pub fn new() -> (r: DrawContext)
        ensures
            r.heatmap_style is None,
    {
        DrawContext { heatmap_style: None }
    }

    /// A context with a global default style for heatmaps.
    pub fn with_heatmap_style(self, style: Style) -> (r: DrawContext)
        ensures
            r.heatmap_style == Some(style),
    {
        DrawContext { heatmap_style: Some(style) }
    }
}

/// Which style governs a draw: the instance's own, else the caller-supplied
/// category default, else the built-in default.
pub open spec fn resolve_style_spec(local: Option<Style>, global: Option<Style>, builtin: Style) -> Style {
    if local is Some {
        local->0
    } else if global is Some {
        global->0
    } else {
        builtin
    }
}

/// A spec view of an optional borrowed style.
pub open spec fn opt_deref(o: Option<&Style>) -> Option<Style> {
    match o {
        Some(s) => Some(*s),
        None => None,
    }
}

/// Resolve the style governing one drawable instance, with precedence
/// local, then global default, then built-in default.
pub fn resolve_style<'a>(
    local: Option<&'a Style>,
    global: Option<&'a Style>,
    builtin: &'a Style,
) -> (r: &'a Style)
    ensures
        *r == resolve_style_spec(opt_deref(local), opt_deref(global), *builtin),
{
    match local {
        Some(s) => s,
        None => match global {
            Some(s) => s,
            None => builtin,
        },
    }
}

} // verus!
