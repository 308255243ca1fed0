//! Plain-value metrics types.
//!
//! `FontMetrics` is the whole-font snapshot a face captures once at
//! construction; `GlyphMetrics` is the per-glyph design-space record a
//! batched glyph-metrics query returns.  All fields are the native-unit
//! integers the font format defines.

use vstd::prelude::*;

verus! {

/// Whole-font metrics in design units, captured from the native face.
#[derive(Clone, Copy, PartialEq, Eq, Structural, Debug)]
pub struct FontMetrics {
    /// Design units per em; the denominator for every other field.
    pub design_units_per_em: u16,
    pub ascent: u16,
    pub descent: u16,
    pub line_gap: i16,
    pub cap_height: u16,
    pub x_height: u16,
    pub underline_position: i16,
    pub underline_thickness: u16,
    pub strikethrough_position: i16,
    pub strikethrough_thickness: u16,
}

/// Per-glyph metrics in design units, independent of point size.
#[derive(Clone, Copy, PartialEq, Eq, Structural, Debug)]
pub struct GlyphMetrics {
    pub left_side_bearing: i32,
    pub advance_width: u32,
    pub right_side_bearing: i32,
    pub top_side_bearing: i32,
    pub advance_height: u32,
    pub bottom_side_bearing: i32,
    pub vertical_origin_y: i32,
}

/// The all-zero glyph record the native layer reports for an index that
/// names no glyph of the face.
pub open spec fn spec_zero_glyph_metrics() -> GlyphMetrics {
    GlyphMetrics {
        left_side_bearing: 0,
        advance_width: 0,
        right_side_bearing: 0,
        top_side_bearing: 0,
        advance_height: 0,
        bottom_side_bearing: 0,
        vertical_origin_y: 0,
    }
}

impl GlyphMetrics {
    /// An all-zero record.
    pub fn zeroed() -> (r: GlyphMetrics)
        ensures
            r == spec_zero_glyph_metrics(),
    {
        GlyphMetrics {
            left_side_bearing: 0,
            advance_width: 0,
            right_side_bearing: 0,
            top_side_bearing: 0,
            advance_height: 0,
            bottom_side_bearing: 0,
            vertical_origin_y: 0,
        }
    }
}

} // verus!
