//! The caller-side checks of a glyph-run draw: the three per-glyph lists must
//! have one entry per glyph, and the text colour is packed into the native
//! `0x00BBGGRR` colour value.

use vstd::prelude::*;

verus! {

/// The native colour value of the channels `r`, `g` and `b`.
pub open spec fn colorref_of(r: u8, g: u8, b: u8) -> u32 {
    (r as u32 + 256 * (g as u32) + 65536 * (b as u32)) as u32
}

/// Packs red, green and blue into a native colour value: red in the low
/// byte, then green, then blue.
pub fn colorref(r: u8, g: u8, b: u8) -> (c: u32)
    ensures
        c == colorref_of(r, g, b),
        c < 0x100_0000,
{
    let (r32, g32, b32) = (r as u32, g as u32, b as u32);
    let c = r32 | (g32 << 8u32) | (b32 << 16u32);
    assert(c == r32 + 256 * g32 + 65536 * b32 && c < 0x100_0000) by (bit_vector)
        requires
            r32 < 256 && g32 < 256 && b32 < 256,
            c == r32 | (g32 << 8u32) | (b32 << 16u32),
    ;
    c
}

/// Why a glyph run cannot be drawn.
#[derive(Clone, Copy, Debug, PartialEq, Eq, Structural)]
pub enum GlyphRunError {
    /// The glyph, advance and offset lists differ in length.
    LengthMismatch,
    /// There are more glyphs than a native glyph count can hold.
    TooManyGlyphs,
}

/// What a native draw call receives besides the lists themselves.
#[derive(Clone, Copy, Debug, PartialEq, Eq, Structural)]
pub struct GlyphRunPlan {
    pub glyph_count: u32,
    pub color: u32,
}

/// Checks the shape of a glyph run before any native call: `glyph_indices`,
/// and the advance and offset lists of `advance_count` and `offset_count`
/// entries, must be equally long, and the glyph count must fit the native
/// count. On success gives the count and the packed colour.
pub fn plan_glyph_run(
    glyph_indices: &[u16],
    advance_count: usize,
    offset_count: usize,
    r: u8,
    g: u8,
    b: u8,
) -> (res: Result<GlyphRunPlan, GlyphRunError>)
    ensures
        glyph_indices@.len() != advance_count || glyph_indices@.len() != offset_count ==> res
            == Err::<GlyphRunPlan, GlyphRunError>(GlyphRunError::LengthMismatch),
        glyph_indices@.len() == advance_count && glyph_indices@.len() == offset_count
            && glyph_indices@.len() > u32::MAX ==> res == Err::<GlyphRunPlan, GlyphRunError>(
            GlyphRunError::TooManyGlyphs,
        ),
        glyph_indices@.len() == advance_count && glyph_indices@.len() == offset_count
            && glyph_indices@.len() <= u32::MAX ==> res == Ok::<GlyphRunPlan, GlyphRunError>(
            GlyphRunPlan { glyph_count: glyph_indices@.len() as u32, color: colorref_of(r, g, b) },
        ),
{
    let n = glyph_indices.len();
    if n != advance_count || n != offset_count {
        Err(GlyphRunError::LengthMismatch)
    } else if n > 0xFFFF_FFFFusize {
        Err(GlyphRunError::TooManyGlyphs)
    } else {
        Ok(GlyphRunPlan { glyph_count: n as u32, color: colorref(r, g, b) })
    }
}

} // verus!
