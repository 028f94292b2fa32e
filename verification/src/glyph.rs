//! Interpretation of the engine's character-to-glyph and advance answers.

use vstd::prelude::*;

use crate::handle::QuartzFontHandle;
use crate::units::FractionalPixel;

verus! {

/// An engine-assigned small integer identifying one visual glyph of a font.
pub type GlyphIndex = u32;

/// What a character-to-glyph query yields for a given engine report: the
/// glyph when the engine mapped the character, and no value when it reported
/// the character absent from this font.
pub open spec fn glyph_lookup_outcome(mapped: bool, raw_glyph: u16) -> Option<GlyphIndex> {
    if mapped {
        Some(raw_glyph as GlyphIndex)
    } else {
        None
    }
}

impl QuartzFontHandle {
    /// Interpret the engine's answer to a character-to-glyph query made
    /// against the owned sized font.  The engine reports whether it mapped
    /// the character (`mapped`) and, when it did, the glyph it chose
    /// (`raw_glyph`); a mapped glyph is never the zero reserved index, so an
    /// absent mapping is the sole "no glyph" outcome a caller can see.
    pub fn glyph_index(&self, mapped: bool, raw_glyph: u16) -> (r: Option<GlyphIndex>)
        requires
            mapped ==> raw_glyph != 0,
        ensures
            r == glyph_lookup_outcome(mapped, raw_glyph),
            r matches Some(g) ==> g != 0,
    {
        if mapped {
            Some(raw_glyph as u32)
        } else {
            None
        }
    }

    /// Interpret the engine's answer to a horizontal-advance query, made with
    /// the default (horizontal) orientation against the owned sized font.
    /// The engine reports a non-negative width, in thousandths of a pixel,
    /// for every glyph it recognizes — and every glyph a lookup yielded is
    /// one it recognizes — so the advance is a definite value, never absent,
    /// and never negative.
    pub fn glyph_h_advance(&self, raw_advance: i64) -> (r: Option<FractionalPixel>)
        requires
            0 <= raw_advance,
        ensures
            r == Some(FractionalPixel(raw_advance)),
            r matches Some(w) ==> w.0 >= 0,
    {
        Some(FractionalPixel(raw_advance))
    }
}

/// Glyph mapping determinism: the lookup outcome is a function of the
/// engine's report alone — the handle carries no changing state — so as long
/// as the engine answers a character the same way for the lifetime of the
/// handle, a mapped character yields the same glyph on every query and an
/// unmapped character yields "no glyph" every time.
pub proof fn lemma_glyph_lookup_deterministic(m1: bool, g1: u16, m2: bool, g2: u16)
    requires
        m1 == m2,
        g1 == g2,
    ensures
        glyph_lookup_outcome(m1, g1) == glyph_lookup_outcome(m2, g2),
        !m1 ==> glyph_lookup_outcome(m1, g1) is None,
{
}

} // verus!
