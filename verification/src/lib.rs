//! A math-typesetting layout engine: it turns a parsed formula tree into a
//! measured tree of boxes, glyphs, rules and kerns, ready for rendering.
//!
//! All geometry is exact fixed-point arithmetic: pixel lengths are kept as
//! `i64` counts of a subpixel quantum (see [`dimensions`]), so the box
//! aggregation laws (widths add, heights max, ...) hold exactly and are
//! verified, not approximated.

pub mod dimensions;
pub mod font;
pub mod layout;
pub mod parser;

use vstd::prelude::*;

verus! {

/// Failure of a layout call.  Geometry cannot be produced when a glyph is
/// missing from the font, when the input nests deeper than the configured
/// bound, or when a computed dimension leaves the representable range.
#[derive(Debug, Clone, Copy, PartialEq, Eq, Structural)]
pub enum LayoutError {
    /// No glyph in the font covers this Unicode code point.
    MissingGlyph(u32),
    /// No glyph in the font carries this glyph id.
    MissingGlyphId(u16),
    /// The formula nests more deeply than the configured maximum.
    TooDeep,
    /// A computed dimension left the representable fixed-point range.
    DimensionTooLarge,
    /// The font or the context handed in fails its validity check.
    InvalidContext,
}

} // verus!
