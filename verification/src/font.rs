//! The font-metrics provider, modeled as plain data.
//!
//! The layout engine consumes four things from a math font: glyph metrics
//! looked up by code point or glyph id, vertical and horizontal variants
//! of a glyph no smaller than a requested size, a corner-kerning lookup
//! for symbol pairs, and a table of named typographic constants.  A
//! [`MathFont`] holds all four as plain integer tables, in font units, so
//! every query is ordinary verified code; whatever loads a real font
//! fills these tables outside the library.

use vstd::prelude::*;

use crate::LayoutError;

verus! {

/// The largest magnitude accepted for a font-unit metric.
pub const FU_MAX: i64 = 0x10_0000;

/// The largest number of parts accepted in one glyph assembly.
pub const PARTS_MAX: usize = 64;

/// Metrics of one glyph, in font units.
#[derive(Debug, Clone, Copy, PartialEq, Eq, Structural)]
pub struct Glyph {
    /// The code point the glyph renders.
    pub unicode: u32,
    /// The glyph id inside the font.
    pub gid: u16,
    /// Extent above the baseline; never negative.
    pub height: i64,
    /// Extent below the baseline; never positive.
    pub depth: i64,
    /// Horizontal advance; never negative.
    pub advance: i64,
    /// Italic correction.
    pub italics: i64,
    /// Horizontal offset of the attachment point, or zero when the font
    /// declares none.
    pub attachment: i64,
    /// Left edge of the ink box.
    pub bbox_xmin: i64,
    /// Right edge of the ink box.
    pub bbox_xmax: i64,
}

impl Glyph {
    /// Whether every metric is within the accepted range and the vertical
    /// extents have their proper signs.
    pub open spec fn wf(self) -> bool {
        &&& 0 <= self.height <= FU_MAX
        &&& -FU_MAX <= self.depth <= 0
        &&& 0 <= self.advance <= FU_MAX
        &&& -FU_MAX <= self.italics <= FU_MAX
        &&& -FU_MAX <= self.attachment <= FU_MAX
        &&& -FU_MAX <= self.bbox_xmin <= FU_MAX
        &&& -FU_MAX <= self.bbox_xmax <= FU_MAX
    }
}

/// The direction along which an assembled variant glyph grows.
#[derive(Debug, Clone, Copy, PartialEq, Eq, Structural)]
pub enum Direction {
    /// Parts are stacked bottom to top.
    Vertical,
    /// Parts are laid left to right.
    Horizontal,
}

/// One part of an assembled variant glyph.
#[derive(Debug, Clone, Copy, PartialEq, Eq, Structural)]
pub struct GlyphPart {
    /// The glyph id of the part.
    pub gid: u16,
    /// How much the part overlaps its predecessor; never negative.
    pub overlap: i64,
}

impl GlyphPart {
    /// Whether the overlap is within the accepted range.
    pub open spec fn wf(self) -> bool {
        0 <= self.overlap <= FU_MAX
    }
}

/// A variant of a glyph at some larger size: either a single replacement
/// glyph or a recipe of parts to assemble along a direction.
#[derive(Debug, Clone, PartialEq)]
pub enum VariantGlyph {
    /// A single replacement glyph.
    Replacement(u16),
    /// Parts to assemble along the given direction.
    Constructable(Direction, Vec<GlyphPart>),
}

/// One pre-drawn variant of a glyph: its glyph id and its extent along
/// the variant direction, in font units.
#[derive(Debug, Clone, Copy, PartialEq, Eq, Structural)]
pub struct VariantRecord {
    /// The glyph id of the variant.
    pub gid: u16,
    /// The extent of the variant along the growth direction.
    pub size: i64,
}

/// The variants a font offers for one glyph, ordered from smallest to
/// largest, together with an optional assembly recipe for sizes past the
/// largest variant.
#[derive(Debug, Clone, PartialEq)]
pub struct GlyphVariants {
    /// The glyph the variants belong to.
    pub gid: u16,
    /// The pre-drawn variants, smallest first.
    pub variants: Vec<VariantRecord>,
    /// The assembly parts; empty when the glyph has no assembly.
    pub parts: Vec<GlyphPart>,
}

impl GlyphVariants {
    /// Whether every record is within the accepted ranges.
    pub open spec fn wf(self) -> bool {
        &&& forall|i: int|
            0 <= i < self.variants@.len() ==> 0 <= #[trigger] self.variants@[i].size <= FU_MAX
        &&& forall|i: int| 0 <= i < self.parts@.len() ==> (#[trigger] self.parts@[i]).wf()
        &&& self.parts@.len() <= PARTS_MAX
    }
}

/// One step of a corner-kerning table: the kern to apply at or above the
/// given attachment height.
#[derive(Debug, Clone, Copy, PartialEq, Eq, Structural)]
pub struct KernRecord {
    /// The attachment height the step starts at, in font units.
    pub height: i64,
    /// The kern applied from that height on, in font units.
    pub kern: i64,
}

/// The four corner-kerning tables of one glyph.
#[derive(Debug, Clone, PartialEq)]
pub struct GlyphKernInfo {
    /// The glyph the tables belong to.
    pub gid: u16,
    /// Kerns against material attached at the top right.
    pub top_right: Vec<KernRecord>,
    /// Kerns against material attached at the top left.
    pub top_left: Vec<KernRecord>,
    /// Kerns against material attached at the bottom right.
    pub bottom_right: Vec<KernRecord>,
    /// Kerns against material attached at the bottom left.
    pub bottom_left: Vec<KernRecord>,
}

/// Whether every record of one corner table is within range.
pub open spec fn kern_records_wf(s: Seq<KernRecord>) -> bool {
    forall|i: int|
        0 <= i < s.len() ==> -FU_MAX <= (#[trigger] s[i]).height <= FU_MAX && -FU_MAX <= s[i].kern
            <= FU_MAX
}

impl GlyphKernInfo {
    /// Whether all four corner tables are within range.
    pub open spec fn wf(self) -> bool {
        &&& kern_records_wf(self.top_right@)
        &&& kern_records_wf(self.top_left@)
        &&& kern_records_wf(self.bottom_right@)
        &&& kern_records_wf(self.bottom_left@)
    }
}

/// The named typographic constants of a math font.  All lengths are in
/// font units except where noted.
#[derive(Debug, Clone, Copy, PartialEq, Eq, Structural)]
pub struct MathConstants {
    /// Scale of first-order scripts, in percent.
    pub script_percent_scale_down: u16,
    /// Scale of second-order scripts, in percent.
    pub script_script_percent_scale_down: u16,
    /// Minimum height of a delimited sub-formula before delimiters grow.
    pub delimited_sub_formula_min_height: i64,
    /// Minimum height of a large operator in display style.
    pub display_operator_min_height: i64,
    /// Height of the math axis above the baseline.
    pub axis_height: i64,
    /// Largest height an accent is dropped onto.
    pub accent_base_height: i64,
    /// Default superscript raise.
    pub superscript_shift_up: i64,
    /// Default superscript raise in cramped styles.
    pub superscript_shift_up_cramped: i64,
    /// Largest drop of a superscript baseline below the base top.
    pub superscript_baseline_drop_max: i64,
    /// Minimum height of a superscript bottom over the baseline.
    pub superscript_bottom_min: i64,
    /// Default subscript drop.
    pub subscript_shift_down: i64,
    /// Minimum drop of a subscript baseline below the base bottom.
    pub subscript_baseline_drop_min: i64,
    /// Largest height of a subscript top over the baseline.
    pub subscript_top_max: i64,
    /// Minimum gap between a superscript bottom and a subscript top.
    pub sub_superscript_gap_min: i64,
    /// Minimum raise of an upper limit baseline over the base top.
    pub upper_limit_baseline_rise_min: i64,
    /// Minimum gap between an upper limit and the base.
    pub upper_limit_gap_min: i64,
    /// Minimum drop of a lower limit baseline below the base bottom.
    pub lower_limit_baseline_drop_min: i64,
    /// Minimum gap between a lower limit and the base.
    pub lower_limit_gap_min: i64,
    /// Default thickness of a fraction bar.
    pub fraction_rule_thickness: i64,
    /// Numerator raise in display style.
    pub fraction_numerator_display_style_shift_up: i64,
    /// Numerator raise outside display style.
    pub fraction_numerator_shift_up: i64,
    /// Minimum numerator-to-bar gap in display style.
    pub fraction_num_display_style_gap_min: i64,
    /// Minimum numerator-to-bar gap outside display style.
    pub fraction_numerator_gap_min: i64,
    /// Denominator drop in display style.
    pub fraction_denominator_display_style_shift_down: i64,
    /// Denominator drop outside display style.
    pub fraction_denominator_shift_down: i64,
    /// Minimum bar-to-denominator gap in display style.
    pub fraction_denom_display_style_gap_min: i64,
    /// Minimum bar-to-denominator gap outside display style.
    pub fraction_denominator_gap_min: i64,
    /// Minimum gap between a radical bar and its content in display
    /// style.
    pub radical_display_style_vertical_gap: i64,
    /// Minimum gap between a radical bar and its content outside display
    /// style.
    pub radical_vertical_gap: i64,
    /// Thickness of the radical bar.
    pub radical_rule_thickness: i64,
    /// Space reserved above the radical bar.
    pub radical_extra_ascender: i64,
    /// Fraction of the delimited material a delimiter must cover, in
    /// per-mille.
    pub delimiter_factor_permille: i64,
    /// How much a delimiter may fall short of the delimited material.
    pub delimiter_short_fall: i64,
    /// Width of the invisible kern standing for an absent delimiter, in
    /// q units.
    pub null_delimiter_space: i64,
    /// Font units per em.
    pub units_per_em: i64,
}

impl MathConstants {
    /// Whether every constant is within its accepted range.
    pub open spec fn wf(self) -> bool {
        &&& 0 < self.script_script_percent_scale_down <= self.script_percent_scale_down <= 100
        &&& 16 <= self.units_per_em <= 16384
        &&& 0 <= self.delimited_sub_formula_min_height <= FU_MAX
        &&& 0 <= self.display_operator_min_height <= FU_MAX
        &&& -FU_MAX <= self.axis_height <= FU_MAX
        &&& 0 <= self.accent_base_height <= FU_MAX
        &&& -FU_MAX <= self.superscript_shift_up <= FU_MAX
        &&& -FU_MAX <= self.superscript_shift_up_cramped <= FU_MAX
        &&& -FU_MAX <= self.superscript_baseline_drop_max <= FU_MAX
        &&& -FU_MAX <= self.superscript_bottom_min <= FU_MAX
        &&& -FU_MAX <= self.subscript_shift_down <= FU_MAX
        &&& -FU_MAX <= self.subscript_baseline_drop_min <= FU_MAX
        &&& -FU_MAX <= self.subscript_top_max <= FU_MAX
        &&& 0 <= self.sub_superscript_gap_min <= FU_MAX
        &&& -FU_MAX <= self.upper_limit_baseline_rise_min <= FU_MAX
        &&& 0 <= self.upper_limit_gap_min <= FU_MAX
        &&& -FU_MAX <= self.lower_limit_baseline_drop_min <= FU_MAX
        &&& 0 <= self.lower_limit_gap_min <= FU_MAX
        &&& 0 <= self.fraction_rule_thickness <= FU_MAX
        &&& -FU_MAX <= self.fraction_numerator_display_style_shift_up <= FU_MAX
        &&& -FU_MAX <= self.fraction_numerator_shift_up <= FU_MAX
        &&& 0 <= self.fraction_num_display_style_gap_min <= FU_MAX
        &&& 0 <= self.fraction_numerator_gap_min <= FU_MAX
        &&& -FU_MAX <= self.fraction_denominator_display_style_shift_down <= FU_MAX
        &&& -FU_MAX <= self.fraction_denominator_shift_down <= FU_MAX
        &&& 0 <= self.fraction_denom_display_style_gap_min <= FU_MAX
        &&& 0 <= self.fraction_denominator_gap_min <= FU_MAX
        &&& 0 <= self.radical_display_style_vertical_gap <= FU_MAX
        &&& 0 <= self.radical_vertical_gap <= FU_MAX
        &&& 0 <= self.radical_rule_thickness <= FU_MAX
        &&& 0 <= self.radical_extra_ascender <= FU_MAX
        &&& 0 <= self.delimiter_factor_permille <= 1000
        &&& 0 <= self.delimiter_short_fall <= FU_MAX
        &&& 0 <= self.null_delimiter_space <= FU_MAX
    }
}

/// A math font: its constants and its glyph, variant and kerning tables.
#[derive(Debug, Clone, PartialEq)]
pub struct MathFont {
    /// The named typographic constants.
    pub constants: MathConstants,
    /// The glyphs, looked up by code point or glyph id; the first match
    /// wins.
    pub glyphs: Vec<Glyph>,
    /// The vertical variants, looked up by glyph id.
    pub vert_variants: Vec<GlyphVariants>,
    /// The horizontal variants, looked up by glyph id.
    pub horz_variants: Vec<GlyphVariants>,
    /// The corner-kerning tables, looked up by glyph id.
    pub kerning: Vec<GlyphKernInfo>,
}

/// The first glyph of the sequence with the given code point.
pub open spec fn find_glyph_by_unicode(s: Seq<Glyph>, unicode: u32) -> Option<Glyph>
    decreases s.len(),
{
    if s.len() == 0 {
        None
    } else if s[0].unicode == unicode {
        Some(s[0])
    } else {
        find_glyph_by_unicode(s.drop_first(), unicode)
    }
}

/// The first glyph of the sequence with the given glyph id.
pub open spec fn find_glyph_by_gid(s: Seq<Glyph>, gid: u16) -> Option<Glyph>
    decreases s.len(),
{
    if s.len() == 0 {
        None
    } else if s[0].gid == gid {
        Some(s[0])
    } else {
        find_glyph_by_gid(s.drop_first(), gid)
    }
}

/// The first variant table of the sequence for the given glyph id.
pub open spec fn find_variants(s: Seq<GlyphVariants>, gid: u16) -> Option<GlyphVariants>
    decreases s.len(),
{
    if s.len() == 0 {
        None
    } else if s[0].gid == gid {
        Some(s[0])
    } else {
        find_variants(s.drop_first(), gid)
    }
}

/// The first kerning table of the sequence for the given glyph id.
pub open spec fn find_kern_info(s: Seq<GlyphKernInfo>, gid: u16) -> Option<GlyphKernInfo>
    decreases s.len(),
{
    if s.len() == 0 {
        None
    } else if s[0].gid == gid {
        Some(s[0])
    } else {
        find_kern_info(s.drop_first(), gid)
    }
}

/// What is found by code point is an element of the table, so a
/// well-formed table only hands out well-formed glyphs.
pub proof fn lemma_find_glyph_by_unicode_wf(s: Seq<Glyph>, unicode: u32)
    requires
        forall|i: int| 0 <= i < s.len() ==> (#[trigger] s[i]).wf(),
        find_glyph_by_unicode(s, unicode) is Some,
    ensures
        find_glyph_by_unicode(s, unicode)->Some_0.wf(),
    decreases s.len(),
{
    if s.len() > 0 && s[0].unicode != unicode {
        lemma_find_glyph_by_unicode_wf(s.drop_first(), unicode);
    }
}

/// What is found by glyph id is an element of the table, so a
/// well-formed table only hands out well-formed glyphs.
pub proof fn lemma_find_glyph_by_gid_wf(s: Seq<Glyph>, gid: u16)
    requires
        forall|i: int| 0 <= i < s.len() ==> (#[trigger] s[i]).wf(),
        find_glyph_by_gid(s, gid) is Some,
    ensures
        find_glyph_by_gid(s, gid)->Some_0.wf(),
    decreases s.len(),
{
    if s.len() > 0 && s[0].gid != gid {
        lemma_find_glyph_by_gid_wf(s.drop_first(), gid);
    }
}

/// What is found in a variant table is an element of it, so a
/// well-formed table only hands out well-formed variant lists.
pub proof fn lemma_find_variants_wf(s: Seq<GlyphVariants>, gid: u16)
    requires
        forall|i: int| 0 <= i < s.len() ==> (#[trigger] s[i]).wf(),
        find_variants(s, gid) is Some,
    ensures
        find_variants(s, gid)->Some_0.wf(),
    decreases s.len(),
{
    if s.len() > 0 && s[0].gid != gid {
        lemma_find_variants_wf(s.drop_first(), gid);
    }
}

/// A prefix without a match does not change what is found.
proof fn lemma_find_glyph_by_unicode_skip(s: Seq<Glyph>, unicode: u32, i: int)
    requires
        0 <= i <= s.len(),
        forall|j: int| 0 <= j < i ==> (#[trigger] s[j]).unicode != unicode,
    ensures
        find_glyph_by_unicode(s, unicode) == find_glyph_by_unicode(s.skip(i), unicode),
    decreases i,
{
    if i > 0 {
        assert(s[0].unicode != unicode);
        lemma_find_glyph_by_unicode_skip(s.drop_first(), unicode, i - 1);
        assert(s.drop_first().skip(i - 1) =~= s.skip(i));
    } else {
        assert(s.skip(0) =~= s);
    }
}

/// A prefix without a match does not change what is found.
proof fn lemma_find_glyph_by_gid_skip(s: Seq<Glyph>, gid: u16, i: int)
    requires
        0 <= i <= s.len(),
        forall|j: int| 0 <= j < i ==> (#[trigger] s[j]).gid != gid,
    ensures
        find_glyph_by_gid(s, gid) == find_glyph_by_gid(s.skip(i), gid),
    decreases i,
{
    if i > 0 {
        assert(s[0].gid != gid);
        lemma_find_glyph_by_gid_skip(s.drop_first(), gid, i - 1);
        assert(s.drop_first().skip(i - 1) =~= s.skip(i));
    } else {
        assert(s.skip(0) =~= s);
    }
}

/// A prefix without a match does not change what is found.
proof fn lemma_find_variants_skip(s: Seq<GlyphVariants>, gid: u16, i: int)
    requires
        0 <= i <= s.len(),
        forall|j: int| 0 <= j < i ==> (#[trigger] s[j]).gid != gid,
    ensures
        find_variants(s, gid) == find_variants(s.skip(i), gid),
    decreases i,
{
    if i > 0 {
        assert(s[0].gid != gid);
        lemma_find_variants_skip(s.drop_first(), gid, i - 1);
        assert(s.drop_first().skip(i - 1) =~= s.skip(i));
    } else {
        assert(s.skip(0) =~= s);
    }
}

/// A prefix without a match does not change what is found.
proof fn lemma_find_kern_info_skip(s: Seq<GlyphKernInfo>, gid: u16, i: int)
    requires
        0 <= i <= s.len(),
        forall|j: int| 0 <= j < i ==> (#[trigger] s[j]).gid != gid,
    ensures
        find_kern_info(s, gid) == find_kern_info(s.skip(i), gid),
    decreases i,
{
    if i > 0 {
        assert(s[0].gid != gid);
        lemma_find_kern_info_skip(s.drop_first(), gid, i - 1);
        assert(s.drop_first().skip(i - 1) =~= s.skip(i));
    } else {
        assert(s.skip(0) =~= s);
    }
}

/// The kern of the last table step whose height is at most the given
/// height; zero before the first step.
pub open spec fn kern_at_height(records: Seq<KernRecord>, height: int) -> int
    decreases records.len(),
{
    if records.len() == 0 {
        0
    } else if records.last().height <= height {
        records.last().kern as int
    } else {
        kern_at_height(records.drop_last(), height)
    }
}

/// The variant chosen for a glyph: the first listed variant at least as
/// large as the requested size; past the largest variant, the assembly
/// when there is one, else the largest variant; and the glyph itself when
/// nothing larger is on offer.
pub open spec fn choose_variant_spec(
    table: Option<GlyphVariants>,
    gid: u16,
    size: int,
    dir: Direction,
) -> VariantGlyph {
    match table {
        None => VariantGlyph::Replacement(gid),
        Some(t) => {
            if exists|i: int| 0 <= i < t.variants@.len() && (#[trigger] t.variants@[i]).size >= size {
                VariantGlyph::Replacement(
                    t.variants@[first_fitting_variant(t.variants@, size)].gid,
                )
            } else if t.parts@.len() > 0 {
                VariantGlyph::Constructable(dir, t.parts)
            } else if t.variants@.len() > 0 {
                VariantGlyph::Replacement(t.variants@.last().gid)
            } else {
                VariantGlyph::Replacement(gid)
            }
        },
    }
}

/// Whether the parts carried by a variant choice are within range: a
/// replacement carries none, and an assembly's parts must all be well
/// formed and not too many.
pub open spec fn variant_parts_wf(v: VariantGlyph) -> bool {
    match v {
        VariantGlyph::Replacement(_) => true,
        VariantGlyph::Constructable(_, parts) => {
            &&& forall|i: int| 0 <= i < parts@.len() ==> (#[trigger] parts@[i]).wf()
            &&& parts@.len() <= PARTS_MAX
        },
    }
}

/// Whether two variant choices agree: same replacement glyph, or same
/// direction with the same part sequence.
pub open spec fn variant_glyph_equiv(a: VariantGlyph, b: VariantGlyph) -> bool {
    match (a, b) {
        (VariantGlyph::Replacement(x), VariantGlyph::Replacement(y)) => x == y,
        (VariantGlyph::Constructable(d1, p1), VariantGlyph::Constructable(d2, p2)) => d1 == d2
            && p1@ == p2@,
        _ => false,
    }
}

/// The index of the first variant at least as large as the requested
/// size.
pub open spec fn first_fitting_variant(variants: Seq<VariantRecord>, size: int) -> int
    decreases variants.len(),
{
    if variants.len() == 0 {
        0
    } else if variants[0].size >= size {
        0
    } else {
        1 + first_fitting_variant(variants.drop_first(), size)
    }
}

impl MathFont {
    /// Whether every table entry of the font is within range.
    pub open spec fn wf(self) -> bool {
        &&& self.constants.wf()
        &&& forall|i: int| 0 <= i < self.glyphs@.len() ==> (#[trigger] self.glyphs@[i]).wf()
        &&& forall|i: int|
            0 <= i < self.vert_variants@.len() ==> (#[trigger] self.vert_variants@[i]).wf()
        &&& forall|i: int|
            0 <= i < self.horz_variants@.len() ==> (#[trigger] self.horz_variants@[i]).wf()
        &&& forall|i: int| 0 <= i < self.kerning@.len() ==> (#[trigger] self.kerning@[i]).wf()
    }

    /// The metrics of the glyph rendering a code point, or a missing-glyph
    /// error exactly when the font has no glyph for it.
    pub fn glyph_metrics(&self, unicode: u32) -> (r: Result<Glyph, LayoutError>)
        ensures
            match r {
                Ok(g) => {
                    &&& find_glyph_by_unicode(self.glyphs@, unicode) == Some(g)
                    &&& self.wf() ==> g.wf()
                },
                Err(e) => {
                    &&& find_glyph_by_unicode(self.glyphs@, unicode) is None
                    &&& e == LayoutError::MissingGlyph(unicode)
                },
            },
    {
        let n: usize = self.glyphs.len();
        let mut i: usize = 0;
        while i < n
            invariant
                i <= n,
                n == self.glyphs@.len(),
                forall|j: int| 0 <= j < i ==> (#[trigger] self.glyphs@[j]).unicode != unicode,
            decreases n - i,
        {
            if self.glyphs[i].unicode == unicode {
                proof {
                    lemma_find_glyph_by_unicode_skip(self.glyphs@, unicode, i as int);
                    assert(self.glyphs@.skip(i as int)[0] == self.glyphs@[i as int]);
                    if self.wf() {
                        lemma_find_glyph_by_unicode_wf(self.glyphs@, unicode);
                    }
                }
                return Ok(self.glyphs[i]);
            }
            i = i + 1;
        }
        proof {
            lemma_find_glyph_by_unicode_skip(self.glyphs@, unicode, n as int);
            assert(self.glyphs@.skip(n as int).len() == 0);
        }
        Err(LayoutError::MissingGlyph(unicode))
    }

    /// The metrics of the glyph with a glyph id, or a missing-glyph error
    /// exactly when the font has none.
    pub fn glyph_from_gid(&self, gid: u16) -> (r: Result<Glyph, LayoutError>)
        ensures
            match r {
                Ok(g) => {
                    &&& find_glyph_by_gid(self.glyphs@, gid) == Some(g)
                    &&& self.wf() ==> g.wf()
                },
                Err(e) => {
                    &&& find_glyph_by_gid(self.glyphs@, gid) is None
                    &&& e == LayoutError::MissingGlyphId(gid)
                },
            },
    {
        let n: usize = self.glyphs.len();
        let mut i: usize = 0;
        while i < n
            invariant
                i <= n,
                n == self.glyphs@.len(),
                forall|j: int| 0 <= j < i ==> (#[trigger] self.glyphs@[j]).gid != gid,
            decreases n - i,
        {
            if self.glyphs[i].gid == gid {
                proof {
                    lemma_find_glyph_by_gid_skip(self.glyphs@, gid, i as int);
                    assert(self.glyphs@.skip(i as int)[0] == self.glyphs@[i as int]);
                    if self.wf() {
                        lemma_find_glyph_by_gid_wf(self.glyphs@, gid);
                    }
                }
                return Ok(self.glyphs[i]);
            }
            i = i + 1;
        }
        proof {
            lemma_find_glyph_by_gid_skip(self.glyphs@, gid, n as int);
            assert(self.glyphs@.skip(n as int).len() == 0);
        }
        Err(LayoutError::MissingGlyphId(gid))
    }

    /// The vertical variant of a glyph no smaller than the requested
    /// size, following [`choose_variant_spec`] over the font's vertical
    /// variant table.
    pub fn vert_variant(&self, gid: u16, size: i64) -> (r: VariantGlyph)
        ensures
            variant_glyph_equiv(
                r,
                choose_variant_spec(
                    find_variants(self.vert_variants@, gid),
                    gid,
                    size as int,
                    Direction::Vertical,
                ),
            ),
            self.wf() ==> variant_parts_wf(r),
    {
        match self.lookup_variants(&self.vert_variants, gid) {
            None => VariantGlyph::Replacement(gid),
            Some(t) => {
                proof {
                    if self.wf() {
                        lemma_find_variants_wf(self.vert_variants@, gid);
                    }
                }
                Self::choose_variant(t, gid, size, Direction::Vertical)
            },
        }
    }

    /// The horizontal variant of a glyph no smaller than the requested
    /// width, following [`choose_variant_spec`] over the font's
    /// horizontal variant table.
    pub fn horz_variant(&self, gid: u16, size: i64) -> (r: VariantGlyph)
        ensures
            variant_glyph_equiv(
                r,
                choose_variant_spec(
                    find_variants(self.horz_variants@, gid),
                    gid,
                    size as int,
                    Direction::Horizontal,
                ),
            ),
            self.wf() ==> variant_parts_wf(r),
    {
        match self.lookup_variants(&self.horz_variants, gid) {
            None => VariantGlyph::Replacement(gid),
            Some(t) => {
                proof {
                    if self.wf() {
                        lemma_find_variants_wf(self.horz_variants@, gid);
                    }
                }
                Self::choose_variant(t, gid, size, Direction::Horizontal)
            },
        }
    }

    /// Finds the variant table of a glyph in one of the two direction
    /// tables.
    fn lookup_variants<'a>(
        &self,
        tables: &'a Vec<GlyphVariants>,
        gid: u16,
    ) -> (r: Option<&'a GlyphVariants>)
        ensures
            match r {
                Some(t) => find_variants(tables@, gid) == Some(*t),
                None => find_variants(tables@, gid) is None,
            },
    {
        let n: usize = tables.len();
        let mut i: usize = 0;
        while i < n
            invariant
                i <= n,
                n == tables@.len(),
                forall|j: int| 0 <= j < i ==> (#[trigger] tables@[j]).gid != gid,
            decreases n - i,
        {
            if tables[i].gid == gid {
                proof {
                    lemma_find_variants_skip(tables@, gid, i as int);
                    assert(tables@.skip(i as int)[0] == tables@[i as int]);
                }
                return Some(&tables[i]);
            }
            i = i + 1;
        }
        proof {
            lemma_find_variants_skip(tables@, gid, n as int);
            assert(tables@.skip(n as int).len() == 0);
        }
        None
    }

    /// Applies the variant-selection rule to one looked-up table.
    fn choose_variant(t: &GlyphVariants, gid: u16, size: i64, dir: Direction) -> (r: VariantGlyph)
        ensures
            variant_glyph_equiv(r, choose_variant_spec(Some(*t), gid, size as int, dir)),
            t.wf() ==> variant_parts_wf(r),
    {
        {
            {
                let n: usize = t.variants.len();
                let mut i: usize = 0;
                while i < n
                    invariant
                        i <= n,
                        n == t.variants@.len(),
                        forall|j: int| 0 <= j < i ==> (#[trigger] t.variants@[j]).size < size,
                    decreases n - i,
                {
                    if t.variants[i].size >= size {
                        proof {
                            lemma_first_fitting_is_first(t.variants@, size as int, i as int);
                        }
                        return VariantGlyph::Replacement(t.variants[i].gid);
                    }
                    i = i + 1;
                }
                if t.parts.len() > 0 {
                    VariantGlyph::Constructable(dir, copy_parts(&t.parts))
                } else if t.variants.len() > 0 {
                    VariantGlyph::Replacement(t.variants[t.variants.len() - 1].gid)
                } else {
                    VariantGlyph::Replacement(gid)
                }
            }
        }
    }

    /// The kern between a base glyph and a superscript glyph raised by
    /// the given shift: the base's top-right table and the script's
    /// bottom-left table are both read at the shift height.
    pub fn superscript_kern(&self, base_gid: u16, script_gid: u16, shift: i64) -> (r: i64)
        requires
            self.wf(),
            -0x20_0000_0000_0000 <= shift <= 0x20_0000_0000_0000,
        ensures
            r == superscript_kern_spec(self.kerning@, base_gid, script_gid, shift as int),
            -2 * FU_MAX <= r <= 2 * FU_MAX,
    {
        let a = self.corner_kern(base_gid, shift, Corner::TopRight);
        let b = self.corner_kern(script_gid, shift, Corner::BottomLeft);
        a + b
    }

    /// The kern between a base glyph and a subscript glyph dropped by the
    /// given shift: the base's bottom-right table and the script's
    /// top-left table are both read at the negated shift height.
    pub fn subscript_kern(&self, base_gid: u16, script_gid: u16, shift: i64) -> (r: i64)
        requires
            self.wf(),
            -0x20_0000_0000_0000 <= shift <= 0x20_0000_0000_0000,
        ensures
            r == subscript_kern_spec(self.kerning@, base_gid, script_gid, shift as int),
            -2 * FU_MAX <= r <= 2 * FU_MAX,
    {
        let a = self.corner_kern(base_gid, -shift, Corner::BottomRight);
        let b = self.corner_kern(script_gid, -shift, Corner::TopLeft);
        a + b
    }

    /// Reads one corner table of one glyph at a height.
    fn corner_kern(&self, gid: u16, height: i64, corner: Corner) -> (r: i64)
        requires
            self.wf(),
        ensures
            r == corner_kern_spec(self.kerning@, gid, height as int, corner),
            -FU_MAX <= r <= FU_MAX,
    {
        let info = self.lookup_kern_info(gid);
        match info {
            None => 0,
            Some(inf) => {
                let records: &Vec<KernRecord> = match corner {
                    Corner::TopRight => &inf.top_right,
                    Corner::TopLeft => &inf.top_left,
                    Corner::BottomRight => &inf.bottom_right,
                    Corner::BottomLeft => &inf.bottom_left,
                };
                proof {
                    let j = choose|j: int|
                        0 <= j < self.kerning@.len() && self.kerning@[j] == *inf;
                    assert(self.kerning@[j].wf());
                }
                Self::kern_lookup(records, height)
            },
        }
    }

    /// Finds the kerning tables of a glyph.
    fn lookup_kern_info(&self, gid: u16) -> (r: Option<&GlyphKernInfo>)
        ensures
            match r {
                Some(inf) => {
                    &&& find_kern_info(self.kerning@, gid) == Some(*inf)
                    &&& exists|j: int|
                        0 <= j < self.kerning@.len() && self.kerning@[j] == *inf
                },
                None => find_kern_info(self.kerning@, gid) is None,
            },
    {
        let n: usize = self.kerning.len();
        let mut i: usize = 0;
        while i < n
            invariant
                i <= n,
                n == self.kerning@.len(),
                forall|j: int| 0 <= j < i ==> (#[trigger] self.kerning@[j]).gid != gid,
            decreases n - i,
        {
            if self.kerning[i].gid == gid {
                proof {
                    lemma_find_kern_info_skip(self.kerning@, gid, i as int);
                    assert(self.kerning@.skip(i as int)[0] == self.kerning@[i as int]);
                }
                return Some(&self.kerning[i]);
            }
            i = i + 1;
        }
        proof {
            lemma_find_kern_info_skip(self.kerning@, gid, n as int);
            assert(self.kerning@.skip(n as int).len() == 0);
        }
        None
    }

    /// Walks one corner table from its largest height downward.
    fn kern_lookup(records: &Vec<KernRecord>, height: i64) -> (r: i64)
        requires
            kern_records_wf(records@),
        ensures
            r == kern_at_height(records@, height as int),
            -FU_MAX <= r <= FU_MAX,
    {
        let mut i: usize = records.len();
        proof {
            assert(records@.take(records@.len() as int) =~= records@);
        }
        while i > 0
            invariant
                i <= records@.len(),
                kern_records_wf(records@),
                kern_at_height(records@, height as int) == kern_at_height(
                    records@.take(i as int),
                    height as int,
                ),
            decreases i,
        {
            proof {
                assert(records@.take(i as int).last() == records@[i - 1]);
                assert(records@.take(i as int).drop_last() =~= records@.take(i as int - 1));
            }
            if records[i - 1].height <= height {
                return records[i - 1].kern;
            }
            i = i - 1;
        }
        proof {
            assert(records@.take(0).len() == 0);
        }
        0
    }
}

/// One of the four corners of a glyph a kern table belongs to.
#[derive(Debug, Clone, Copy, PartialEq, Eq, Structural)]
pub enum Corner {
    /// Kerns against material at the top right.
    TopRight,
    /// Kerns against material at the top left.
    TopLeft,
    /// Kerns against material at the bottom right.
    BottomRight,
    /// Kerns against material at the bottom left.
    BottomLeft,
}

/// One corner table of one glyph, read at a height; zero for a glyph
/// without tables.
pub open spec fn corner_kern_spec(
    kerning: Seq<GlyphKernInfo>,
    gid: u16,
    height: int,
    corner: Corner,
) -> int {
    match find_kern_info(kerning, gid) {
        None => 0,
        Some(inf) => match corner {
            Corner::TopRight => kern_at_height(inf.top_right@, height),
            Corner::TopLeft => kern_at_height(inf.top_left@, height),
            Corner::BottomRight => kern_at_height(inf.bottom_right@, height),
            Corner::BottomLeft => kern_at_height(inf.bottom_left@, height),
        },
    }
}

/// The superscript kern of a base and script glyph at a shift.
pub open spec fn superscript_kern_spec(
    kerning: Seq<GlyphKernInfo>,
    base_gid: u16,
    script_gid: u16,
    shift: int,
) -> int {
    corner_kern_spec(kerning, base_gid, shift, Corner::TopRight) + corner_kern_spec(
        kerning,
        script_gid,
        shift,
        Corner::BottomLeft,
    )
}

/// The subscript kern of a base and script glyph at a shift.
pub open spec fn subscript_kern_spec(
    kerning: Seq<GlyphKernInfo>,
    base_gid: u16,
    script_gid: u16,
    shift: int,
) -> int {
    corner_kern_spec(kerning, base_gid, -shift, Corner::BottomRight) + corner_kern_spec(
        kerning,
        script_gid,
        -shift,
        Corner::TopLeft,
    )
}

/// A fresh copy of a part list.
fn copy_parts(parts: &Vec<GlyphPart>) -> (r: Vec<GlyphPart>)
    ensures
        r@ == parts@,
{
    let n: usize = parts.len();
    let mut out: Vec<GlyphPart> = Vec::new();
    let mut i: usize = 0;
    while i < n
        invariant
            i <= n,
            n == parts@.len(),
            out@ == parts@.take(i as int),
        decreases n - i,
    {
        out.push(parts[i]);
        proof {
            assert(parts@.take(i as int).push(parts@[i as int]) =~= parts@.take(i as int + 1));
        }
        i = i + 1;
    }
    proof {
        assert(parts@.take(n as int) =~= parts@);
    }
    out
}

/// Below the first fitting index every variant is too small, so the
/// first fitting index is exactly where the scan stops.
proof fn lemma_first_fitting_is_first(variants: Seq<VariantRecord>, size: int, i: int)
    requires
        0 <= i < variants.len(),
        variants[i].size >= size,
        forall|j: int| 0 <= j < i ==> (#[trigger] variants[j]).size < size,
    ensures
        first_fitting_variant(variants, size) == i,
        exists|k: int| 0 <= k < variants.len() && (#[trigger] variants[k]).size >= size,
    decreases i,
{
    if i == 0 {
    } else {
        assert(variants[0].size < size);
        lemma_first_fitting_is_first(variants.drop_first(), size, i - 1);
    }
}

impl Glyph {
    /// Checks the metric ranges of [`Glyph::wf`] at run time.
    pub fn is_well_formed(&self) -> (r: bool)
        ensures
            r == self.wf(),
    {
        0 <= self.height && self.height <= FU_MAX && -FU_MAX <= self.depth && self.depth <= 0
            && 0 <= self.advance && self.advance <= FU_MAX && -FU_MAX <= self.italics
            && self.italics <= FU_MAX && -FU_MAX <= self.attachment && self.attachment <= FU_MAX
            && -FU_MAX <= self.bbox_xmin && self.bbox_xmin <= FU_MAX && -FU_MAX <= self.bbox_xmax
            && self.bbox_xmax <= FU_MAX
    }
}

impl GlyphVariants {
    /// Checks the ranges of [`GlyphVariants::wf`] at run time.
    pub fn is_well_formed(&self) -> (r: bool)
        ensures
            r == self.wf(),
    {
        if self.parts.len() > PARTS_MAX {
            return false;
        }
        let nv: usize = self.variants.len();
        let mut i: usize = 0;
        while i < nv
            invariant
                i <= nv,
                nv == self.variants@.len(),
                forall|j: int|
                    0 <= j < i ==> 0 <= #[trigger] self.variants@[j].size <= FU_MAX,
            decreases nv - i,
        {
            if self.variants[i].size < 0 || self.variants[i].size > FU_MAX {
                return false;
            }
            i = i + 1;
        }
        let np: usize = self.parts.len();
        let mut k: usize = 0;
        while k < np
            invariant
                k <= np,
                np == self.parts@.len(),
                np <= PARTS_MAX,
                forall|j: int|
                    0 <= j < self.variants@.len() ==> 0 <= #[trigger] self.variants@[j].size
                        <= FU_MAX,
                forall|j: int| 0 <= j < k ==> (#[trigger] self.parts@[j]).wf(),
            decreases np - k,
        {
            if self.parts[k].overlap < 0 || self.parts[k].overlap > FU_MAX {
                return false;
            }
            k = k + 1;
        }
        true
    }
}

/// Checks one corner table's ranges at run time.
fn kern_records_ok(records: &Vec<KernRecord>) -> (r: bool)
    ensures
        r == kern_records_wf(records@),
{
    let n: usize = records.len();
    let mut i: usize = 0;
    while i < n
        invariant
            i <= n,
            n == records@.len(),
            forall|j: int|
                0 <= j < i ==> -FU_MAX <= (#[trigger] records@[j]).height <= FU_MAX && -FU_MAX
                    <= records@[j].kern <= FU_MAX,
        decreases n - i,
    {
        if records[i].height < -FU_MAX || records[i].height > FU_MAX || records[i].kern < -FU_MAX
            || records[i].kern > FU_MAX {
            return false;
        }
        i = i + 1;
    }
    true
}

impl GlyphKernInfo {
    /// Checks the ranges of [`GlyphKernInfo::wf`] at run time.
    pub fn is_well_formed(&self) -> (r: bool)
        ensures
            r == self.wf(),
    {
        kern_records_ok(&self.top_right) && kern_records_ok(&self.top_left) && kern_records_ok(
            &self.bottom_right,
        ) && kern_records_ok(&self.bottom_left)
    }
}

impl MathConstants {
    /// Checks the ranges of [`MathConstants::wf`] at run time.
    pub fn is_well_formed(&self) -> (r: bool)
        ensures
            r == self.wf(),
    {
        0 < self.script_script_percent_scale_down && self.script_script_percent_scale_down
            <= self.script_percent_scale_down && self.script_percent_scale_down <= 100 && 16
            <= self.units_per_em && self.units_per_em <= 16384 && 0
            <= self.delimited_sub_formula_min_height && self.delimited_sub_formula_min_height
            <= FU_MAX && 0 <= self.display_operator_min_height && self.display_operator_min_height
            <= FU_MAX && -FU_MAX <= self.axis_height && self.axis_height <= FU_MAX && 0
            <= self.accent_base_height && self.accent_base_height <= FU_MAX && -FU_MAX
            <= self.superscript_shift_up && self.superscript_shift_up <= FU_MAX && -FU_MAX
            <= self.superscript_shift_up_cramped && self.superscript_shift_up_cramped <= FU_MAX
            && -FU_MAX <= self.superscript_baseline_drop_max && self.superscript_baseline_drop_max
            <= FU_MAX && -FU_MAX <= self.superscript_bottom_min && self.superscript_bottom_min
            <= FU_MAX && -FU_MAX <= self.subscript_shift_down && self.subscript_shift_down <= FU_MAX
            && -FU_MAX <= self.subscript_baseline_drop_min && self.subscript_baseline_drop_min
            <= FU_MAX && -FU_MAX <= self.subscript_top_max && self.subscript_top_max <= FU_MAX && 0
            <= self.sub_superscript_gap_min && self.sub_superscript_gap_min <= FU_MAX && -FU_MAX
            <= self.upper_limit_baseline_rise_min && self.upper_limit_baseline_rise_min <= FU_MAX
            && 0 <= self.upper_limit_gap_min && self.upper_limit_gap_min <= FU_MAX && -FU_MAX
            <= self.lower_limit_baseline_drop_min && self.lower_limit_baseline_drop_min <= FU_MAX
            && 0 <= self.lower_limit_gap_min && self.lower_limit_gap_min <= FU_MAX && 0
            <= self.fraction_rule_thickness && self.fraction_rule_thickness <= FU_MAX && -FU_MAX
            <= self.fraction_numerator_display_style_shift_up
            && self.fraction_numerator_display_style_shift_up <= FU_MAX && -FU_MAX
            <= self.fraction_numerator_shift_up && self.fraction_numerator_shift_up <= FU_MAX && 0
            <= self.fraction_num_display_style_gap_min && self.fraction_num_display_style_gap_min
            <= FU_MAX && 0 <= self.fraction_numerator_gap_min && self.fraction_numerator_gap_min
            <= FU_MAX && -FU_MAX <= self.fraction_denominator_display_style_shift_down
            && self.fraction_denominator_display_style_shift_down <= FU_MAX && -FU_MAX
            <= self.fraction_denominator_shift_down && self.fraction_denominator_shift_down
            <= FU_MAX && 0 <= self.fraction_denom_display_style_gap_min
            && self.fraction_denom_display_style_gap_min <= FU_MAX && 0
            <= self.fraction_denominator_gap_min && self.fraction_denominator_gap_min <= FU_MAX
            && 0 <= self.radical_display_style_vertical_gap
            && self.radical_display_style_vertical_gap <= FU_MAX && 0 <= self.radical_vertical_gap
            && self.radical_vertical_gap <= FU_MAX && 0 <= self.radical_rule_thickness
            && self.radical_rule_thickness <= FU_MAX && 0 <= self.radical_extra_ascender
            && self.radical_extra_ascender <= FU_MAX && 0 <= self.delimiter_factor_permille
            && self.delimiter_factor_permille <= 1000 && 0 <= self.delimiter_short_fall
            && self.delimiter_short_fall <= FU_MAX && 0 <= self.null_delimiter_space
            && self.null_delimiter_space <= FU_MAX
    }
}

impl MathFont {
    /// Checks every table of the font against [`MathFont::wf`] at run
    /// time, so an unverified caller can establish the precondition the
    /// layout entry points ask for.
    pub fn is_well_formed(&self) -> (r: bool)
        ensures
            r == self.wf(),
    {
        if !self.constants.is_well_formed() {
            return false;
        }
        let ng: usize = self.glyphs.len();
        let mut i: usize = 0;
        while i < ng
            invariant
                i <= ng,
                ng == self.glyphs@.len(),
                forall|j: int| 0 <= j < i ==> (#[trigger] self.glyphs@[j]).wf(),
        decreases ng - i,
        {
            if !self.glyphs[i].is_well_formed() {
                return false;
            }
            i = i + 1;
        }
        let nvv: usize = self.vert_variants.len();
        let mut v: usize = 0;
        while v < nvv
            invariant
                v <= nvv,
                nvv == self.vert_variants@.len(),
                forall|j: int| 0 <= j < self.glyphs@.len() ==> (#[trigger] self.glyphs@[j]).wf(),
                forall|j: int| 0 <= j < v ==> (#[trigger] self.vert_variants@[j]).wf(),
        decreases nvv - v,
        {
            if !self.vert_variants[v].is_well_formed() {
                return false;
            }
            v = v + 1;
        }
        let nhv: usize = self.horz_variants.len();
        let mut h: usize = 0;
        while h < nhv
            invariant
                h <= nhv,
                nhv == self.horz_variants@.len(),
                forall|j: int| 0 <= j < self.glyphs@.len() ==> (#[trigger] self.glyphs@[j]).wf(),
                forall|j: int|
                    0 <= j < self.vert_variants@.len() ==> (#[trigger] self.vert_variants@[j]).wf(),
                forall|j: int| 0 <= j < h ==> (#[trigger] self.horz_variants@[j]).wf(),
        decreases nhv - h,
        {
            if !self.horz_variants[h].is_well_formed() {
                return false;
            }
            h = h + 1;
        }
        let nk: usize = self.kerning.len();
        let mut k: usize = 0;
        while k < nk
            invariant
                k <= nk,
                nk == self.kerning@.len(),
                forall|j: int| 0 <= j < self.glyphs@.len() ==> (#[trigger] self.glyphs@[j]).wf(),
                forall|j: int|
                    0 <= j < self.vert_variants@.len() ==> (#[trigger] self.vert_variants@[j]).wf(),
                forall|j: int|
                    0 <= j < self.horz_variants@.len() ==> (#[trigger] self.horz_variants@[j]).wf(),
                forall|j: int| 0 <= j < k ==> (#[trigger] self.kerning@[j]).wf(),
        decreases nk - k,
        {
            if !self.kerning[k].is_well_formed() {
                return false;
            }
            k = k + 1;
        }
        true
    }
}

} // verus!
