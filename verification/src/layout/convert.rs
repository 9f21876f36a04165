//! Unit conversions: font units and em lengths into device pixels, under
//! the active style's scale factor.
//!
//! Every length entering the layout tree passes through exactly one of
//! these conversions, so it is scaled and rounded exactly once.  All
//! conversions multiply first and divide once, truncating toward zero.

use vstd::prelude::*;

use crate::LayoutError;
use crate::dimensions::ANY_UNIT_MAX;
use crate::dimensions::AnyUnit;
use crate::dimensions::EM_QUANTUM;
use crate::dimensions::PX_QUANTUM;
use crate::dimensions::div_trunc;
use crate::dimensions::iabs;
use crate::dimensions::lemma_mul_bound;
use crate::dimensions::lemma_tdiv_magnitude;
use crate::dimensions::tdiv;
use crate::font::Direction;
use crate::font::Glyph;
use crate::font::VariantGlyph;
use crate::layout::FONT_SIZE_MAX;
use crate::layout::LayoutGlyph;
use crate::layout::LayoutNode;
use crate::layout::LayoutSettings;
use crate::layout::LayoutVariant;
use crate::parser::nodes;

verus! {

/// The largest font-unit magnitude the styled conversion accepts: room
/// for a few constants added together.
pub const FU_ARG_MAX: i64 = 0x100_0000;

/// The largest magnitude a converted pixel length can have, in q units.
pub const SCALED_MAX: i64 = 0x400_0000_0000;

/// The largest pixel magnitude accepted by the pixel-to-font-unit
/// conversions, in q units.
pub const PX_ARG_MAX: i64 = 0x4000_0000_0000;

/// The largest magnitude the unstyled pixel-to-font-unit conversion can
/// return.
pub const TO_FONT_MAX: i64 = 0x10_0000_0000_0000;

/// The largest magnitude the styled pixel-to-font-unit conversion can
/// return.
pub const TO_FONT_STYLED_MAX: i64 = 0x800_0000_0000_0000;

/// A font-unit length under a style scale: `v` font units at `font_size`
/// q per em, `upem` units per em and a `percent` style factor.
pub open spec fn px_from_font_spec(v: int, font_size: int, upem: int, percent: int) -> int {
    tdiv(v * font_size * percent, upem * 100)
}

/// An em length under a style scale, analogously.
pub open spec fn px_from_em_spec(v: int, font_size: int, percent: int) -> int {
    tdiv(v * font_size * percent, EM_QUANTUM * 100)
}

/// A pixel length under a style scale.
pub open spec fn px_scaled_spec(v: int, percent: int) -> int {
    tdiv(v * percent, 100)
}

/// A pixel length converted back to font units, without a style factor.
pub open spec fn to_font_spec(v: int, font_size: int, upem: int) -> int {
    tdiv(v * upem, font_size)
}

/// A pixel length converted back to font units, undoing a style factor.
pub open spec fn to_font_styled_spec(v: int, font_size: int, upem: int, percent: int) -> int {
    tdiv(v * upem * 100, font_size * percent)
}

impl<'f> LayoutSettings<'f> {
    /// The active style's scale factor, in percent.
    pub fn scale_factor_percent(&self) -> (r: u16)
        requires
            self.wf(),
        ensures
            r as int == self.style.scale_percent_spec(
                self.font.constants.script_percent_scale_down as int,
                self.font.constants.script_script_percent_scale_down as int,
            ),
            1 <= r <= 100,
    {
        self.style.scale_percent(
            self.font.constants.script_percent_scale_down,
            self.font.constants.script_script_percent_scale_down,
        )
    }

    /// A font-unit length scaled to pixels under the active style.
    pub fn px_from_font(&self, v: i64) -> (r: i64)
        requires
            self.wf(),
            -FU_ARG_MAX <= v <= FU_ARG_MAX,
        ensures
            r == px_from_font_spec(
                v as int,
                self.font_size as int,
                self.font.constants.units_per_em as int,
                self.style.scale_percent_spec(
                    self.font.constants.script_percent_scale_down as int,
                    self.font.constants.script_script_percent_scale_down as int,
                ),
            ),
            -SCALED_MAX <= r <= SCALED_MAX,
    {
        let percent = self.scale_factor_percent();
        let upem = self.font.constants.units_per_em;
        proof {
            lemma_mul_bound(v as int, self.font_size as int, FU_ARG_MAX as int, FONT_SIZE_MAX as int);
            lemma_mul_bound(
                v as int * self.font_size as int,
                percent as int,
                FU_ARG_MAX as int * FONT_SIZE_MAX as int,
                100,
            );
        }
        let num: i128 = (v as i128) * (self.font_size as i128) * (percent as i128);
        let den: i128 = (upem as i128) * 100;
        proof {
            lemma_tdiv_magnitude(num as int, den as int, 1600);
            vstd::arithmetic::div_mod::lemma_div_is_ordered(
                iabs(num as int),
                FU_ARG_MAX as int * FONT_SIZE_MAX as int * 100,
                1600,
            );
        }
        let q = div_trunc(num, den);
        q as i64
    }

    /// An em length scaled to pixels under the active style.
    pub fn px_from_em(&self, v: i64) -> (r: i64)
        requires
            self.wf(),
            -ANY_UNIT_MAX <= v <= ANY_UNIT_MAX,
        ensures
            r == px_from_em_spec(
                v as int,
                self.font_size as int,
                self.style.scale_percent_spec(
                    self.font.constants.script_percent_scale_down as int,
                    self.font.constants.script_script_percent_scale_down as int,
                ),
            ),
            -SCALED_MAX <= r <= SCALED_MAX,
    {
        let percent = self.scale_factor_percent();
        proof {
            lemma_mul_bound(v as int, self.font_size as int, ANY_UNIT_MAX as int, FONT_SIZE_MAX as int);
            lemma_mul_bound(
                v as int * self.font_size as int,
                percent as int,
                ANY_UNIT_MAX as int * FONT_SIZE_MAX as int,
                100,
            );
        }
        let num: i128 = (v as i128) * (self.font_size as i128) * (percent as i128);
        let den: i128 = (EM_QUANTUM as i128) * 100;
        proof {
            lemma_tdiv_magnitude(num as int, den as int, EM_QUANTUM as int * 100);
            vstd::arithmetic::div_mod::lemma_div_is_ordered(
                iabs(num as int),
                ANY_UNIT_MAX as int * FONT_SIZE_MAX as int * 100,
                EM_QUANTUM as int * 100,
            );
        }
        let q = div_trunc(num, den);
        q as i64
    }

    /// A pixel length scaled under the active style.
    pub fn px_scaled(&self, v: i64) -> (r: i64)
        requires
            self.wf(),
            -ANY_UNIT_MAX <= v <= ANY_UNIT_MAX,
        ensures
            r == px_scaled_spec(
                v as int,
                self.style.scale_percent_spec(
                    self.font.constants.script_percent_scale_down as int,
                    self.font.constants.script_script_percent_scale_down as int,
                ),
            ),
            -SCALED_MAX <= r <= SCALED_MAX,
    {
        let percent = self.scale_factor_percent();
        proof {
            lemma_mul_bound(v as int, percent as int, ANY_UNIT_MAX as int, 100);
        }
        let num: i128 = (v as i128) * (percent as i128);
        proof {
            lemma_tdiv_magnitude(num as int, 100, 100);
            vstd::arithmetic::div_mod::lemma_div_is_ordered(
                iabs(num as int),
                ANY_UNIT_MAX as int * 100,
                100,
            );
        }
        let q = div_trunc(num, 100);
        q as i64
    }

    /// A pixel length converted to font units, without a style factor.
    pub fn to_font(&self, length: i64) -> (r: i64)
        requires
            self.wf(),
            -PX_ARG_MAX <= length <= PX_ARG_MAX,
        ensures
            r == to_font_spec(
                length as int,
                self.font_size as int,
                self.font.constants.units_per_em as int,
            ),
            -TO_FONT_MAX <= r <= TO_FONT_MAX,
    {
        let upem = self.font.constants.units_per_em;
        proof {
            lemma_mul_bound(length as int, upem as int, PX_ARG_MAX as int, 16384);
        }
        let num: i128 = (length as i128) * (upem as i128);
        proof {
            lemma_tdiv_magnitude(num as int, self.font_size as int, PX_QUANTUM as int);
            vstd::arithmetic::div_mod::lemma_div_is_ordered(
                iabs(num as int),
                PX_ARG_MAX as int * 16384,
                PX_QUANTUM as int,
            );
        }
        let q = div_trunc(num, self.font_size as i128);
        q as i64
    }

    /// A pixel length converted to font units, undoing the active
    /// style's scale factor.
    pub fn to_font_styled(&self, length: i64) -> (r: i64)
        requires
            self.wf(),
            -PX_ARG_MAX <= length <= PX_ARG_MAX,
        ensures
            r == to_font_styled_spec(
                length as int,
                self.font_size as int,
                self.font.constants.units_per_em as int,
                self.style.scale_percent_spec(
                    self.font.constants.script_percent_scale_down as int,
                    self.font.constants.script_script_percent_scale_down as int,
                ),
            ),
            -TO_FONT_STYLED_MAX <= r <= TO_FONT_STYLED_MAX,
    {
        let percent = self.scale_factor_percent();
        let upem = self.font.constants.units_per_em;
        proof {
            lemma_mul_bound(length as int, upem as int, PX_ARG_MAX as int, 16384);
            lemma_mul_bound(
                length as int * upem as int,
                100,
                PX_ARG_MAX as int * 16384,
                100,
            );
            lemma_mul_bound(self.font_size as int, percent as int, FONT_SIZE_MAX as int, 100);
            crate::dimensions::lemma_mul_lower(
                self.font_size as int,
                percent as int,
                PX_QUANTUM as int,
                1,
            );
        }
        let num: i128 = (length as i128) * (upem as i128) * 100;
        let den: i128 = (self.font_size as i128) * (percent as i128);
        proof {
            lemma_tdiv_magnitude(num as int, den as int, PX_QUANTUM as int);
            vstd::arithmetic::div_mod::lemma_div_is_ordered(
                iabs(num as int),
                PX_ARG_MAX as int * 16384 * 100,
                PX_QUANTUM as int,
            );
        }
        let q = div_trunc(num, den);
        q as i64
    }
}

/// A value with a unit that can be scaled into pixels under the active
/// style.
pub trait Scaled: Sized {
    /// Whether the carried value is within the accepted range.
    spec fn scale_in_range(self) -> bool;

    /// The exact scaled value, in q units.
    spec fn scaled_spec(self, config: LayoutSettings) -> int;

    /// Scales the value into pixels under the active style; fails exactly
    /// when the carried value is out of range.
    fn scaled(self, config: LayoutSettings) -> (r: Result<i64, LayoutError>)
        requires
            config.wf(),
        ensures
            match r {
                Ok(v) => {
                    &&& self.scale_in_range()
                    &&& v == self.scaled_spec(config)
                    &&& -SCALED_MAX <= v <= SCALED_MAX
                },
                Err(e) => {
                    &&& !self.scale_in_range()
                    &&& e == LayoutError::DimensionTooLarge
                },
            },
    ;
}

impl Scaled for AnyUnit {
    /// In range when the carried value is.
    open spec fn scale_in_range(self) -> bool {
        self.in_range()
    }

    /// Em values go through the em conversion, pixel values through the
    /// pixel scale.
    open spec fn scaled_spec(self, config: LayoutSettings) -> int {
        let percent = config.style.scale_percent_spec(
            config.font.constants.script_percent_scale_down as int,
            config.font.constants.script_script_percent_scale_down as int,
        );
        match self {
            AnyUnit::Em(v) => px_from_em_spec(v as int, config.font_size as int, percent),
            AnyUnit::Px(v) => px_scaled_spec(v as int, percent),
        }
    }

    fn scaled(self, config: LayoutSettings) -> (r: Result<i64, LayoutError>) {
        match self {
            AnyUnit::Em(v) => {
                if v > ANY_UNIT_MAX || v < -ANY_UNIT_MAX {
                    Err(LayoutError::DimensionTooLarge)
                } else {
                    Ok(config.px_from_em(v))
                }
            },
            AnyUnit::Px(v) => {
                if v > ANY_UNIT_MAX || v < -ANY_UNIT_MAX {
                    Err(LayoutError::DimensionTooLarge)
                } else {
                    Ok(config.px_scaled(v))
                }
            },
        }
    }
}

/// How many fusing kerns an assembly's parts call for: one for each
/// part with a declared overlap.
pub open spec fn overlap_kern_count(parts: Seq<crate::font::GlyphPart>) -> int
    decreases parts.len(),
{
    if parts.len() == 0 {
        0
    } else {
        overlap_kern_count(parts.drop_last()) + if parts.last().overlap != 0 {
            1int
        } else {
            0int
        }
    }
}

/// The active style's scale factor, in percent, as a specification.
pub open spec fn cfg_percent(config: LayoutSettings) -> int {
    config.style.scale_percent_spec(
        config.font.constants.script_percent_scale_down as int,
        config.font.constants.script_script_percent_scale_down as int,
    )
}

/// A font-unit length scaled to pixels under the context's style.
pub open spec fn fu_px(config: LayoutSettings, v: int) -> int {
    px_from_font_spec(
        v,
        config.font_size as int,
        config.font.constants.units_per_em as int,
        cfg_percent(config),
    )
}

/// Whether a layout node is exactly the scaled rendering of a glyph: its
/// width the scaled advance, its height and depth the scaled vertical
/// extents, and its payload the glyph with the scaled size and
/// corrections.
pub open spec fn glyph_node_matches(g: Glyph, config: LayoutSettings, n: LayoutNode) -> bool {
    &&& n.width == fu_px(config, g.advance as int)
    &&& n.height == fu_px(config, g.height as int)
    &&& n.depth == fu_px(config, g.depth as int)
    &&& n.node matches LayoutVariant::Glyph(lg)
    &&& n.node matches LayoutVariant::Glyph(lg) ==> {
        &&& lg.gid == g.gid
        &&& lg.unicode == g.unicode
        &&& lg.size == px_scaled_spec(config.font_size as int, cfg_percent(config))
        &&& lg.attachment == fu_px(config, g.attachment as int)
        &&& lg.italics == fu_px(config, g.italics as int)
        &&& lg.offset == 0
    }
}

/// A value that can be measured into a layout node under a context.
/// Each implementation states its own precondition and its exact
/// postcondition through the two specification functions.
pub trait AsLayoutNode: Sized {
    /// What the conversion relies on.
    spec fn as_layout_pre(self, config: LayoutSettings) -> bool;

    /// What the conversion returns.
    spec fn as_layout_post(self, config: LayoutSettings, r: Result<LayoutNode, LayoutError>) -> bool;

    /// Measures the value into a layout node.
    fn as_layout(&self, config: LayoutSettings) -> (r: Result<LayoutNode, LayoutError>)
        requires
            config.wf(),
            self.as_layout_pre(config),
        ensures
            self.as_layout_post(config, r),
    ;
}

impl AsLayoutNode for Glyph {
    /// The glyph's metrics must be within the font's ranges.
    open spec fn as_layout_pre(self, config: LayoutSettings) -> bool {
        self.wf()
    }

    /// Always succeeds, with the exactly scaled glyph node; the node's
    /// width and height are never negative and its depth never positive.
    open spec fn as_layout_post(
        self,
        config: LayoutSettings,
        r: Result<LayoutNode, LayoutError>,
    ) -> bool {
        match r {
            Ok(n) => {
                &&& glyph_node_matches(self, config, n)
                &&& crate::layout::node_dims_bounded(n)
                &&& 0 <= n.width <= SCALED_MAX
                &&& 0 <= n.height <= SCALED_MAX
                &&& -SCALED_MAX <= n.depth <= 0
            },
            Err(_) => false,
        }
    }

    fn as_layout(&self, config: LayoutSettings) -> (r: Result<LayoutNode, LayoutError>) {
        let width = config.px_from_font(self.advance);
        let height = config.px_from_font(self.height);
        let depth = config.px_from_font(self.depth);
        let size = config.px_scaled(config.font_size);
        let attachment = config.px_from_font(self.attachment);
        let italics = config.px_from_font(self.italics);
        proof {
            let den = config.font.constants.units_per_em as int * 100;
            crate::dimensions::lemma_mul3_sign(
                self.advance as int,
                config.font_size as int,
                cfg_percent(config),
            );
            crate::dimensions::lemma_mul3_sign(
                self.height as int,
                config.font_size as int,
                cfg_percent(config),
            );
            crate::dimensions::lemma_mul3_sign(
                self.depth as int,
                config.font_size as int,
                cfg_percent(config),
            );
            crate::dimensions::lemma_tdiv_sign(
                self.advance as int * config.font_size as int * cfg_percent(config),
                den,
            );
            crate::dimensions::lemma_tdiv_sign(
                self.height as int * config.font_size as int * cfg_percent(config),
                den,
            );
            crate::dimensions::lemma_tdiv_sign(
                self.depth as int * config.font_size as int * cfg_percent(config),
                den,
            );
        }
        Ok(
            LayoutNode {
                width,
                height,
                depth,
                node: LayoutVariant::Glyph(
                    LayoutGlyph {
                        unicode: self.unicode,
                        gid: self.gid,
                        size,
                        attachment,
                        italics,
                        offset: 0,
                    },
                ),
            },
        )
    }
}

impl AsLayoutNode for nodes::Rule {
    /// Nothing beyond a well-formed context.
    open spec fn as_layout_pre(self, config: LayoutSettings) -> bool {
        true
    }

    /// A rule node with the scaled width and height and no depth;
    /// fails exactly when a carried length is out of range.
    open spec fn as_layout_post(
        self,
        config: LayoutSettings,
        r: Result<LayoutNode, LayoutError>,
    ) -> bool {
        match r {
            Ok(n) => {
                &&& self.width.in_range()
                &&& self.height.in_range()
                &&& n.width == self.width.scaled_spec(config)
                &&& n.height == self.height.scaled_spec(config)
                &&& n.depth == 0
                &&& n.node is Rule
                &&& crate::layout::node_dims_bounded(n)
            },
            Err(e) => {
                &&& !(self.width.in_range() && self.height.in_range())
                &&& e == LayoutError::DimensionTooLarge
            },
        }
    }

    fn as_layout(&self, config: LayoutSettings) -> (r: Result<LayoutNode, LayoutError>) {
        let width = self.width.scaled(config)?;
        let height = self.height.scaled(config)?;
        Ok(LayoutNode { width, height, depth: 0, node: LayoutVariant::Rule })
    }
}

impl AsLayoutNode for VariantGlyph {
    /// The carried assembly parts must be within the font's ranges.
    open spec fn as_layout_pre(self, config: LayoutSettings) -> bool {
        crate::font::variant_parts_wf(self)
    }

    /// A replacement resolves to the exactly scaled glyph node, or to a
    /// missing-glyph error when the font has no glyph with that id; an
    /// assembly yields a box along its direction, with the parts fused by
    /// negative kerns equal to their declared overlaps.
    open spec fn as_layout_post(
        self,
        config: LayoutSettings,
        r: Result<LayoutNode, LayoutError>,
    ) -> bool {
        match self {
            VariantGlyph::Replacement(gid) => {
                match r {
                    Ok(n) => {
                        &&& crate::font::find_glyph_by_gid(config.font.glyphs@, gid) matches Some(g)
                        &&& crate::font::find_glyph_by_gid(config.font.glyphs@, gid) matches Some(g)
                            ==> glyph_node_matches(g, config, n)
                        &&& crate::layout::node_dims_bounded(n)
                    },
                    Err(e) => {
                        &&& crate::font::find_glyph_by_gid(config.font.glyphs@, gid) is None
                        &&& e == LayoutError::MissingGlyphId(gid)
                    },
                }
            },
            VariantGlyph::Constructable(dir, parts) => {
                match r {
                    Ok(n) => {
                        &&& crate::layout::node_dims_bounded(n)
                        &&& (dir == Direction::Vertical ==> (n.node matches
                        LayoutVariant::VerticalBox(vb) && vb.contents@.len() == parts@.len()
                            + overlap_kern_count(parts@) && (parts@.len() > 0 ==> (
                        crate::font::find_glyph_by_gid(config.font.glyphs@, parts@.last().gid)
                            matches Some(g) ==> glyph_node_matches(g, config, vb.contents@[0])))))
                        &&& (dir == Direction::Horizontal ==> (n.node matches
                        LayoutVariant::HorizontalBox(hb) && hb.contents@.len() == parts@.len()
                            + overlap_kern_count(parts@)))
                    },
                    Err(e) => {
                        ||| e == LayoutError::DimensionTooLarge
                        ||| (e matches LayoutError::MissingGlyphId(g) && exists|i: int|
                            0 <= i < parts@.len() && (#[trigger] parts@[i]).gid == g
                                && crate::font::find_glyph_by_gid(config.font.glyphs@, g) is None)
                    },
                }
            },
        }
    }

    fn as_layout(&self, config: LayoutSettings) -> (r: Result<LayoutNode, LayoutError>) {
        match self {
            VariantGlyph::Replacement(gid) => {
                let glyph = config.font.glyph_from_gid(*gid)?;
                glyph.as_layout(config)
            },
            VariantGlyph::Constructable(dir, parts) => {
                match dir {
                    Direction::Vertical => {
                        let mut contents = crate::layout::builders::VBox::new();
                        let n: usize = parts.len();
                        let mut i: usize = 0;
                        while i < n
                            invariant
                                i <= n,
                                n == parts@.len(),
                                n <= crate::font::PARTS_MAX,
                                forall|j: int| 0 <= j < n ==> (#[trigger] parts@[j]).wf(),
                                config.wf(),
                                contents.wf(),
                                (*self) matches VariantGlyph::Constructable(d, p) && d
                                    == Direction::Vertical && p@ == parts@,
                                contents.node.contents@.len() == i + overlap_kern_count(
                                    parts@.take(i as int),
                                ),
                                i > 0 ==> (crate::font::find_glyph_by_gid(
                                    config.font.glyphs@,
                                    parts@[i as int - 1].gid,
                                ) matches Some(g) ==> glyph_node_matches(
                                    g,
                                    config,
                                    contents.node.contents@[0],
                                )),
                                -0x2000_0000_0000 * (i as int) <= contents.height
                                    <= 0x2000_0000_0000 * (i as int),
                                forall|j: int|
                                    0 <= j < contents.node.contents@.len()
                                        ==> -crate::layout::NODE_DIM_MAX <= (
                                    #[trigger] contents.node.contents@[j]).depth
                                        <= crate::layout::NODE_DIM_MAX,
                            decreases n - i,
                        {
                            let instr = parts[i];
                            let glyph = config.font.glyph_from_gid(instr.gid)?;
                            let glyph_node = glyph.as_layout(config)?;
                            contents.insert_node(0, glyph_node);
                            if instr.overlap != 0 {
                                // The fusing kern sits between this part and
                                // its predecessor below, so the two overlap
                                // by the declared amount.
                                let fu: i64 = instr.overlap + glyph.depth;
                                let kern: i64 = -config.px_from_font(fu);
                                contents.insert_node(1, crate::layout::kern_vertical(kern));
                            }
                            proof {
                                assert(parts@.take(i as int + 1).drop_last() =~= parts@.take(
                                    i as int,
                                ));
                            }
                            i = i + 1;
                        }
                        proof {
                            assert(parts@.take(n as int) =~= parts@);
                        }
                        contents.build()
                    },
                    Direction::Horizontal => {
                        let mut contents = crate::layout::builders::HBox::new();
                        let n: usize = parts.len();
                        let mut i: usize = 0;
                        while i < n
                            invariant
                                i <= n,
                                n == parts@.len(),
                                n <= crate::font::PARTS_MAX,
                                forall|j: int| 0 <= j < n ==> (#[trigger] parts@[j]).wf(),
                                config.wf(),
                                contents.wf(),
                                (*self) matches VariantGlyph::Constructable(d, p) && d
                                    == Direction::Horizontal && p@ == parts@,
                                contents.node.contents@.len() == i + overlap_kern_count(
                                    parts@.take(i as int),
                                ),
                                -0x2000_0000_0000 * (i as int) <= contents.width
                                    <= 0x2000_0000_0000 * (i as int),
                            decreases n - i,
                        {
                            let instr = parts[i];
                            let glyph = config.font.glyph_from_gid(instr.gid)?;
                            if instr.overlap != 0 {
                                let kern: i64 = -config.px_from_font(instr.overlap);
                                contents.add_node(crate::layout::kern_horizontal(kern));
                            }
                            let glyph_node = glyph.as_layout(config)?;
                            contents.add_node(glyph_node);
                            proof {
                                assert(parts@.take(i as int + 1).drop_last() =~= parts@.take(
                                    i as int,
                                ));
                            }
                            i = i + 1;
                        }
                        proof {
                            assert(parts@.take(n as int) =~= parts@);
                        }
                        contents.build()
                    },
                }
            },
        }
    }
}

} // verus!
