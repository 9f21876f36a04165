//! The box-model layer: math styles, layout nodes, box builders, unit
//! scaling, the atom-spacing table, and the recursive layout engine.

pub mod builders;
pub mod convert;
pub mod engine;
pub mod spacing;
pub mod style;

pub use style::Style;

use vstd::prelude::*;

use crate::LayoutError;
use crate::dimensions::PX_QUANTUM;
use crate::font::MathFont;
use crate::parser::color::RGBA;

verus! {

/// The largest magnitude a dimension stored in a layout node may have,
/// in q units.
pub const NODE_DIM_MAX: i64 = 0x1000_0000_0000;

/// The largest magnitude a builder aggregate may reach before it must be
/// packed into a node, in q units.
pub const AGG_DIM_MAX: i64 = 0x20_0000_0000_0000;

/// The largest font size accepted, in q units per em.
pub const FONT_SIZE_MAX: i64 = 0x10_0000;

/// How the children of a horizontal box are aligned when the box is
/// wider than its natural contents.
#[derive(Debug, Clone, Copy, PartialEq, Eq, Structural)]
pub enum Alignment {
    /// Children start at the left edge.
    Default,
    /// Children of the given natural width are centered in the box.
    Centered(i64),
}

impl Default for Alignment {
    /// Boxes are left-flush unless asked otherwise.
    fn default() -> (r: Alignment)
        ensures
            r == Alignment::Default,
    {
        Alignment::Default
    }
}

/// A glyph placed in the layout, with its pixel-scaled size and
/// corrections.
#[derive(Debug, Clone, Copy, PartialEq, Eq, Structural)]
pub struct LayoutGlyph {
    /// The code point the glyph renders.
    pub unicode: u32,
    /// The glyph id inside the font.
    pub gid: u16,
    /// The font size the glyph is drawn at, in q units per em.
    pub size: i64,
    /// The pixel-scaled attachment offset, in q units.
    pub attachment: i64,
    /// The pixel-scaled italic correction, in q units.
    pub italics: i64,
    /// Horizontal offset of the glyph, in q units.
    pub offset: i64,
}

/// The payload of a layout node.
#[derive(Debug)]
pub enum LayoutVariant {
    /// A drawn glyph.
    Glyph(LayoutGlyph),
    /// An ordered row of children.
    HorizontalBox(HorizontalBox),
    /// An ordered stack of children.
    VerticalBox(VerticalBox),
    /// Children keyed by row and column.
    Grid(Grid),
    /// A filled rectangle.
    Rule,
    /// Pure spacing with no visual content.
    Kern,
    /// A colored wrapper around a child sequence.
    Color(ColorChange),
}

/// One node of the finished layout: its measured geometry and its
/// payload.  Geometry is fixed at construction and never re-measured.
#[derive(Debug)]
pub struct LayoutNode {
    /// Horizontal extent, in q units.
    pub width: i64,
    /// Extent above the baseline, in q units.
    pub height: i64,
    /// Extent below the baseline, in q units; usually non-positive.
    pub depth: i64,
    /// The payload.
    pub node: LayoutVariant,
}

/// An ordered row of children with an alignment and a baseline offset.
#[derive(Debug)]
pub struct HorizontalBox {
    /// The children, left to right.
    pub contents: Vec<LayoutNode>,
    /// How the children sit inside the box's width.
    pub alignment: Alignment,
    /// Amount subtracted from height and depth at build time.
    pub offset: i64,
}

/// An ordered stack of children with a baseline offset.
#[derive(Debug)]
pub struct VerticalBox {
    /// The children, top to bottom.
    pub contents: Vec<LayoutNode>,
    /// Amount subtracted from height and depth at build time.
    pub offset: i64,
}

/// A colored wrapper around a child sequence.
#[derive(Debug)]
pub struct ColorChange {
    /// The color applied to the children.
    pub color: RGBA,
    /// The wrapped children.
    pub inner: Vec<LayoutNode>,
}

/// Children keyed by row and column, with per-row vertical extents and
/// per-column widths.
#[derive(Debug)]
pub struct Grid {
    /// The cells, each with its row, column and node.
    pub contents: Vec<GridCell>,
    /// Per-row maximum height and minimum depth, in q units.
    pub rows: Vec<(i64, i64)>,
    /// Per-column maximum width, in q units.
    pub columns: Vec<i64>,
}

/// One cell of a grid.
#[derive(Debug)]
pub struct GridCell {
    /// The row the cell sits in.
    pub row: usize,
    /// The column the cell sits in.
    pub column: usize,
    /// The laid-out contents of the cell.
    pub node: LayoutNode,
}

/// Whether a node's dimensions are within the representable range.
pub open spec fn node_dims_bounded(n: LayoutNode) -> bool {
    &&& -NODE_DIM_MAX <= n.width <= NODE_DIM_MAX
    &&& -NODE_DIM_MAX <= n.height <= NODE_DIM_MAX
    &&& -NODE_DIM_MAX <= n.depth <= NODE_DIM_MAX
}

/// Sum of the widths of a node sequence.
pub open spec fn sum_widths(s: Seq<LayoutNode>) -> int
    decreases s.len(),
{
    if s.len() == 0 {
        0
    } else {
        sum_widths(s.drop_last()) + s.last().width
    }
}

/// Sum of the heights of a node sequence.
pub open spec fn sum_heights(s: Seq<LayoutNode>) -> int
    decreases s.len(),
{
    if s.len() == 0 {
        0
    } else {
        sum_heights(s.drop_last()) + s.last().height
    }
}

/// Greatest height of a node sequence, never below zero: the fold the
/// horizontal builder computes starting from an empty box.
pub open spec fn max_height(s: Seq<LayoutNode>) -> int
    decreases s.len(),
{
    if s.len() == 0 {
        0
    } else if s.last().height > max_height(s.drop_last()) {
        s.last().height as int
    } else {
        max_height(s.drop_last())
    }
}

/// Least depth of a node sequence, never above zero.
pub open spec fn min_depth(s: Seq<LayoutNode>) -> int
    decreases s.len(),
{
    if s.len() == 0 {
        0
    } else if s.last().depth < min_depth(s.drop_last()) {
        s.last().depth as int
    } else {
        min_depth(s.drop_last())
    }
}

/// Greatest width of a node sequence, never below zero: the fold the
/// vertical builder computes starting from an empty box.
pub open spec fn max_width(s: Seq<LayoutNode>) -> int
    decreases s.len(),
{
    if s.len() == 0 {
        0
    } else if s.last().width > max_width(s.drop_last()) {
        s.last().width as int
    } else {
        max_width(s.drop_last())
    }
}

/// Per-call layout context: the font, the font size in q units per em,
/// the current style, and the remaining nesting budget.  Copies with a
/// changed style are passed down to children; the original is never
/// mutated.
#[derive(Debug, Clone, Copy)]
pub struct LayoutSettings<'f> {
    /// The font queried for metrics and constants.
    pub font: &'f MathFont,
    /// Font size, in q units per em.
    pub font_size: i64,
    /// The current math style.
    pub style: Style,
    /// How many more nesting levels the layout may descend.
    pub depth_budget: u32,
}

/// Default bound on formula nesting depth.
pub const DEFAULT_DEPTH_BUDGET: u32 = 64;

impl<'f> LayoutSettings<'f> {
    /// Whether the font is well formed and the font size in range.
    pub open spec fn wf(self) -> bool {
        &&& self.font.wf()
        &&& PX_QUANTUM <= self.font_size <= FONT_SIZE_MAX
    }

    /// Checks the context's validity at run time: a well-formed font
    /// and a font size between one pixel per em and the accepted
    /// maximum.
    pub fn is_well_formed(&self) -> (r: bool)
        ensures
            r == self.wf(),
    {
        self.font.is_well_formed() && PX_QUANTUM <= self.font_size && self.font_size
            <= FONT_SIZE_MAX
    }

    /// A context over a font at a size, starting in the given style with
    /// the default nesting budget.
    pub fn new(font: &'f MathFont, font_size: i64, style: Style) -> (r: LayoutSettings<'f>)
        requires
            PX_QUANTUM <= font_size <= FONT_SIZE_MAX,
        ensures
            r.font == font,
            r.font_size == font_size,
            r.style == style,
            r.depth_budget == DEFAULT_DEPTH_BUDGET,
            font.wf() ==> r.wf(),
    {
        LayoutSettings { font, font_size, style, depth_budget: DEFAULT_DEPTH_BUDGET }
    }

    /// A validated context: like [`LayoutSettings::new`], but checking
    /// the font and the font size at run time and failing with an
    /// invalid-context error instead of assuming them.
    pub fn try_new(font: &'f MathFont, font_size: i64, style: Style) -> (r: Result<
        LayoutSettings<'f>,
        LayoutError,
    >)
        ensures
            match r {
                Ok(c) => {
                    &&& c.wf()
                    &&& c.font == font
                    &&& c.font_size == font_size
                    &&& c.style == style
                    &&& c.depth_budget == DEFAULT_DEPTH_BUDGET
                },
                Err(e) => {
                    &&& e == LayoutError::InvalidContext
                    &&& !(font.wf() && PX_QUANTUM <= font_size <= FONT_SIZE_MAX)
                },
            },
    {
        if font_size < PX_QUANTUM || font_size > FONT_SIZE_MAX || !font.is_well_formed() {
            return Err(LayoutError::InvalidContext);
        }
        Ok(LayoutSettings { font, font_size, style, depth_budget: DEFAULT_DEPTH_BUDGET })
    }

    /// The same context with another style.
    pub fn with_style(self, style: Style) -> (r: LayoutSettings<'f>)
        ensures
            r == (LayoutSettings { style, ..self }),
    {
        LayoutSettings { style, ..self }
    }

    /// The same context in the cramped variant of the current style.
    pub fn cramped(self) -> (r: LayoutSettings<'f>)
        ensures
            r == (LayoutSettings { style: Style::cramped_of_level(self.style.level()), ..self }),
    {
        LayoutSettings { style: self.style.cramped(), ..self }
    }

    /// The same context in the superscript style.
    pub fn superscript_variant(self) -> (r: LayoutSettings<'f>)
        ensures
            r.style == Style::of_level(
                if self.style.level() >= 2 { 1int } else { 0int },
                self.style.is_cramped_spec(),
            ),
            r.font == self.font && r.font_size == self.font_size && r.depth_budget
                == self.depth_budget,
    {
        LayoutSettings { style: self.style.superscript_variant(), ..self }
    }

    /// The same context in the subscript style.
    pub fn subscript_variant(self) -> (r: LayoutSettings<'f>)
        ensures
            r.style == Style::cramped_of_level(if self.style.level() >= 2 { 1int } else { 0int }),
            r.font == self.font && r.font_size == self.font_size && r.depth_budget
                == self.depth_budget,
    {
        LayoutSettings { style: self.style.subscript_variant(), ..self }
    }

    /// The same context in the numerator style.
    pub fn numerator(self) -> (r: LayoutSettings<'f>)
        ensures
            r.style == Style::of_level(
                if self.style.level() >= 1 { self.style.level() - 1 } else { 0int },
                self.style.is_cramped_spec(),
            ),
            r.font == self.font && r.font_size == self.font_size && r.depth_budget
                == self.depth_budget,
    {
        LayoutSettings { style: self.style.numerator(), ..self }
    }

    /// The same context in the denominator style.
    pub fn denominator(self) -> (r: LayoutSettings<'f>)
        ensures
            r.style == Style::cramped_of_level(
                if self.style.level() >= 1 { self.style.level() - 1 } else { 0int },
            ),
            r.font == self.font && r.font_size == self.font_size && r.depth_budget
                == self.depth_budget,
    {
        LayoutSettings { style: self.style.denominator(), ..self }
    }
}

/// The accumulator one level of the layout algorithm fills: ordered
/// nodes with the running horizontal-box aggregates of the sequence.
#[derive(Debug)]
pub struct Layout {
    /// The nodes collected so far, left to right.
    pub contents: Vec<LayoutNode>,
    /// Exact sum of the nodes' widths, in q units.
    pub width: i64,
    /// Greatest node height, in q units.
    pub height: i64,
    /// Least node depth, in q units.
    pub depth: i64,
    /// How the sequence sits when embedded in a wider parent.
    pub alignment: Alignment,
}

impl Layout {
    /// Whether the aggregates match the collected nodes and stay in the
    /// representable range.
    pub open spec fn wf(self) -> bool {
        &&& self.width == sum_widths(self.contents@)
        &&& self.height == max_height(self.contents@)
        &&& self.depth == min_depth(self.contents@)
        &&& -NODE_DIM_MAX <= self.width <= NODE_DIM_MAX
        &&& 0 <= self.height <= NODE_DIM_MAX
        &&& -NODE_DIM_MAX <= self.depth <= 0
    }

    /// An empty accumulator.
    pub fn new() -> (r: Layout)
        ensures
            r.wf(),
            r.contents@.len() == 0,
            r.width == 0 && r.height == 0 && r.depth == 0,
            r.alignment == Alignment::Default,
    {
        Layout {
            contents: Vec::new(),
            width: 0,
            height: 0,
            depth: 0,
            alignment: Alignment::Default,
        }
    }

    /// Whether appending a node keeps every aggregate representable:
    /// the widened width stays in range, and the node's own height and
    /// depth do (the height and depth aggregates only move toward them).
    pub open spec fn append_fits(self, node: LayoutNode) -> bool {
        &&& -NODE_DIM_MAX <= self.width + node.width <= NODE_DIM_MAX
        &&& node.height <= NODE_DIM_MAX
        &&& node.depth >= -NODE_DIM_MAX
    }

    /// Appends a node, maintaining the horizontal-box aggregates: the
    /// width is the exact sum of the widths so far, the height the
    /// greatest height and the depth the least depth.  Fails, changing
    /// nothing, exactly when an aggregate would leave the representable
    /// range.
    pub fn add_node(&mut self, node: LayoutNode) -> (r: Result<(), LayoutError>)
        requires
            old(self).wf(),
        ensures
            r is Ok <==> old(self).append_fits(node),
            match r {
                Ok(()) => {
                    &&& final(self).wf()
                    &&& final(self).contents@ == old(self).contents@.push(node)
                    &&& final(self).alignment == old(self).alignment
                    &&& final(self).width == old(self).width + node.width
                },
                Err(e) => {
                    &&& e == LayoutError::DimensionTooLarge
                    &&& *final(self) == *old(self)
                },
            },
    {
        let width128: i128 = self.width as i128 + node.width as i128;
        let height: i64 = if node.height > self.height {
            node.height
        } else {
            self.height
        };
        let depth: i64 = if node.depth < self.depth {
            node.depth
        } else {
            self.depth
        };
        if width128 > NODE_DIM_MAX as i128 || width128 < -NODE_DIM_MAX as i128 || height
            > NODE_DIM_MAX || height < -NODE_DIM_MAX || depth > NODE_DIM_MAX || depth
            < -NODE_DIM_MAX {
            return Err(LayoutError::DimensionTooLarge);
        }
        self.width = width128 as i64;
        self.height = height;
        self.depth = depth;
        self.contents.push(node);
        proof {
            let c = final(self).contents@;
            assert(c.drop_last() =~= old(self).contents@);
        }
        Ok(())
    }

    /// Fixes the accumulated sequence as one level's result.  The
    /// aggregates already follow the horizontal-box rules, so the layout
    /// is returned unchanged.
    pub fn finalize(self) -> (r: Layout)
        requires
            self.wf(),
        ensures
            r == self,
            r.wf(),
    {
        self
    }

    /// Packs the sequence into a single horizontal-box node carrying the
    /// aggregates and the alignment.
    pub fn as_node(self) -> (r: LayoutNode)
        requires
            -NODE_DIM_MAX <= self.width <= NODE_DIM_MAX,
            -NODE_DIM_MAX <= self.height <= NODE_DIM_MAX,
            -NODE_DIM_MAX <= self.depth <= NODE_DIM_MAX,
        ensures
            r.width == self.width,
            r.height == self.height,
            r.depth == self.depth,
            node_dims_bounded(r),
            r.node matches LayoutVariant::HorizontalBox(hb) && hb.contents@ == self.contents@
                && hb.alignment == self.alignment && hb.offset == 0,
    {
        LayoutNode {
            width: self.width,
            height: self.height,
            depth: self.depth,
            node: LayoutVariant::HorizontalBox(
                HorizontalBox { contents: self.contents, alignment: self.alignment, offset: 0 },
            ),
        }
    }

    /// Re-targets the sequence to a wider width, centering the natural
    /// contents in it.
    pub fn centered(self, new_width: i64) -> (r: Layout)
        requires
            -NODE_DIM_MAX <= new_width <= NODE_DIM_MAX,
        ensures
            r == (Layout {
                alignment: Alignment::Centered(self.width),
                width: new_width,
                ..self
            }),
    {
        Layout {
            alignment: Alignment::Centered(self.width),
            width: new_width,
            ..self
        }
    }

    /// Inserts a pure horizontal kern of the given width in front of the
    /// collected nodes, widening the sequence by exactly that width.
    /// Fails, changing nothing, exactly when the new width would leave
    /// the representable range.
    pub fn prepend_kern(&mut self, kern_width: i64) -> (r: Result<(), LayoutError>)
        requires
            old(self).wf(),
            -AGG_DIM_MAX <= kern_width <= AGG_DIM_MAX,
        ensures
            r is Ok <==> -NODE_DIM_MAX <= old(self).width + kern_width <= NODE_DIM_MAX,
            match r {
                Ok(()) => {
                    &&& final(self).wf()
                    &&& final(self).contents@ == old(self).contents@.insert(
                        0,
                        LayoutNode {
                            width: kern_width,
                            height: 0,
                            depth: 0,
                            node: LayoutVariant::Kern,
                        },
                    )
                    &&& final(self).width == old(self).width + kern_width
                    &&& final(self).height == old(self).height
                    &&& final(self).depth == old(self).depth
                    &&& final(self).alignment == old(self).alignment
                },
                Err(e) => {
                    &&& e == LayoutError::DimensionTooLarge
                    &&& *final(self) == *old(self)
                },
            },
    {
        let width128: i128 = self.width as i128 + kern_width as i128;
        if width128 > NODE_DIM_MAX as i128 || width128 < -NODE_DIM_MAX as i128 {
            return Err(LayoutError::DimensionTooLarge);
        }
        let node = LayoutNode { width: kern_width, height: 0, depth: 0, node: LayoutVariant::Kern };
        proof {
            lemma_sum_widths_insert(self.contents@, 0, node);
            lemma_max_height_insert(self.contents@, 0, node);
            lemma_min_depth_insert(self.contents@, 0, node);
        }
        self.width = width128 as i64;
        self.contents.insert(0, node);
        Ok(())
    }

    /// The single glyph this level stands for, if its only material is
    /// one glyph.
    pub fn is_symbol(&self) -> (r: Option<LayoutGlyph>)
        ensures
            r == layout_is_symbol_spec(self.contents@),
    {
        if self.contents.len() != 1 {
            return None;
        }
        self.contents[0].is_symbol()
    }
}

impl LayoutNode {
    /// The single glyph this node stands for: a glyph node itself, or a
    /// box or color region whose only child stands for one.
    pub fn is_symbol(&self) -> (r: Option<LayoutGlyph>)
        ensures
            r == self.is_symbol_spec(),
        decreases *self,
    {
        match &self.node {
            LayoutVariant::Glyph(gly) => Some(*gly),
            LayoutVariant::HorizontalBox(hb) => {
                if hb.contents.len() != 1 {
                    None
                } else {
                    hb.contents[0].is_symbol()
                }
            },
            LayoutVariant::VerticalBox(vb) => {
                if vb.contents.len() != 1 {
                    None
                } else {
                    vb.contents[0].is_symbol()
                }
            },
            LayoutVariant::Color(clr) => {
                if clr.inner.len() != 1 {
                    None
                } else {
                    clr.inner[0].is_symbol()
                }
            },
            _ => None,
        }
    }

    /// The single glyph a node stands for, at the specification level.
    pub open spec fn is_symbol_spec(self) -> Option<LayoutGlyph>
        decreases self,
    {
        match self.node {
            LayoutVariant::Glyph(gly) => Some(gly),
            LayoutVariant::HorizontalBox(hb) => {
                if hb.contents@.len() == 1 {
                    hb.contents@[0].is_symbol_spec()
                } else {
                    None
                }
            },
            LayoutVariant::VerticalBox(vb) => {
                if vb.contents@.len() == 1 {
                    vb.contents@[0].is_symbol_spec()
                } else {
                    None
                }
            },
            LayoutVariant::Color(clr) => {
                if clr.inner@.len() == 1 {
                    clr.inner@[0].is_symbol_spec()
                } else {
                    None
                }
            },
            _ => None,
        }
    }
}

/// A pure horizontal space of the given width, at the specification
/// level.
pub open spec fn kern_horizontal_spec(width: i64) -> LayoutNode {
    LayoutNode { width, height: 0i64, depth: 0i64, node: LayoutVariant::Kern }
}

/// A pure horizontal space of the given width.
pub fn kern_horizontal(width: i64) -> (r: LayoutNode)
    ensures
        r == kern_horizontal_spec(width),
{
    LayoutNode { width, height: 0, depth: 0, node: LayoutVariant::Kern }
}

/// A pure vertical space of the given height.
pub fn kern_vertical(height: i64) -> (r: LayoutNode)
    ensures
        r == (LayoutNode { width: 0i64, height, depth: 0i64, node: LayoutVariant::Kern }),
{
    LayoutNode { width: 0, height, depth: 0, node: LayoutVariant::Kern }
}

/// A filled rectangle of the given width and height, with no depth.
pub fn rule_node(width: i64, height: i64) -> (r: LayoutNode)
    ensures
        r == (LayoutNode { width, height, depth: 0i64, node: LayoutVariant::Rule }),
{
    LayoutNode { width, height, depth: 0, node: LayoutVariant::Rule }
}

/// Sum of widths grows by an inserted element's width.
pub proof fn lemma_sum_widths_insert(s: Seq<LayoutNode>, idx: int, node: LayoutNode)
    requires
        0 <= idx <= s.len(),
    ensures
        sum_widths(s.insert(idx, node)) == sum_widths(s) + node.width,
    decreases s.len(),
{
    let t = s.insert(idx, node);
    if idx == s.len() {
        assert(t =~= s.push(node));
        assert(t.drop_last() =~= s);
    } else {
        assert(t.last() == s.last());
        assert(t.drop_last() =~= s.drop_last().insert(idx, node));
        lemma_sum_widths_insert(s.drop_last(), idx, node);
    }
}

/// Greatest height is kept by insertion of a new element.
pub proof fn lemma_max_height_insert(s: Seq<LayoutNode>, idx: int, node: LayoutNode)
    requires
        0 <= idx <= s.len(),
    ensures
        max_height(s.insert(idx, node)) == if node.height > max_height(s) {
            node.height as int
        } else {
            max_height(s)
        },
    decreases s.len(),
{
    let t = s.insert(idx, node);
    if idx == s.len() {
        assert(t =~= s.push(node));
        assert(t.drop_last() =~= s);
    } else {
        assert(t.last() == s.last());
        assert(t.drop_last() =~= s.drop_last().insert(idx, node));
        lemma_max_height_insert(s.drop_last(), idx, node);
    }
}

/// Least depth is kept by insertion of a new element.
pub proof fn lemma_min_depth_insert(s: Seq<LayoutNode>, idx: int, node: LayoutNode)
    requires
        0 <= idx <= s.len(),
    ensures
        min_depth(s.insert(idx, node)) == if node.depth < min_depth(s) {
            node.depth as int
        } else {
            min_depth(s)
        },
    decreases s.len(),
{
    let t = s.insert(idx, node);
    if idx == s.len() {
        assert(t =~= s.push(node));
        assert(t.drop_last() =~= s);
    } else {
        assert(t.last() == s.last());
        assert(t.drop_last() =~= s.drop_last().insert(idx, node));
        lemma_min_depth_insert(s.drop_last(), idx, node);
    }
}

/// The single glyph a one-node sequence stands for, at the
/// specification level.
pub open spec fn layout_is_symbol_spec(contents: Seq<LayoutNode>) -> Option<LayoutGlyph> {
    if contents.len() == 1 {
        contents[0].is_symbol_spec()
    } else {
        None
    }
}

} // verus!
