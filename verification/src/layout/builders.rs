//! Box builders: accumulators that grow a vertical box, a horizontal box
//! or a grid child by child and are consumed once into an immutable
//! layout node.
//!
//! The aggregation laws are part of the builders' contracts: a horizontal
//! box's width is the exact sum of its children's widths, its height the
//! greatest height and its depth the least depth; a vertical box's width
//! is the greatest width and its height the exact sum of heights, while
//! its depth comes from its last child; the offset set on a builder is
//! subtracted from height and depth when the box is built.

use vstd::prelude::*;

use crate::LayoutError;
use crate::layout::AGG_DIM_MAX;
use crate::layout::Alignment;
use crate::layout::ColorChange;
use crate::layout::Grid;
use crate::layout::GridCell;
use crate::layout::HorizontalBox;
use crate::layout::Layout;
use crate::layout::LayoutNode;
use crate::layout::LayoutVariant;
use crate::layout::NODE_DIM_MAX;
use crate::layout::VerticalBox;
use crate::layout::max_height;
use crate::layout::max_width;
use crate::layout::min_depth;
use crate::layout::sum_heights;
use crate::layout::sum_widths;
use crate::parser::nodes;

verus! {

/// An accumulator for a vertical box.
#[derive(Debug)]
pub struct VBox {
    /// Greatest width seen so far, in q units.
    pub width: i64,
    /// Sum of the children's heights so far, in q units.
    pub height: i64,
    /// Depth of the box; set when the box is built.
    pub depth: i64,
    /// The box being grown.
    pub node: VerticalBox,
}

impl VBox {
    /// Whether the aggregates match the children collected so far.
    pub open spec fn wf(self) -> bool {
        &&& self.width == max_width(self.node.contents@)
        &&& self.height == sum_heights(self.node.contents@)
        &&& self.depth == 0
        &&& 0 <= self.width <= NODE_DIM_MAX
        &&& -AGG_DIM_MAX <= self.height <= AGG_DIM_MAX
        &&& -AGG_DIM_MAX <= self.node.offset <= AGG_DIM_MAX
    }

    /// An empty vertical box.
    pub fn new() -> (r: VBox)
        ensures
            r.wf(),
            r.node.contents@.len() == 0,
            r.node.offset == 0,
            r.width == 0,
            r.height == 0,
    {
        VBox {
            width: 0,
            height: 0,
            depth: 0,
            node: VerticalBox { contents: Vec::new(), offset: 0 },
        }
    }

    /// Appends a child at the bottom of the stack: the width grows to the
    /// child's if that is wider, and the child's height is added.
    pub fn add_node(&mut self, node: LayoutNode)
        requires
            old(self).wf(),
            -NODE_DIM_MAX <= node.width <= NODE_DIM_MAX,
            -AGG_DIM_MAX <= old(self).height + node.height <= AGG_DIM_MAX,
        ensures
            final(self).wf(),
            final(self).node.contents@ == old(self).node.contents@.push(node),
            final(self).node.offset == old(self).node.offset,
            final(self).width == if node.width > old(self).width {
                node.width
            } else {
                old(self).width
            },
            final(self).height == old(self).height + node.height,
    {
        if node.width > self.width {
            self.width = node.width;
        }
        self.height = self.height + node.height;
        self.node.contents.push(node);
        proof {
            let c = final(self).node.contents@;
            assert(c.drop_last() =~= old(self).node.contents@);
        }
    }

    /// Inserts a child at a position in the stack; the aggregates change
    /// exactly as for an append.
    pub fn insert_node(&mut self, idx: usize, node: LayoutNode)
        requires
            old(self).wf(),
            idx <= old(self).node.contents@.len(),
            -NODE_DIM_MAX <= node.width <= NODE_DIM_MAX,
            -AGG_DIM_MAX <= old(self).height + node.height <= AGG_DIM_MAX,
        ensures
            final(self).wf(),
            final(self).node.contents@ == old(self).node.contents@.insert(idx as int, node),
            final(self).node.offset == old(self).node.offset,
            final(self).width == if node.width > old(self).width {
                node.width
            } else {
                old(self).width
            },
            final(self).height == old(self).height + node.height,
    {
        if node.width > self.width {
            self.width = node.width;
        }
        self.height = self.height + node.height;
        self.node.contents.insert(idx, node);
        proof {
            lemma_max_width_insert(old(self).node.contents@, idx as int, node);
            lemma_sum_heights_insert(old(self).node.contents@, idx as int, node);
        }
    }

    /// Sets the baseline offset subtracted at build time.
    pub fn set_offset(&mut self, offset: i64)
        requires
            -AGG_DIM_MAX <= offset <= AGG_DIM_MAX,
        ensures
            *final(self) == (VBox {
                node: VerticalBox { contents: old(self).node.contents, offset },
                ..*old(self)
            }),
    {
        self.node.offset = offset;
    }

    /// The depth a vertical box is built with, before the offset: its
    /// last child's depth, or zero for an empty box.
    pub open spec fn built_depth(self) -> int {
        if self.node.contents@.len() > 0 {
            self.node.contents@.last().depth as int
        } else {
            0
        }
    }

    /// Whether the built node's dimensions all fit the representable
    /// range; the build succeeds exactly then.
    pub open spec fn build_fits(self) -> bool {
        &&& -NODE_DIM_MAX <= max_width(self.node.contents@) <= NODE_DIM_MAX
        &&& -NODE_DIM_MAX <= sum_heights(self.node.contents@) - self.node.offset <= NODE_DIM_MAX
        &&& -NODE_DIM_MAX <= self.built_depth() - self.node.offset <= NODE_DIM_MAX
    }

    /// Consumes the builder into a vertical-box node.  The node's width
    /// is the greatest child width, its height the sum of child heights
    /// less the offset, and its depth the last child's depth less the
    /// offset; with offset zero, depth is exactly the last child's depth
    /// and height exactly the sum of heights.  Fails exactly when a
    /// dimension leaves the representable range.
    pub fn build(self) -> (r: Result<LayoutNode, LayoutError>)
        requires
            self.wf(),
            forall|i: int|
                0 <= i < self.node.contents@.len() ==> -NODE_DIM_MAX <= (#[trigger] self
                    .node
                    .contents@[i]).depth <= NODE_DIM_MAX,
        ensures
            r is Ok <==> self.build_fits(),
            match r {
                Ok(n) => {
                    &&& n.node matches LayoutVariant::VerticalBox(vb)
                    &&& vb.contents@ == self.node.contents@
                    &&& vb.offset == self.node.offset
                    &&& n.width == max_width(self.node.contents@)
                    &&& n.height == sum_heights(self.node.contents@) - self.node.offset
                    &&& n.depth == self.built_depth() - self.node.offset
                    &&& crate::layout::node_dims_bounded(n)
                },
                Err(e) => e == LayoutError::DimensionTooLarge,
            },
    {
        let last_depth: i64 = if self.node.contents.len() > 0 {
            self.node.contents[self.node.contents.len() - 1].depth
        } else {
            0
        };
        let depth: i64 = last_depth - self.node.offset;
        let height: i64 = self.height - self.node.offset;
        let width: i64 = self.width;
        if width > NODE_DIM_MAX || width < -NODE_DIM_MAX || height > NODE_DIM_MAX || height
            < -NODE_DIM_MAX || depth > NODE_DIM_MAX || depth < -NODE_DIM_MAX {
            return Err(LayoutError::DimensionTooLarge);
        }
        Ok(
            LayoutNode {
                width,
                height,
                depth,
                node: LayoutVariant::VerticalBox(self.node),
            },
        )
    }
}

impl Default for VBox {
    /// An empty vertical box.
    fn default() -> (r: VBox)
        ensures
            r.wf(),
            r.node.contents@.len() == 0,
            r.node.offset == 0,
    {
        VBox::new()
    }
}

/// An accumulator for a horizontal box.
#[derive(Debug)]
pub struct HBox {
    /// Width of the box, in q units; the sum of child widths until it is
    /// overridden.
    pub width: i64,
    /// Greatest child height so far, in q units.
    pub height: i64,
    /// Least child depth so far, in q units.
    pub depth: i64,
    /// The box being grown.
    pub node: HorizontalBox,
}

impl HBox {
    /// Whether the vertical aggregates match the children collected so
    /// far.
    pub open spec fn wf(self) -> bool {
        &&& self.height == max_height(self.node.contents@)
        &&& self.depth == min_depth(self.node.contents@)
        &&& 0 <= self.height <= NODE_DIM_MAX
        &&& -NODE_DIM_MAX <= self.depth <= 0
        &&& -AGG_DIM_MAX <= self.width <= AGG_DIM_MAX
        &&& -AGG_DIM_MAX <= self.node.offset <= AGG_DIM_MAX
    }

    /// Whether the width is still the exact sum of the child widths,
    /// which holds until `set_width` overrides it.
    pub open spec fn natural_width(self) -> bool {
        self.width == sum_widths(self.node.contents@)
    }

    /// An empty horizontal box.
    pub fn new() -> (r: HBox)
        ensures
            r.wf(),
            r.natural_width(),
            r.node.contents@.len() == 0,
            r.node.offset == 0,
            r.node.alignment == Alignment::Default,
            r.width == 0,
            r.height == 0,
            r.depth == 0,
    {
        HBox {
            width: 0,
            height: 0,
            depth: 0,
            node: HorizontalBox {
                contents: Vec::new(),
                alignment: Alignment::Default,
                offset: 0,
            },
        }
    }

    /// Appends a child at the right: its width is added, and the height
    /// and depth grow to cover it.
    pub fn add_node(&mut self, node: LayoutNode)
        requires
            old(self).wf(),
            -NODE_DIM_MAX <= node.height <= NODE_DIM_MAX,
            -NODE_DIM_MAX <= node.depth <= NODE_DIM_MAX,
            -AGG_DIM_MAX <= old(self).width + node.width <= AGG_DIM_MAX,
        ensures
            final(self).wf(),
            old(self).natural_width() ==> final(self).natural_width(),
            final(self).node.contents@ == old(self).node.contents@.push(node),
            final(self).node.offset == old(self).node.offset,
            final(self).node.alignment == old(self).node.alignment,
            final(self).width == old(self).width + node.width,
            final(self).height == if node.height > old(self).height {
                node.height
            } else {
                old(self).height
            },
            final(self).depth == if node.depth < old(self).depth {
                node.depth
            } else {
                old(self).depth
            },
    {
        self.width = self.width + node.width;
        if node.height > self.height {
            self.height = node.height;
        }
        if node.depth < self.depth {
            self.depth = node.depth;
        }
        self.node.contents.push(node);
        proof {
            let c = final(self).node.contents@;
            assert(c.drop_last() =~= old(self).node.contents@);
        }
    }

    /// Sets the baseline offset subtracted at build time.
    pub fn set_offset(&mut self, offset: i64)
        requires
            -AGG_DIM_MAX <= offset <= AGG_DIM_MAX,
        ensures
            *final(self) == (HBox {
                node: HorizontalBox {
                    contents: old(self).node.contents,
                    alignment: old(self).node.alignment,
                    offset,
                },
                ..*old(self)
            }),
    {
        self.node.offset = offset;
    }

    /// Sets the alignment mode of the box.
    pub fn set_alignment(&mut self, align: Alignment)
        ensures
            *final(self) == (HBox {
                node: HorizontalBox {
                    contents: old(self).node.contents,
                    alignment: align,
                    offset: old(self).node.offset,
                },
                ..*old(self)
            }),
    {
        self.node.alignment = align;
    }

    /// Overrides the width of the box, for children centered in a wider
    /// target.
    pub fn set_width(&mut self, width: i64)
        requires
            -AGG_DIM_MAX <= width <= AGG_DIM_MAX,
        ensures
            *final(self) == (HBox { width, ..*old(self) }),
    {
        self.width = width;
    }

    /// Whether the built node's dimensions all fit the representable
    /// range; the build succeeds exactly then.
    pub open spec fn build_fits(self) -> bool {
        &&& -NODE_DIM_MAX <= self.width <= NODE_DIM_MAX
        &&& -NODE_DIM_MAX <= max_height(self.node.contents@) - self.node.offset <= NODE_DIM_MAX
        &&& -NODE_DIM_MAX <= min_depth(self.node.contents@) - self.node.offset <= NODE_DIM_MAX
    }

    /// Consumes the builder into a horizontal-box node.  The node keeps
    /// the builder's width — the exact sum of child widths unless it was
    /// overridden — while height and depth are the greatest height and
    /// least depth less the offset.  Fails exactly when a dimension
    /// leaves the representable range.
    pub fn build(self) -> (r: Result<LayoutNode, LayoutError>)
        requires
            self.wf(),
        ensures
            r is Ok <==> self.build_fits(),
            match r {
                Ok(n) => {
                    &&& n.node matches LayoutVariant::HorizontalBox(hb)
                    &&& hb.contents@ == self.node.contents@
                    &&& hb.offset == self.node.offset
                    &&& hb.alignment == self.node.alignment
                    &&& n.width == self.width
                    &&& self.natural_width() ==> n.width == sum_widths(self.node.contents@)
                    &&& n.height == max_height(self.node.contents@) - self.node.offset
                    &&& n.depth == min_depth(self.node.contents@) - self.node.offset
                    &&& crate::layout::node_dims_bounded(n)
                },
                Err(e) => e == LayoutError::DimensionTooLarge,
            },
    {
        let height: i64 = self.height - self.node.offset;
        let depth: i64 = self.depth - self.node.offset;
        let width: i64 = self.width;
        if width > NODE_DIM_MAX || width < -NODE_DIM_MAX || height > NODE_DIM_MAX || height
            < -NODE_DIM_MAX || depth > NODE_DIM_MAX || depth < -NODE_DIM_MAX {
            return Err(LayoutError::DimensionTooLarge);
        }
        Ok(
            LayoutNode {
                width,
                height,
                depth,
                node: LayoutVariant::HorizontalBox(self.node),
            },
        )
    }
}

impl Default for HBox {
    /// An empty horizontal box.
    fn default() -> (r: HBox)
        ensures
            r.wf(),
            r.natural_width(),
            r.node.contents@.len() == 0,
            r.node.offset == 0,
    {
        HBox::new()
    }
}

/// Wraps a finished layout in a color region carrying the given color.
pub fn color(layout: Layout, clr: &nodes::Color) -> (r: LayoutNode)
    ensures
        r.width == layout.width,
        r.height == layout.height,
        r.depth == layout.depth,
        r.node matches LayoutVariant::Color(cc) && cc.color == clr.color && cc.inner@
            == layout.contents@,
{
    LayoutNode {
        width: layout.width,
        height: layout.height,
        depth: layout.depth,
        node: LayoutVariant::Color(ColorChange { color: clr.color, inner: layout.contents }),
    }
}

/// Greatest width of a sequence is kept by insertion of a new element.
proof fn lemma_max_width_insert(s: Seq<LayoutNode>, idx: int, node: LayoutNode)
    requires
        0 <= idx <= s.len(),
    ensures
        max_width(s.insert(idx, node)) == if node.width > max_width(s) {
            node.width as int
        } else {
            max_width(s)
        },
    decreases s.len(),
{
    let t = s.insert(idx, node);
    if idx == s.len() {
        assert(t =~= s.push(node));
        assert(t.drop_last() =~= s);
    } else {
        assert(t.last() == s.last());
        assert(t.drop_last() =~= s.drop_last().insert(idx, node));
        lemma_max_width_insert(s.drop_last(), idx, node);
    }
}

/// Sum of heights of a sequence grows by the inserted element's height.
proof fn lemma_sum_heights_insert(s: Seq<LayoutNode>, idx: int, node: LayoutNode)
    requires
        0 <= idx <= s.len(),
    ensures
        sum_heights(s.insert(idx, node)) == sum_heights(s) + node.height,
    decreases s.len(),
{
    let t = s.insert(idx, node);
    if idx == s.len() {
        assert(t =~= s.push(node));
        assert(t.drop_last() =~= s);
    } else {
        assert(t.last() == s.last());
        assert(t.drop_last() =~= s.drop_last().insert(idx, node));
        lemma_sum_heights_insert(s.drop_last(), idx, node);
    }
}

/// Sum of a sequence of column widths.
pub open spec fn sum_cols(s: Seq<i64>) -> int
    decreases s.len(),
{
    if s.len() == 0 {
        0
    } else {
        sum_cols(s.drop_last()) + s.last()
    }
}

/// Sum of the vertical extents (height less depth) of a sequence of
/// rows.
pub open spec fn sum_row_extents(s: Seq<(i64, i64)>) -> int
    decreases s.len(),
{
    if s.len() == 0 {
        0
    } else {
        sum_row_extents(s.drop_last()) + s.last().0 - s.last().1
    }
}

/// The index of the cell with the given key, if one is present.
pub open spec fn find_cell(s: Seq<GridCell>, row: usize, column: usize) -> Option<int>
    decreases s.len(),
{
    if s.len() == 0 {
        None
    } else if s[0].row == row && s[0].column == column {
        Some(0int)
    } else {
        match find_cell(s.drop_first(), row, column) {
            Some(i) => Some(i + 1),
            None => None,
        }
    }
}

impl Grid {
    /// Whether every recorded extent is within range and properly
    /// signed.
    pub open spec fn wf(self) -> bool {
        &&& forall|i: int|
            0 <= i < self.rows@.len() ==> 0 <= (#[trigger] self.rows@[i]).0 <= NODE_DIM_MAX
                && -NODE_DIM_MAX <= self.rows@[i].1 <= 0
        &&& forall|i: int| 0 <= i < self.columns@.len() ==> 0 <= #[trigger] self.columns@[i] <= NODE_DIM_MAX
    }

    /// An empty grid.
    pub fn new() -> (r: Grid)
        ensures
            r.wf(),
            r.contents@.len() == 0,
            r.rows@.len() == 0,
            r.columns@.len() == 0,
    {
        Grid { contents: Vec::new(), rows: Vec::new(), columns: Vec::new() }
    }

    /// The extents recorded for a row before a new cell is taken in:
    /// what the table holds, or empty extents for a row not yet seen.
    pub open spec fn row_before(self, row: int) -> (i64, i64) {
        if 0 <= row < self.rows@.len() {
            self.rows@[row]
        } else {
            (0i64, 0i64)
        }
    }

    /// The width recorded for a column before a new cell is taken in.
    pub open spec fn column_before(self, column: int) -> i64 {
        if 0 <= column < self.columns@.len() {
            self.columns@[column]
        } else {
            0i64
        }
    }

    /// Places a node at a row and column.  The row's extents and the
    /// column's width grow lazily and exactly to the largest seen, every
    /// other row, column and cell is unchanged, and a node already at
    /// that key is replaced.
    pub fn insert(&mut self, row: usize, column: usize, node: LayoutNode)
        requires
            old(self).wf(),
            crate::layout::node_dims_bounded(node),
            node.height >= 0,
            node.depth <= 0,
            node.width >= 0,
            row < 0x1000_0000,
            column < 0x1000_0000,
        ensures
            final(self).wf(),
            final(self).rows@.len() == if row + 1 > old(self).rows@.len() {
                (row + 1) as int
            } else {
                old(self).rows@.len() as int
            },
            final(self).columns@.len() == if column + 1 > old(self).columns@.len() {
                (column + 1) as int
            } else {
                old(self).columns@.len() as int
            },
            final(self).rows@[row as int] == ((
            if node.height > old(self).row_before(row as int).0 {
                node.height
            } else {
                old(self).row_before(row as int).0
            },
            if node.depth < old(self).row_before(row as int).1 {
                node.depth
            } else {
                old(self).row_before(row as int).1
            },
            )),
            forall|i: int|
                0 <= i < final(self).rows@.len() && i != row ==> final(self).rows@[i] == old(
                    self,
                ).row_before(i),
            final(self).columns@[column as int] == (if node.width > old(self).column_before(
                column as int,
            ) {
                node.width
            } else {
                old(self).column_before(column as int)
            }),
            forall|j: int|
                0 <= j < final(self).columns@.len() && j != column ==> final(self).columns@[j]
                    == old(self).column_before(j),
            match find_cell(old(self).contents@, row, column) {
                Some(i) => final(self).contents@ == old(self).contents@.update(
                    i,
                    GridCell { row, column, node },
                ),
                None => final(self).contents@ == old(self).contents@.push(
                    GridCell { row, column, node },
                ),
            },
    {
        grow_rows(&mut self.rows, row);
        if node.height > self.rows[row].0 {
            let d = self.rows[row].1;
            self.rows.set(row, (node.height, d));
        }
        if node.depth < self.rows[row].1 {
            let h = self.rows[row].0;
            self.rows.set(row, (h, node.depth));
        }
        grow_cols(&mut self.columns, column);
        if node.width > self.columns[column] {
            self.columns.set(column, node.width);
        }
        upsert_cell(&mut self.contents, GridCell { row, column, node });
    }

    /// Consumes the grid into a node: its width is the exact sum of the
    /// column widths, its height the exact sum of the per-row extents,
    /// and its depth zero.  Fails exactly when a sum leaves the
    /// representable range.
    pub fn build(self) -> (r: Result<LayoutNode, LayoutError>)
        requires
            self.wf(),
        ensures
            r is Ok <==> sum_cols(self.columns@) <= NODE_DIM_MAX && sum_row_extents(self.rows@)
                <= NODE_DIM_MAX,
            match r {
                Ok(n) => {
                    &&& n.node matches LayoutVariant::Grid(g)
                    &&& n.node matches LayoutVariant::Grid(g) ==> g.contents@ == self.contents@
                        && g.rows@ == self.rows@ && g.columns@ == self.columns@
                    &&& n.width == sum_cols(self.columns@)
                    &&& n.height == sum_row_extents(self.rows@)
                    &&& n.depth == 0
                    &&& crate::layout::node_dims_bounded(n)
                },
                Err(e) => e == LayoutError::DimensionTooLarge,
            },
    {
        let mut width: i128 = 0;
        let nc: usize = self.columns.len();
        let mut i: usize = 0;
        while i < nc
            invariant
                i <= nc,
                nc == self.columns@.len(),
                self.wf(),
                width == sum_cols(self.columns@.take(i as int)),
                0 <= width <= 0x1000_0000_0000 * (i as int),
            decreases nc - i,
        {
            proof {
                assert(self.columns@.take(i as int + 1).drop_last() =~= self.columns@.take(
                    i as int,
                ));
            }
            width = width + self.columns[i] as i128;
            i = i + 1;
        }
        let mut height: i128 = 0;
        let nr: usize = self.rows.len();
        let mut j: usize = 0;
        while j < nr
            invariant
                j <= nr,
                nr == self.rows@.len(),
                self.wf(),
                height == sum_row_extents(self.rows@.take(j as int)),
                0 <= height <= 0x2000_0000_0000 * (j as int),
            decreases nr - j,
        {
            proof {
                assert(self.rows@.take(j as int + 1).drop_last() =~= self.rows@.take(j as int));
            }
            height = height + self.rows[j].0 as i128 - self.rows[j].1 as i128;
            j = j + 1;
        }
        proof {
            assert(self.columns@.take(nc as int) =~= self.columns@);
            assert(self.rows@.take(nr as int) =~= self.rows@);
        }
        if width > NODE_DIM_MAX as i128 || height > NODE_DIM_MAX as i128 {
            return Err(LayoutError::DimensionTooLarge);
        }
        Ok(
            LayoutNode {
                width: width as i64,
                height: height as i64,
                depth: 0,
                node: LayoutVariant::Grid(self),
            },
        )
    }

    /// The cumulative x position of each column: the exact sum of the
    /// widths of the columns before it.  Fails exactly when such a sum
    /// leaves the representable range.
    pub fn x_offsets(&self) -> (r: Result<Vec<i64>, LayoutError>)
        requires
            self.wf(),
        ensures
            r is Ok <==> forall|i: int|
                0 <= i < self.columns@.len() ==> sum_cols(#[trigger] self.columns@.take(i))
                    <= NODE_DIM_MAX,
            match r {
                Ok(v) => {
                    &&& v@.len() == self.columns@.len()
                    &&& forall|i: int|
                        0 <= i < v@.len() ==> #[trigger] v@[i] == sum_cols(
                            self.columns@.take(i),
                        )
                },
                Err(e) => e == LayoutError::DimensionTooLarge,
            },
    {
        let mut out: Vec<i64> = Vec::new();
        let mut acc: i128 = 0;
        let nc: usize = self.columns.len();
        let mut i: usize = 0;
        while i < nc
            invariant
                i <= nc,
                nc == self.columns@.len(),
                self.wf(),
                out@.len() == i,
                acc == sum_cols(self.columns@.take(i as int)),
                0 <= acc <= 0x1000_0000_0000 * (i as int),
                forall|k: int|
                    0 <= k < i ==> #[trigger] out@[k] == sum_cols(self.columns@.take(k)),
                forall|k: int|
                    0 <= k < i ==> sum_cols(#[trigger] self.columns@.take(k)) <= NODE_DIM_MAX,
            decreases nc - i,
        {
            if acc > NODE_DIM_MAX as i128 {
                return Err(LayoutError::DimensionTooLarge);
            }
            out.push(acc as i64);
            proof {
                assert(self.columns@.take(i as int + 1).drop_last() =~= self.columns@.take(
                    i as int,
                ));
            }
            acc = acc + self.columns[i] as i128;
            i = i + 1;
        }
        Ok(out)
    }

    /// The cumulative y position of each row: the exact sum of the
    /// vertical extents of the rows before it.  Fails exactly when such
    /// a sum leaves the representable range.
    pub fn y_offsets(&self) -> (r: Result<Vec<i64>, LayoutError>)
        requires
            self.wf(),
        ensures
            r is Ok <==> forall|i: int|
                0 <= i < self.rows@.len() ==> sum_row_extents(#[trigger] self.rows@.take(i))
                    <= NODE_DIM_MAX,
            match r {
                Ok(v) => {
                    &&& v@.len() == self.rows@.len()
                    &&& forall|i: int|
                        0 <= i < v@.len() ==> #[trigger] v@[i] == sum_row_extents(
                            self.rows@.take(i),
                        )
                },
                Err(e) => e == LayoutError::DimensionTooLarge,
            },
    {
        let mut out: Vec<i64> = Vec::new();
        let mut acc: i128 = 0;
        let nr: usize = self.rows.len();
        let mut j: usize = 0;
        while j < nr
            invariant
                j <= nr,
                nr == self.rows@.len(),
                self.wf(),
                out@.len() == j,
                acc == sum_row_extents(self.rows@.take(j as int)),
                0 <= acc <= 0x2000_0000_0000 * (j as int),
                forall|k: int|
                    0 <= k < j ==> #[trigger] out@[k] == sum_row_extents(self.rows@.take(k)),
                forall|k: int|
                    0 <= k < j ==> sum_row_extents(#[trigger] self.rows@.take(k)) <= NODE_DIM_MAX,
            decreases nr - j,
        {
            if acc > NODE_DIM_MAX as i128 {
                return Err(LayoutError::DimensionTooLarge);
            }
            out.push(acc as i64);
            proof {
                assert(self.rows@.take(j as int + 1).drop_last() =~= self.rows@.take(j as int));
            }
            acc = acc + self.rows[j].0 as i128 - self.rows[j].1 as i128;
            j = j + 1;
        }
        Ok(out)
    }
}

/// Extends the per-row table with empty extents until the given row
/// exists.
fn grow_rows(rows: &mut Vec<(i64, i64)>, row: usize)
    requires
        row < 0x1000_0000,
        forall|i: int|
            0 <= i < old(rows)@.len() ==> 0 <= (#[trigger] old(rows)@[i]).0 <= NODE_DIM_MAX
                && -NODE_DIM_MAX <= old(rows)@[i].1 <= 0,
    ensures
        final(rows)@.len() == if row + 1 > old(rows)@.len() {
            (row + 1) as int
        } else {
            old(rows)@.len() as int
        },
        forall|i: int| 0 <= i < old(rows)@.len() ==> #[trigger] final(rows)@[i] == old(rows)@[i],
        forall|i: int|
            old(rows)@.len() <= i < final(rows)@.len() ==> #[trigger] final(rows)@[i] == (
            0i64,
            0i64,
            ),
        forall|i: int|
            0 <= i < final(rows)@.len() ==> 0 <= (#[trigger] final(rows)@[i]).0 <= NODE_DIM_MAX
                && -NODE_DIM_MAX <= final(rows)@[i].1 <= 0,
{
    while rows.len() < row + 1
        invariant
            row < 0x1000_0000,
            rows@.len() >= old(rows)@.len(),
            rows@.len() <= row + 1 || rows@.len() == old(rows)@.len(),
            forall|i: int| 0 <= i < old(rows)@.len() ==> #[trigger] rows@[i] == old(rows)@[i],
            forall|i: int|
                old(rows)@.len() <= i < rows@.len() ==> #[trigger] rows@[i] == (0i64, 0i64),
        decreases row + 1 - rows@.len(),
    {
        rows.push((0, 0));
    }
}

/// Extends the column table with zero widths until the given column
/// exists.
fn grow_cols(cols: &mut Vec<i64>, column: usize)
    requires
        column < 0x1000_0000,
        forall|i: int| 0 <= i < old(cols)@.len() ==> 0 <= #[trigger] old(cols)@[i] <= NODE_DIM_MAX,
    ensures
        final(cols)@.len() == if column + 1 > old(cols)@.len() {
            (column + 1) as int
        } else {
            old(cols)@.len() as int
        },
        forall|i: int| 0 <= i < old(cols)@.len() ==> #[trigger] final(cols)@[i] == old(cols)@[i],
        forall|i: int|
            old(cols)@.len() <= i < final(cols)@.len() ==> #[trigger] final(cols)@[i] == 0i64,
        forall|i: int| 0 <= i < final(cols)@.len() ==> 0 <= #[trigger] final(cols)@[i] <= NODE_DIM_MAX,
{
    while cols.len() < column + 1
        invariant
            column < 0x1000_0000,
            cols@.len() >= old(cols)@.len(),
            cols@.len() <= column + 1 || cols@.len() == old(cols)@.len(),
            forall|i: int| 0 <= i < old(cols)@.len() ==> #[trigger] cols@[i] == old(cols)@[i],
            forall|i: int| old(cols)@.len() <= i < cols@.len() ==> #[trigger] cols@[i] == 0i64,
        decreases column + 1 - cols@.len(),
    {
        cols.push(0);
    }
}

/// Replaces the cell with the new cell's key, or appends it when the
/// key is new.
fn upsert_cell(contents: &mut Vec<GridCell>, cell: GridCell)
    ensures
        match find_cell(old(contents)@, cell.row, cell.column) {
            Some(i) => final(contents)@ == old(contents)@.update(i, cell),
            None => final(contents)@ == old(contents)@.push(cell),
        },
{
    let n: usize = contents.len();
    let mut i: usize = 0;
    while i < n
        invariant
            i <= n,
            n == contents@.len(),
            contents@ == old(contents)@,
            forall|j: int|
                0 <= j < i ==> !((#[trigger] contents@[j]).row == cell.row && contents@[j].column
                    == cell.column),
        decreases n - i,
    {
        if contents[i].row == cell.row && contents[i].column == cell.column {
            proof {
                lemma_find_cell_offset(contents@, cell.row, cell.column, i as int);
            }
            contents.set(i, cell);
            return ;
        }
        i = i + 1;
    }
    proof {
        lemma_find_cell_skip(contents@, cell.row, cell.column, n as int);
        assert(contents@.skip(n as int).len() == 0);
    }
    contents.push(cell);
}

/// A prefix without the key does not change where the cell is found,
/// up to the offset of the prefix.
proof fn lemma_find_cell_skip(s: Seq<GridCell>, row: usize, column: usize, i: int)
    requires
        0 <= i <= s.len(),
        forall|j: int|
            0 <= j < i ==> !((#[trigger] s[j]).row == row && s[j].column == column),
    ensures
        match find_cell(s.skip(i), row, column) {
            Some(k) => find_cell(s, row, column) == Some(k + i),
            None => find_cell(s, row, column) is None,
        },
    decreases i,
{
    if i > 0 {
        assert(!(s[0].row == row && s[0].column == column));
        lemma_find_cell_skip(s.drop_first(), row, column, i - 1);
        assert(s.drop_first().skip(i - 1) =~= s.skip(i));
    } else {
        assert(s.skip(0) =~= s);
    }
}

/// When the cell at the scanned index matches and no earlier one does,
/// the find lands exactly there.
proof fn lemma_find_cell_offset(s: Seq<GridCell>, row: usize, column: usize, i: int)
    requires
        0 <= i < s.len(),
        s[i].row == row && s[i].column == column,
        forall|j: int|
            0 <= j < i ==> !((#[trigger] s[j]).row == row && s[j].column == column),
    ensures
        find_cell(s, row, column) == Some(i),
{
    lemma_find_cell_skip(s, row, column, i);
    assert(s.skip(i)[0] == s[i]);
}

} // verus!
