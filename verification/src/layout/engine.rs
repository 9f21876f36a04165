//! The recursive layout algorithm: walks a sequence of formula nodes,
//! inserts inter-atom spacing, and dispatches each node to the box
//! construction its kind asks for.
//!
//! Every recursive descent consumes one unit of the context's nesting
//! budget and fails fast with [`LayoutError::TooDeep`] when the budget is
//! spent, so pathological nesting is rejected instead of overflowing the
//! stack.

use vstd::prelude::*;

use crate::LayoutError;
use crate::dimensions::div_trunc;
use crate::dimensions::iabs;
use crate::dimensions::tdiv;
use crate::layout::Alignment;
use crate::layout::Layout;
use crate::layout::LayoutNode;
use crate::layout::LayoutSettings;
use crate::layout::LayoutVariant;
use crate::layout::NODE_DIM_MAX;
use crate::layout::Style;
use crate::layout::builders;
use crate::layout::convert::AsLayoutNode;
use crate::layout::convert::SCALED_MAX;
use crate::layout::convert::Scaled;
use crate::layout::convert::fu_px;
use crate::layout::kern_horizontal;
use crate::layout::kern_vertical;
use crate::layout::rule_node;
use crate::layout::spacing::Spacing;
use crate::layout::spacing::atom_spacing;
use crate::parser::AtomType;
use crate::parser::ParseNode;
use crate::parser::Symbol;
use crate::parser::nodes::Accent;
use crate::parser::nodes::BarThickness;
use crate::parser::nodes::Delimited;
use crate::parser::nodes::GenFraction;
use crate::parser::nodes::Radical;
use crate::parser::nodes::Scripts;

verus! {

/// The largest magnitude any intermediate pixel value computed by the
/// engine can reach, in q units.
pub const ENGINE_DIM_MAX: i64 = 0x100_0000_0000_0000;

/// The largest magnitude a script adjustment handed to the gap
/// enforcement can have, in q units.
pub const ADJUST_MAX: i64 = 0x1_0000_0000_0000;

impl<'f> LayoutSettings<'f> {
    /// One nesting level down: the same context with the budget reduced
    /// by one, or a too-deep error when the budget is spent.
    pub fn descend(self) -> (r: Result<LayoutSettings<'f>, LayoutError>)
        ensures
            match r {
                Ok(c) => {
                    &&& self.depth_budget >= 1
                    &&& c == (LayoutSettings {
                        depth_budget: (self.depth_budget - 1) as u32,
                        ..self
                    })
                },
                Err(e) => {
                    &&& self.depth_budget == 0
                    &&& e == LayoutError::TooDeep
                },
            },
    {
        if self.depth_budget == 0 {
            Err(LayoutError::TooDeep)
        } else {
            Ok(LayoutSettings { depth_budget: self.depth_budget - 1, ..self })
        }
    }
}

/// Half of a value, truncated toward zero.
fn half(v: i64) -> (r: i64)
    requires
        -ENGINE_DIM_MAX <= v <= ENGINE_DIM_MAX,
    ensures
        r == tdiv(v as int, 2),
        iabs(r as int) <= iabs(v as int),
{
    let q = div_trunc(v as i128, 2);
    q as i64
}

/// Whether a binary atom between these neighbours is reclassified as
/// ordinary: it is when the previous atom is transparent, binary, a
/// relation, an opening delimiter, punctuation or any operator, or when
/// the next atom is a relation, a closing delimiter or punctuation.
pub open spec fn binary_becomes_alpha(prev: AtomType, next: AtomType) -> bool {
    ||| prev == AtomType::Transparent
    ||| prev == AtomType::Binary
    ||| prev == AtomType::Relation
    ||| prev == AtomType::Open
    ||| prev == AtomType::Punctuation
    ||| prev is Operator
    ||| next == AtomType::Relation
    ||| next == AtomType::Close
    ||| next == AtomType::Punctuation
}

/// The atom type the spacing pass uses for a node: a binary atom in a
/// reclassifying context becomes ordinary, and every other atom keeps
/// its type.
pub open spec fn reclassify_spec(prev: AtomType, current: AtomType, next: AtomType) -> AtomType {
    if current == AtomType::Binary && binary_becomes_alpha(prev, next) {
        AtomType::Alpha
    } else {
        current
    }
}

/// Applies binary-operator reclassification: a binary atom after a
/// transparent, binary, relation, opening, punctuation or operator atom
/// becomes ordinary, as does one before a relation, closing or
/// punctuation atom; every other context leaves the type unchanged.
pub fn reclassify_binary(prev: AtomType, current: AtomType, next: AtomType) -> (r: AtomType)
    ensures
        r == reclassify_spec(prev, current, next),
{
    if current == AtomType::Binary {
        let prev_triggers = match prev {
            AtomType::Transparent
            | AtomType::Binary
            | AtomType::Relation
            | AtomType::Open
            | AtomType::Punctuation
            | AtomType::Operator(_) => true,
            _ => false,
        };
        let next_triggers = match next {
            AtomType::Relation | AtomType::Close | AtomType::Punctuation => true,
            _ => false,
        };
        if prev_triggers || next_triggers {
            AtomType::Alpha
        } else {
            AtomType::Binary
        }
    } else {
        current
    }
}

/// Raises the two script adjustments so that the superscript's bottom
/// clears the subscript's top by at least the minimum gap: when the gap
/// is already wide enough nothing changes, and otherwise both
/// adjustments grow by the same amount, the least whole amount that
/// restores the gap.
pub fn enforce_script_gap(
    adjust_up: i64,
    adjust_down: i64,
    sup_depth: i64,
    sub_height: i64,
    gap_min: i64,
) -> (r: (i64, i64))
    requires
        -ADJUST_MAX <= adjust_up <= ADJUST_MAX,
        -ADJUST_MAX <= adjust_down <= ADJUST_MAX,
        -NODE_DIM_MAX <= sup_depth <= NODE_DIM_MAX,
        -NODE_DIM_MAX <= sub_height <= NODE_DIM_MAX,
        0 <= gap_min <= SCALED_MAX,
    ensures
        r.0 >= adjust_up,
        r.1 >= adjust_down,
        r.0 - adjust_up == r.1 - adjust_down,
        (r.0 + sup_depth) - (sub_height - r.1) >= gap_min,
        (adjust_up + sup_depth) - (sub_height - adjust_down) >= gap_min ==> r == (
        adjust_up,
        adjust_down,
        ),
        (adjust_up + sup_depth) - (sub_height - adjust_down) < gap_min ==> ({
            let grow = (gap_min - (adjust_up + sup_depth) + (sub_height - adjust_down) + 1) / 2;
            r.0 == adjust_up + grow && r.1 == adjust_down + grow
        }),
        -4 * ADJUST_MAX <= r.0 <= 4 * ADJUST_MAX,
        -4 * ADJUST_MAX <= r.1 <= 4 * ADJUST_MAX,
{
    let sup_bot: i64 = adjust_up + sup_depth;
    let sub_top: i64 = sub_height - adjust_down;
    if sup_bot - sub_top < gap_min {
        let shortfall: i64 = gap_min - sup_bot + sub_top;
        let adjust_u: u64 = ((shortfall as u64) + 1) / 2;
        let adjust: i64 = adjust_u as i64;
        proof {
            vstd::arithmetic::div_mod::lemma_fundamental_div_mod(shortfall as int + 1, 2);
        }
        (adjust_up + adjust, adjust_down + adjust)
    } else {
        (adjust_up, adjust_down)
    }
}

/// The two kerns and the baseline offset of a fraction: the kern above
/// the bar keeps the numerator at its shift while clearing the bar by at
/// least the minimum numerator gap, the kern below keeps the denominator
/// at its shift while leaving at least the minimum denominator gap, and
/// the offset places the bar's center on the axis.
pub fn frac_kerns(
    shift_up: i64,
    shift_down: i64,
    axis: i64,
    bar: i64,
    gap_num: i64,
    gap_denom: i64,
    numer_depth: i64,
    denom_height: i64,
) -> (r: (i64, i64, i64))
    requires
        -SCALED_MAX <= shift_up <= SCALED_MAX,
        -SCALED_MAX <= shift_down <= SCALED_MAX,
        -SCALED_MAX <= axis <= SCALED_MAX,
        -SCALED_MAX <= bar <= SCALED_MAX,
        0 <= gap_num <= SCALED_MAX,
        0 <= gap_denom <= SCALED_MAX,
        -NODE_DIM_MAX <= numer_depth <= NODE_DIM_MAX,
        -NODE_DIM_MAX <= denom_height <= NODE_DIM_MAX,
    ensures
        r.0 == if shift_up - axis - tdiv(bar as int, 2) >= gap_num - numer_depth {
            shift_up - axis - tdiv(bar as int, 2)
        } else {
            gap_num - numer_depth
        },
        r.1 == if shift_down + axis - denom_height - tdiv(bar as int, 2) >= gap_denom {
            shift_down + axis - denom_height - tdiv(bar as int, 2)
        } else {
            gap_denom as int
        },
        r.2 == denom_height + r.1 + tdiv(bar as int, 2) - axis,
        r.0 + numer_depth >= gap_num,
        r.1 >= gap_denom,
        -ENGINE_DIM_MAX <= r.0 <= ENGINE_DIM_MAX,
        -ENGINE_DIM_MAX <= r.1 <= ENGINE_DIM_MAX,
        -ENGINE_DIM_MAX <= r.2 <= ENGINE_DIM_MAX,
{
    let half_bar: i64 = half(bar);
    let a: i64 = shift_up - axis - half_bar;
    let b: i64 = gap_num - numer_depth;
    let kern_num: i64 = if a >= b {
        a
    } else {
        b
    };
    let c: i64 = shift_down + axis - denom_height - half_bar;
    let kern_den: i64 = if c >= gap_denom {
        c
    } else {
        gap_denom
    };
    let offset: i64 = denom_height + kern_den + half_bar - axis;
    (kern_num, kern_den, offset)
}

/// The bare symbol a one-node input stands for, when that node is a
/// symbol that is not a large operator.
pub open spec fn single_symbol_case(nodes: Seq<ParseNode>) -> Option<Symbol> {
    if nodes.len() == 1 {
        match nodes[0] {
            ParseNode::Symbol(s) => {
                if s.atom_type is Operator {
                    None
                } else {
                    Some(s)
                }
            },
            _ => None,
        }
    } else {
        None
    }
}

/// Whether every node of a sequence is a bare symbol that is not a
/// large operator.
pub open spec fn all_bare_symbols(nodes: Seq<ParseNode>) -> bool {
    forall|i: int|
        0 <= i < nodes.len() ==> ((#[trigger] nodes[i]) matches ParseNode::Symbol(s) && !(
        s.atom_type is Operator))
}

/// The symbol a bare-symbol sequence holds at an index.
pub open spec fn sym_at(nodes: Seq<ParseNode>, i: int) -> Symbol {
    nodes[i]->Symbol_0
}

/// The effective atom type of a bare symbol in its sequence: its own
/// type after binary reclassification against the effective type of its
/// left neighbour (transparent at the start) and the raw type of its
/// right neighbour (the parent's trailing context at the end).  The
/// reclassified type is what both the kern before the symbol and the
/// next symbol's reclassification see; the input nodes are never
/// changed.
pub open spec fn eff_type(nodes: Seq<ParseNode>, parent_next: AtomType, i: int) -> AtomType
    decreases i,
{
    let prev = if i <= 0 {
        AtomType::Transparent
    } else {
        eff_type(nodes, parent_next, i - 1)
    };
    let next = if i + 1 < nodes.len() {
        sym_at(nodes, i + 1).atom_type
    } else {
        parent_next
    };
    reclassify_spec(prev, sym_at(nodes, i).atom_type, next)
}

/// The table spacing inserted before the symbol at an index: read for
/// the effective types of its left neighbour and itself; nothing stands
/// before the first symbol.
pub open spec fn spacing_before(
    nodes: Seq<ParseNode>,
    parent_next: AtomType,
    style: Style,
    i: int,
) -> Spacing {
    crate::layout::spacing::atom_spacing_spec(
        if i <= 0 {
            AtomType::Transparent
        } else {
            eff_type(nodes, parent_next, i - 1)
        },
        eff_type(nodes, parent_next, i),
        style,
    )
}

/// How many spacing kerns stand before the first `m` symbols' boxes.
pub open spec fn kern_count(
    nodes: Seq<ParseNode>,
    parent_next: AtomType,
    style: Style,
    m: int,
) -> int
    decreases m,
{
    if m <= 0 {
        0
    } else {
        kern_count(nodes, parent_next, style, m - 1) + if spacing_before(
            nodes,
            parent_next,
            style,
            m - 1,
        ) != Spacing::Zero {
            1int
        } else {
            0int
        }
    }
}

/// Where the box of the symbol at an index stands in the result: after
/// the boxes and kerns of the symbols before it, and after its own
/// kern.
pub open spec fn glyph_index(
    nodes: Seq<ParseNode>,
    parent_next: AtomType,
    style: Style,
    i: int,
) -> int {
    i + kern_count(nodes, parent_next, style, i + 1)
}

/// Whether growing an accumulator only appended: the old contents stand
/// unchanged as a prefix of the new.
pub open spec fn appends_only(old_contents: Seq<LayoutNode>, new_contents: Seq<LayoutNode>) -> bool {
    &&& new_contents.len() >= old_contents.len()
    &&& forall|i: int| 0 <= i < old_contents.len() ==> #[trigger] new_contents[i] == old_contents[i]
}

/// Whether a node kind has no construction in the engine and is skipped
/// with a diagnostic.
pub open spec fn is_unrecognized_kind(node: ParseNode) -> bool {
    match node {
        ParseNode::PlainText(_) | ParseNode::Stack(_) | ParseNode::Array(_) => true,
        _ => false,
    }
}

/// Lays out a sequence of formula nodes under a context, producing one
/// finished level whose aggregates follow the horizontal-box rules.
/// Laying out a single bare symbol whose glyph the font holds succeeds
/// and yields exactly that one scaled glyph node; a sequence of bare
/// symbols yields their glyph nodes in order, each preceded by exactly
/// the kern the spacing table gives the reclassified atom types of the
/// adjacent pair.
pub fn layout(nodes: &[ParseNode], config: LayoutSettings) -> (r: Result<Layout, LayoutError>)
    requires
        config.wf(),
    ensures
        r matches Ok(l) ==> l.wf() && l.alignment == Alignment::Default,
        r matches Ok(l) ==> match single_symbol_case(nodes@) {
            Some(s) => {
                &&& l.contents@.len() == 1
                &&& crate::font::find_glyph_by_unicode(
                    config.font.glyphs@,
                    s.codepoint as u32,
                ) matches Some(g) ==> crate::layout::convert::glyph_node_matches(
                    g,
                    config,
                    l.contents@[0],
                )
            },
            None => true,
        },
        single_symbol_case(nodes@) matches Some(s) ==> crate::font::find_glyph_by_unicode(
            config.font.glyphs@,
            s.codepoint as u32,
        ) is Some ==> r is Ok,
        r matches Ok(l) ==> (all_bare_symbols(nodes@) ==> symbols_layout_shape(
            l.contents@,
            nodes@,
            AtomType::Transparent,
            config,
            nodes@.len() as int,
        )),
    decreases config.depth_budget, 4int,
{
    layout_recurse(nodes, config, AtomType::Transparent)
}

/// What laying out a sequence of bare symbols produces, for the first
/// `m` symbols: each becomes its scaled glyph node, preceded — exactly
/// when the table spacing for the effective types of the adjacent pair
/// is not zero — by one pure kern of that spacing's scaled width.
pub open spec fn symbols_layout_shape(
    contents: Seq<LayoutNode>,
    nodes: Seq<ParseNode>,
    parent_next: AtomType,
    config: LayoutSettings,
    m: int,
) -> bool {
    &&& contents.len() == m + kern_count(nodes, parent_next, config.style, m)
    &&& forall|i: int|
        0 <= i < m ==> (crate::font::find_glyph_by_unicode(
            config.font.glyphs@,
            (#[trigger] sym_at(nodes, i)).codepoint as u32,
        ) matches Some(g) ==> crate::layout::convert::glyph_node_matches(
            g,
            config,
            contents[glyph_index(nodes, parent_next, config.style, i)],
        ))
    &&& forall|i: int|
        0 <= i < m && spacing_before(nodes, parent_next, config.style, i) != Spacing::Zero ==> {
            let k = #[trigger] glyph_index(nodes, parent_next, config.style, i) - 1;
            &&& contents[k].node is Kern
            &&& contents[k].width == spacing_before(
                nodes,
                parent_next,
                config.style,
                i,
            ).to_unit_spec().scaled_spec(config)
            &&& contents[k].height == 0
            &&& contents[k].depth == 0
        }
}

/// Lays out a single node on its own, with transparent context on both
/// sides; no inter-atom spacing applies around a lone node.
fn layout_single(node: &ParseNode, config: LayoutSettings) -> (r: Result<Layout, LayoutError>)
    requires
        config.wf(),
    ensures
        r matches Ok(l) ==> l.wf(),
        ((*node) matches ParseNode::Symbol(s) && !(s.atom_type is Operator)
            && crate::font::find_glyph_by_unicode(config.font.glyphs@, s.codepoint as u32)
            is Some) ==> r is Ok,
        r matches Ok(l) ==> ((*node) matches ParseNode::Symbol(s) ==> !(s.atom_type is Operator)
            ==> {
            &&& l.contents@.len() == 1
            &&& crate::font::find_glyph_by_unicode(
                config.font.glyphs@,
                s.codepoint as u32,
            ) matches Some(g) ==> crate::layout::convert::glyph_node_matches(
                g,
                config,
                l.contents@[0],
            )
        }),
    decreases config.depth_budget, 5int,
{
    let mut result = Layout::new();
    // A style directive in a lone node has no following siblings to
    // affect, so the context it hands back is dropped.
    let _ = dispatch_node(&mut result, node, AtomType::Transparent, config)?;
    Ok(result.finalize())
}

/// The recursive worker: walks the nodes left to right, tracking the
/// previous atom type and peeking the next one (or the parent's trailing
/// context at the end), reclassifies binary atoms, inserts the table
/// spacing, and dispatches each node to its construction.
fn layout_recurse(nodes: &[ParseNode], config: LayoutSettings, parent_next: AtomType) -> (r: Result<
    Layout,
    LayoutError,
>)
    requires
        config.wf(),
    ensures
        r matches Ok(l) ==> l.wf() && l.alignment == Alignment::Default,
        r matches Ok(l) ==> match single_symbol_case(nodes@) {
            Some(s) => {
                &&& l.contents@.len() == 1
                &&& crate::font::find_glyph_by_unicode(
                    config.font.glyphs@,
                    s.codepoint as u32,
                ) matches Some(g) ==> crate::layout::convert::glyph_node_matches(
                    g,
                    config,
                    l.contents@[0],
                )
            },
            None => true,
        },
        single_symbol_case(nodes@) matches Some(s) ==> crate::font::find_glyph_by_unicode(
            config.font.glyphs@,
            s.codepoint as u32,
        ) is Some ==> r is Ok,
        r matches Ok(l) ==> (all_bare_symbols(nodes@) ==> symbols_layout_shape(
            l.contents@,
            nodes@,
            parent_next,
            config,
            nodes@.len() as int,
        )),
    decreases config.depth_budget, 3int,
{
    let mut cfg = config;
    let mut result = Layout::new();
    let mut prev = AtomType::Transparent;
    let n: usize = nodes.len();
    let mut idx: usize = 0;
    while idx < n
        invariant
            idx <= n,
            n == nodes@.len(),
            cfg.wf(),
            cfg.depth_budget == config.depth_budget,
            result.wf(),
            result.alignment == Alignment::Default,
            single_symbol_case(nodes@) is Some ==> cfg == config,
            single_symbol_case(nodes@) is Some && idx == 0 ==> result.contents@.len() == 0
                && prev == AtomType::Transparent,
            single_symbol_case(nodes@) matches Some(s) ==> idx >= 1 ==> {
                &&& result.contents@.len() == 1
                &&& crate::font::find_glyph_by_unicode(
                    config.font.glyphs@,
                    s.codepoint as u32,
                ) matches Some(g) ==> crate::layout::convert::glyph_node_matches(
                    g,
                    config,
                    result.contents@[0],
                )
            },
            all_bare_symbols(nodes@) ==> cfg == config,
            all_bare_symbols(nodes@) ==> prev == (if idx == 0 {
                AtomType::Transparent
            } else {
                eff_type(nodes@, parent_next, idx - 1)
            }),
            all_bare_symbols(nodes@) ==> symbols_layout_shape(
                result.contents@,
                nodes@,
                parent_next,
                config,
                idx as int,
            ),
        decreases n - idx,
    {
        let ghost pre_contents = result.contents@;
        let node = &nodes[idx];
        let next: AtomType = if idx + 1 < n {
            nodes[idx + 1].atom_type()
        } else {
            parent_next
        };
        let current = reclassify_binary(prev, node.atom_type(), next);
        let sp = atom_spacing(prev, current, cfg.style);
        if sp != Spacing::Zero {
            let kern = sp.to_unit().scaled(cfg)?;
            result.add_node(kern_horizontal(kern))?;
        }
        let ghost mid_contents = result.contents@;
        prev = current;
        cfg = dispatch_node(&mut result, node, next, cfg)?;
        proof {
            if all_bare_symbols(nodes@) {
                let sty = config.style;
                let m = idx as int;
                let kc_m = kern_count(nodes@, parent_next, sty, m);
                let kc_m1 = kern_count(nodes@, parent_next, sty, m + 1);
                let spacing_m = spacing_before(nodes@, parent_next, sty, m);
                assert(kc_m1 == kc_m + if spacing_m != Spacing::Zero {
                    1int
                } else {
                    0int
                });
                lemma_kern_count_mono(nodes@, parent_next, sty, 0, m);
                assert(nodes@[m as int] matches ParseNode::Symbol(sm) && sm == sym_at(nodes@, m));
                assert(pre_contents.len() == m + kc_m);
                assert(appends_only(mid_contents, result.contents@));
                if spacing_m != Spacing::Zero {
                    assert(mid_contents =~= pre_contents.push(mid_contents.last()));
                    assert(mid_contents.last().node is Kern);
                    assert(mid_contents.last().width == spacing_m.to_unit_spec().scaled_spec(
                        config,
                    ));
                    assert(mid_contents.last().height == 0 && mid_contents.last().depth == 0);
                } else {
                    assert(mid_contents == pre_contents);
                }
                assert(result.contents@.len() == mid_contents.len() + 1);
                assert(result.contents@.len() == (m + 1) + kc_m1);
                assert forall|i: int| 0 <= i < m + 1 implies (crate::font::find_glyph_by_unicode(
                    config.font.glyphs@,
                    (#[trigger] sym_at(nodes@, i)).codepoint as u32,
                ) matches Some(g) ==> crate::layout::convert::glyph_node_matches(
                    g,
                    config,
                    result.contents@[glyph_index(nodes@, parent_next, sty, i)],
                )) by {
                    lemma_kern_count_mono(nodes@, parent_next, sty, 0, i + 1);
                    if i < m {
                        lemma_kern_count_mono(nodes@, parent_next, sty, i + 1, m);
                        let gi = glyph_index(nodes@, parent_next, sty, i);
                        assert(gi < pre_contents.len());
                        assert(result.contents@[gi] == mid_contents[gi]);
                        assert(mid_contents[gi] == pre_contents[gi]);
                    } else {
                        assert(glyph_index(nodes@, parent_next, sty, m) == result.contents@.len()
                            - 1);
                    }
                }
                assert forall|i: int|
                    0 <= i < m + 1 && spacing_before(nodes@, parent_next, sty, i)
                        != Spacing::Zero implies ({
                    let k = #[trigger] glyph_index(nodes@, parent_next, sty, i) - 1;
                    &&& result.contents@[k].node is Kern
                    &&& result.contents@[k].width == spacing_before(
                        nodes@,
                        parent_next,
                        sty,
                        i,
                    ).to_unit_spec().scaled_spec(config)
                    &&& result.contents@[k].height == 0
                    &&& result.contents@[k].depth == 0
                }) by {
                    lemma_kern_count_mono(nodes@, parent_next, sty, 0, i);
                    assert(kern_count(nodes@, parent_next, sty, i + 1) == kern_count(
                        nodes@,
                        parent_next,
                        sty,
                        i,
                    ) + 1);
                    if i < m {
                        lemma_kern_count_mono(nodes@, parent_next, sty, i + 1, m);
                        let k = glyph_index(nodes@, parent_next, sty, i) - 1;
                        assert(0 <= k < pre_contents.len());
                        assert(result.contents@[k] == mid_contents[k]);
                        assert(mid_contents[k] == pre_contents[k]);
                    } else {
                        assert(glyph_index(nodes@, parent_next, sty, m) - 1 == m + kc_m);
                        assert(result.contents@[m + kc_m] == mid_contents[m + kc_m]);
                        assert(mid_contents[m + kc_m] == mid_contents.last());
                    }
                }
            }
        }
        idx = idx + 1;
    }
    Ok(result.finalize())
}

/// The number of spacing kerns grows by at most one per symbol and
/// never shrinks.
proof fn lemma_kern_count_mono(nodes: Seq<ParseNode>, parent_next: AtomType, style: Style, a: int, b: int)
    requires
        a <= b,
    ensures
        kern_count(nodes, parent_next, style, a) <= kern_count(nodes, parent_next, style, b),
        kern_count(nodes, parent_next, style, b) - kern_count(nodes, parent_next, style, a) <= b
            - a,
    decreases b - a,
{
    if a < b {
        lemma_kern_count_mono(nodes, parent_next, style, a, b - 1);
    }
}

/// Builds one node into the accumulator and hands back the context the
/// following siblings use: only a style directive changes it.
fn dispatch_node<'f>(
    result: &mut Layout,
    node: &ParseNode,
    next: AtomType,
    cfg: LayoutSettings<'f>,
) -> (r: Result<LayoutSettings<'f>, LayoutError>)
    requires
        cfg.wf(),
        old(result).wf(),
    ensures
        final(result).wf(),
        final(result).alignment == old(result).alignment,
        r is Ok ==> appends_only(old(result).contents@, final(result).contents@),
        r matches Ok(c2) ==> {
            &&& c2.wf()
            &&& c2.depth_budget == cfg.depth_budget
            &&& ((*node) matches ParseNode::Style(st) ==> c2 == (LayoutSettings {
                style: st,
                ..cfg
            }))
            &&& (!((*node) is Style) ==> c2 == cfg)
        },
        r is Ok ==> ((*node) matches ParseNode::Symbol(s) ==> !(s.atom_type is Operator) ==> {
            &&& final(result).contents@.len() == old(result).contents@.len() + 1
            &&& crate::font::find_glyph_by_unicode(
                cfg.font.glyphs@,
                s.codepoint as u32,
            ) matches Some(g)
            &&& crate::font::find_glyph_by_unicode(
                cfg.font.glyphs@,
                s.codepoint as u32,
            ) matches Some(g) ==> crate::layout::convert::glyph_node_matches(
                g,
                cfg,
                final(result).contents@.last(),
            )
        }),
        ((*node) matches ParseNode::Symbol(s) && !(s.atom_type is Operator)
            && crate::font::find_glyph_by_unicode(cfg.font.glyphs@, s.codepoint as u32) is Some
            && -NODE_DIM_MAX <= old(result).width <= NODE_DIM_MAX - SCALED_MAX) ==> r is Ok,
        (*node) is Style ==> (*final(result) == *old(result) && r is Ok),
        is_unrecognized_kind(*node) ==> (*final(result) == *old(result) && r is Ok),
    decreases cfg.depth_budget, 2int,
{
    let mut cfg = cfg;
    match node {
        ParseNode::Symbol(sym) => {
            add_symbol(result, *sym, cfg)?;
        },
        ParseNode::Scripts(scripts) => {
            add_scripts(result, scripts, cfg)?;
        },
        ParseNode::Radical(rad) => {
            add_radical(result, rad, cfg)?;
        },
        ParseNode::Delimited(delim) => {
            add_delimited(result, delim, cfg)?;
        },
        ParseNode::Accent(acc) => {
            add_accent(result, acc, cfg)?;
        },
        ParseNode::GenFraction(frac) => {
            add_frac(result, frac, cfg)?;
        },
        ParseNode::Group(gp) => {
            let inner = layout(gp.as_slice(), cfg.descend()?)?;
            result.add_node(inner.as_node())?;
        },
        ParseNode::Rule(rule) => {
            let n = rule.as_layout(cfg)?;
            result.add_node(n)?;
        },
        ParseNode::Kerning(kern) => {
            let k = (*kern).scaled(cfg)?;
            result.add_node(kern_horizontal(k))?;
        },
        ParseNode::Style(sty) => {
            cfg.style = *sty;
        },
        ParseNode::Color(clr) => {
            let inner = layout_recurse(clr.inner.as_slice(), cfg.descend()?, next)?;
            result.add_node(builders::color(inner, clr))?;
        },
        ParseNode::AtomChange(ac) => {
            add_atom_change(result, &ac.inner, cfg)?;
        },
        _ => {
            // An unrecognized node kind is skipped so the rest of the
            // sequence still lays out.
        },
    }
    Ok(cfg)
}

/// Adds one symbol: an operator gets large-operator handling, any other
/// symbol becomes its exactly scaled glyph node.
fn add_symbol(result: &mut Layout, sym: Symbol, config: LayoutSettings) -> (r: Result<
    (),
    LayoutError,
>)
    requires
        config.wf(),
        old(result).wf(),
    ensures
        final(result).wf(),
        final(result).alignment == old(result).alignment,
        r is Ok ==> appends_only(old(result).contents@, final(result).contents@),
        r is Ok ==> final(result).contents@.len() == old(result).contents@.len() + 1,
        r is Ok && !(sym.atom_type is Operator) ==> {
            &&& final(result).contents@.len() == old(result).contents@.len() + 1
            &&& crate::font::find_glyph_by_unicode(
                config.font.glyphs@,
                sym.codepoint as u32,
            ) matches Some(g)
            &&& crate::font::find_glyph_by_unicode(
                config.font.glyphs@,
                sym.codepoint as u32,
            ) matches Some(g) ==> crate::layout::convert::glyph_node_matches(
                g,
                config,
                final(result).contents@.last(),
            )
        },
        (!(sym.atom_type is Operator) && crate::font::find_glyph_by_unicode(
            config.font.glyphs@,
            sym.codepoint as u32,
        ) is Some && -NODE_DIM_MAX <= old(result).width <= NODE_DIM_MAX - SCALED_MAX) ==> r is Ok,
    decreases config.depth_budget, 1int,
{
    if matches!(sym.atom_type, AtomType::Operator(_)) {
        add_largeop(result, sym, config)
    } else {
        let glyph = config.font.glyph_metrics(sym.codepoint as u32)?;
        let node = glyph.as_layout(config)?;
        result.add_node(node)?;
        Ok(())
    }
}

/// Adds a large operator: at the Display level its vertical variant of
/// at least the display minimum height is chosen and centered on the
/// axis, wrapped in a vertical box whose offset shifts half its total
/// extent onto the axis; in smaller styles the plain glyph is used.
fn add_largeop(result: &mut Layout, sym: Symbol, config: LayoutSettings) -> (r: Result<
    (),
    LayoutError,
>)
    requires
        config.wf(),
        old(result).wf(),
    ensures
        final(result).wf(),
        final(result).alignment == old(result).alignment,
        r is Ok ==> appends_only(old(result).contents@, final(result).contents@),
        r is Ok ==> final(result).contents@.len() == old(result).contents@.len() + 1,
        r is Ok ==> (config.style.level() == 3 ==> (final(result).contents@.last().node
            matches LayoutVariant::VerticalBox(vb) && (final(result).contents@.last().node
            matches LayoutVariant::VerticalBox(vb) ==> {
            &&& vb.contents@.len() == 1
            &&& vb.offset == tdiv(
                vb.contents@[0].height + vb.contents@[0].depth,
                2,
            ) - fu_px(config, config.font.constants.axis_height as int)
            &&& crate::font::find_glyph_by_unicode(config.font.glyphs@, sym.codepoint as u32)
                matches Some(op) ==> (crate::font::choose_variant_spec(
                crate::font::find_variants(config.font.vert_variants@, op.gid),
                op.gid,
                config.font.constants.display_operator_min_height as int,
                crate::font::Direction::Vertical,
            ) matches crate::font::VariantGlyph::Replacement(rep_gid) ==> (
            crate::font::find_glyph_by_gid(config.font.glyphs@, rep_gid) matches Some(gl)
                ==> crate::layout::convert::glyph_node_matches(gl, config, vb.contents@[0])))
        }))),
        r is Ok ==> (config.style.level() != 3 ==> (crate::font::find_glyph_by_unicode(
            config.font.glyphs@,
            sym.codepoint as u32,
        ) matches Some(g) ==> crate::layout::convert::glyph_node_matches(
            g,
            config,
            final(result).contents@.last(),
        ))),
    decreases config.depth_budget, 1int,
{
    let glyph = config.font.glyph_metrics(sym.codepoint as u32)?;
    if config.style.is_display_level() {
        let size = config.font.constants.display_operator_min_height;
        let axis_offset = config.px_from_font(config.font.constants.axis_height);
        let variant = config.font.vert_variant(glyph.gid, size);
        let largeop = variant.as_layout(config)?;
        let shift = half(largeop.height + largeop.depth) - axis_offset;
        let mut vbox = builders::VBox::new();
        vbox.add_node(largeop);
        vbox.set_offset(shift);
        let node = vbox.build()?;
        result.add_node(node)?;
        Ok(())
    } else {
        let node = glyph.as_layout(config)?;
        result.add_node(node)?;
        Ok(())
    }
}

/// Wraps a node in a vertical box whose offset centers it on the axis:
/// the box is shifted by half the node's total extent less the axis
/// height.
fn center_on_axis(node: crate::layout::LayoutNode, axis: i64) -> (r: Result<
    crate::layout::LayoutNode,
    LayoutError,
>)
    requires
        crate::layout::node_dims_bounded(node),
        -SCALED_MAX <= axis <= SCALED_MAX,
    ensures
        r matches Ok(n) ==> {
            &&& crate::layout::node_dims_bounded(n)
            &&& n.node is VerticalBox
        },
{
    let shift = half(node.height + node.depth) - axis;
    let mut vbox = builders::VBox::new();
    vbox.add_node(node);
    vbox.set_offset(shift);
    vbox.build()
}

/// Adds a delimited group: the delimited material is laid out first;
/// when it is tall enough, each delimiter is replaced by a vertical
/// variant covering the required clearance and centered on the axis,
/// and otherwise the plain delimiter glyphs are used.  A period stands
/// for no delimiter and becomes an invisible kern of the null-delimiter
/// width.
fn add_delimited(result: &mut Layout, delim: &Delimited, config: LayoutSettings) -> (r: Result<
    (),
    LayoutError,
>)
    requires
        config.wf(),
        old(result).wf(),
    ensures
        final(result).wf(),
        final(result).alignment == old(result).alignment,
        r is Ok ==> appends_only(old(result).contents@, final(result).contents@),
        r is Ok ==> final(result).contents@.len() == old(result).contents@.len()
            + delim.delimiters@.len() + (if delim.inners@.len() <= delim.delimiters@.len() {
            delim.inners@.len() as int
        } else {
            delim.delimiters@.len() as int
        }),
        r is Ok ==> forall|k: int|
            0 <= k < delim.delimiters@.len() && (#[trigger] delim.delimiters@[k]).codepoint == '.'
                ==> final(result).contents@[old(result).contents@.len() + k + (
            if k < delim.inners@.len() {
                k
            } else {
                delim.inners@.len() as int
            })] == crate::layout::kern_horizontal_spec(config.font.constants.null_delimiter_space),
    decreases config.depth_budget, 1int,
{
    let inner_count: usize = delim.inners.len();
    let mut inner_nodes: Vec<crate::layout::LayoutNode> = Vec::new();
    let mut max_h: i64 = 0;
    let mut min_d: i64 = 0;
    let mut i: usize = 0;
    while i < inner_count
        invariant
            i <= inner_count,
            inner_count == delim.inners@.len(),
            config.wf(),
            result.wf(),
            result.alignment == old(result).alignment,
            inner_nodes@.len() == i,
            forall|j: int|
                0 <= j < i ==> crate::layout::node_dims_bounded(#[trigger] inner_nodes@[j]),
            -NODE_DIM_MAX <= max_h <= NODE_DIM_MAX,
            -NODE_DIM_MAX <= min_d <= NODE_DIM_MAX,
        decreases inner_count - i,
    {
        let one = layout(delim.inners[i].nodes.as_slice(), config.descend()?)?;
        let node = one.as_node();
        if node.height > max_h {
            max_h = node.height;
        }
        if node.depth < min_d {
            min_d = node.depth;
        }
        inner_nodes.push(node);
        i = i + 1;
    }
    let h_fu = config.to_font(max_h);
    let d_fu = config.to_font(min_d);
    let tallest = if h_fu >= -d_fu {
        h_fu
    } else {
        -d_fu
    };
    let threshold = half(config.font.constants.delimited_sub_formula_min_height);
    let extend = tallest > threshold;
    let axis_fu = config.font.constants.axis_height;
    let clearance: i64 = if extend {
        let spread = if h_fu - axis_fu >= axis_fu - d_fu {
            h_fu - axis_fu
        } else {
            axis_fu - d_fu
        };
        let doubled: i64 = 2 * spread;
        let factored: i64 = mul_permille(doubled, config.font.constants.delimiter_factor_permille);
        let short: i64 = h_fu - d_fu - config.font.constants.delimiter_short_fall;
        if factored >= short {
            factored
        } else {
            short
        }
    } else {
        0
    };
    let axis_px = config.px_from_font(config.font.constants.axis_height);
    let delim_count: usize = delim.delimiters.len();
    let mut k: usize = 0;
    while k < delim_count
        invariant
            k <= delim_count,
            delim_count == delim.delimiters@.len(),
            inner_nodes@.len() == if k < inner_count {
                inner_count - k
            } else {
                0int
            },
            result.contents@.len() == old(result).contents@.len() + k + (inner_count
                - inner_nodes@.len()),
            appends_only(old(result).contents@, result.contents@),
            forall|k2: int|
                0 <= k2 < k && (#[trigger] delim.delimiters@[k2]).codepoint == '.'
                    ==> result.contents@[old(result).contents@.len() + k2 + (
                if k2 < inner_count {
                    k2
                } else {
                    inner_count as int
                })] == crate::layout::kern_horizontal_spec(
                    config.font.constants.null_delimiter_space,
                ),
            forall|j: int|
                0 <= j < inner_nodes@.len() ==> crate::layout::node_dims_bounded(
                    #[trigger] inner_nodes@[j],
                ),
            config.wf(),
            result.wf(),
            result.alignment == old(result).alignment,
            -0x40_0000_0000_0000 <= clearance <= 0x40_0000_0000_0000,
            -SCALED_MAX <= axis_px <= SCALED_MAX,
        decreases delim_count - k,
    {
        let symbol = delim.delimiters[k];
        if symbol.codepoint == '.' {
            result.add_node(kern_horizontal(config.font.constants.null_delimiter_space))?;
        } else {
            let glyph = config.font.glyph_metrics(symbol.codepoint as u32)?;
            if extend {
                let variant = config.font.vert_variant(glyph.gid, clearance);
                let sized = variant.as_layout(config)?;
                let centered = center_on_axis(sized, axis_px)?;
                result.add_node(centered)?;
            } else {
                let node = glyph.as_layout(config)?;
                result.add_node(node)?;
            }
        }
        if inner_nodes.len() > 0 {
            let node = inner_nodes.remove(0);
            result.add_node(node)?;
        }
        k = k + 1;
    }
    Ok(())
}

/// Multiplies a font-unit value by a per-mille factor, truncating.
fn mul_permille(v: i64, permille: i64) -> (r: i64)
    requires
        -0x40_0000_0000_0000 <= v <= 0x40_0000_0000_0000,
        0 <= permille <= 1000,
    ensures
        r == tdiv(v * permille, 1000),
        -0x40_0000_0000_0000 <= r <= 0x40_0000_0000_0000,
{
    proof {
        crate::dimensions::lemma_mul_bound(v as int, permille as int, 0x40_0000_0000_0000, 1000);
        crate::dimensions::lemma_tdiv_magnitude(v as int * permille as int, 1000, 1000);
        vstd::arithmetic::div_mod::lemma_div_is_ordered(
            iabs(v as int * permille as int),
            (0x40_0000_0000_0000 as int) * 1000,
            1000,
        );
    }
    let num: i128 = (v as i128) * (permille as i128);
    let q = div_trunc(num, 1000);
    q as i64
}

/// The thickness a fraction's bar is drawn with: the font's default
/// rule, nothing, or the scaled explicit override.
pub open spec fn frac_bar_spec(config: LayoutSettings, bar: BarThickness) -> int {
    match bar {
        BarThickness::Default => fu_px(
            config,
            config.font.constants.fraction_rule_thickness as int,
        ),
        BarThickness::NoBar => 0,
        BarThickness::Unit(u) => u.scaled_spec(config),
    }
}

/// The selected minimum numerator-to-bar gap of a fraction, in q units.
pub open spec fn frac_gap_num_spec(config: LayoutSettings) -> int {
    if config.style.level() == 3 {
        fu_px(config, config.font.constants.fraction_num_display_style_gap_min as int)
    } else {
        fu_px(config, config.font.constants.fraction_numerator_gap_min as int)
    }
}

/// The selected minimum bar-to-denominator gap of a fraction, in q
/// units.
pub open spec fn frac_gap_denom_spec(config: LayoutSettings) -> int {
    if config.style.level() == 3 {
        fu_px(config, config.font.constants.fraction_denom_display_style_gap_min as int)
    } else {
        fu_px(config, config.font.constants.fraction_denominator_gap_min as int)
    }
}

/// Checks that a pixel value read out of a layout payload is small
/// enough for further arithmetic.
fn checked_dim(v: i64) -> (r: Result<i64, LayoutError>)
    ensures
        match r {
            Ok(x) => x == v && -SCALED_MAX <= x <= SCALED_MAX,
            Err(e) => e == LayoutError::DimensionTooLarge,
        },
{
    if v > SCALED_MAX || v < -SCALED_MAX {
        Err(LayoutError::DimensionTooLarge)
    } else {
        Ok(v)
    }
}

/// The larger of two values.
fn max_i64(a: i64, b: i64) -> (r: i64)
    ensures
        r == if a >= b {
            a
        } else {
            b
        },
{
    if a >= b {
        a
    } else {
        b
    }
}

/// Adds a generalized fraction: numerator and denominator are laid out
/// in their derived styles, the narrower is centered to the width of the
/// wider, and the assembled stack is flanked by invisible null-delimiter
/// kerns.  The kern above the bar leaves at least the minimum numerator
/// gap and the kern below at least the minimum denominator gap.
#[verifier::rlimit(60)]
fn add_frac(result: &mut Layout, frac: &GenFraction, config: LayoutSettings) -> (r: Result<
    (),
    LayoutError,
>)
    requires
        config.wf(),
        old(result).wf(),
    ensures
        final(result).wf(),
        final(result).alignment == old(result).alignment,
        r is Ok ==> appends_only(old(result).contents@, final(result).contents@),
        r is Ok ==> {
            &&& final(result).contents@.len() == old(result).contents@.len() + 3
            &&& final(result).contents@[old(result).contents@.len() as int]
                == crate::layout::kern_horizontal_spec(config.font.constants.null_delimiter_space)
            &&& final(result).contents@.last() == crate::layout::kern_horizontal_spec(
                config.font.constants.null_delimiter_space,
            )
            &&& final(result).contents@[(old(result).contents@.len() + 1) as int].node
                matches LayoutVariant::VerticalBox(vb)
            &&& final(result).contents@[(old(result).contents@.len() + 1) as int].node
                matches LayoutVariant::VerticalBox(vb) ==> {
                &&& vb.contents@.len() == 5
                &&& vb.contents@[0].width == vb.contents@[4].width
                &&& vb.contents@[0].node is HorizontalBox
                &&& vb.contents@[4].node is HorizontalBox
                &&& vb.contents@[1].node is Kern
                &&& vb.contents@[3].node is Kern
                &&& vb.contents@[2].node is Rule
                &&& vb.contents@[2].width == vb.contents@[0].width
                &&& vb.contents@[2].height == frac_bar_spec(config, frac.bar_thickness)
                &&& vb.contents@[1].height + vb.contents@[0].depth >= frac_gap_num_spec(config)
                &&& vb.contents@[3].height >= frac_gap_denom_spec(config)
                &&& vb.offset == vb.contents@[4].height + vb.contents@[3].height + tdiv(
                    vb.contents@[2].height as int,
                    2,
                ) - fu_px(config, config.font.constants.axis_height as int)
                &&& (vb.contents@[0].node matches LayoutVariant::HorizontalBox(hb0) ==> (
                vb.contents@[4].node matches LayoutVariant::HorizontalBox(hb4) ==> ({
                    let wn = crate::layout::sum_widths(hb0.contents@);
                    let wd = crate::layout::sum_widths(hb4.contents@);
                    &&& (wn > wd ==> (hb4.alignment matches Alignment::Centered(w) && w == wd
                        && hb0.alignment == Alignment::Default))
                    &&& (wn <= wd ==> (hb0.alignment matches Alignment::Centered(w) && w == wn
                        && hb4.alignment == Alignment::Default))
                })))
            }
        },
    decreases config.depth_budget, 1int,
{
    let bar: i64 = match frac.bar_thickness {
        BarThickness::Default => config.px_from_font(config.font.constants.fraction_rule_thickness),
        BarThickness::NoBar => 0,
        BarThickness::Unit(u) => u.scaled(config)?,
    };
    let mut n = layout(frac.numerator.as_slice(), config.descend()?.numerator())?;
    let mut d = layout(frac.denominator.as_slice(), config.descend()?.denominator())?;
    if n.width > d.width {
        d = d.centered(n.width);
    } else {
        n = n.centered(d.width);
    }
    let numer = n.as_node();
    let denom = d.as_node();
    let axis = config.px_from_font(config.font.constants.axis_height);
    let shift_up: i64;
    let shift_down: i64;
    let gap_num: i64;
    let gap_denom: i64;
    if config.style.is_display_level() {
        shift_up = config.px_from_font(
            config.font.constants.fraction_numerator_display_style_shift_up,
        );
        shift_down = config.px_from_font(
            config.font.constants.fraction_denominator_display_style_shift_down,
        );
        gap_num = config.px_from_font(config.font.constants.fraction_num_display_style_gap_min);
        gap_denom = config.px_from_font(config.font.constants.fraction_denom_display_style_gap_min);
    } else {
        shift_up = config.px_from_font(config.font.constants.fraction_numerator_shift_up);
        shift_down = config.px_from_font(config.font.constants.fraction_denominator_shift_down);
        gap_num = config.px_from_font(config.font.constants.fraction_numerator_gap_min);
        gap_denom = config.px_from_font(config.font.constants.fraction_denominator_gap_min);
    }
    let kerns = frac_kerns(shift_up, shift_down, axis, bar, gap_num, gap_denom, numer.depth, denom.height);
    let kern_num = kerns.0;
    let kern_den = kerns.1;
    let offset = kerns.2;
    let width = numer.width;
    let mut inner = builders::VBox::new();
    inner.add_node(numer);
    inner.add_node(kern_vertical(kern_num));
    inner.add_node(rule_node(width, bar));
    inner.add_node(kern_vertical(kern_den));
    inner.add_node(denom);
    inner.set_offset(offset);
    let inner_node = inner.build()?;
    result.add_node(kern_horizontal(config.font.constants.null_delimiter_space))?;
    result.add_node(inner_node)?;
    result.add_node(kern_horizontal(config.font.constants.null_delimiter_space))?;
    Ok(())
}

/// The font-unit size a radical glyph is requested at: the content's
/// total extent converted to font units, plus the style's minimum gap
/// and the extra ascender.
pub open spec fn radical_request_spec(config: LayoutSettings, content: LayoutNode) -> int {
    crate::layout::convert::to_font_spec(
        content.height - content.depth,
        config.font_size as int,
        config.font.constants.units_per_em as int,
    ) + (if config.style.level() == 3 {
        config.font.constants.radical_display_style_vertical_gap as int
    } else {
        config.font.constants.radical_vertical_gap as int
    }) + config.font.constants.radical_extra_ascender as int
}

/// Adds a radical: the content is laid out cramped; the radical glyph is
/// sized to cover the content plus the style's minimum gap and the extra
/// ascender, and shifted so its center aligns with the content's; the
/// bar is drawn over the content with a kern reproducing the ascender
/// spacing.
fn add_radical(result: &mut Layout, rad: &Radical, config: LayoutSettings) -> (r: Result<
    (),
    LayoutError,
>)
    requires
        config.wf(),
        old(result).wf(),
    ensures
        final(result).wf(),
        final(result).alignment == old(result).alignment,
        r is Ok ==> appends_only(old(result).contents@, final(result).contents@),
        r is Ok ==> {
            &&& final(result).contents@.len() == old(result).contents@.len() + 2
            &&& final(result).contents@.last().node matches LayoutVariant::VerticalBox(vb)
            &&& final(result).contents@.last().node matches LayoutVariant::VerticalBox(vb) ==> {
                &&& vb.contents@.len() == 4
                &&& vb.contents@[0].node is Kern
                &&& vb.contents@[0].height == fu_px(
                    config,
                    config.font.constants.radical_extra_ascender as int,
                ) - fu_px(config, config.font.constants.radical_rule_thickness as int)
                &&& vb.contents@[1].node is Rule
                &&& vb.contents@[1].height == fu_px(
                    config,
                    config.font.constants.radical_rule_thickness as int,
                )
                &&& vb.contents@[1].width == vb.contents@[3].width
                &&& vb.contents@[2].node is Kern
                &&& vb.contents@[3].node is HorizontalBox
            }
            &&& final(result).contents@[final(result).contents@.len() - 2].node
                matches LayoutVariant::VerticalBox(gb)
            &&& (final(result).contents@[final(result).contents@.len() - 2].node
                matches LayoutVariant::VerticalBox(gb) && final(result).contents@.last().node
                matches LayoutVariant::VerticalBox(vb)) ==> ({
                let sqrt_glyph = crate::font::find_glyph_by_unicode(config.font.glyphs@, 0x221A);
                let request = radical_request_spec(config, vb.contents@[3]);
                &&& gb.contents@.len() == 1
                &&& sqrt_glyph matches Some(sq) ==> (crate::font::choose_variant_spec(
                    crate::font::find_variants(config.font.vert_variants@, sq.gid),
                    sq.gid,
                    request,
                    crate::font::Direction::Vertical,
                ) matches crate::font::VariantGlyph::Replacement(rep_gid) ==> (
                crate::font::find_glyph_by_gid(config.font.glyphs@, rep_gid) matches Some(gl)
                    ==> crate::layout::convert::glyph_node_matches(gl, config, gb.contents@[0])))
            })
        },
    decreases config.depth_budget, 1int,
{
    let contents_layout = layout(rad.inner.as_slice(), config.descend()?.cramped())?;
    let contents = contents_layout.as_node();
    let sqrt = config.font.glyph_metrics(0x221A)?;
    let gap_fu: i64 = if config.style.is_display_level() {
        config.font.constants.radical_display_style_vertical_gap
    } else {
        config.font.constants.radical_vertical_gap
    };
    let size: i64 = config.to_font(contents.height - contents.depth) + gap_fu
        + config.font.constants.radical_extra_ascender;
    let gap = config.px_from_font(gap_fu);
    let rule_thickness = config.px_from_font(config.font.constants.radical_rule_thickness);
    let extra_ascender = config.px_from_font(config.font.constants.radical_extra_ascender);
    let variant = config.font.vert_variant(sqrt.gid, size);
    let glyph = variant.as_layout(config)?;
    let inner_center = half(gap + contents.height + contents.depth + rule_thickness);
    let sym_center = half(glyph.height + glyph.depth);
    let offset = sym_center - inner_center;
    let top_padding = extra_ascender - rule_thickness;
    let kerning = (glyph.height - offset) - extra_ascender - contents.height;
    let mut glyph_box = builders::VBox::new();
    glyph_box.add_node(glyph);
    glyph_box.set_offset(offset);
    let glyph_node = glyph_box.build()?;
    result.add_node(glyph_node)?;
    let mut body = builders::VBox::new();
    body.add_node(kern_vertical(top_padding));
    body.add_node(rule_node(contents.width, rule_thickness));
    body.add_node(kern_vertical(kerning));
    body.add_node(contents);
    let body_node = body.build()?;
    result.add_node(body_node)?;
    Ok(())
}

/// Adds an atom-type change: the inner nodes are laid out and embedded;
/// the changed type itself was already consumed by the spacing pass.
fn add_atom_change(result: &mut Layout, inner: &Vec<ParseNode>, config: LayoutSettings) -> (r:
    Result<(), LayoutError>)
    requires
        config.wf(),
        old(result).wf(),
    ensures
        final(result).wf(),
        final(result).alignment == old(result).alignment,
        r is Ok ==> appends_only(old(result).contents@, final(result).contents@),
        r is Ok ==> final(result).contents@.len() == old(result).contents@.len() + 1,
    decreases config.depth_budget, 1int,
{
    let l = layout(inner.as_slice(), config.descend()?)?;
    result.add_node(l.as_node())?;
    Ok(())
}

/// Adds an accent: the nucleus is laid out cramped, the accent's
/// horizontal variant is sized to the nucleus width, the two attachment
/// offsets are aligned by a horizontal kern, and the accent is dropped
/// by no more than the capped accent base height.  The assembled box
/// carries no offset, so the nucleus keeps its own baseline.
fn add_accent(result: &mut Layout, acc: &Accent, config: LayoutSettings) -> (r: Result<
    (),
    LayoutError,
>)
    requires
        config.wf(),
        old(result).wf(),
    ensures
        final(result).wf(),
        final(result).alignment == old(result).alignment,
        r is Ok ==> appends_only(old(result).contents@, final(result).contents@),
        r is Ok ==> {
            &&& final(result).contents@.len() == old(result).contents@.len() + 1
            &&& final(result).contents@.last().node matches LayoutVariant::VerticalBox(vb)
            &&& final(result).contents@.last().node matches LayoutVariant::VerticalBox(vb) ==> {
                &&& vb.contents@.len() == 3
                &&& vb.offset == 0
                &&& final(result).contents@.last().depth == vb.contents@[2].depth
                &&& vb.contents@[1].node is Kern
                &&& vb.contents@[1].height == -(if vb.contents@[2].height <= fu_px(
                    config,
                    config.font.constants.accent_base_height as int,
                ) {
                    vb.contents@[2].height as int
                } else {
                    fu_px(config, config.font.constants.accent_base_height as int)
                })
                &&& vb.contents@[0].node matches LayoutVariant::HorizontalBox(row)
                &&& vb.contents@[0].node matches LayoutVariant::HorizontalBox(row) ==> (
                row.contents@.len() == 2 && row.contents@[0].node is Kern)
            }
        },
    decreases config.depth_budget, 1int,
{
    let base = layout(acc.nucleus.as_slice(), config.descend()?.cramped())?;
    let accent_glyph = config.font.glyph_metrics(acc.symbol.codepoint as u32)?;
    let target_width = config.cramped().to_font_styled(base.width);
    let accent_variant = config.font.horz_variant(accent_glyph.gid, target_width);
    let accent = accent_variant.as_layout(config)?;
    let base_offset: i64 = match base.is_symbol() {
        Some(sym) => {
            let glyph = config.font.glyph_metrics(sym.unicode)?;
            if glyph.attachment != 0 {
                config.px_from_font(glyph.attachment)
            } else {
                let fu = half(glyph.advance + glyph.italics);
                config.px_from_font(fu)
            }
        },
        None => half(base.width),
    };
    let acc_offset: i64 = match &accent_variant {
        crate::font::VariantGlyph::Replacement(gid) => {
            let glyph = config.font.glyph_from_gid(*gid)?;
            if glyph.attachment != 0 {
                config.px_from_font(glyph.attachment)
            } else {
                let fu = half(glyph.bbox_xmax + glyph.bbox_xmin);
                config.px_from_font(fu)
            }
        },
        crate::font::VariantGlyph::Constructable(_, _) => half(accent.width),
    };
    let accent_base_height = config.px_from_font(config.font.constants.accent_base_height);
    let smaller = if base.height <= accent_base_height {
        base.height
    } else {
        accent_base_height
    };
    let delta = -smaller;
    let mut row = builders::HBox::new();
    row.add_node(kern_horizontal(base_offset - acc_offset));
    row.add_node(accent);
    let row_node = row.build()?;
    let mut stack = builders::VBox::new();
    stack.add_node(row_node);
    stack.add_node(kern_vertical(delta));
    stack.add_node(base.as_node());
    let node = stack.build()?;
    result.add_node(node)?;
    Ok(())
}

/// Adds a base with scripts.  An operator with limits takes the stacked
/// path; otherwise the superscript is raised and the subscript lowered
/// by adjustments grown from the style defaults, symbol bases receive
/// italic and table kerning, and when both scripts are present the
/// minimum gap between them is enforced.
fn add_scripts(result: &mut Layout, scripts: &Scripts, config: LayoutSettings) -> (r: Result<
    (),
    LayoutError,
>)
    requires
        config.wf(),
        old(result).wf(),
    ensures
        final(result).wf(),
        final(result).alignment == old(result).alignment,
        r is Ok ==> appends_only(old(result).contents@, final(result).contents@),
        r is Ok ==> (final(result).contents@.len() == old(result).contents@.len() + 1
            || final(result).contents@.len() == old(result).contents@.len() + 2),
        r is Ok ==> (final(result).contents@.last().node matches LayoutVariant::VerticalBox(vb)
            ==> (vb.contents@.len() == 3 ==> vb.contents@[1].height + vb.contents@[0].depth >= (
        if fu_px(config, config.font.constants.sub_superscript_gap_min as int) >= 0 {
            fu_px(config, config.font.constants.sub_superscript_gap_min as int)
        } else {
            0
        }))),
    decreases config.depth_budget, 1int,
{
    let base: Layout = match &scripts.base {
        Some(b) => layout_single(b, config.descend()?)?,
        None => Layout::new(),
    };
    let mut sup: Layout = match &scripts.superscript {
        Some(b) => layout(b.as_slice(), config.descend()?.superscript_variant())?,
        None => Layout::new(),
    };
    let mut sub: Layout = match &scripts.subscript {
        Some(b) => layout(b.as_slice(), config.descend()?.subscript_variant())?,
        None => Layout::new(),
    };
    match &scripts.base {
        Some(b) => {
            if b.atom_type() == AtomType::Operator(true) {
                return add_operator_limits(result, base, sup, sub, config);
            }
        },
        None => {},
    }
    let mut adjust_up: i64 = 0;
    let mut adjust_down: i64 = 0;
    let mut sup_kern: i64 = 0;
    let mut sub_kern: i64 = 0;
    if scripts.superscript.is_some() {
        adjust_up = if config.style.is_cramped() {
            config.px_from_font(config.font.constants.superscript_shift_up_cramped)
        } else {
            config.px_from_font(config.font.constants.superscript_shift_up)
        };
        let mut height: i64 = base.height;
        match &scripts.base {
            Some(b) => {
                let mut handled = false;
                match &**b {
                    ParseNode::Accent(acc) => {
                        match crate::parser::nodes::is_symbol(acc.nucleus.as_slice()) {
                            Some(sym) => {
                                let glyph = config.font.glyph_metrics(sym.codepoint as u32)?;
                                height = config.px_from_font(glyph.height);
                                handled = true;
                            },
                            None => {},
                        }
                    },
                    _ => {},
                }
                if !handled {
                    match base.is_symbol() {
                        Some(base_sym) => {
                            let italics = checked_dim(base_sym.italics)?;
                            if matches!(b.atom_type(), AtomType::Operator(_)) {
                                sub_kern = -italics;
                            } else {
                                match sup.is_symbol() {
                                    Some(sup_sym) => {
                                        let bg = config.font.glyph_metrics(base_sym.unicode)?;
                                        let sg = config.font.glyph_metrics(sup_sym.unicode)?;
                                        let shift_fu = config.to_font(adjust_up);
                                        let kern_fu = config.font.superscript_kern(
                                            bg.gid,
                                            sg.gid,
                                            shift_fu,
                                        );
                                        let kern = config.px_from_font(kern_fu);
                                        sup_kern = italics + kern;
                                    },
                                    None => {
                                        sup_kern = italics;
                                    },
                                }
                            }
                        },
                        None => {},
                    }
                }
            },
            None => {},
        }
        let drop_max = config.px_from_font(config.font.constants.superscript_baseline_drop_max);
        let bottom_min = config.px_from_font(config.font.constants.superscript_bottom_min);
        adjust_up = max_i64(adjust_up, max_i64(height - drop_max, bottom_min - sup.depth));
    }
    if scripts.subscript.is_some() {
        adjust_down = config.px_from_font(config.font.constants.subscript_shift_down);
        let depth: i64 = -base.depth;
        let drop_min = config.px_from_font(config.font.constants.subscript_baseline_drop_min);
        let top_max = config.px_from_font(config.font.constants.subscript_top_max);
        adjust_down = max_i64(adjust_down, max_i64(sub.height - top_max, drop_min + depth));
        if scripts.base.is_some() {
            match (sub.is_symbol(), base.is_symbol()) {
                (Some(ssym), Some(bsym)) => {
                    let bg = config.font.glyph_metrics(bsym.unicode)?;
                    let sg = config.font.glyph_metrics(ssym.unicode)?;
                    let shift_fu = config.to_font(adjust_down);
                    let kern_fu = config.font.subscript_kern(bg.gid, sg.gid, shift_fu);
                    let kern = config.px_from_font(kern_fu);
                    sub_kern = sub_kern + kern;
                },
                _ => {},
            }
        }
    }
    if sub.contents.len() > 0 && sup.contents.len() > 0 {
        let gap_min = config.px_from_font(config.font.constants.sub_superscript_gap_min);
        let gap_min_pos = if gap_min >= 0 {
            gap_min
        } else {
            0
        };
        let adjusted = enforce_script_gap(adjust_up, adjust_down, sup.depth, sub.height, gap_min_pos);
        adjust_up = adjusted.0;
        adjust_down = adjusted.1;
    }
    let mut contents = builders::VBox::new();
    if sup.contents.len() > 0 {
        if sup_kern != 0 {
            sup.prepend_kern(sup_kern)?;
        }
        let corrected_adjust = adjust_up - sub.height + adjust_down;
        contents.add_node(sup.as_node());
        contents.add_node(kern_vertical(corrected_adjust));
    }
    contents.set_offset(adjust_down);
    if sub.contents.len() > 0 {
        if sub_kern != 0 {
            sub.prepend_kern(sub_kern)?;
        }
        contents.add_node(sub.as_node());
    }
    result.add_node(base.as_node())?;
    let script_box = contents.build()?;
    result.add_node(script_box)?;
    Ok(())
}

/// Stacks the scripts of an operator with limits: superscript, base and
/// subscript are centered to the widest of the three, the limits are
/// separated from the base by their minimum rises and gaps, and the
/// box's offset restores the base's baseline.
fn add_operator_limits(
    result: &mut Layout,
    base: Layout,
    sup: Layout,
    sub: Layout,
    config: LayoutSettings,
) -> (r: Result<(), LayoutError>)
    requires
        config.wf(),
        old(result).wf(),
        base.wf(),
        sup.wf(),
        sub.wf(),
    ensures
        final(result).wf(),
        final(result).alignment == old(result).alignment,
        r is Ok ==> appends_only(old(result).contents@, final(result).contents@),
        r is Ok ==> final(result).contents@.len() == old(result).contents@.len() + 1,
        r is Ok ==> final(result).contents@.last().node is VerticalBox,
        r is Ok ==> (final(result).contents@.last().node matches LayoutVariant::VerticalBox(vb)
            ==> {
            &&& vb.contents@.len() == 5
            &&& vb.contents@[0].node is HorizontalBox
            &&& vb.contents@[1].node is Kern
            &&& vb.contents@[2].node is HorizontalBox
            &&& vb.contents@[3].node is Kern
            &&& vb.contents@[4].node is HorizontalBox
            &&& vb.contents@[1].height >= fu_px(
                config,
                config.font.constants.upper_limit_baseline_rise_min as int,
            )
            &&& vb.contents@[3].height >= fu_px(
                config,
                config.font.constants.lower_limit_gap_min as int,
            ) - vb.contents@[2].depth
            &&& vb.offset == vb.contents@[4].height + vb.contents@[3].height
        }),
{
    let delta: i64 = match base.is_symbol() {
        Some(gly) => checked_dim(gly.italics)?,
        None => 0,
    };
    let half_delta = half(delta);
    let rise_min = config.px_from_font(config.font.constants.upper_limit_baseline_rise_min);
    let upper_gap_min = config.px_from_font(config.font.constants.upper_limit_gap_min);
    let sup_kern = max_i64(rise_min, upper_gap_min - sup.depth);
    let drop_min = config.px_from_font(config.font.constants.lower_limit_baseline_drop_min);
    let lower_gap_min = config.px_from_font(config.font.constants.lower_limit_gap_min);
    let sub_kern = max_i64(drop_min - sub.height - base.depth, lower_gap_min - base.depth);
    let offset = sub.height + sub_kern;
    let width = max_i64(base.width, max_i64(sub.width + half_delta, sup.width + half_delta));
    if width > NODE_DIM_MAX {
        return Err(LayoutError::DimensionTooLarge);
    }
    let sup_width = sup.width;
    let sub_width = sub.width;
    let mut top = builders::HBox::new();
    top.add_node(kern_horizontal(half_delta));
    top.add_node(sup.as_node());
    top.set_alignment(Alignment::Centered(sup_width));
    top.set_width(width);
    let top_node = top.build()?;
    let mut bottom = builders::HBox::new();
    bottom.add_node(kern_horizontal(-half_delta));
    bottom.add_node(sub.as_node());
    bottom.set_alignment(Alignment::Centered(sub_width));
    bottom.set_width(width);
    let bottom_node = bottom.build()?;
    let base_node = base.centered(width).as_node();
    let mut stack = builders::VBox::new();
    stack.add_node(top_node);
    stack.add_node(kern_vertical(sup_kern));
    stack.add_node(base_node);
    stack.add_node(kern_vertical(sub_kern));
    stack.add_node(bottom_node);
    stack.set_offset(offset);
    let node = stack.build()?;
    result.add_node(node)?;
    Ok(())
}


} // verus!
