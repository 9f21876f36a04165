//! Nodes of the parsed formula tree, the input of the layout engine.

use vstd::prelude::*;

use crate::dimensions::AnyUnit;
use crate::layout::Style;
use crate::parser::color::RGBA;
use crate::parser::symbols::AtomType;
use crate::parser::symbols::Symbol;

verus! {

/// One node of the formula tree.
#[derive(Debug)]
pub enum ParseNode {
    /// A simple symbol like 'x'.
    Symbol(Symbol),
    /// A group of nodes enclosed by a matched pair of delimiters.
    Delimited(Delimited),
    /// A group of nodes under a square-root radical.
    Radical(Radical),
    /// A fraction with numerator and denominator node sequences.
    GenFraction(GenFraction),
    /// A node with a superscript, a subscript, or both.
    Scripts(Scripts),
    /// A uniformly filled rectangle.
    Rule(Rule),
    /// Positive or negative spacing between groups of nodes.
    Kerning(AnyUnit),
    /// An accent over a group of nodes.
    Accent(Accent),
    /// A style to apply to the following siblings.
    Style(Style),
    /// A span of plain text.
    PlainText(PlainText),
    /// A change in the atom type of the enclosed nodes.
    AtomChange(AtomChange),
    /// A change in color of the enclosed nodes.
    Color(Color),
    /// A braced group of nodes.
    Group(Vec<ParseNode>),
    /// Lines stacked on top of each other with no alignment.
    Stack(Stack),
    /// An array of formulas with per-column alignment.
    Array(Array),
}

/// A sequence of nodes standing together: one array cell, one stacked
/// line, or one delimited group.
#[derive(Debug)]
pub struct NodeList {
    /// The nodes of the sequence.
    pub nodes: Vec<ParseNode>,
}

/// Column formatting of an array: per-column alignment together with the
/// number of vertical bars drawn before the first column.
#[derive(Debug, Clone, PartialEq, Eq)]
pub struct ArrayColumnsFormatting {
    /// The formatting of each column.
    pub columns: Vec<ArraySingleColumnFormatting>,
    /// The number of vertical bars before the first column.
    pub n_vertical_bars_before: u8,
}

impl ArrayColumnsFormatting {
    /// Centered formatting for the given number of columns, with no
    /// vertical bars anywhere.
    pub fn default_for(n_cols: usize) -> (r: ArrayColumnsFormatting)
        ensures
            r.columns@.len() == n_cols,
            forall|i: int|
                0 <= i < n_cols ==> r.columns@[i] == (ArraySingleColumnFormatting {
                    alignment: ArrayColumnAlign::Centered,
                    n_vertical_bars_after: 0u8,
                }),
            r.n_vertical_bars_before == 0,
    {
        let mut columns: Vec<ArraySingleColumnFormatting> = Vec::new();
        let mut i: usize = 0;
        while i < n_cols
            invariant
                i <= n_cols,
                columns@.len() == i,
                forall|j: int|
                    0 <= j < i ==> columns@[j] == (ArraySingleColumnFormatting {
                        alignment: ArrayColumnAlign::Centered,
                        n_vertical_bars_after: 0u8,
                    }),
            decreases n_cols - i,
        {
            columns.push(ArraySingleColumnFormatting {
                alignment: ArrayColumnAlign::Centered,
                n_vertical_bars_after: 0,
            });
            i = i + 1;
        }
        ArrayColumnsFormatting { columns, n_vertical_bars_before: 0 }
    }
}

/// Formatting of a single array column: its alignment and the number of
/// vertical bars drawn after it.
#[derive(Debug, Clone, Copy, PartialEq, Eq, Structural)]
pub struct ArraySingleColumnFormatting {
    /// The alignment of the column.
    pub alignment: ArrayColumnAlign,
    /// The number of vertical bars after the column.
    pub n_vertical_bars_after: u8,
}

/// Horizontal alignment of an array column.
#[derive(Debug, Clone, Copy, PartialEq, Eq, Structural)]
pub enum ArrayColumnAlign {
    /// The column is centered.
    Centered,
    /// The column is left aligned.
    Left,
    /// The column is right aligned.
    Right,
}

impl Default for ArrayColumnAlign {
    /// Columns are centered unless asked otherwise.
    fn default() -> (r: ArrayColumnAlign)
        ensures
            r == ArrayColumnAlign::Centered,
    {
        ArrayColumnAlign::Centered
    }
}

/// One row of an array: a sequence of cells.
#[derive(Debug)]
pub struct ArrayRow {
    /// The cells of the row, left to right.
    pub cells: Vec<NodeList>,
}

/// An array of formulas, as created by an array or matrix environment.
#[derive(Debug)]
pub struct Array {
    /// The per-column formatting.
    pub col_format: ArrayColumnsFormatting,
    /// The rows; each row is a sequence of cells.
    pub rows: Vec<ArrayRow>,
    /// The left delimiter, if any.
    pub left_delimiter: Option<Symbol>,
    /// The right delimiter, if any.
    pub right_delimiter: Option<Symbol>,
}

/// Lines of formulas stacked on top of each other.
#[derive(Debug)]
pub struct Stack {
    /// The atom type of the resulting stack.
    pub atom_type: AtomType,
    /// The stacked lines, top first.
    pub lines: Vec<NodeList>,
}

/// A group of nodes enclosed by delimiters, with optional middle bars.
#[derive(Debug)]
pub struct Delimited {
    /// The delimiter symbols, in the order they appear.
    pub delimiters: Vec<Symbol>,
    /// The delimited node sequences, in the order they appear.
    pub inners: Vec<NodeList>,
}

impl Delimited {
    /// Packs delimiter symbols and the delimited groups.
    pub fn new(delimiters: Vec<Symbol>, inners: Vec<NodeList>) -> (r: Delimited)
        ensures
            r.delimiters@ == delimiters@,
            r.inners@ == inners@,
    {
        Delimited { delimiters, inners }
    }

    /// The delimiter symbols, in the order they appear.
    pub fn delimiters(&self) -> (r: &Vec<Symbol>)
        ensures
            r@ == self.delimiters@,
    {
        &self.delimiters
    }

    /// The delimited node sequences, in the order they appear.
    pub fn inners(&self) -> (r: &Vec<NodeList>)
        ensures
            r@ == self.inners@,
    {
        &self.inners
    }

    /// The delimiter symbols, at the specification level.
    pub open spec fn delimiters_spec(self) -> Seq<Symbol> {
        self.delimiters@
    }

    /// The delimited node sequences, at the specification level.
    pub open spec fn inners_spec(self) -> Seq<NodeList> {
        self.inners@
    }
}

/// A node carrying superscript and subscript material for a base.
#[derive(Debug)]
pub struct Scripts {
    /// The base the scripts attach to.
    pub base: Option<Box<ParseNode>>,
    /// The superscript material.
    pub superscript: Option<Vec<ParseNode>>,
    /// The subscript material.
    pub subscript: Option<Vec<ParseNode>>,
}

impl Scripts {
    /// The superscript when asked with true, the subscript otherwise.
    pub fn get_script(&self, superscript: bool) -> (r: &Option<Vec<ParseNode>>)
        ensures
            superscript ==> r == &self.superscript,
            !superscript ==> r == &self.subscript,
    {
        if superscript {
            &self.superscript
        } else {
            &self.subscript
        }
    }
}

/// A change in the atom type of the enclosed nodes.
#[derive(Debug)]
pub struct AtomChange {
    /// The new atom type.
    pub at: AtomType,
    /// The enclosed nodes.
    pub inner: Vec<ParseNode>,
}

/// A span of plain text.
#[derive(Debug)]
pub struct PlainText {
    /// The text to render.
    pub text: String,
}

/// An accent over a group of nodes.
#[derive(Debug)]
pub struct Accent {
    /// The accent placed on top.
    pub symbol: Symbol,
    /// The nodes below the accent.
    pub nucleus: Vec<ParseNode>,
}

/// A filled rectangle of the given width and height, with no depth.
#[derive(Debug, Clone, Copy, PartialEq, Eq, Structural)]
pub struct Rule {
    /// Width of the rule.
    pub width: AnyUnit,
    /// Height of the rule.
    pub height: AnyUnit,
}

/// A group of nodes under a square-root radical.
#[derive(Debug)]
pub struct Radical {
    /// The nodes the radical covers.
    pub inner: Vec<ParseNode>,
}

/// A generalized fraction: numerator over denominator, with an optional
/// bar and optional flanking delimiters.
#[derive(Debug)]
pub struct GenFraction {
    /// The numerator nodes.
    pub numerator: Vec<ParseNode>,
    /// The denominator nodes.
    pub denominator: Vec<ParseNode>,
    /// Thickness of the fraction bar.
    pub bar_thickness: BarThickness,
    /// The symbol opening the fraction, if any.
    pub left_delimiter: Option<Symbol>,
    /// The symbol closing the fraction, if any.
    pub right_delimiter: Option<Symbol>,
    /// The style forced on the whole fraction.
    pub style: MathStyle,
}

/// A color applied to a group of nodes.
#[derive(Debug)]
pub struct Color {
    /// The color of the enclosed nodes.
    pub color: RGBA,
    /// The enclosed nodes.
    pub inner: Vec<ParseNode>,
}

/// Thickness of a fraction or binomial bar.
#[derive(Debug, Clone, Copy, PartialEq, Eq, Structural)]
pub enum BarThickness {
    /// The font's default fraction-rule thickness.
    Default,
    /// No bar at all.
    NoBar,
    /// An explicit thickness.
    Unit(AnyUnit),
}

/// Style forced on a fraction by the command that produced it.
#[derive(Debug, Clone, Copy, PartialEq, Eq, Structural)]
pub enum MathStyle {
    /// Set the fraction in display style.
    Display,
    /// Set the fraction in text style.
    Text,
    /// Keep the style inherited from the context.
    NoChange,
}

impl ParseNode {
    /// The single symbol a node stands for: a bare symbol, or a node whose
    /// only material is one symbol (the base of scripts, the nucleus of an
    /// accent, the contents of an atom change or color region).
    pub open spec fn is_symbol_spec(self) -> Option<Symbol>
        decreases self,
    {
        match self {
            ParseNode::Symbol(sym) => Some(sym),
            ParseNode::Scripts(scr) => match scr.base {
                Some(b) => b.is_symbol_spec(),
                None => None,
            },
            ParseNode::Accent(acc) => {
                if acc.nucleus@.len() == 1 {
                    acc.nucleus@[0].is_symbol_spec()
                } else {
                    None
                }
            },
            ParseNode::AtomChange(ac) => {
                if ac.inner@.len() == 1 {
                    ac.inner@[0].is_symbol_spec()
                } else {
                    None
                }
            },
            ParseNode::Color(clr) => {
                if clr.inner@.len() == 1 {
                    clr.inner@[0].is_symbol_spec()
                } else {
                    None
                }
            },
            _ => None,
        }
    }

    /// If the node stands for a single symbol, that symbol.
    pub fn is_symbol(&self) -> (r: Option<Symbol>)
        ensures
            r == self.is_symbol_spec(),
        decreases *self,
    {
        match self {
            ParseNode::Symbol(sym) => Some(*sym),
            ParseNode::Scripts(scr) => match &scr.base {
                Some(b) => b.is_symbol(),
                None => None,
            },
            ParseNode::Accent(acc) => {
                if acc.nucleus.len() == 1 {
                    acc.nucleus[0].is_symbol()
                } else {
                    None
                }
            },
            ParseNode::AtomChange(ac) => {
                if ac.inner.len() == 1 {
                    ac.inner[0].is_symbol()
                } else {
                    None
                }
            },
            ParseNode::Color(clr) => {
                if clr.inner.len() == 1 {
                    clr.inner[0].is_symbol()
                } else {
                    None
                }
            },
            _ => None,
        }
    }

    /// The atom type of the node, at the specification level.
    pub open spec fn atom_type_spec(self) -> AtomType
        decreases self,
    {
        match self {
            ParseNode::Symbol(sym) => sym.atom_type,
            ParseNode::Delimited(_) => AtomType::Inner,
            ParseNode::Radical(_) => AtomType::Alpha,
            ParseNode::PlainText(_) => AtomType::Alpha,
            ParseNode::GenFraction(_) => AtomType::Inner,
            ParseNode::Group(_) => AtomType::Alpha,
            ParseNode::Scripts(scr) => match scr.base {
                Some(b) => b.atom_type_spec(),
                None => AtomType::Alpha,
            },
            ParseNode::Rule(_) => AtomType::Alpha,
            ParseNode::Kerning(_) => AtomType::Transparent,
            ParseNode::Accent(acc) => {
                if acc.nucleus@.len() > 0 {
                    acc.nucleus@[0].atom_type_spec()
                } else {
                    AtomType::Alpha
                }
            },
            ParseNode::Style(_) => AtomType::Transparent,
            ParseNode::AtomChange(ac) => ac.at,
            ParseNode::Color(clr) => {
                if clr.inner@.len() > 0 {
                    clr.inner@[0].atom_type_spec()
                } else {
                    AtomType::Alpha
                }
            },
            ParseNode::Array(_) => AtomType::Inner,
            ParseNode::Stack(s) => s.atom_type,
        }
    }

    /// The atom type the spacing pass sees for this node.
    pub fn atom_type(&self) -> (r: AtomType)
        ensures
            r == self.atom_type_spec(),
        decreases *self,
    {
        match self {
            ParseNode::Symbol(sym) => sym.atom_type,
            ParseNode::Delimited(_) => AtomType::Inner,
            ParseNode::Radical(_) => AtomType::Alpha,
            ParseNode::PlainText(_) => AtomType::Alpha,
            ParseNode::GenFraction(_) => AtomType::Inner,
            ParseNode::Group(_) => AtomType::Alpha,
            ParseNode::Scripts(scr) => match &scr.base {
                Some(b) => b.atom_type(),
                None => AtomType::Alpha,
            },
            ParseNode::Rule(_) => AtomType::Alpha,
            ParseNode::Kerning(_) => AtomType::Transparent,
            ParseNode::Accent(acc) => {
                if acc.nucleus.len() > 0 {
                    acc.nucleus[0].atom_type()
                } else {
                    AtomType::Alpha
                }
            },
            ParseNode::Style(_) => AtomType::Transparent,
            ParseNode::AtomChange(ac) => ac.at,
            ParseNode::Color(clr) => {
                if clr.inner.len() > 0 {
                    clr.inner[0].atom_type()
                } else {
                    AtomType::Alpha
                }
            },
            ParseNode::Array(_) => AtomType::Inner,
            ParseNode::Stack(s) => s.atom_type,
        }
    }

    /// The node after its atom type is set to the given type, at the
    /// specification level.  Only symbols, script bases, atom changes and
    /// stacks carry a settable type; any other node is left unchanged.
    pub open spec fn with_atom_type_spec(self, at: AtomType) -> ParseNode
        decreases self,
    {
        match self {
            ParseNode::Symbol(sym) => ParseNode::Symbol(
                Symbol { codepoint: sym.codepoint, atom_type: at },
            ),
            ParseNode::Scripts(scr) => ParseNode::Scripts(
                Scripts {
                    base: match scr.base {
                        Some(b) => Some(Box::new(b.with_atom_type_spec(at))),
                        None => None,
                    },
                    superscript: scr.superscript,
                    subscript: scr.subscript,
                },
            ),
            ParseNode::AtomChange(ac) => ParseNode::AtomChange(
                AtomChange { at, inner: ac.inner },
            ),
            ParseNode::Stack(s) => ParseNode::Stack(Stack { atom_type: at, lines: s.lines }),
            _ => self,
        }
    }

    /// Sets the atom type of the node, where the node carries one.
    pub fn set_atom_type(&mut self, at: AtomType)
        ensures
            *final(self) == old(self).with_atom_type_spec(at),
        decreases *old(self),
    {
        match self {
            ParseNode::Symbol(sym) => {
                sym.atom_type = at;
            },
            ParseNode::Scripts(scr) => {
                match &mut scr.base {
                    Some(b) => {
                        b.set_atom_type(at);
                    },
                    None => {},
                }
            },
            ParseNode::AtomChange(ac) => {
                ac.at = at;
            },
            ParseNode::Stack(s) => {
                s.atom_type = at;
            },
            _ => {},
        }
    }
}

/// The single symbol a node sequence stands for, at the specification
/// level: the sequence must hold exactly one node, and that node must
/// stand for a symbol.
pub open spec fn seq_is_symbol_spec(contents: Seq<ParseNode>) -> Option<Symbol> {
    if contents.len() == 1 {
        contents[0].is_symbol_spec()
    } else {
        None
    }
}

/// If the sequence holds exactly one node standing for a symbol, that
/// symbol; otherwise nothing.
pub fn is_symbol(contents: &[ParseNode]) -> (r: Option<Symbol>)
    ensures
        r == seq_is_symbol_spec(contents@),
{
    if contents.len() != 1 {
        return None;
    }
    contents[0].is_symbol()
}

} // verus!
