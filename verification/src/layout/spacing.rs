//! The canonical atom-pair spacing table.
//!
//! Between two adjacent atoms the engine inserts nothing, a thin space
//! (3/18 em), a medium space (4/18 em) or a thick space (5/18 em),
//! depending on the two atom types.  In script and script-script styles
//! all inter-atom spacing collapses to nothing.

use vstd::prelude::*;

use crate::dimensions::AnyUnit;
use crate::layout::Style;
use crate::parser::symbols::AtomType;

verus! {

/// The amount of space between two adjacent atoms.
#[derive(Debug, Clone, Copy, PartialEq, Eq, Structural)]
pub enum Spacing {
    /// No space.
    Zero,
    /// A thin space of 3/18 em.
    Thin,
    /// A medium space of 4/18 em.
    Medium,
    /// A thick space of 5/18 em.
    Thick,
}

impl Spacing {
    /// The width of the space as an em length: 0, 3/18, 4/18 or 5/18 em.
    pub fn to_unit(self) -> (r: AnyUnit)
        ensures
            r == self.to_unit_spec(),
    {
        match self {
            Spacing::Zero => AnyUnit::Em(0),
            Spacing::Thin => AnyUnit::Em(192),
            Spacing::Medium => AnyUnit::Em(256),
            Spacing::Thick => AnyUnit::Em(320),
        }
    }

    /// The width of the space, in em subunits of 1/1152 em.
    pub open spec fn to_unit_spec(self) -> AnyUnit {
        match self {
            Spacing::Zero => AnyUnit::Em(0),
            Spacing::Thin => AnyUnit::Em(192),
            Spacing::Medium => AnyUnit::Em(256),
            Spacing::Thick => AnyUnit::Em(320),
        }
    }
}

/// The spacing class an atom type falls in for the table; fences,
/// accents and transparent atoms take part in no spacing.
pub open spec fn spacing_class(at: AtomType) -> Option<AtomType> {
    match at {
        AtomType::Alpha | AtomType::Ordinary => Some(AtomType::Alpha),
        AtomType::Operator(_) => Some(AtomType::Operator(false)),
        AtomType::Binary => Some(AtomType::Binary),
        AtomType::Relation => Some(AtomType::Relation),
        AtomType::Open => Some(AtomType::Open),
        AtomType::Close => Some(AtomType::Close),
        AtomType::Punctuation => Some(AtomType::Punctuation),
        AtomType::Inner => Some(AtomType::Inner),
        _ => None,
    }
}

/// The table entry for a pair of spacing classes, before the style is
/// taken into account.
pub open spec fn pair_spacing(left: AtomType, right: AtomType) -> Spacing {
    match (left, right) {
        (AtomType::Alpha, AtomType::Operator(_)) => Spacing::Thin,
        (AtomType::Alpha, AtomType::Binary) => Spacing::Medium,
        (AtomType::Alpha, AtomType::Relation) => Spacing::Thick,
        (AtomType::Alpha, AtomType::Inner) => Spacing::Thin,
        (AtomType::Operator(_), AtomType::Alpha) => Spacing::Thin,
        (AtomType::Operator(_), AtomType::Operator(_)) => Spacing::Thin,
        (AtomType::Operator(_), AtomType::Relation) => Spacing::Thick,
        (AtomType::Operator(_), AtomType::Inner) => Spacing::Thin,
        (AtomType::Binary, AtomType::Alpha) => Spacing::Medium,
        (AtomType::Binary, AtomType::Operator(_)) => Spacing::Medium,
        (AtomType::Binary, AtomType::Open) => Spacing::Medium,
        (AtomType::Binary, AtomType::Inner) => Spacing::Medium,
        (AtomType::Relation, AtomType::Alpha) => Spacing::Thick,
        (AtomType::Relation, AtomType::Operator(_)) => Spacing::Thick,
        (AtomType::Relation, AtomType::Relation) => Spacing::Thick,
        (AtomType::Relation, AtomType::Open) => Spacing::Thick,
        (AtomType::Relation, AtomType::Inner) => Spacing::Thick,
        (AtomType::Close, AtomType::Operator(_)) => Spacing::Thin,
        (AtomType::Close, AtomType::Binary) => Spacing::Medium,
        (AtomType::Close, AtomType::Relation) => Spacing::Thick,
        (AtomType::Close, AtomType::Inner) => Spacing::Thin,
        (AtomType::Punctuation, AtomType::Alpha) => Spacing::Thin,
        (AtomType::Punctuation, AtomType::Operator(_)) => Spacing::Thin,
        (AtomType::Punctuation, AtomType::Relation) => Spacing::Thin,
        (AtomType::Punctuation, AtomType::Open) => Spacing::Thin,
        (AtomType::Punctuation, AtomType::Close) => Spacing::Thin,
        (AtomType::Punctuation, AtomType::Punctuation) => Spacing::Thin,
        (AtomType::Punctuation, AtomType::Inner) => Spacing::Thin,
        (AtomType::Inner, AtomType::Alpha) => Spacing::Thin,
        (AtomType::Inner, AtomType::Operator(_)) => Spacing::Thin,
        (AtomType::Inner, AtomType::Binary) => Spacing::Medium,
        (AtomType::Inner, AtomType::Relation) => Spacing::Thick,
        (AtomType::Inner, AtomType::Open) => Spacing::Thin,
        (AtomType::Inner, AtomType::Punctuation) => Spacing::Thin,
        (AtomType::Inner, AtomType::Inner) => Spacing::Thin,
        _ => Spacing::Zero,
    }
}

/// The spacing inserted between two adjacent atoms in a style: the table
/// entry for the two spacing classes, or nothing in the script styles,
/// where all inter-atom spacing collapses.
pub open spec fn atom_spacing_spec(left: AtomType, right: AtomType, style: Style) -> Spacing {
    if style.level() <= 1 {
        Spacing::Zero
    } else {
        match (spacing_class(left), spacing_class(right)) {
            (Some(l), Some(r)) => pair_spacing(l, r),
            _ => Spacing::Zero,
        }
    }
}

/// Looks up the spacing between two adjacent atoms in a style.
pub fn atom_spacing(left: AtomType, right: AtomType, style: Style) -> (r: Spacing)
    ensures
        r == atom_spacing_spec(left, right, style),
{
    if style.level_at_least_text() {
        let l = spacing_class_exec(left);
        let rt = spacing_class_exec(right);
        match (l, rt) {
            (Some(lc), Some(rc)) => pair_spacing_exec(lc, rc),
            _ => Spacing::Zero,
        }
    } else {
        Spacing::Zero
    }
}

/// The executable spacing class of an atom type.
fn spacing_class_exec(at: AtomType) -> (r: Option<AtomType>)
    ensures
        r == spacing_class(at),
{
    match at {
        AtomType::Alpha | AtomType::Ordinary => Some(AtomType::Alpha),
        AtomType::Operator(_) => Some(AtomType::Operator(false)),
        AtomType::Binary => Some(AtomType::Binary),
        AtomType::Relation => Some(AtomType::Relation),
        AtomType::Open => Some(AtomType::Open),
        AtomType::Close => Some(AtomType::Close),
        AtomType::Punctuation => Some(AtomType::Punctuation),
        AtomType::Inner => Some(AtomType::Inner),
        _ => None,
    }
}

/// The executable table entry for a pair of spacing classes.
fn pair_spacing_exec(left: AtomType, right: AtomType) -> (r: Spacing)
    ensures
        r == pair_spacing(left, right),
{
    match (left, right) {
        (AtomType::Alpha, AtomType::Operator(_)) => Spacing::Thin,
        (AtomType::Alpha, AtomType::Binary) => Spacing::Medium,
        (AtomType::Alpha, AtomType::Relation) => Spacing::Thick,
        (AtomType::Alpha, AtomType::Inner) => Spacing::Thin,
        (AtomType::Operator(_), AtomType::Alpha) => Spacing::Thin,
        (AtomType::Operator(_), AtomType::Operator(_)) => Spacing::Thin,
        (AtomType::Operator(_), AtomType::Relation) => Spacing::Thick,
        (AtomType::Operator(_), AtomType::Inner) => Spacing::Thin,
        (AtomType::Binary, AtomType::Alpha) => Spacing::Medium,
        (AtomType::Binary, AtomType::Operator(_)) => Spacing::Medium,
        (AtomType::Binary, AtomType::Open) => Spacing::Medium,
        (AtomType::Binary, AtomType::Inner) => Spacing::Medium,
        (AtomType::Relation, AtomType::Alpha) => Spacing::Thick,
        (AtomType::Relation, AtomType::Operator(_)) => Spacing::Thick,
        (AtomType::Relation, AtomType::Relation) => Spacing::Thick,
        (AtomType::Relation, AtomType::Open) => Spacing::Thick,
        (AtomType::Relation, AtomType::Inner) => Spacing::Thick,
        (AtomType::Close, AtomType::Operator(_)) => Spacing::Thin,
        (AtomType::Close, AtomType::Binary) => Spacing::Medium,
        (AtomType::Close, AtomType::Relation) => Spacing::Thick,
        (AtomType::Close, AtomType::Inner) => Spacing::Thin,
        (AtomType::Punctuation, AtomType::Alpha) => Spacing::Thin,
        (AtomType::Punctuation, AtomType::Operator(_)) => Spacing::Thin,
        (AtomType::Punctuation, AtomType::Relation) => Spacing::Thin,
        (AtomType::Punctuation, AtomType::Open) => Spacing::Thin,
        (AtomType::Punctuation, AtomType::Close) => Spacing::Thin,
        (AtomType::Punctuation, AtomType::Punctuation) => Spacing::Thin,
        (AtomType::Punctuation, AtomType::Inner) => Spacing::Thin,
        (AtomType::Inner, AtomType::Alpha) => Spacing::Thin,
        (AtomType::Inner, AtomType::Operator(_)) => Spacing::Thin,
        (AtomType::Inner, AtomType::Binary) => Spacing::Medium,
        (AtomType::Inner, AtomType::Relation) => Spacing::Thick,
        (AtomType::Inner, AtomType::Open) => Spacing::Thin,
        (AtomType::Inner, AtomType::Punctuation) => Spacing::Thin,
        (AtomType::Inner, AtomType::Inner) => Spacing::Thin,
        _ => Spacing::Zero,
    }
}

} // verus!
