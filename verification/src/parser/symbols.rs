//! Symbols and their atom types.
//!
//! An atom type classifies a formula element purely for spacing decisions;
//! the layout engine queries it and never changes it, except transiently
//! during binary-operator reclassification.

use vstd::prelude::*;

verus! {

/// Classification of a formula element, driving inter-element spacing.
#[derive(Debug, Clone, Copy, PartialEq, Eq, Structural)]
pub enum AtomType {
    /// A letter or digit, spaced as an ordinary atom.
    Alpha,
    /// An ordinary symbol that is not a letter, spaced like Alpha.
    Ordinary,
    /// An infix binary operator such as a plus sign.
    Binary,
    /// A relation such as an equals sign.
    Relation,
    /// An opening delimiter.
    Open,
    /// A closing delimiter.
    Close,
    /// A punctuation mark such as a comma.
    Punctuation,
    /// A vertical fence such as a bar.
    Fence,
    /// An inner sub-formula, for example a delimited group or fraction.
    Inner,
    /// A large operator; the flag records whether its scripts are set as
    /// limits above and below.
    Operator(bool),
    /// An accent mark.
    Accent,
    /// Invisible to spacing: kerns and style changes.
    Transparent,
}

impl AtomType {
    /// Whether this atom is spaced like an ordinary atom.
    pub open spec fn is_alpha_like(self) -> bool {
        self == AtomType::Alpha || self == AtomType::Ordinary
    }

    /// Whether this atom is some operator, with or without limits.
    pub open spec fn is_operator(self) -> bool {
        self is Operator
    }
}

/// A single glyph of the formula together with its atom type.
#[derive(Debug, Clone, Copy, PartialEq, Eq, Structural)]
pub struct Symbol {
    /// The Unicode code point the glyph is looked up by.
    pub codepoint: char,
    /// The spacing class of the symbol.
    pub atom_type: AtomType,
}

/// The atom type of a bare character, for characters whose class follows
/// from the character alone.  Letters, digits and Greek letters are
/// ordinary; the usual operator, relation, delimiter and punctuation
/// characters get their classes; anything else is unknown.
pub fn codepoint_atom_type(codepoint: char) -> (r: Option<AtomType>)
    ensures
        r == codepoint_atom_type_spec(codepoint),
{
    if ('a' <= codepoint && codepoint <= 'z') || ('A' <= codepoint && codepoint <= 'Z')
        || ('0' <= codepoint && codepoint <= '9')
        || ('\u{0391}' <= codepoint && codepoint <= '\u{03a9}')
        || ('\u{03b1}' <= codepoint && codepoint <= '\u{03c9}') {
        Some(AtomType::Alpha)
    } else if codepoint == '*' || codepoint == '+' || codepoint == '-' {
        Some(AtomType::Binary)
    } else if codepoint == '[' || codepoint == '(' {
        Some(AtomType::Open)
    } else if codepoint == ']' || codepoint == ')' || codepoint == '?' || codepoint == '!' {
        Some(AtomType::Close)
    } else if codepoint == '=' || codepoint == '<' || codepoint == '>' || codepoint == ':' {
        Some(AtomType::Relation)
    } else if codepoint == ',' || codepoint == ';' {
        Some(AtomType::Punctuation)
    } else if codepoint == '|' {
        Some(AtomType::Fence)
    } else if codepoint == '/' || codepoint == '@' || codepoint == '.' || codepoint == '"' {
        Some(AtomType::Alpha)
    } else {
        None
    }
}

/// Specification of [`codepoint_atom_type`].
pub open spec fn codepoint_atom_type_spec(codepoint: char) -> Option<AtomType> {
    if ('a' <= codepoint && codepoint <= 'z') || ('A' <= codepoint && codepoint <= 'Z')
        || ('0' <= codepoint && codepoint <= '9')
        || ('\u{0391}' <= codepoint && codepoint <= '\u{03a9}')
        || ('\u{03b1}' <= codepoint && codepoint <= '\u{03c9}') {
        Some(AtomType::Alpha)
    } else if codepoint == '*' || codepoint == '+' || codepoint == '-' {
        Some(AtomType::Binary)
    } else if codepoint == '[' || codepoint == '(' {
        Some(AtomType::Open)
    } else if codepoint == ']' || codepoint == ')' || codepoint == '?' || codepoint == '!' {
        Some(AtomType::Close)
    } else if codepoint == '=' || codepoint == '<' || codepoint == '>' || codepoint == ':' {
        Some(AtomType::Relation)
    } else if codepoint == ',' || codepoint == ';' {
        Some(AtomType::Punctuation)
    } else if codepoint == '|' {
        Some(AtomType::Fence)
    } else if codepoint == '/' || codepoint == '@' || codepoint == '.' || codepoint == '"' {
        Some(AtomType::Alpha)
    } else {
        None
    }
}

} // verus!
