//! Errors raised while turning formula text into nodes.

use vstd::prelude::*;

use crate::parser::environments::Environment;

verus! {

/// Result of a parsing step.
pub type ParseResult<T> = Result<T, ParseError>;

/// What kind of group a parser was inside when a group ended.
#[derive(Debug, Clone, Copy, PartialEq, Eq, Structural)]
pub enum GroupKind {
    /// A braced group.
    BraceGroup,
    /// An environment, between its begin and end commands.
    Env(Environment),
    /// A group ended by a cell separator.
    Cell,
    /// A group ended by a line separator.
    Line,
    /// The end of the input.
    Eof,
}

/// A syntax error in the formula provided.
#[derive(Debug, Clone, PartialEq)]
pub enum ParseError {
    /// The symbol is not one with known atom-type information.
    UnrecognizedSymbol(char),
    /// There is no primitive control sequence with this name.
    UnrecognizedControlSequence(String),
    /// The argument of a color command is not a recognized color.
    UnrecognizedColor(String),
    /// A custom macro is missing an argument.
    MissingArgForMacro {
        /// How many arguments the macro declares.
        expected: usize,
        /// How many arguments were given.
        got: usize,
    },
    /// The brackets enclosing a macro's arguments were not matched.
    UnmatchedBrackets,
    /// A group was ended with no corresponding beginning.
    UnexpectedEndGroup(GroupKind),
    /// A token or group of tokens was expected but never came.
    ExpectedToken,
}

} // verus!
