//! The formula syntax tree the layout engine consumes, together with the
//! small pure helpers that classify and rework its nodes.

pub mod color;
pub mod environments;
pub mod error;
pub mod nodes;
pub mod symbols;

pub use nodes::ParseNode;
pub use nodes::is_symbol;
pub use symbols::AtomType;
pub use symbols::Symbol;
