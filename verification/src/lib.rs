//! Discovery of mutants: the places in a Rust source file where a function's
//! body can be replaced by a trivial value, to see whether the tests notice.
//!
//! A source file is parsed by `syn`, its nesting of modules, impl blocks and
//! functions is read into the plain syntax model of [`syntax`], and
//! [`visit::DiscoveryVisitor`] walks that model and emits one [`mutate::Mutant`]
//! per applicable replacement.

pub mod error_value;
pub mod laws;
pub mod mutate;
pub mod parse;
pub mod source;
pub mod syntax;
pub mod text;
pub mod visit;

pub use error_value::{ConfigError, ErrorValue};
pub use mutate::{Mutant, MutationOp};
pub use parse::{parse_source, ParseError};
pub use source::{LineColumn, SourceFile, Span};
pub use text::remove_excess_spaces;
pub use visit::{discover_in_outline, discover_mutants, DiscoveryVisitor};
