//! Synthesis of fluent builder companions for record types.
//!
//! A declaration is checked and turned into a [`BuilderInfo`](types::BuilderInfo)
//! by [`parse`](parser::parse); a `BuilderInfo` is turned into the definition of
//! its builder by [`BuilderInfo::generate_builder`](types::BuilderInfo::generate_builder).

pub mod attribute;
pub mod declaration;
pub mod errors;
pub mod parser;
pub mod semantics;
pub mod span;
pub mod token;
pub mod types;
