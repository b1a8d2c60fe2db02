//! Extraction of a language-neutral description of a library's public
//! interface from its source tree: a recognizer pass that classifies the
//! public top-level declarations, and an elaborator pass that resolves every
//! type expression to a canonical shape, producing an ordered, serializable
//! artifact for downstream generators.

pub mod ast;
pub mod codegen;
pub mod document;
pub mod error;
pub mod ir_items;
pub mod ir_types;
pub mod known_rust;
pub mod laws;
pub mod ordered_map;
pub mod parse;
pub mod pass1;
pub mod pass2;
pub mod samples;
pub mod span;

pub use error::Error;
pub use ir_items::Idl;
pub use ir_items::Item;
pub use ir_items::Name;
pub use ir_items::QualifiedName;
pub use ir_types::Ty;
pub use ir_types::TypeKind;
pub use parse::Parser;
pub use span::ErrorLocation;
pub use span::Span;
