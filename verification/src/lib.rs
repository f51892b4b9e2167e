//! Front end of a small interface-definition language.
//!
//! A schema is a text of `type Name { field: [mode] Type, ... }` blocks. The
//! [`schema`] module turns such a text into a resolved type graph in four
//! steps: tokens, syntax tree, module, assembly.

pub mod schema;
pub mod text;
