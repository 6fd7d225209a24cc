//! A schema-to-code generator for a graph data model.
//!
//! Given the already-parsed fields of a node or edge type, the library
//! produces the accessor surface for that type: a declaration, two
//! initializers and, for traversable fields, a traversal function whose
//! body grows the instance's origin path by one hop.
//!
//! The [`field`] module holds the field model and the emitters; the
//! [`origin`] module holds the origin-path algorithm that the emitted
//! traversal functions perform, together with its laws.

pub mod field;
pub mod origin;
