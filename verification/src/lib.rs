//! A schema normalization and serialization library.
//!
//! The crate takes a fully-resolved relational schema graph (tables, columns,
//! indexes, foreign keys, with each column carrying an optional native type
//! and a generic type family) and projects it onto a closed, engine-agnostic
//! canonical model, which can then be rendered as a tagged JSON document and
//! decoded back without loss.

pub mod codec;
pub mod json;
pub mod model;
pub mod project;
pub mod source;
