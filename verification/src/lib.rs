//! Compiles an XML Schema tree into type declarations.
//!
//! A [`schema::Schema`] is walked top-down. Every top-level simple type,
//! complex type and element becomes a [`model::GeneratedTypeDecl`]; anonymous
//! complex types nested in elements are hoisted into declarations of their
//! own, named after the chain of names that encloses them. Each declaration
//! lists its fields in document order, with a resolved type, a cardinality
//! and the role the field plays on the wire.
//!
//! The modules, leaves first:
//!
//! - [`text`] and [`naming`]: case conversion and the rule that names a
//!   field;
//! - [`model`]: declarations, fields and errors, each with its view;
//! - [`context`]: the prefix of the XML Schema namespace, and the chain of
//!   enclosing names;
//! - [`rust_types_mapping`]: type resolution;
//! - [`attribute`], [`simple_type`], [`annotation`], [`max_occurences`],
//!   [`qualification`]: the leaves of the schema tree;
//! - [`element`], [`sequence`], [`extension`], [`simple_content`],
//!   [`complex_content`], [`complex_type`]: the nodes that nest, with the
//!   field compiler and the content model compiler;
//! - [`schema`]: the top level;
//! - [`references`]: what is compiled leaves no reference to a declared type
//!   open;
//! - [`render`]: the declarations written out as source text.
//!
//! Every function states its result over the spec functions that stand next
//! to it, and Verus proves the body against that statement. Case conversion
//! is left to `heck`: its results are named, not described, and nothing is
//! proved about what a converted name looks like.

pub mod annotation;
pub mod attribute;
pub mod complex_content;
pub mod complex_type;
pub mod context;
pub mod element;
pub mod extension;
pub mod max_occurences;
pub mod model;
pub mod naming;
pub mod qualification;
pub mod references;
pub mod render;
pub mod rust_types_mapping;
pub mod schema;
pub mod sequence;
pub mod simple_content;
pub mod simple_type;
pub mod text;
