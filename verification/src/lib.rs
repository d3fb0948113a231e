//! An in-memory model of OWL 2 ontologies, the lowering from parse trees of
//! the functional-style syntax to that model, and a small query layer.
//!
//! * [`model`] holds the data model: IRIs and the store that interns them,
//!   entities, expressions, annotations and components. Every type has a
//!   view, the mathematical value that it stands for, and the contracts of
//!   the library speak of views.
//! * [`prefix`] holds the prefix map against which abbreviated IRIs are
//!   expanded.
//! * [`parse_tree`] holds the tree that a parser of the syntax hands over,
//!   and [`reader`] the lowering of such trees. For every production the
//!   reader has a specification function that says what a node stands for,
//!   and an executable function that is proved to compute it.
//! * [`ontology`] holds the ontology, which keeps its components by kind, and
//!   [`index`] the queries on it.
//! * [`text`] and [`vocab`] hold what the reader needs of strings and of the
//!   built-in vocabulary, and [`error`] the errors of the lowering.

pub mod error;
pub mod index;
pub mod model;
pub mod ontology;
pub mod parse_tree;
pub mod prefix;
pub mod reader;
pub mod text;
pub mod vocab;
