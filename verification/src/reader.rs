//! The lowering from parse trees of the functional-style syntax to the data
//! model.
//!
//! For every production there is a specification function `lowered` that
//! says what a node of that production stands for, or with which error the
//! lowering stops, and an executable function `from_pair` that computes it.

pub mod annotation;
pub mod component;
pub mod basic;
pub mod collect;
pub mod context;
pub mod document;
pub mod expression;
pub mod from_pair;

pub use context::Context;
pub use from_pair::FromPair;
