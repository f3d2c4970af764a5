//! An instrumentation pass over a syntax tree of UI components: it decides,
//! declaration by declaration, which functions are components or hooks that
//! read reactive values, wraps their bodies in a tracking scope, and adds the
//! one import that the wrapped bodies need.
//!
//! [`SignalsTransformVisitor`] holds the state for one compilation unit and
//! walks it with `visit_mut_program`. The modules below it are, leaves
//! first: the tree ([`ast`]), what the contracts see of it ([`view`]) and the
//! syntax contexts that it holds ([`contexts`]); the textual conventions
//! ([`pattern`], [`comments`]); the classification of names and the scan of
//! bodies ([`utils`], [`detect`]); the statements that the pass writes
//! ([`rewrite`], [`extract`]); the verdict and the walk ([`visitor`],
//! [`walk`], [`traverse`]); and what holds of the pass as a whole
//! ([`shape`], [`unchanged`], [`laws`]).

pub mod ast;
pub mod comments;
pub mod contexts;
pub mod detect;
pub mod extract;
pub mod laws;
pub mod options;
pub mod pattern;
pub mod rewrite;
pub mod shape;
pub mod traverse;
pub mod unchanged;
pub mod utils;
pub mod view;
pub mod visitor;
pub mod walk;

pub use visitor::SignalsTransformVisitor;
