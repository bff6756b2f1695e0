//! A generator of documents in the DOT graph language.
//!
//! Callers assemble vertices, edges and nested clusters into a
//! [`generator::GraphBuilder`] and render it into a DOT `digraph` document.
//! Every rendering function is verified against the spec-level description of
//! the emitted text in [`text`].
use vstd::prelude::*;

pub mod entities;
pub mod generator;
pub mod text;

verus! {

/// Implemented by types that can describe themselves as a graph.
pub trait Graphable {
    /// Consumes the value and produces a builder describing it.
    fn build_graph(self) -> generator::GraphBuilder;
}

} // verus!
