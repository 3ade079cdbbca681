//! Verified core of a dataflow graph toolkit: lattice merge traits, handoff
//! port lists, chained pull pipelines, the flat graph builder that turns
//! dataflow statements (and imported modules) into an operator graph with
//! diagnostics (operator arity and port checks among them), the `reduce`
//! operator, and the locations of a flow with the statements and ports they
//! add.

pub mod text;
pub mod diagnostic;
pub mod graph;
pub mod ops;
pub mod port_check;
pub mod parse;
pub mod messages;
pub mod flat_graph_builder;
pub mod builder_laws;
pub mod lattice;
pub mod handoff_list;
pub mod pull_chain;
pub mod reduce;
pub mod runtime;
pub mod location;
