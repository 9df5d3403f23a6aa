//! Clients of the two backends: the language model and the graph store.

pub mod llm;
pub mod repository;
