//! Mining arguments from posts with a language model and keeping them, and
//! the relations among them, in a graph store.
//!
//! The library holds what is decided and computed: how the model's free
//! text is read, what is asked of the model and of the store, what their
//! answers mean, and how a batch goes on when one item fails. It sends and
//! reads nothing itself. Each operation is a run that says what to do next
//! and is told what doing it gave.

pub mod clients;
pub mod configuration;
pub mod models;
pub mod settings;
pub mod subcommands;
pub mod text;
