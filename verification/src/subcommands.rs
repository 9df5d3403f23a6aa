//! The operations of the command line, each as a run that says what to do
//! next and takes in what doing it gave.

pub mod export;
pub mod pairs;
pub mod predict;
pub mod summarize;

use vstd::prelude::*;
use vstd::string::StringExecFns;
use crate::clients::llm;
use crate::clients::llm::ollama::GenerateRequestBodyView;
use crate::clients::repository;
use crate::configuration::settings::LLMCfgView;

verus! {

/// Why one item of a run was given up.
#[derive(Debug)]
pub enum ItemError {
    /// The request failed, or the model's text is not what was asked for.
    Llm(llm::Error),
    /// What was made of the model's text could not be stored.
    Repository(repository::Error),
}

/// The mathematical value of an [`ItemError`].
pub enum ItemErrorView {
    Llm(llm::ErrorView),
    Repository(repository::ErrorView),
}

impl View for ItemError {
    type V = ItemErrorView;

    open spec fn view(&self) -> ItemErrorView {
        match self {
            ItemError::Llm(e) => ItemErrorView::Llm(e@),
            ItemError::Repository(e) => ItemErrorView::Repository(e@),
        }
    }
}

impl ItemErrorView {
    /// What the error says.
    pub open spec fn message(self) -> Seq<char> {
        match self {
            ItemErrorView::Llm(e) => "llm client error: "@ + e.message(),
            ItemErrorView::Repository(e) => "repository error: "@ + e.message(),
        }
    }
}

impl ItemError {
    /// Says what went wrong, for the log.
    pub fn to_message(&self) -> (r: String)
        ensures
            r@ == self@.message(),
    {
        match self {
            ItemError::Llm(e) => "llm client error: ".to_owned().concat(e.to_message().as_str()),
            ItemError::Repository(e) => "repository error: ".to_owned().concat(
                e.to_message().as_str(),
            ),
        }
    }
}

/// The texts of a list of strings.
pub open spec fn texts(items: Seq<String>) -> Seq<Seq<char>> {
    items.map_values(|s: String| s@)
}

/// The address that a client posts to.
pub open spec fn endpoint_of(client: LLMCfgView) -> Seq<char> {
    match client {
        LLMCfgView::Ollama { ollama } => ollama.uri + "/api/generate"@,
    }
}

/// The name of the model that a client asks.
pub open spec fn model_of(client: LLMCfgView) -> Seq<char> {
    match client {
        LLMCfgView::Ollama { ollama } => ollama.model,
    }
}

/// The request with which a client asks for an answer to `prompt`.
pub open spec fn request_of(client: LLMCfgView, system: Option<Seq<char>>, prompt: Seq<char>)
    -> GenerateRequestBodyView {
    GenerateRequestBodyView { model: model_of(client), prompt, system, stream: false }
}

} // verus!
