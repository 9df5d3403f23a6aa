//! The language model: what is asked of it and how its answers are read.
//!
//! A client is one of several backends. The pipelines speak to the client
//! and never to a backend, so that a backend can be added without touching
//! them.

pub mod ollama;
pub mod response;

use vstd::prelude::*;
use vstd::string::StringExecFns;
use crate::configuration::settings::{LLMCfg, LLMCfgView, Prompt};
use crate::models::{Argument, Relation, RelationView, SummarizedInfo, SummarizedInfoView};
use ollama::{completion_of, predict_prompt, relation_of_completion, summarize_prompt,
    summary_of_completion, GenerateReply, GenerateRequestBody};

verus! {

/// A client of a language model.
#[derive(Debug)]
pub enum Client {
    Ollama(ollama::Client),
}

/// Why a client gave no result.
#[derive(Debug)]
pub enum Error {
    Ollama(ollama::Error),
}

/// The mathematical value of an [`Error`].
pub enum ErrorView {
    Ollama(ollama::ErrorView),
}

impl View for Error {
    type V = ErrorView;

    open spec fn view(&self) -> ErrorView {
        match self {
            Error::Ollama(e) => ErrorView::Ollama(e@),
        }
    }
}

impl ErrorView {
    /// What the error says.
    pub open spec fn message(self) -> Seq<char> {
        match self {
            ErrorView::Ollama(e) => "ollama client error: "@ + e.message(),
        }
    }
}

impl Error {
    /// Says what went wrong, for a reader.
    pub fn to_message(&self) -> (r: String)
        ensures
            r@ == self@.message(),
    {
        match self {
            Error::Ollama(e) => "ollama client error: ".to_owned().concat(
                e.to_message().as_str(),
            ),
        }
    }
}

impl View for Client {
    type V = LLMCfgView;

    open spec fn view(&self) -> LLMCfgView {
        match self {
            Client::Ollama(client) => LLMCfgView::Ollama { ollama: client@ },
        }
    }
}

/// The view of what a request for a summary gave.
pub open spec fn summary_view(r: Result<SummarizedInfo, Error>) -> Result<
    SummarizedInfoView,
    ErrorView,
> {
    match r {
        Ok(info) => Ok(info@),
        Err(e) => Err(e@),
    }
}

/// The view of what a request for a relation gave.
pub open spec fn relation_view(r: Result<Relation, Error>) -> Result<RelationView, ErrorView> {
    match r {
        Ok(relation) => Ok(relation@),
        Err(e) => Err(e@),
    }
}

/// A backend's result as the client's.
pub open spec fn lifted<T>(r: Result<T, ollama::ErrorView>) -> Result<T, ErrorView> {
    match r {
        Ok(v) => Ok(v),
        Err(e) => Err(ErrorView::Ollama(e)),
    }
}

impl Clone for Client {
    fn clone(&self) -> (r: Self)
        ensures
            r@ == self@,
    {
        match self {
            Client::Ollama(client) => Client::Ollama(client.clone()),
        }
    }
}

impl Client {
    /// The client of the backend that the settings select.
    pub fn new(cfg: &LLMCfg) -> (r: Self)
        ensures
            r@ == cfg@,
    {
        match cfg {
            LLMCfg::Ollama { ollama } => Client::Ollama(ollama::Client::new(ollama)),
        }
    }

    /// The backend behind the client.
    pub open spec fn backend(self) -> ollama::Client {
        match self {
            Client::Ollama(client) => client,
        }
    }

    /// The address that requests are posted to.
    pub fn endpoint(&self) -> (r: String)
        ensures
            r@ == self.backend().uri@ + "/api/generate"@,
    {
        match self {
            Client::Ollama(client) => client.endpoint(),
        }
    }

    /// The request that asks for the summary of `content`.
    pub fn summarize_request(&self, prompt: &Prompt, content: &str) -> (r: GenerateRequestBody)
        ensures
            r@ == self.backend().request(
                prompt@.system,
                summarize_prompt(prompt@.prompt, content@),
            ),
    {
        match self {
            Client::Ollama(client) => client.summarize_request(prompt, content),
        }
    }

    /// The request that asks how `arg_a` relates to `arg_b`.
    pub fn predict_request(&self, prompt: &Prompt, arg_a: &Argument, arg_b: &Argument) -> (r:
        GenerateRequestBody)
        ensures
            r@ == self.backend().request(
                prompt@.system,
                predict_prompt(prompt@.prompt, arg_a@.raw, arg_b@.raw),
            ),
    {
        match self {
            Client::Ollama(client) => client.predict_request(prompt, arg_a, arg_b),
        }
    }

    /// The summary that a request for one gave.
    pub fn summarize(&self, reply: GenerateReply) -> (r: Result<SummarizedInfo, Error>)
        ensures
            summary_view(r) == lifted(summary_of_completion(completion_of(reply@))),
    {
        match self {
            Client::Ollama(client) => match client.summarize(reply) {
                Ok(info) => Ok(info),
                Err(e) => Err(Error::Ollama(e)),
            },
        }
    }

    /// The relation of `arg_a` to `arg_b` that a request for it gave.
    pub fn predict(&self, arg_a: &Argument, arg_b: &Argument, reply: GenerateReply) -> (r: Result<
        Relation,
        Error,
    >)
        requires
            arg_a.is_persisted(),
            arg_b.is_persisted(),
        ensures
            relation_view(r) == lifted(
                relation_of_completion(arg_a.id->0, arg_b.id->0, completion_of(reply@)),
            ),
    {
        match self {
            Client::Ollama(client) => match client.predict(arg_a, arg_b, reply) {
                Ok(relation) => Ok(relation),
                Err(e) => Err(Error::Ollama(e)),
            },
        }
    }
}

} // verus!
