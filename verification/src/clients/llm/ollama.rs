//! A language model that runs behind an Ollama server.
//!
//! The client says what to send and reads what came back; sending is left
//! to whoever holds the connection.

use vstd::prelude::*;
use vstd::string::StringExecFns;
use crate::clients::llm::response::{parse_relation, parse_summary, parsed_relation,
    parsed_summary, ParseError};
use crate::configuration::settings::{clone_text, text_of, OllamaCfg, OllamaCfgView, Prompt};
use crate::models::{Argument, Relation, RelationType, RelationView, SummarizedInfo,
    SummarizedInfoView};

verus! {

/// A client of one model on one Ollama server.
#[derive(Debug)]
pub struct Client {
    /// The name of the model to ask.
    pub model: String,
    /// The address of the server.
    pub uri: String,
}

/// Why a request gave no result.
#[derive(Debug)]
pub enum Error {
    /// The server answered with an error of its own.
    ApiError(String),
    /// No answer came, or none that could be decoded.
    RequestError(String),
    /// The model's text does not have the shape that was asked for.
    ResponseParsingError(ParseError),
}

/// The mathematical value of an [`Error`].
pub enum ErrorView {
    ApiError(Seq<char>),
    RequestError(Seq<char>),
    ResponseParsingError(ParseError),
}

impl View for Error {
    type V = ErrorView;

    open spec fn view(&self) -> ErrorView {
        match self {
            Error::ApiError(m) => ErrorView::ApiError(m@),
            Error::RequestError(m) => ErrorView::RequestError(m@),
            Error::ResponseParsingError(e) => ErrorView::ResponseParsingError(*e),
        }
    }
}

impl ErrorView {
    /// What the error says.
    pub open spec fn message(self) -> Seq<char> {
        match self {
            ErrorView::ApiError(m) => "api error: "@ + m,
            ErrorView::RequestError(m) => "request error: "@ + m,
            ErrorView::ResponseParsingError(e) => "response parsing error: "@ + e.message(),
        }
    }
}

impl Error {
    /// Says what went wrong, for a reader.
    pub fn to_message(&self) -> (r: String)
        ensures
            r@ == self@.message(),
    {
        match self {
            Error::ApiError(m) => "api error: ".to_owned().concat(m.as_str()),
            Error::RequestError(m) => "request error: ".to_owned().concat(m.as_str()),
            Error::ResponseParsingError(e) => "response parsing error: ".to_owned().concat(
                e.to_message().as_str(),
            ),
        }
    }
}

/// The body of a generation request.
#[derive(Debug)]
pub struct GenerateRequestBody {
    /// The name of the model.
    pub model: String,
    /// The text to answer.
    pub prompt: String,
    /// A system message that goes before the model's own.
    pub system: Option<String>,
    /// Whether the answer is to come in pieces.
    pub stream: bool,
}

/// The mathematical value of a [`GenerateRequestBody`].
pub struct GenerateRequestBodyView {
    pub model: Seq<char>,
    pub prompt: Seq<char>,
    pub system: Option<Seq<char>>,
    pub stream: bool,
}

impl View for GenerateRequestBody {
    type V = GenerateRequestBodyView;

    open spec fn view(&self) -> GenerateRequestBodyView {
        GenerateRequestBodyView {
            model: self.model@,
            prompt: self.prompt@,
            system: text_of(self.system),
            stream: self.stream,
        }
    }
}

/// What became of a generation request.
#[derive(Debug)]
pub enum GenerateReply {
    /// The request got no answer; the text says why.
    Unreachable(String),
    /// The server answered.
    Answered {
        /// The HTTP status of the answer.
        status: u16,
        /// The `response` field of the body read as a success, or why the
        /// body cannot be read as one.
        response: Result<String, String>,
        /// The `error` field of the body read as an error, or why the body
        /// cannot be read as one.
        error: Result<String, String>,
    },
}

/// The texts that a decoded field holds.
pub open spec fn decoded_text(r: Result<String, String>) -> Result<Seq<char>, Seq<char>> {
    match r {
        Ok(t) => Ok(t@),
        Err(d) => Err(d@),
    }
}

/// The mathematical value of a [`GenerateReply`].
pub enum GenerateReplyView {
    Unreachable(Seq<char>),
    Answered {
        status: u16,
        response: Result<Seq<char>, Seq<char>>,
        error: Result<Seq<char>, Seq<char>>,
    },
}

impl View for GenerateReply {
    type V = GenerateReplyView;

    open spec fn view(&self) -> GenerateReplyView {
        match self {
            GenerateReply::Unreachable(d) => GenerateReplyView::Unreachable(d@),
            GenerateReply::Answered { status, response, error } => GenerateReplyView::Answered {
                status: *status,
                response: decoded_text(*response),
                error: decoded_text(*error),
            },
        }
    }
}

/// Whether an HTTP status reports success: the statuses from 200 to 299 do.
pub open spec fn is_success(status: u16) -> bool {
    200 <= status < 300
}

/// The text that the model completed, or why there is none. An answer
/// with a status of success holds the text; one with another status holds
/// the server's own error message. A request without an answer fails as a
/// request, and so does an answer whose body cannot be read.
pub open spec fn completion_of(reply: GenerateReplyView) -> Result<Seq<char>, ErrorView> {
    match reply {
        GenerateReplyView::Unreachable(detail) => Err(ErrorView::RequestError(detail)),
        GenerateReplyView::Answered { status, response, error } => if is_success(status) {
            match response {
                Ok(text) => Ok(text),
                Err(detail) => Err(ErrorView::RequestError(detail)),
            }
        } else {
            match error {
                Ok(message) => Err(ErrorView::ApiError(message)),
                Err(detail) => Err(ErrorView::RequestError(detail)),
            }
        },
    }
}

/// The text that asks for the summary of `raw`.
pub open spec fn summarize_prompt(prompt: Seq<char>, raw: Seq<char>) -> Seq<char> {
    prompt + "\n\nArg:"@ + raw + "\n"@
}

/// The text that asks how the first argument relates to the second.
pub open spec fn predict_prompt(prompt: Seq<char>, raw_a: Seq<char>, raw_b: Seq<char>) -> Seq<
    char,
> {
    prompt + "\n\nArg1:"@ + raw_a + "\nArg2:"@ + raw_b + "\n"@
}

/// What reading a completion as a summary gives.
pub open spec fn summary_of_completion(completion: Result<Seq<char>, ErrorView>) -> Result<
    SummarizedInfoView,
    ErrorView,
> {
    match completion {
        Ok(text) => match parsed_summary(text) {
            Ok(info) => Ok(info),
            Err(e) => Err(ErrorView::ResponseParsingError(e)),
        },
        Err(e) => Err(e),
    }
}

/// What reading a completion as the relation of one argument to another
/// gives.
pub open spec fn relation_of_completion(
    arg_a_id: u32,
    arg_b_id: u32,
    completion: Result<Seq<char>, ErrorView>,
) -> Result<RelationView, ErrorView> {
    match completion {
        Ok(text) => Ok(RelationView::classified(arg_a_id, arg_b_id, parsed_relation(text))),
        Err(e) => Err(e),
    }
}

/// The view of an optional error-free summary.
pub open spec fn summary_result_view(r: Result<SummarizedInfo, Error>) -> Result<
    SummarizedInfoView,
    ErrorView,
> {
    match r {
        Ok(info) => Ok(info@),
        Err(e) => Err(e@),
    }
}

/// The view of what a prediction gave.
pub open spec fn relation_result_view(r: Result<Relation, Error>) -> Result<
    RelationView,
    ErrorView,
> {
    match r {
        Ok(relation) => Ok(relation@),
        Err(e) => Err(e@),
    }
}

/// The view of what a request gave.
pub open spec fn completion_view(r: Result<String, Error>) -> Result<Seq<char>, ErrorView> {
    match r {
        Ok(text) => Ok(text@),
        Err(e) => Err(e@),
    }
}

/// Tells whether an HTTP status reports success.
pub fn status_is_success(status: u16) -> (r: bool)
    ensures
        r == is_success(status),
{
    200 <= status && status < 300
}

/// Takes the completed text out of what became of a request.
pub fn completion(reply: GenerateReply) -> (r: Result<String, Error>)
    ensures
        completion_view(r) == completion_of(reply@),
{
    match reply {
        GenerateReply::Unreachable(detail) => Err(Error::RequestError(detail)),
        GenerateReply::Answered { status, response, error } => {
            if status_is_success(status) {
                match response {
                    Ok(text) => Ok(text),
                    Err(detail) => Err(Error::RequestError(detail)),
                }
            } else {
                match error {
                    Ok(message) => Err(Error::ApiError(message)),
                    Err(detail) => Err(Error::RequestError(detail)),
                }
            }
        },
    }
}

impl View for Client {
    type V = OllamaCfgView;

    open spec fn view(&self) -> OllamaCfgView {
        OllamaCfgView { uri: self.uri@, model: self.model@ }
    }
}

impl Clone for Client {
    fn clone(&self) -> (r: Self)
        ensures
            r@ == self@,
    {
        Client { model: self.model.clone(), uri: self.uri.clone() }
    }
}

impl Client {
    /// A client of the server and the model that the settings name.
    pub fn new(cfg: &OllamaCfg) -> (r: Self)
        ensures
            r@ == cfg@,
    {
        Client { model: cfg.model.clone(), uri: cfg.uri.clone() }
    }

    /// The request that this client sends with `prompt` as its text.
    pub open spec fn request(self, system: Option<Seq<char>>, prompt: Seq<char>)
        -> GenerateRequestBodyView {
        GenerateRequestBodyView { model: self.model@, prompt, system, stream: false }
    }

    /// The address that generation requests are posted to.
    pub fn endpoint(&self) -> (r: String)
        ensures
            r@ == self.uri@ + "/api/generate"@,
    {
        self.uri.clone().concat("/api/generate")
    }

    /// The request that asks for the summary of `raw`: the prompt's text,
    /// then the content, with the prompt's system message and in one piece.
    pub fn summarize_request(&self, prompt: &Prompt, raw: &str) -> (r: GenerateRequestBody)
        ensures
            r@ == self.request(prompt@.system, summarize_prompt(prompt@.prompt, raw@)),
    {
        let mut text = prompt.prompt.clone();
        text.append("\n\nArg:");
        text.append(raw);
        text.append("\n");
        GenerateRequestBody {
            model: self.model.clone(),
            prompt: text,
            system: clone_text(&prompt.system),
            stream: false,
        }
    }

    /// The request that asks how `arg_a` relates to `arg_b`. The order
    /// counts: the relation has a direction.
    pub fn predict_request(&self, prompt: &Prompt, arg_a: &Argument, arg_b: &Argument) -> (r:
        GenerateRequestBody)
        ensures
            r@ == self.request(
                prompt@.system,
                predict_prompt(prompt@.prompt, arg_a@.raw, arg_b@.raw),
            ),
    {
        let mut text = prompt.prompt.clone();
        text.append("\n\nArg1:");
        text.append(arg_a.raw.as_str());
        text.append("\nArg2:");
        text.append(arg_b.raw.as_str());
        text.append("\n");
        GenerateRequestBody {
            model: self.model.clone(),
            prompt: text,
            system: clone_text(&prompt.system),
            stream: false,
        }
    }

    /// Reads the model's text as a summary.
    pub fn parse_summarize_response(&self, response: String) -> (r: Result<SummarizedInfo, Error>)
        ensures
            summary_result_view(r) == summary_of_completion(Ok(response@)),
    {
        match parse_summary(response.as_str()) {
            Ok(info) => Ok(info),
            Err(e) => Err(Error::ResponseParsingError(e)),
        }
    }

    /// Reads the model's text as a classification.
    pub fn parse_predict_response(&self, response: String) -> (r: RelationType)
        ensures
            r == parsed_relation(response@),
    {
        parse_relation(response.as_str())
    }

    /// The summary that a request for one gave.
    pub fn summarize(&self, reply: GenerateReply) -> (r: Result<SummarizedInfo, Error>)
        ensures
            summary_result_view(r) == summary_of_completion(completion_of(reply@)),
    {
        match completion(reply) {
            Ok(text) => self.parse_summarize_response(text),
            Err(e) => Err(e),
        }
    }

    /// The relation of `arg_a` to `arg_b` that a request for it gave. Both
    /// arguments are stored ones.
    pub fn predict(&self, arg_a: &Argument, arg_b: &Argument, reply: GenerateReply) -> (r: Result<
        Relation,
        Error,
    >)
        requires
            arg_a.is_persisted(),
            arg_b.is_persisted(),
        ensures
            relation_result_view(r) == relation_of_completion(
                arg_a.id->0,
                arg_b.id->0,
                completion_of(reply@),
            ),
    {
        match completion(reply) {
            Ok(text) => {
                let kind = self.parse_predict_response(text);
                Ok(Relation::classified(arg_a.id.unwrap(), arg_b.id.unwrap(), kind))
            },
            Err(e) => Err(e),
        }
    }
}

} // verus!
