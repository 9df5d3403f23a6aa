//! The settings of the configuration file.

use vstd::prelude::*;
use crate::configuration::cli::Cli;

verus! {

/// The text that an optional string holds.
pub open spec fn text_of(s: Option<String>) -> Option<Seq<char>> {
    match s {
        Some(s) => Some(s@),
        None => None,
    }
}

/// Copies an optional string.
pub fn clone_text(s: &Option<String>) -> (r: Option<String>)
    ensures
        text_of(r) == text_of(*s),
{
    match s {
        Some(s) => Some(s.clone()),
        None => None,
    }
}

/// Where the log goes.
#[derive(Clone, Copy, Debug, PartialEq, Eq, Structural)]
pub enum LogOutput {
    Stdout,
    Stderr,
    Default,
}

/// The logging settings.
#[derive(Debug)]
pub struct Log {
    pub level: String,
    pub output: LogOutput,
}

/// The mathematical value of a [`Log`].
pub struct LogView {
    pub level: Seq<char>,
    pub output: LogOutput,
}

impl View for Log {
    type V = LogView;

    open spec fn view(&self) -> LogView {
        LogView { level: self.level@, output: self.output }
    }
}

impl Clone for Log {
    fn clone(&self) -> (r: Self)
        ensures
            r@ == self@,
    {
        Log { level: self.level.clone(), output: self.output }
    }
}

/// The settings of an Ollama server.
#[derive(Debug)]
pub struct OllamaCfg {
    /// The address of the server.
    pub uri: String,
    /// The name of the model to ask.
    pub model: String,
}

/// The mathematical value of an [`OllamaCfg`].
pub struct OllamaCfgView {
    pub uri: Seq<char>,
    pub model: Seq<char>,
}

impl View for OllamaCfg {
    type V = OllamaCfgView;

    open spec fn view(&self) -> OllamaCfgView {
        OllamaCfgView { uri: self.uri@, model: self.model@ }
    }
}

impl Clone for OllamaCfg {
    fn clone(&self) -> (r: Self)
        ensures
            r@ == self@,
    {
        OllamaCfg { uri: self.uri.clone(), model: self.model.clone() }
    }
}

/// Which language model backend to use, with its settings.
#[derive(Debug)]
pub enum LLMCfg {
    Ollama { ollama: OllamaCfg },
}

/// The mathematical value of an [`LLMCfg`].
pub enum LLMCfgView {
    Ollama { ollama: OllamaCfgView },
}

impl View for LLMCfg {
    type V = LLMCfgView;

    open spec fn view(&self) -> LLMCfgView {
        match self {
            LLMCfg::Ollama { ollama } => LLMCfgView::Ollama { ollama: ollama@ },
        }
    }
}

impl Clone for LLMCfg {
    fn clone(&self) -> (r: Self)
        ensures
            r@ == self@,
    {
        match self {
            LLMCfg::Ollama { ollama } => LLMCfg::Ollama { ollama: ollama.clone() },
        }
    }
}

/// The settings of a Neo4j server.
#[derive(Debug)]
pub struct Neo4jCfg {
    pub uri: String,
    pub user: String,
    pub password: String,
}

/// The mathematical value of a [`Neo4jCfg`].
pub struct Neo4jCfgView {
    pub uri: Seq<char>,
    pub user: Seq<char>,
    pub password: Seq<char>,
}

impl View for Neo4jCfg {
    type V = Neo4jCfgView;

    open spec fn view(&self) -> Neo4jCfgView {
        Neo4jCfgView { uri: self.uri@, user: self.user@, password: self.password@ }
    }
}

impl Clone for Neo4jCfg {
    fn clone(&self) -> (r: Self)
        ensures
            r@ == self@,
    {
        Neo4jCfg {
            uri: self.uri.clone(),
            user: self.user.clone(),
            password: self.password.clone(),
        }
    }
}

/// Which graph store backend to use, with its settings.
#[derive(Debug)]
pub enum RepositoryCfg {
    Neo4j { neo4j: Neo4jCfg },
}

/// The mathematical value of a [`RepositoryCfg`].
pub enum RepositoryCfgView {
    Neo4j { neo4j: Neo4jCfgView },
}

impl View for RepositoryCfg {
    type V = RepositoryCfgView;

    open spec fn view(&self) -> RepositoryCfgView {
        match self {
            RepositoryCfg::Neo4j { neo4j } => RepositoryCfgView::Neo4j { neo4j: neo4j@ },
        }
    }
}

impl Clone for RepositoryCfg {
    fn clone(&self) -> (r: Self)
        ensures
            r@ == self@,
    {
        match self {
            RepositoryCfg::Neo4j { neo4j } => RepositoryCfg::Neo4j { neo4j: neo4j.clone() },
        }
    }
}

/// What a task tells the model: an optional system message and the text
/// that goes before the content.
#[derive(Debug)]
pub struct Prompt {
    pub system: Option<String>,
    pub prompt: String,
}

/// The mathematical value of a [`Prompt`].
pub struct PromptView {
    pub system: Option<Seq<char>>,
    pub prompt: Seq<char>,
}

impl View for Prompt {
    type V = PromptView;

    open spec fn view(&self) -> PromptView {
        PromptView { system: text_of(self.system), prompt: self.prompt@ }
    }
}

impl Clone for Prompt {
    fn clone(&self) -> (r: Self)
        ensures
            r@ == self@,
    {
        Prompt { system: clone_text(&self.system), prompt: self.prompt.clone() }
    }
}

impl PromptView {
    /// This prompt with what a run gives in its place: a system message
    /// given for the run goes before the configured one, and so does a
    /// prompt text.
    pub open spec fn overridden(
        self,
        system: Option<Seq<char>>,
        prompt: Option<Seq<char>>,
    ) -> PromptView {
        PromptView {
            system: if system is Some {
                system
            } else {
                self.system
            },
            prompt: match prompt {
                Some(p) => p,
                None => self.prompt,
            },
        }
    }
}

impl Prompt {
    /// The prompt of one run: the configured one, but for the parts that
    /// the command line gives.
    pub fn overridden(&self, system: &Option<String>, prompt: &Option<String>) -> (r: Prompt)
        ensures
            r@ == self@.overridden(text_of(*system), text_of(*prompt)),
    {
        Prompt {
            system: match system {
                Some(s) => Some(s.clone()),
                None => clone_text(&self.system),
            },
            prompt: match prompt {
                Some(p) => p.clone(),
                None => self.prompt.clone(),
            },
        }
    }
}

/// The prompts of the two tasks.
#[derive(Debug)]
pub struct Prompts {
    pub summary: Prompt,
    pub predict: Prompt,
}

/// The mathematical value of a [`Prompts`].
pub struct PromptsView {
    pub summary: PromptView,
    pub predict: PromptView,
}

impl View for Prompts {
    type V = PromptsView;

    open spec fn view(&self) -> PromptsView {
        PromptsView { summary: self.summary@, predict: self.predict@ }
    }
}

impl Clone for Prompts {
    fn clone(&self) -> (r: Self)
        ensures
            r@ == self@,
    {
        Prompts { summary: self.summary.clone(), predict: self.predict.clone() }
    }
}

/// Everything the configuration file settles.
#[derive(Debug)]
pub struct Settings {
    pub log: Log,
    pub llm: LLMCfg,
    pub repository: RepositoryCfg,
    pub prompts: Prompts,
}

/// The mathematical value of a [`Settings`].
pub struct SettingsView {
    pub log: LogView,
    pub llm: LLMCfgView,
    pub repository: RepositoryCfgView,
    pub prompts: PromptsView,
}

impl View for Settings {
    type V = SettingsView;

    open spec fn view(&self) -> SettingsView {
        SettingsView {
            log: self.log@,
            llm: self.llm@,
            repository: self.repository@,
            prompts: self.prompts@,
        }
    }
}

impl Clone for Settings {
    fn clone(&self) -> (r: Self)
        ensures
            r@ == self@,
    {
        Settings {
            log: self.log.clone(),
            llm: self.llm.clone(),
            repository: self.repository.clone(),
            prompts: self.prompts.clone(),
        }
    }
}

impl Settings {
    /// These settings with the logging level of the command line, where it
    /// gives one. Nothing else changes.
    pub fn merge_to_cli(&self, cli: &Cli) -> (r: Self)
        ensures
            r@ == (SettingsView {
                log: LogView {
                    level: match cli.log.level {
                        Some(level) => level@,
                        None => self.log.level@,
                    },
                    output: self.log.output,
                },
                ..self@
            }),
    {
        Settings {
            log: Log {
                level: match &cli.log.level {
                    Some(level) => level.clone(),
                    None => self.log.level.clone(),
                },
                output: self.log.output,
            },
            llm: self.llm.clone(),
            repository: self.repository.clone(),
            prompts: self.prompts.clone(),
        }
    }
}

} // verus!
