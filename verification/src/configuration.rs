//! What a run is configured with: the settings of the configuration file and
//! what the command line gives.

pub mod cli;
pub mod settings;

pub use cli::{Cli, Commands};
pub use settings::{LLMCfg, LogOutput, Neo4jCfg, OllamaCfg, Prompt, PromptView, Prompts,
    RepositoryCfg, Settings};
