//! The arguments of the command line, as plain values.

use vstd::prelude::*;

verus! {

/// A path in the file system. Nothing here looks inside one.
#[verifier::external_type_specification]
#[verifier::external_body]
pub struct ExPathBuf(std::path::PathBuf);

/// What the command line holds.
#[derive(Debug)]
pub struct Cli {
    pub command: Option<Commands>,
    pub log: Log,
    /// The path of a configuration file.
    pub cfg_file_path: Option<String>,
}

/// The logging options of the command line.
#[derive(Debug)]
pub struct Log {
    /// The logging level (DEBUG, INFO, ERROR...).
    pub level: Option<String>,
}

/// The two operations, each of which may replace the configured prompt and
/// system text for the run.
#[derive(Debug)]
pub enum Commands {
    /// Summarize the arguments of a file of posts.
    SummarizeArguments {
        /// The path of the JSON file of posts.
        file: std::path::PathBuf,
        system: Option<String>,
        prompt: Option<String>,
    },
    /// Predict the relations among stored arguments.
    PredictRelations {
        /// The identifiers of the arguments; pairs exist from two on.
        args_id: Vec<u32>,
        system: Option<String>,
        prompt: Option<String>,
    },
}

} // verus!
