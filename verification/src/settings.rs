//! Settings that come from two places, the command line over a file.

use vstd::prelude::*;

verus! {

/// The settings of one source.
#[derive(Debug)]
pub struct Settings {
    pub command: Option<Commands>,
    pub log: Log,
}

/// The logging settings.
#[derive(Debug)]
pub struct Log {
    /// The logging level (DEBUG, INFO, ERROR...).
    pub level: Option<String>,
}

/// The operation to run.
#[derive(Debug)]
pub enum Commands {
    /// Retrieve the arguments of a file of posts.
    RetrieveArguments {
        /// The path of the JSON file of posts.
        file: std::path::PathBuf,
        model: Model,
    },
    /// Predict the relations among the arguments of a file.
    PredictRelations {
        /// The path of the JSON file of arguments.
        file: std::path::PathBuf,
        model: Model,
    },
}

/// The model to ask.
#[derive(Debug)]
pub struct Model {
    /// The name and tag of the model.
    pub name: String,
    /// The address at which the model answers.
    pub endpoint: String,
}

impl Settings {
    /// These settings under `other`: what `other` settles stands, and what
    /// it leaves open is taken from here.
    pub fn merge(self, other: Settings) -> (r: Self)
        ensures
            r.command == if other.command is Some {
                other.command
            } else {
                self.command
            },
            r.log.level == if other.log.level is Some {
                other.log.level
            } else {
                self.log.level
            },
    {
        Settings {
            command: match other.command {
                Some(command) => Some(command),
                None => self.command,
            },
            log: Log {
                level: match other.log.level {
                    Some(level) => Some(level),
                    None => self.log.level,
                },
            },
        }
    }
}

} // verus!
