//! The graph store that holds arguments and relations.
//!
//! A repository is one of several backends. The pipelines speak to the
//! repository and never to a backend.

pub mod neo4j;

use vstd::prelude::*;
use vstd::string::StringExecFns;
use crate::configuration::settings::{RepositoryCfg, RepositoryCfgView};
use crate::models::{Argument, ArgumentView, Relation, RelationView};
use neo4j::{argument_of, argument_stored, create_argument, create_relation, match_argument,
    match_relation, relation_of, relation_stored, EdgeRecord, Fetched, Neo4j, NodeRecord,
    Statement};

verus! {

/// A graph store.
#[derive(Debug)]
pub enum Repository {
    Neo4j(Neo4j),
}

/// Why a repository gave no result.
#[derive(Debug)]
pub enum Error {
    Neo4j(neo4j::Error),
}

/// The mathematical value of an [`Error`].
pub enum ErrorView {
    Neo4j(neo4j::ErrorView),
}

impl View for Error {
    type V = ErrorView;

    open spec fn view(&self) -> ErrorView {
        match self {
            Error::Neo4j(e) => ErrorView::Neo4j(e@),
        }
    }
}

impl Clone for Error {
    fn clone(&self) -> (r: Self)
        ensures
            r@ == self@,
    {
        match self {
            Error::Neo4j(e) => Error::Neo4j(e.clone()),
        }
    }
}

impl Error {
    /// Whether the error says that what was looked for is not stored.
    pub open spec fn is_not_found(self) -> bool {
        self@ == ErrorView::Neo4j(neo4j::ErrorView::NoArgumentFound) || self@ == ErrorView::Neo4j(
            neo4j::ErrorView::NoRelationFound,
        )
    }
}

impl ErrorView {
    /// What the error says.
    pub open spec fn message(self) -> Seq<char> {
        match self {
            ErrorView::Neo4j(e) => "Neo4j repository client error: "@ + e.message(),
        }
    }
}

impl Error {
    /// Says what went wrong, for a reader.
    pub fn to_message(&self) -> (r: String)
        ensures
            r@ == self@.message(),
    {
        match self {
            Error::Neo4j(e) => "Neo4j repository client error: ".to_owned().concat(
                e.to_message().as_str(),
            ),
        }
    }
}

impl View for Repository {
    type V = RepositoryCfgView;

    open spec fn view(&self) -> RepositoryCfgView {
        match self {
            Repository::Neo4j(store) => RepositoryCfgView::Neo4j { neo4j: store@ },
        }
    }
}

/// A backend's result as the repository's.
pub open spec fn lifted<T>(r: Result<T, neo4j::ErrorView>) -> Result<T, ErrorView> {
    match r {
        Ok(v) => Ok(v),
        Err(e) => Err(ErrorView::Neo4j(e)),
    }
}

/// The view of a result without a value.
pub open spec fn done_view(r: Result<(), Error>) -> Result<(), ErrorView> {
    match r {
        Ok(()) => Ok(()),
        Err(e) => Err(e@),
    }
}

/// The view of a looked-up argument.
pub open spec fn argument_view(r: Result<Argument, Error>) -> Result<ArgumentView, ErrorView> {
    match r {
        Ok(arg) => Ok(arg@),
        Err(e) => Err(e@),
    }
}

/// The view of a looked-up relation.
pub open spec fn relation_view(r: Result<Relation, Error>) -> Result<RelationView, ErrorView> {
    match r {
        Ok(relation) => Ok(relation@),
        Err(e) => Err(e@),
    }
}

impl Repository {
    /// The repository on the backend that the settings select, once that
    /// backend was reached; where it was not, `connected` says why and
    /// there is no repository.
    pub fn new(cfg: &RepositoryCfg, connected: Result<(), String>) -> (r: Result<Self, Error>)
        ensures
            match (connected, r) {
                (Ok(()), Ok(repository)) => repository@ == cfg@,
                (Err(d), Err(e)) => e@ == ErrorView::Neo4j(neo4j::ErrorView::Neo4jError(d@)),
                _ => false,
            },
    {
        match cfg {
            RepositoryCfg::Neo4j { neo4j } => match Neo4j::new(neo4j, connected) {
                Ok(store) => Ok(Repository::Neo4j(store)),
                Err(e) => Err(Error::Neo4j(e)),
            },
        }
    }

    /// The statement that stores `arg`.
    pub fn add_argument(&self, arg: &Argument) -> (r: Statement)
        ensures
            r@ == create_argument(arg@),
    {
        match self {
            Repository::Neo4j(store) => store.add_argument(arg),
        }
    }

    /// Reads what running the statement of `add_argument` gave.
    pub fn argument_added(&self, outcome: Result<(), String>) -> (r: Result<(), Error>)
        ensures
            done_view(r) == lifted(argument_stored(outcome)),
    {
        match self {
            Repository::Neo4j(store) => match store.argument_added(outcome) {
                Ok(()) => Ok(()),
                Err(e) => Err(Error::Neo4j(e)),
            },
        }
    }

    /// The statement that looks up the argument stored under `arg_id`.
    pub fn retrieve_argument(&self, arg_id: u32) -> (r: Statement)
        ensures
            r@ == match_argument(arg_id),
    {
        match self {
            Repository::Neo4j(store) => store.retrieve_argument(arg_id),
        }
    }

    /// Reads what running the statement of `retrieve_argument` gave.
    pub fn argument_retrieved(&self, fetched: Fetched<NodeRecord>) -> (r: Result<Argument, Error>)
        ensures
            argument_view(r) == lifted(argument_of(fetched)),
    {
        match self {
            Repository::Neo4j(store) => match store.argument_retrieved(fetched) {
                Ok(arg) => Ok(arg),
                Err(e) => Err(Error::Neo4j(e)),
            },
        }
    }

    /// The statement that stores `relation`.
    pub fn add_relation(&self, relation: &Relation) -> (r: Statement)
        ensures
            r@ == create_relation(relation@),
    {
        match self {
            Repository::Neo4j(store) => store.add_relation(relation),
        }
    }

    /// Reads what running the statement of `add_relation` gave.
    pub fn relation_added(&self, outcome: Result<u64, String>) -> (r: Result<(), Error>)
        ensures
            done_view(r) == lifted(relation_stored(outcome)),
    {
        match self {
            Repository::Neo4j(store) => match store.relation_added(outcome) {
                Ok(()) => Ok(()),
                Err(e) => Err(Error::Neo4j(e)),
            },
        }
    }

    /// The statement that looks up the edge from the argument stored under
    /// `arg_a_id` to the one stored under `arg_b_id`.
    pub fn retrieve_relation(&self, arg_a_id: u32, arg_b_id: u32) -> (r: Statement)
        ensures
            r@ == match_relation(arg_a_id, arg_b_id),
    {
        match self {
            Repository::Neo4j(store) => store.retrieve_relation(arg_a_id, arg_b_id),
        }
    }

    /// Reads what running the statement of `retrieve_relation` gave.
    pub fn relation_retrieved(&self, arg_a_id: u32, arg_b_id: u32, fetched: Fetched<EdgeRecord>)
        -> (r: Result<Relation, Error>)
        ensures
            relation_view(r) == lifted(relation_of(arg_a_id, arg_b_id, fetched)),
    {
        match self {
            Repository::Neo4j(store) => match store.relation_retrieved(
                arg_a_id,
                arg_b_id,
                fetched,
            ) {
                Ok(relation) => Ok(relation),
                Err(e) => Err(Error::Neo4j(e)),
            },
        }
    }
}

} // verus!
