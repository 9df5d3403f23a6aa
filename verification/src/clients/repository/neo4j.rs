//! A graph store that runs on a Neo4j server.
//!
//! The store says which statement to run for each operation and reads what
//! the server gave back; running a statement is left to whoever holds the
//! connection.

use vstd::prelude::*;
use vstd::string::StringExecFns;
use crate::configuration::settings::{Neo4jCfg, Neo4jCfgView};
use crate::models::{Argument, ArgumentView, Relation, RelationType, RelationView,
    SummarizedInfo, SummarizedInfoView};

verus! {

/// The value of a statement's parameter.
#[derive(Debug)]
pub enum ParamValue {
    Text(String),
    Id(u32),
}

/// The mathematical value of a [`ParamValue`].
pub enum ParamValueView {
    Text(Seq<char>),
    Id(u32),
}

impl View for ParamValue {
    type V = ParamValueView;

    open spec fn view(&self) -> ParamValueView {
        match self {
            ParamValue::Text(t) => ParamValueView::Text(t@),
            ParamValue::Id(id) => ParamValueView::Id(*id),
        }
    }
}

/// A named parameter of a statement.
#[derive(Debug)]
pub struct Param {
    pub name: String,
    pub value: ParamValue,
}

/// The mathematical value of a [`Param`].
pub struct ParamView {
    pub name: Seq<char>,
    pub value: ParamValueView,
}

impl View for Param {
    type V = ParamView;

    open spec fn view(&self) -> ParamView {
        ParamView { name: self.name@, value: self.value@ }
    }
}

/// A parameterized Cypher statement.
#[derive(Debug)]
pub struct Statement {
    pub text: String,
    pub params: Vec<Param>,
}

/// The mathematical value of a [`Statement`].
pub struct StatementView {
    pub text: Seq<char>,
    pub params: Seq<ParamView>,
}

impl View for Statement {
    type V = StatementView;

    open spec fn view(&self) -> StatementView {
        StatementView { text: self.text@, params: self.params@.map_values(|p: Param| p@) }
    }
}

/// A parameter that holds a text.
pub open spec fn text_param(name: Seq<char>, value: Seq<char>) -> ParamView {
    ParamView { name, value: ParamValueView::Text(value) }
}

/// A parameter that holds an identifier.
pub open spec fn id_param(name: Seq<char>, value: u32) -> ParamView {
    ParamView { name, value: ParamValueView::Id(value) }
}

/// The statement that creates the node of an argument: a node labelled
/// `Argument` with the title, the summary and the raw text as properties.
/// The server gives the node its identifier.
pub open spec fn create_argument(arg: ArgumentView) -> StatementView {
    StatementView {
        text: "CREATE (p:Argument {title: $title, summary: $summary, raw: $raw})"@,
        params: seq![
            text_param("title"@, arg.summarized_info.title),
            text_param("summary"@, arg.summarized_info.summary),
            text_param("raw"@, arg.raw),
        ],
    }
}

/// The statement that looks up the node of an argument by its identifier.
pub open spec fn match_argument(arg_id: u32) -> StatementView {
    StatementView {
        text: "MATCH (p:Argument) WHERE ID(p) = $id RETURN p"@,
        params: seq![id_param("id"@, arg_id)],
    }
}

/// The statement that creates the edge of a relation, labelled with the
/// canonical encoding of its kind, and returns one row for each edge that
/// it created: none where an end of the edge is no stored argument.
pub open spec fn create_relation(relation: RelationView) -> StatementView {
    StatementView {
        text:
            "MATCH (a:Argument), (b:Argument) WHERE ID(a) = $id_a AND ID(b) = $id_b CREATE (a)-[:"@
            + relation.relation_type.encoding() + "]->(b) RETURN ID(a)"@,
        params: seq![id_param("id_a"@, relation.arg_a_id), id_param("id_b"@, relation.arg_b_id)],
    }
}

/// The statement that looks up the edge from one argument to another.
pub open spec fn match_relation(arg_a_id: u32, arg_b_id: u32) -> StatementView {
    StatementView {
        text:
            "MATCH (a:Argument)-[r]->(b:Argument) WHERE id(a) = $id_a AND id(b) = $id_b RETURN r"@,
        params: seq![id_param("id_a"@, arg_a_id), id_param("id_b"@, arg_b_id)],
    }
}

/// A query of the Neo4j driver. Nothing here looks inside one.
#[verifier::external_type_specification]
#[verifier::external_body]
pub struct ExQuery(neo4rs::Query);

/// The Cypher text that a query of the driver holds.
pub uninterp spec fn query_text(query: neo4rs::Query) -> Seq<char>;

/// The parameters that a query of the driver holds, by name. A string of
/// the driver stands here as a text, an integer as an identifier.
pub uninterp spec fn query_params(query: neo4rs::Query) -> Map<Seq<char>, ParamValueView>;

/// Makes a query with `neo4rs::query`, which keeps the text as it is and
/// begins with no parameter.
#[verifier::external_body]
fn query_of_text(text: &str) -> (r: neo4rs::Query)
    ensures
        query_text(r) == text@,
        query_params(r) == params_by_name(Seq::empty()),
{
    neo4rs::query(text)
}

/// Gives a query a string parameter with `neo4rs::Query::param`, which
/// puts the value under the name, in the place of what stood there, and
/// leaves the text and the other parameters as they are.
#[verifier::external_body]
fn with_text_param(query: neo4rs::Query, name: &str, value: &str) -> (r: neo4rs::Query)
    ensures
        query_text(r) == query_text(query),
        query_params(r) == query_params(query).insert(name@, ParamValueView::Text(value@)),
{
    query.param(name, value)
}

/// Gives a query an integer parameter with `neo4rs::Query::param`, which
/// puts the value under the name, in the place of what stood there, and
/// leaves the text and the other parameters as they are.
#[verifier::external_body]
fn with_id_param(query: neo4rs::Query, name: &str, value: u32) -> (r: neo4rs::Query)
    ensures
        query_text(r) == query_text(query),
        query_params(r) == query_params(query).insert(name@, ParamValueView::Id(value)),
{
    query.param(name, value)
}

/// The parameters of a statement by name. Where a name occurs twice the
/// later value stands.
pub open spec fn params_by_name(params: Seq<ParamView>) -> Map<Seq<char>, ParamValueView>
    decreases params.len(),
{
    if params.len() == 0 {
        Map::empty()
    } else {
        params_by_name(params.drop_last()).insert(params.last().name, params.last().value)
    }
}

impl Statement {
    /// The statement as a query of the driver: the same text, with the
    /// same parameters.
    pub fn to_query(&self) -> (r: neo4rs::Query)
        ensures
            query_text(r) == self@.text,
            query_params(r) == params_by_name(self@.params),
    {
        let mut query = query_of_text(self.text.as_str());
        let mut k: usize = 0;
        while k < self.params.len()
            invariant
                k <= self.params.len(),
                query_text(query) == self@.text,
                query_params(query) == params_by_name(self@.params.take(k as int)),
            decreases self.params.len() - k,
        {
            let param = &self.params[k];
            proof {
                let now = self@.params.take(k + 1);
                assert(now.drop_last() =~= self@.params.take(k as int));
                assert(now.last() == param@);
            }
            query = match &param.value {
                ParamValue::Text(text) => with_text_param(
                    query,
                    param.name.as_str(),
                    text.as_str(),
                ),
                ParamValue::Id(id) => with_id_param(query, param.name.as_str(), *id),
            };
            k += 1;
        }
        proof {
            assert(self@.params.take(k as int) =~= self@.params);
        }
        query
    }
}

/// Why the store gave no result.
#[derive(Debug)]
pub enum Error {
    /// The server failed, or could not be reached.
    Neo4jError(String),
    /// What the server returned does not have the expected shape.
    Neo4jDeError(String),
    /// No stored argument has the identifier.
    NoArgumentFound,
    /// No edge leads from the one argument to the other.
    NoRelationFound,
}

/// The mathematical value of an [`Error`].
pub enum ErrorView {
    Neo4jError(Seq<char>),
    Neo4jDeError(Seq<char>),
    NoArgumentFound,
    NoRelationFound,
}

impl View for Error {
    type V = ErrorView;

    open spec fn view(&self) -> ErrorView {
        match self {
            Error::Neo4jError(d) => ErrorView::Neo4jError(d@),
            Error::Neo4jDeError(d) => ErrorView::Neo4jDeError(d@),
            Error::NoArgumentFound => ErrorView::NoArgumentFound,
            Error::NoRelationFound => ErrorView::NoRelationFound,
        }
    }
}

impl Clone for Error {
    fn clone(&self) -> (r: Self)
        ensures
            r@ == self@,
    {
        match self {
            Error::Neo4jError(d) => Error::Neo4jError(d.clone()),
            Error::Neo4jDeError(d) => Error::Neo4jDeError(d.clone()),
            Error::NoArgumentFound => Error::NoArgumentFound,
            Error::NoRelationFound => Error::NoRelationFound,
        }
    }
}

impl ErrorView {
    /// What the error says.
    pub open spec fn message(self) -> Seq<char> {
        match self {
            ErrorView::Neo4jError(d) => "neo4j error: "@ + d,
            ErrorView::Neo4jDeError(d) => "neo4j deserialization error: "@ + d,
            ErrorView::NoArgumentFound => "no argument found for given request"@,
            ErrorView::NoRelationFound => "no relation found for given request"@,
        }
    }
}

impl Error {
    /// Says what went wrong, for a reader.
    pub fn to_message(&self) -> (r: String)
        ensures
            r@ == self@.message(),
    {
        match self {
            Error::Neo4jError(d) => "neo4j error: ".to_owned().concat(d.as_str()),
            Error::Neo4jDeError(d) => "neo4j deserialization error: ".to_owned().concat(
                d.as_str(),
            ),
            Error::NoArgumentFound => "no argument found for given request".to_owned(),
            Error::NoRelationFound => "no relation found for given request".to_owned(),
        }
    }
}

/// What a statement that returns at most one row gave.
#[derive(Debug)]
pub enum Fetched<T> {
    /// The statement did not run; the text says why.
    Failed(String),
    /// The statement ran and returned no row.
    Empty,
    /// The first row: the value in it, or why it holds none of that shape.
    Row(Result<T, String>),
}

/// A node, as far as it is read here. Each property is the text that the
/// node holds under that name, or why it holds none.
#[derive(Debug)]
pub struct NodeRecord {
    /// The identifier that the server gave the node.
    pub id: u32,
    pub title: Result<String, String>,
    pub summary: Result<String, String>,
    pub raw: Result<String, String>,
}

/// An edge, as far as it is read here.
#[derive(Debug)]
pub struct EdgeRecord {
    /// The label of the edge.
    pub typ: String,
}

/// The text of a property, or why it has none.
pub open spec fn property(p: Result<String, String>) -> Result<Seq<char>, Seq<char>> {
    match p {
        Ok(t) => Ok(t@),
        Err(d) => Err(d@),
    }
}

/// The argument that a node stands for. The first property that cannot be
/// read, in the order title, summary, raw text, makes the node unreadable.
pub open spec fn argument_of_node(node: NodeRecord) -> Result<ArgumentView, ErrorView> {
    match (property(node.title), property(node.summary), property(node.raw)) {
        (Err(d), _, _) => Err(ErrorView::Neo4jDeError(d)),
        (Ok(_), Err(d), _) => Err(ErrorView::Neo4jDeError(d)),
        (Ok(_), Ok(_), Err(d)) => Err(ErrorView::Neo4jDeError(d)),
        (Ok(title), Ok(summary), Ok(raw)) => Ok(
            ArgumentView {
                id: Some(node.id),
                summarized_info: SummarizedInfoView { title, summary },
                raw,
            },
        ),
    }
}

/// The argument that a lookup gave.
pub open spec fn argument_of(fetched: Fetched<NodeRecord>) -> Result<ArgumentView, ErrorView> {
    match fetched {
        Fetched::Failed(d) => Err(ErrorView::Neo4jError(d@)),
        Fetched::Empty => Err(ErrorView::NoArgumentFound),
        Fetched::Row(Err(d)) => Err(ErrorView::Neo4jDeError(d@)),
        Fetched::Row(Ok(node)) => argument_of_node(node),
    }
}

/// The relation from `arg_a_id` to `arg_b_id` that a lookup gave. The kind
/// is the one that the edge's label names; confidence and rationale are
/// not stored and come back as every classification has them.
pub open spec fn relation_of(arg_a_id: u32, arg_b_id: u32, fetched: Fetched<EdgeRecord>) -> Result<
    RelationView,
    ErrorView,
> {
    match fetched {
        Fetched::Failed(d) => Err(ErrorView::Neo4jError(d@)),
        Fetched::Empty => Err(ErrorView::NoRelationFound),
        Fetched::Row(Err(d)) => Err(ErrorView::Neo4jDeError(d@)),
        Fetched::Row(Ok(edge)) => Ok(
            RelationView::classified(arg_a_id, arg_b_id, RelationType::decoded(edge.typ@)),
        ),
    }
}

/// What storing an argument came to.
pub open spec fn argument_stored(outcome: Result<(), String>) -> Result<(), ErrorView> {
    match outcome {
        Ok(()) => Ok(()),
        Err(d) => Err(ErrorView::Neo4jError(d@)),
    }
}

/// What storing a relation came to, given the number of edges that the
/// statement created: none was created where an end of the edge is no
/// stored argument.
pub open spec fn relation_stored(outcome: Result<u64, String>) -> Result<(), ErrorView> {
    match outcome {
        Ok(created) => if created == 0 {
            Err(ErrorView::NoArgumentFound)
        } else {
            Ok(())
        },
        Err(d) => Err(ErrorView::Neo4jError(d@)),
    }
}

/// The view of a result without a value.
pub open spec fn done_view(r: Result<(), Error>) -> Result<(), ErrorView> {
    match r {
        Ok(()) => Ok(()),
        Err(e) => Err(e@),
    }
}

/// The view of a looked-up argument.
pub open spec fn argument_view(r: Result<Argument, Error>) -> Result<ArgumentView, ErrorView> {
    match r {
        Ok(arg) => Ok(arg@),
        Err(e) => Err(e@),
    }
}

/// The view of a looked-up relation.
pub open spec fn relation_view(r: Result<Relation, Error>) -> Result<RelationView, ErrorView> {
    match r {
        Ok(relation) => Ok(relation@),
        Err(e) => Err(e@),
    }
}

/// A Neo4j server and the account to use on it.
#[derive(Debug)]
pub struct Neo4j {
    pub uri: String,
    pub user: String,
    pub password: String,
}

impl View for Neo4j {
    type V = Neo4jCfgView;

    open spec fn view(&self) -> Neo4jCfgView {
        Neo4jCfgView { uri: self.uri@, user: self.user@, password: self.password@ }
    }
}

impl Neo4j {
    /// The store on the server that the settings name, once the server was
    /// reached; where it was not, `connected` says why and there is no
    /// store.
    pub fn new(cfg: &Neo4jCfg, connected: Result<(), String>) -> (r: Result<Self, Error>)
        ensures
            match (connected, r) {
                (Ok(()), Ok(store)) => store@ == cfg@,
                (Err(d), Err(e)) => e@ == ErrorView::Neo4jError(d@),
                _ => false,
            },
    {
        match connected {
            Ok(()) => Ok(
                Neo4j {
                    uri: cfg.uri.clone(),
                    user: cfg.user.clone(),
                    password: cfg.password.clone(),
                },
            ),
            Err(d) => Err(Error::Neo4jError(d)),
        }
    }

    /// The statement that stores `arg`.
    pub fn add_argument(&self, arg: &Argument) -> (r: Statement)
        ensures
            r@ == create_argument(arg@),
    {
        let params = vec![
            Param {
                name: "title".to_owned(),
                value: ParamValue::Text(arg.summarized_info.title.clone()),
            },
            Param {
                name: "summary".to_owned(),
                value: ParamValue::Text(arg.summarized_info.summary.clone()),
            },
            Param { name: "raw".to_owned(), value: ParamValue::Text(arg.raw.clone()) },
        ];
        let r = Statement {
            text: "CREATE (p:Argument {title: $title, summary: $summary, raw: $raw})".to_owned(),
            params,
        };
        proof {
            assert(r@.params =~= create_argument(arg@).params);
        }
        r
    }

    /// Reads what running the statement of `add_argument` gave.
    pub fn argument_added(&self, outcome: Result<(), String>) -> (r: Result<(), Error>)
        ensures
            done_view(r) == argument_stored(outcome),
    {
        match outcome {
            Ok(()) => Ok(()),
            Err(d) => Err(Error::Neo4jError(d)),
        }
    }

    /// The statement that looks up the argument stored under `arg_id`.
    pub fn retrieve_argument(&self, arg_id: u32) -> (r: Statement)
        ensures
            r@ == match_argument(arg_id),
    {
        let params = vec![Param { name: "id".to_owned(), value: ParamValue::Id(arg_id) }];
        let r = Statement {
            text: "MATCH (p:Argument) WHERE ID(p) = $id RETURN p".to_owned(),
            params,
        };
        proof {
            assert(r@.params =~= match_argument(arg_id).params);
        }
        r
    }

    /// Reads what running the statement of `retrieve_argument` gave.
    pub fn argument_retrieved(&self, fetched: Fetched<NodeRecord>) -> (r: Result<Argument, Error>)
        ensures
            argument_view(r) == argument_of(fetched),
    {
        match fetched {
            Fetched::Failed(d) => Err(Error::Neo4jError(d)),
            Fetched::Empty => Err(Error::NoArgumentFound),
            Fetched::Row(Err(d)) => Err(Error::Neo4jDeError(d)),
            Fetched::Row(Ok(node)) => {
                let NodeRecord { id, title, summary, raw } = node;
                let title = match title {
                    Ok(t) => t,
                    Err(d) => {
                        return Err(Error::Neo4jDeError(d));
                    },
                };
                let summary = match summary {
                    Ok(t) => t,
                    Err(d) => {
                        return Err(Error::Neo4jDeError(d));
                    },
                };
                let raw = match raw {
                    Ok(t) => t,
                    Err(d) => {
                        return Err(Error::Neo4jDeError(d));
                    },
                };
                Ok(Argument::with_id(id, SummarizedInfo { title, summary }, raw))
            },
        }
    }

    /// The statement that stores `relation`.
    pub fn add_relation(&self, relation: &Relation) -> (r: Statement)
        ensures
            r@ == create_relation(relation@),
    {
        let mut text =
            "MATCH (a:Argument), (b:Argument) WHERE ID(a) = $id_a AND ID(b) = $id_b CREATE (a)-[:".to_owned();
        text.append(relation.relation_type.to_str());
        text.append("]->(b) RETURN ID(a)");
        let params = vec![
            Param { name: "id_a".to_owned(), value: ParamValue::Id(relation.arg_a_id) },
            Param { name: "id_b".to_owned(), value: ParamValue::Id(relation.arg_b_id) },
        ];
        let r = Statement { text, params };
        proof {
            assert(r@.params =~= create_relation(relation@).params);
        }
        r
    }

    /// Reads what running the statement of `add_relation` gave: the number
    /// of rows returned, or why it did not run.
    pub fn relation_added(&self, outcome: Result<u64, String>) -> (r: Result<(), Error>)
        ensures
            done_view(r) == relation_stored(outcome),
    {
        match outcome {
            Ok(created) => if created == 0 {
                Err(Error::NoArgumentFound)
            } else {
                Ok(())
            },
            Err(d) => Err(Error::Neo4jError(d)),
        }
    }

    /// The statement that looks up the edge from the argument stored under
    /// `arg_a_id` to the one stored under `arg_b_id`.
    pub fn retrieve_relation(&self, arg_a_id: u32, arg_b_id: u32) -> (r: Statement)
        ensures
            r@ == match_relation(arg_a_id, arg_b_id),
    {
        let params = vec![
            Param { name: "id_a".to_owned(), value: ParamValue::Id(arg_a_id) },
            Param { name: "id_b".to_owned(), value: ParamValue::Id(arg_b_id) },
        ];
        let r = Statement {
            text:
                "MATCH (a:Argument)-[r]->(b:Argument) WHERE id(a) = $id_a AND id(b) = $id_b RETURN r".to_owned(),
            params,
        };
        proof {
            assert(r@.params =~= match_relation(arg_a_id, arg_b_id).params);
        }
        r
    }

    /// Reads what running the statement of `retrieve_relation` gave.
    pub fn relation_retrieved(&self, arg_a_id: u32, arg_b_id: u32, fetched: Fetched<EdgeRecord>)
        -> (r: Result<Relation, Error>)
        ensures
            relation_view(r) == relation_of(arg_a_id, arg_b_id, fetched),
    {
        match fetched {
            Fetched::Failed(d) => Err(Error::Neo4jError(d)),
            Fetched::Empty => Err(Error::NoRelationFound),
            Fetched::Row(Err(d)) => Err(Error::Neo4jDeError(d)),
            Fetched::Row(Ok(edge)) => Ok(
                Relation::classified(arg_a_id, arg_b_id, RelationType::from(edge.typ.as_str())),
            ),
        }
    }
}

} // verus!
