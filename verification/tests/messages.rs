use liaisons::clients::llm;
use liaisons::clients::llm::ollama;
use liaisons::clients::llm::response::{Field, ParseError};
use liaisons::clients::repository;
use liaisons::clients::repository::neo4j;
use liaisons::subcommands::{export, predict, summarize, ItemError};

#[test]
fn a_text_that_is_no_summary_says_what_it_lacks() {
    assert_eq!(
        ParseError::MissingField(Field::Title).to_message(),
        "no \"Title\" element found in LLM response"
    );
    assert_eq!(
        ParseError::MissingField(Field::Summary).to_message(),
        "no \"Summary\" element found in LLM response"
    );
    assert_eq!(ParseError::MalformedResponse.to_message(), "no element found in LLM response");
}

#[test]
fn fields_have_their_names() {
    assert_eq!(Field::Title.name(), "title");
    assert_eq!(Field::Summary.name(), "summary");
}

#[test]
fn a_failure_of_the_model_says_where_it_comes_from() {
    assert_eq!(
        ollama::Error::ApiError(String::from("model not found")).to_message(),
        "api error: model not found"
    );
    assert_eq!(
        ollama::Error::RequestError(String::from("connection refused")).to_message(),
        "request error: connection refused"
    );
    assert_eq!(
        ollama::Error::ResponseParsingError(ParseError::MalformedResponse).to_message(),
        "response parsing error: no element found in LLM response"
    );
    assert_eq!(
        llm::Error::Ollama(ollama::Error::ApiError(String::from("busy"))).to_message(),
        "ollama client error: api error: busy"
    );
}

#[test]
fn a_failure_of_the_store_says_where_it_comes_from() {
    assert_eq!(
        neo4j::Error::Neo4jError(String::from("connection reset")).to_message(),
        "neo4j error: connection reset"
    );
    assert_eq!(
        neo4j::Error::Neo4jDeError(String::from("no such property")).to_message(),
        "neo4j deserialization error: no such property"
    );
    assert_eq!(
        neo4j::Error::NoArgumentFound.to_message(),
        "no argument found for given request"
    );
    assert_eq!(
        neo4j::Error::NoRelationFound.to_message(),
        "no relation found for given request"
    );
    assert_eq!(
        repository::Error::Neo4j(neo4j::Error::NoArgumentFound).to_message(),
        "Neo4j repository client error: no argument found for given request"
    );
}

#[test]
fn a_failure_of_a_run_says_where_it_comes_from() {
    let store = || repository::Error::Neo4j(neo4j::Error::Neo4jError(String::from("down")));
    assert_eq!(
        summarize::Error::IOError(String::from("No such file")).to_message(),
        "io error: No such file"
    );
    assert_eq!(
        summarize::Error::SerializationError(String::from("expected value")).to_message(),
        "serialization error: expected value"
    );
    assert_eq!(
        summarize::Error::RepositoryError(store()).to_message(),
        "repository error: Neo4j repository client error: neo4j error: down"
    );
    assert_eq!(
        predict::Error::RepositoryError(store()).to_message(),
        "repository error: Neo4j repository client error: neo4j error: down"
    );
    assert_eq!(
        export::Error::IOError(String::from("permission denied")).to_message(),
        "io error: permission denied"
    );
    assert_eq!(
        export::Error::SerializationError(String::from("bad key")).to_message(),
        "serialization error: bad key"
    );
    assert_eq!(
        export::Error::RepositoryError(store()).to_message(),
        "repository error: Neo4j repository client error: neo4j error: down"
    );
}

#[test]
fn what_is_given_up_says_why() {
    assert_eq!(
        ItemError::Llm(llm::Error::Ollama(ollama::Error::RequestError(String::from("timeout"))))
            .to_message(),
        "llm client error: ollama client error: request error: timeout"
    );
    assert_eq!(
        ItemError::Repository(repository::Error::Neo4j(neo4j::Error::NoArgumentFound))
            .to_message(),
        "repository error: Neo4j repository client error: no argument found for given request"
    );
}

#[test]
fn errors_are_copied_whole() {
    let e = summarize::Error::RepositoryError(repository::Error::Neo4j(
        neo4j::Error::Neo4jDeError(String::from("x")),
    ));
    assert_eq!(e.clone().to_message(), e.to_message());
    let e = export::Error::IOError(String::from("y"));
    assert_eq!(e.clone().to_message(), "io error: y");
    let e = predict::Error::RepositoryError(repository::Error::Neo4j(
        neo4j::Error::NoRelationFound,
    ));
    assert_eq!(e.clone().to_message(), e.to_message());
}
