use liaisons::clients::llm;
use liaisons::clients::llm::ollama::{completion, status_is_success, Client, Error,
    GenerateReply};
use liaisons::clients::llm::response::{Field, ParseError};
use liaisons::configuration::settings::{LLMCfg, OllamaCfg, Prompt};
use liaisons::models::{Argument, RelationType, SummarizedInfo};

fn ollama() -> OllamaCfg {
    OllamaCfg { uri: String::from("http://ollama:11434"), model: String::from("llama3") }
}

fn answered(status: u16, response: Result<&str, &str>, error: Result<&str, &str>)
    -> GenerateReply {
    GenerateReply::Answered {
        status,
        response: response.map(String::from).map_err(String::from),
        error: error.map(String::from).map_err(String::from),
    }
}

fn stored(id: u32, raw: &str) -> Argument {
    Argument::with_id(
        id,
        SummarizedInfo { title: String::from("t"), summary: String::from("s") },
        String::from(raw),
    )
}

#[test]
fn statuses_from_200_to_299_report_success() {
    assert!(!status_is_success(199));
    assert!(status_is_success(200));
    assert!(status_is_success(204));
    assert!(status_is_success(299));
    assert!(!status_is_success(300));
    assert!(!status_is_success(404));
    assert!(!status_is_success(500));
    assert!(!status_is_success(0));
}

#[test]
fn a_success_holds_the_completed_text() {
    let r = completion(answered(200, Ok("hello"), Err("missing field `error`")));
    assert_eq!(r.unwrap(), "hello");
}

#[test]
fn an_error_status_holds_the_message_of_the_server() {
    match completion(answered(404, Err("missing field `response`"), Ok("model not found"))) {
        Err(Error::ApiError(m)) => assert_eq!(m, "model not found"),
        other => panic!("unexpected {:?}", other),
    }
    match completion(answered(500, Ok("ignored"), Ok("out of memory"))) {
        Err(Error::ApiError(m)) => assert_eq!(m, "out of memory"),
        other => panic!("unexpected {:?}", other),
    }
}

#[test]
fn a_body_that_cannot_be_read_fails_as_a_request() {
    match completion(answered(200, Err("expected value"), Ok("ignored"))) {
        Err(Error::RequestError(d)) => assert_eq!(d, "expected value"),
        other => panic!("unexpected {:?}", other),
    }
    match completion(answered(502, Ok("ignored"), Err("EOF while parsing"))) {
        Err(Error::RequestError(d)) => assert_eq!(d, "EOF while parsing"),
        other => panic!("unexpected {:?}", other),
    }
}

#[test]
fn a_request_without_an_answer_fails_as_a_request() {
    match completion(GenerateReply::Unreachable(String::from("connection refused"))) {
        Err(Error::RequestError(d)) => assert_eq!(d, "connection refused"),
        other => panic!("unexpected {:?}", other),
    }
}

#[test]
fn the_client_posts_to_the_generate_endpoint() {
    let client = Client::new(&ollama());
    assert_eq!(client.model, "llama3");
    assert_eq!(client.uri, "http://ollama:11434");
    assert_eq!(client.endpoint(), "http://ollama:11434/api/generate");
    let client = llm::Client::new(&LLMCfg::Ollama { ollama: ollama() });
    assert_eq!(client.endpoint(), "http://ollama:11434/api/generate");
}

#[test]
fn a_summary_request_holds_prompt_and_content() {
    let client = Client::new(&ollama());
    let prompt = Prompt { system: None, prompt: String::from("Summarize.") };
    let body = client.summarize_request(&prompt, "X because Y");
    assert_eq!(body.model, "llama3");
    assert_eq!(body.prompt, "Summarize.\n\nArg:X because Y\n");
    assert_eq!(body.system, None);
    assert!(!body.stream);
    let prompt = Prompt { system: Some(String::from("Be brief.")), prompt: String::new() };
    let body = llm::Client::new(&LLMCfg::Ollama { ollama: ollama() })
        .summarize_request(&prompt, "");
    assert_eq!(body.prompt, "\n\nArg:\n");
    assert_eq!(body.system, Some(String::from("Be brief.")));
}

#[test]
fn a_relation_request_holds_both_arguments_in_order() {
    let client = Client::new(&ollama());
    let prompt = Prompt { system: Some(String::from("Classify.")), prompt: String::from("P") };
    let body = client.predict_request(&prompt, &stored(1, "first"), &stored(2, "second"));
    assert_eq!(body.prompt, "P\n\nArg1:first\nArg2:second\n");
    assert_eq!(body.system, Some(String::from("Classify.")));
    let body = client.predict_request(&prompt, &stored(2, "second"), &stored(1, "first"));
    assert_eq!(body.prompt, "P\n\nArg1:second\nArg2:first\n");
}

#[test]
fn a_summary_is_read_from_the_answer() {
    let client = Client::new(&ollama());
    let info = client
        .summarize(answered(200, Ok("Title: T\nSummary: S"), Err("no error field")))
        .unwrap();
    assert_eq!(info.title, "T");
    assert_eq!(info.summary, "S");
    match client.summarize(answered(200, Ok("Summary: S"), Err("no error field"))) {
        Err(Error::ResponseParsingError(e)) => {
            assert_eq!(e, ParseError::MissingField(Field::Title))
        },
        other => panic!("unexpected {:?}", other),
    }
    match client.parse_summarize_response(String::from("nothing")) {
        Err(Error::ResponseParsingError(e)) => assert_eq!(e, ParseError::MalformedResponse),
        other => panic!("unexpected {:?}", other),
    }
    assert!(matches!(
        client.summarize(GenerateReply::Unreachable(String::from("timeout"))),
        Err(Error::RequestError(_))
    ));
}

#[test]
fn a_relation_is_read_from_the_answer() {
    let client = Client::new(&ollama());
    let relation = client
        .predict(
            &stored(1, "a"),
            &stored(2, "b"),
            answered(200, Ok("Relation: Attack"), Err("no error field")),
        )
        .unwrap();
    assert_eq!(relation.arg_a_id, 1);
    assert_eq!(relation.arg_b_id, 2);
    assert_eq!(relation.relation_type, RelationType::Attack);
    assert_eq!(relation.confidence, 1000);
    assert_eq!(relation.explanation, "");
    let relation = client
        .predict(&stored(2, "b"), &stored(1, "a"), answered(200, Ok("no idea"), Err("none")))
        .unwrap();
    assert_eq!((relation.arg_a_id, relation.arg_b_id), (2, 1));
    assert_eq!(relation.relation_type, RelationType::NotRelated);
    assert_eq!(
        client.parse_predict_response(String::from("Relation: support")),
        RelationType::Support
    );
    assert!(matches!(
        client.predict(&stored(1, "a"), &stored(2, "b"), answered(500, Err("x"), Ok("busy"))),
        Err(Error::ApiError(_))
    ));
}

#[test]
fn the_client_hands_on_what_its_backend_gives() {
    let client = llm::Client::new(&LLMCfg::Ollama { ollama: ollama() });
    let info = client
        .summarize(answered(200, Ok("Title: T\nSummary: S"), Err("no error field")))
        .unwrap();
    assert_eq!((info.title.as_str(), info.summary.as_str()), ("T", "S"));
    assert!(matches!(
        client.summarize(answered(200, Ok("Title: T"), Err("none"))),
        Err(llm::Error::Ollama(Error::ResponseParsingError(ParseError::MissingField(
            Field::Summary
        ))))
    ));
    let relation = client
        .predict(&stored(3, "a"), &stored(4, "b"), answered(200, Ok("Relation: Support"), Err("")))
        .unwrap();
    assert_eq!(relation.relation_type, RelationType::Support);
    assert!(matches!(
        client.predict(&stored(3, "a"), &stored(4, "b"), answered(400, Err(""), Ok("bad"))),
        Err(llm::Error::Ollama(Error::ApiError(_)))
    ));
}
