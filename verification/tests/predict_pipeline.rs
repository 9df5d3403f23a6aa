use liaisons::clients::llm::ollama::{GenerateReply, GenerateRequestBody};
use liaisons::clients::repository::neo4j::{Fetched, NodeRecord, ParamValue, Statement};
use liaisons::configuration::settings::{LLMCfg, Neo4jCfg, OllamaCfg, Prompt, RepositoryCfg};
use liaisons::subcommands::predict::{predict_relations, Action, Error, Event, PairState,
    PredictPipeline, PredictRelationCfg};
use liaisons::subcommands::ItemError;

fn predict_cfg(args_id: Vec<u32>) -> PredictRelationCfg {
    PredictRelationCfg {
        llm_cfg: LLMCfg::Ollama {
            ollama: OllamaCfg {
                uri: String::from("http://localhost:11434"),
                model: String::from("gemma:2b"),
            },
        },
        repo_cfg: RepositoryCfg::Neo4j {
            neo4j: Neo4jCfg {
                uri: String::from("localhost:7687"),
                user: String::from("neo4j"),
                password: String::from("secret"),
            },
        },
        prompt: Prompt { system: None, prompt: String::from("How does Arg1 relate to Arg2?") },
        args_id,
    }
}

fn says(text: &str) -> GenerateReply {
    GenerateReply::Answered {
        status: 200,
        response: Ok(String::from(text)),
        error: Err(String::from("missing field `error`")),
    }
}

fn node(id: u32) -> Fetched<NodeRecord> {
    Fetched::Row(Ok(NodeRecord {
        id,
        title: Ok(format!("title {}", id)),
        summary: Ok(format!("summary {}", id)),
        raw: Ok(format!("raw {}", id)),
    }))
}

fn id_param(statement: &Statement, name: &str) -> u32 {
    for p in &statement.params {
        if p.name == name {
            if let ParamValue::Id(id) = &p.value {
                return *id;
            }
        }
    }
    panic!("no identifier parameter {}", name)
}

/// What a mock model and a mock store saw during a run.
struct Seen {
    lookups: Vec<u32>,
    requests: Vec<GenerateRequestBody>,
    stored: Vec<Statement>,
    errors: Vec<ItemError>,
    end: Result<(), Error>,
    states: Vec<PairState>,
    pairs: Vec<(usize, usize)>,
}

/// Drives a run to its end. The store knows the arguments whose
/// identifier is in `known`; the model answers the k-th request with
/// `replies[k]`; the k-th storing attempt returns `rows[k]` rows, or
/// fails where that is `None`.
fn drive(
    mut run: PredictPipeline,
    connected: Result<(), String>,
    known: Vec<u32>,
    replies: Vec<GenerateReply>,
    rows: Vec<Option<u64>>,
) -> Seen {
    let mut replies = replies.into_iter();
    let mut rows = rows.into_iter();
    let mut connected = Some(connected);
    let mut seen = Seen {
        lookups: Vec::new(),
        requests: Vec::new(),
        stored: Vec::new(),
        errors: Vec::new(),
        end: Ok(()),
        states: Vec::new(),
        pairs: Vec::new(),
    };
    loop {
        let event = match run.action() {
            Action::Connect => Event::Connected(connected.take().expect("one connection")),
            Action::Retrieve(statement) => {
                assert_eq!(statement.text, "MATCH (p:Argument) WHERE ID(p) = $id RETURN p");
                let id = id_param(&statement, "id");
                seen.lookups.push(id);
                if known.contains(&id) {
                    Event::Retrieved(node(id))
                } else {
                    Event::Retrieved(Fetched::Empty)
                }
            },
            Action::Generate { url, body } => {
                assert_eq!(url, "http://localhost:11434/api/generate");
                seen.requests.push(body);
                Event::Generated(replies.next().expect("a reply for each request"))
            },
            Action::Store(statement) => match rows.next().expect("an outcome for each store") {
                Some(n) => {
                    if n > 0 {
                        seen.stored.push(statement);
                    }
                    Event::Stored(Ok(n))
                },
                None => Event::Stored(Err(String::from("connection reset"))),
            },
            Action::Finish(end) => {
                seen.end = end;
                break;
            },
        };
        let (next, error) = run.step(event);
        run = next;
        if let Some(e) = error {
            seen.errors.push(e);
        }
    }
    assert!(run.is_over());
    seen.states = run.states();
    seen.pairs = run.pairs();
    seen
}

#[test]
fn two_arguments_give_two_directed_edges() {
    let seen = drive(
        predict_relations(predict_cfg(vec![1, 2])),
        Ok(()),
        vec![1, 2],
        vec![says("Relation: Attack"), says("Relation: Support")],
        vec![Some(1), Some(1)],
    );
    assert!(seen.end.is_ok());
    assert!(seen.errors.is_empty());
    assert_eq!(seen.lookups, vec![1, 2]);
    assert_eq!(seen.pairs, vec![(0, 1), (1, 0)]);
    assert_eq!(seen.states, vec![PairState::Stored, PairState::Stored]);
    assert_eq!(seen.stored.len(), 2);
    assert_eq!(
        seen.stored[0].text,
        "MATCH (a:Argument), (b:Argument) WHERE ID(a) = $id_a AND ID(b) = $id_b CREATE (a)-[:Attack]->(b) RETURN ID(a)"
    );
    assert_eq!(id_param(&seen.stored[0], "id_a"), 1);
    assert_eq!(id_param(&seen.stored[0], "id_b"), 2);
    assert_eq!(
        seen.stored[1].text,
        "MATCH (a:Argument), (b:Argument) WHERE ID(a) = $id_a AND ID(b) = $id_b CREATE (a)-[:Support]->(b) RETURN ID(a)"
    );
    assert_eq!(id_param(&seen.stored[1], "id_a"), 2);
    assert_eq!(id_param(&seen.stored[1], "id_b"), 1);
}

#[test]
fn requests_name_the_first_argument_first() {
    let seen = drive(
        predict_relations(predict_cfg(vec![1, 2])),
        Ok(()),
        vec![1, 2],
        vec![says("Relation: Attack"), says("Relation: Support")],
        vec![Some(1), Some(1)],
    );
    assert_eq!(seen.requests.len(), 2);
    assert_eq!(seen.requests[0].model, "gemma:2b");
    assert_eq!(
        seen.requests[0].prompt,
        "How does Arg1 relate to Arg2?\n\nArg1:raw 1\nArg2:raw 2\n"
    );
    assert_eq!(
        seen.requests[1].prompt,
        "How does Arg1 relate to Arg2?\n\nArg1:raw 2\nArg2:raw 1\n"
    );
    assert_eq!(seen.requests[0].system, None);
    assert!(!seen.requests[0].stream);
}

#[test]
fn three_arguments_give_six_attempts() {
    let seen = drive(
        predict_relations(predict_cfg(vec![7, 8, 9])),
        Ok(()),
        vec![7, 8, 9],
        vec![
            says("Relation: Support"),
            says("Relation: Attack"),
            says("Relation: not related"),
            says("Relation: Support"),
            says("nothing of the kind"),
            says("Relation: attack"),
        ],
        vec![Some(1); 6],
    );
    assert!(seen.end.is_ok());
    assert_eq!(seen.pairs, vec![(0, 1), (0, 2), (1, 0), (1, 2), (2, 0), (2, 1)]);
    assert_eq!(seen.requests.len(), 3 * 3 - 3);
    assert_eq!(seen.states, vec![PairState::Stored; 6]);
    let labels: Vec<bool> = [":Support]", ":Attack]", ":NotRelated]", ":Support]", ":NotRelated]",
        ":Attack]"]
        .iter()
        .zip(seen.stored.iter())
        .map(|(label, statement)| statement.text.contains(label))
        .collect();
    assert_eq!(labels, vec![true; 6]);
    let ends: Vec<(u32, u32)> =
        seen.stored.iter().map(|s| (id_param(s, "id_a"), id_param(s, "id_b"))).collect();
    assert_eq!(ends, vec![(7, 8), (7, 9), (8, 7), (8, 9), (9, 7), (9, 8)]);
}

#[test]
fn an_identifier_given_twice_is_not_paired_with_itself() {
    let seen = drive(
        predict_relations(predict_cfg(vec![1, 1, 2])),
        Ok(()),
        vec![1, 2],
        vec![
            says("Relation: Support"),
            says("Relation: Support"),
            says("Relation: Support"),
            says("Relation: Support"),
        ],
        vec![Some(1); 4],
    );
    assert!(seen.end.is_ok());
    assert_eq!(seen.pairs, vec![(0, 2), (1, 2), (2, 0), (2, 1)]);
}

#[test]
fn a_single_argument_has_no_pair() {
    let seen =
        drive(predict_relations(predict_cfg(vec![5])), Ok(()), vec![5], vec![], vec![]);
    assert!(seen.end.is_ok());
    assert_eq!(seen.lookups, vec![5]);
    assert!(seen.requests.is_empty());
    assert!(seen.pairs.is_empty());
}

#[test]
fn no_argument_at_all_is_over_once_the_store_is_reached() {
    let seen = drive(predict_relations(predict_cfg(vec![])), Ok(()), vec![], vec![], vec![]);
    assert!(seen.end.is_ok());
    assert!(seen.lookups.is_empty());
    assert!(seen.requests.is_empty());
}

#[test]
fn an_unknown_argument_ends_the_run_before_any_pair() {
    let seen = drive(
        predict_relations(predict_cfg(vec![1, 2, 3])),
        Ok(()),
        vec![1, 3],
        vec![],
        vec![],
    );
    match seen.end {
        Err(Error::RepositoryError(e)) => assert!(matches!(
            e,
            liaisons::clients::repository::Error::Neo4j(
                liaisons::clients::repository::neo4j::Error::NoArgumentFound
            )
        )),
        Ok(()) => panic!("the run must fail"),
    }
    assert_eq!(seen.lookups, vec![1, 2]);
    assert!(seen.requests.is_empty());
    assert!(seen.stored.is_empty());
    assert!(seen.pairs.is_empty());
}

#[test]
fn an_unreachable_store_ends_the_run_before_any_lookup() {
    let seen = drive(
        predict_relations(predict_cfg(vec![1, 2])),
        Err(String::from("connection refused")),
        vec![1, 2],
        vec![],
        vec![],
    );
    assert!(matches!(seen.end, Err(Error::RepositoryError(_))));
    assert!(seen.lookups.is_empty());
    assert!(seen.requests.is_empty());
}

#[test]
fn a_failing_request_does_not_stop_the_pairs_after_it() {
    let seen = drive(
        predict_relations(predict_cfg(vec![1, 2, 3])),
        Ok(()),
        vec![1, 2, 3],
        vec![
            says("Relation: Support"),
            says("Relation: Support"),
            GenerateReply::Unreachable(String::from("timed out")),
            says("Relation: Attack"),
            says("Relation: Attack"),
            says("Relation: Attack"),
        ],
        vec![Some(1); 5],
    );
    assert!(seen.end.is_ok());
    assert_eq!(seen.requests.len(), 6);
    assert_eq!(
        seen.states,
        vec![
            PairState::Stored,
            PairState::Stored,
            PairState::Failed,
            PairState::Stored,
            PairState::Stored,
            PairState::Stored
        ]
    );
    assert_eq!(seen.stored.len(), 5);
    assert_eq!(seen.errors.len(), 1);
    assert!(matches!(seen.errors[0], ItemError::Llm(_)));
}

#[test]
fn a_failing_store_does_not_stop_the_pairs_after_it() {
    let seen = drive(
        predict_relations(predict_cfg(vec![1, 2])),
        Ok(()),
        vec![1, 2],
        vec![says("Relation: Attack"), says("Relation: Support")],
        vec![None, Some(1)],
    );
    assert!(seen.end.is_ok());
    assert_eq!(seen.states, vec![PairState::Failed, PairState::Stored]);
    assert_eq!(seen.stored.len(), 1);
    assert_eq!(id_param(&seen.stored[0], "id_a"), 2);
    assert_eq!(seen.errors.len(), 1);
    assert!(matches!(seen.errors[0], ItemError::Repository(_)));
}

#[test]
fn an_edge_without_its_ends_is_not_stored() {
    let seen = drive(
        predict_relations(predict_cfg(vec![1, 2])),
        Ok(()),
        vec![1, 2],
        vec![says("Relation: Attack"), says("Relation: Support")],
        vec![Some(0), Some(1)],
    );
    assert!(seen.end.is_ok());
    assert_eq!(seen.states, vec![PairState::Failed, PairState::Stored]);
    assert_eq!(seen.errors.len(), 1);
    assert!(matches!(
        seen.errors[0],
        ItemError::Repository(liaisons::clients::repository::Error::Neo4j(
            liaisons::clients::repository::neo4j::Error::NoArgumentFound
        ))
    ));
}

#[test]
fn a_node_without_its_text_ends_the_run() {
    let run = predict_relations(predict_cfg(vec![1]));
    let (run, _) = run.step(Event::Connected(Ok(())));
    let (run, _) = run.step(Event::Retrieved(Fetched::Row(Ok(NodeRecord {
        id: 1,
        title: Ok(String::from("t")),
        summary: Ok(String::from("s")),
        raw: Err(String::from("property raw is missing")),
    }))));
    assert!(run.is_over());
    match run.action() {
        Action::Finish(Err(Error::RepositoryError(
            liaisons::clients::repository::Error::Neo4j(
                liaisons::clients::repository::neo4j::Error::Neo4jDeError(d),
            ),
        ))) => assert_eq!(d, "property raw is missing"),
        other => panic!("unexpected action {:?}", other),
    }
}
