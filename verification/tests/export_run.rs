use liaisons::clients::repository::neo4j::{EdgeRecord, Fetched, NodeRecord, ParamValue,
    Statement};
use liaisons::configuration::settings::{Neo4jCfg, RepositoryCfg};
use liaisons::models::RelationType;
use liaisons::subcommands::export::{export, Action, Error, Event, ExportCfg, ExportOutput,
    ExportRun};
use std::path::PathBuf;

fn export_cfg(args_id: Vec<u32>) -> ExportCfg {
    ExportCfg {
        repo_cfg: RepositoryCfg::Neo4j {
            neo4j: Neo4jCfg {
                uri: String::from("localhost:7687"),
                user: String::from("neo4j"),
                password: String::from("secret"),
            },
        },
        args_id,
        file_path: PathBuf::from("/tmp/export.json"),
    }
}

fn id_of(statement: &Statement, name: &str) -> u32 {
    for p in &statement.params {
        if p.name == name {
            if let ParamValue::Id(id) = &p.value {
                return *id;
            }
        }
    }
    panic!("no identifier parameter {}", name)
}

struct Seen {
    lookups: Vec<u32>,
    edge_lookups: Vec<(u32, u32)>,
    written: Option<ExportOutput>,
    end: Result<(), Error>,
}

/// Drives a run to its end against a store that knows the arguments in
/// `known` and, between any two of them but the pairs in `missing`, an
/// edge labelled `Support`. The write ends as `write` says.
fn drive_export(mut run: ExportRun, known: Vec<u32>, missing: Vec<(u32, u32)>, write: Event)
    -> Seen {
    let mut write = Some(write);
    let mut seen =
        Seen { lookups: Vec::new(), edge_lookups: Vec::new(), written: None, end: Ok(()) };
    loop {
        let event = match run.action() {
            Action::Connect => Event::Connected(Ok(())),
            Action::RetrieveArgument(statement) => {
                let id = id_of(&statement, "id");
                seen.lookups.push(id);
                if known.contains(&id) {
                    Event::ArgumentRetrieved(Fetched::Row(Ok(NodeRecord {
                        id,
                        title: Ok(format!("title {}", id)),
                        summary: Ok(format!("summary {}", id)),
                        raw: Ok(format!("raw {}", id)),
                    })))
                } else {
                    Event::ArgumentRetrieved(Fetched::Empty)
                }
            },
            Action::RetrieveRelation(statement) => {
                let ends = (id_of(&statement, "id_a"), id_of(&statement, "id_b"));
                seen.edge_lookups.push(ends);
                if missing.contains(&ends) {
                    Event::RelationRetrieved(Fetched::Empty)
                } else {
                    Event::RelationRetrieved(Fetched::Row(Ok(EdgeRecord {
                        typ: String::from("Support"),
                    })))
                }
            },
            Action::Write(output) => {
                seen.written = Some(output);
                write.take().expect("one write")
            },
            Action::Finish(end) => {
                seen.end = end;
                break;
            },
        };
        run = run.step(event);
    }
    assert!(run.is_over());
    seen
}

#[test]
fn arguments_and_relations_are_exported_whole() {
    let seen = drive_export(export(export_cfg(vec![1, 2, 3])), vec![1, 2, 3], vec![], Event::Written);
    assert!(seen.end.is_ok());
    assert_eq!(seen.lookups, vec![1, 2, 3]);
    assert_eq!(seen.edge_lookups, vec![(1, 2), (1, 3), (2, 1), (2, 3), (3, 1), (3, 2)]);
    let output = seen.written.expect("an export");
    let ids: Vec<Option<u32>> = output.arguments.iter().map(|a| a.id).collect();
    assert_eq!(ids, vec![Some(1), Some(2), Some(3)]);
    assert_eq!(output.arguments[1].raw, "raw 2");
    assert_eq!(output.arguments[1].summarized_info.title, "title 2");
    let ends: Vec<(u32, u32)> =
        output.relations.iter().map(|r| (r.arg_a_id, r.arg_b_id)).collect();
    assert_eq!(ends, vec![(1, 2), (1, 3), (2, 1), (2, 3), (3, 1), (3, 2)]);
    assert!(output.relations.iter().all(|r| r.relation_type == RelationType::Support));
}

#[test]
fn a_single_argument_is_exported_without_relations() {
    let seen = drive_export(export(export_cfg(vec![5])), vec![5], vec![], Event::Written);
    assert!(seen.end.is_ok());
    assert!(seen.edge_lookups.is_empty());
    let output = seen.written.expect("an export");
    assert_eq!(output.arguments.len(), 1);
    assert!(output.relations.is_empty());
}

#[test]
fn a_missing_argument_ends_the_export() {
    let seen = drive_export(export(export_cfg(vec![1, 2])), vec![1], vec![], Event::Written);
    assert!(matches!(seen.end, Err(Error::RepositoryError(_))));
    assert!(seen.edge_lookups.is_empty());
    assert!(seen.written.is_none());
}

#[test]
fn a_missing_relation_ends_the_export() {
    let seen =
        drive_export(export(export_cfg(vec![1, 2])), vec![1, 2], vec![(2, 1)], Event::Written);
    assert!(matches!(
        seen.end,
        Err(Error::RepositoryError(liaisons::clients::repository::Error::Neo4j(
            liaisons::clients::repository::neo4j::Error::NoRelationFound
        )))
    ));
    assert_eq!(seen.edge_lookups, vec![(1, 2), (2, 1)]);
    assert!(seen.written.is_none());
}

#[test]
fn a_file_that_cannot_be_written_ends_the_export() {
    let seen = drive_export(
        export(export_cfg(vec![1, 2])),
        vec![1, 2],
        vec![],
        Event::Unwritable(String::from("permission denied")),
    );
    match seen.end {
        Err(Error::IOError(d)) => assert_eq!(d, "permission denied"),
        other => panic!("unexpected {:?}", other),
    }
    let seen = drive_export(
        export(export_cfg(vec![1, 2])),
        vec![1, 2],
        vec![],
        Event::Unserializable(String::from("key must be a string")),
    );
    assert!(matches!(seen.end, Err(Error::SerializationError(_))));
}

#[test]
fn the_run_knows_where_to_write() {
    let run = export(export_cfg(vec![]));
    assert_eq!(run.file_path(), &PathBuf::from("/tmp/export.json"));
    assert!(!run.is_over());
    let run = run.step(Event::Written);
    assert!(matches!(run.action(), Action::Connect));
    let run = run.step(Event::Connected(Ok(())));
    assert!(matches!(run.action(), Action::Write(_)));
    let run = run.step(Event::Written);
    assert!(run.is_over());
    assert!(matches!(run.action(), Action::Finish(Ok(()))));
}
