use liaisons::configuration::cli::{Cli, Commands, Log as CliLog};
use liaisons::configuration::settings::{LLMCfg, Log, LogOutput, Neo4jCfg, OllamaCfg, Prompt,
    Prompts, RepositoryCfg, Settings};
use liaisons::models::{Argument, Relation, RelationType, SummarizedInfo};
use liaisons::settings;
use std::path::PathBuf;

fn file_settings() -> Settings {
    Settings {
        log: Log { level: String::from("INFO"), output: LogOutput::Stderr },
        llm: LLMCfg::Ollama {
            ollama: OllamaCfg { uri: String::from("http://ollama"), model: String::from("m") },
        },
        repository: RepositoryCfg::Neo4j {
            neo4j: Neo4jCfg {
                uri: String::from("bolt://neo4j"),
                user: String::from("u"),
                password: String::from("p"),
            },
        },
        prompts: Prompts {
            summary: Prompt { system: Some(String::from("sys")), prompt: String::from("sum") },
            predict: Prompt { system: None, prompt: String::from("pred") },
        },
    }
}

fn cli(level: Option<&str>) -> Cli {
    Cli {
        command: Some(Commands::PredictRelations {
            args_id: vec![1, 2],
            system: None,
            prompt: None,
        }),
        log: CliLog { level: level.map(String::from) },
        cfg_file_path: None,
    }
}

#[test]
fn the_level_of_the_command_line_stands() {
    let merged = file_settings().merge_to_cli(&cli(Some("DEBUG")));
    assert_eq!(merged.log.level, "DEBUG");
    assert_eq!(merged.log.output, LogOutput::Stderr);
    assert_eq!(merged.prompts.summary.prompt, "sum");
    assert_eq!(merged.prompts.summary.system, Some(String::from("sys")));
    assert_eq!(merged.prompts.predict.prompt, "pred");
    match merged.llm {
        LLMCfg::Ollama { ollama } => {
            assert_eq!(ollama.uri, "http://ollama");
            assert_eq!(ollama.model, "m");
        },
    }
    match merged.repository {
        RepositoryCfg::Neo4j { neo4j } => {
            assert_eq!(neo4j.uri, "bolt://neo4j");
            assert_eq!(neo4j.user, "u");
            assert_eq!(neo4j.password, "p");
        },
    }
}

#[test]
fn without_a_level_on_the_command_line_the_file_decides() {
    let merged = file_settings().merge_to_cli(&cli(None));
    assert_eq!(merged.log.level, "INFO");
}

#[test]
fn a_run_may_replace_parts_of_its_prompt() {
    let configured = Prompt { system: Some(String::from("sys")), prompt: String::from("text") };
    let p = configured.overridden(&None, &None);
    assert_eq!((p.system, p.prompt), (Some(String::from("sys")), String::from("text")));
    let p = configured.overridden(&Some(String::from("other")), &None);
    assert_eq!((p.system, p.prompt), (Some(String::from("other")), String::from("text")));
    let p = configured.overridden(&None, &Some(String::from("new")));
    assert_eq!((p.system, p.prompt), (Some(String::from("sys")), String::from("new")));
    let bare = Prompt { system: None, prompt: String::from("text") };
    assert_eq!(bare.overridden(&None, &None).system, None);
}

#[test]
fn settings_are_copied_whole() {
    let copy = file_settings().clone();
    assert_eq!(copy.log.level, "INFO");
    assert_eq!(copy.prompts.predict.prompt, "pred");
}

#[test]
fn the_later_source_wins_where_it_settles_something() {
    let file = || settings::Settings {
        command: Some(settings::Commands::RetrieveArguments {
            file: PathBuf::from("posts.json"),
            model: settings::Model {
                name: String::from("gemma:2b"),
                endpoint: String::from("http://localhost:8080"),
            },
        }),
        log: settings::Log { level: Some(String::from("INFO")) },
    };
    let merged = file().merge(settings::Settings {
        command: None,
        log: settings::Log { level: Some(String::from("DEBUG")) },
    });
    assert_eq!(merged.log.level, Some(String::from("DEBUG")));
    assert!(matches!(merged.command, Some(settings::Commands::RetrieveArguments { .. })));
    let merged = file().merge(settings::Settings {
        command: Some(settings::Commands::PredictRelations {
            file: PathBuf::from("arguments.json"),
            model: settings::Model {
                name: String::from("llama3"),
                endpoint: String::from("http://localhost:9090"),
            },
        }),
        log: settings::Log { level: None },
    });
    assert_eq!(merged.log.level, Some(String::from("INFO")));
    match merged.command {
        Some(settings::Commands::PredictRelations { file, model }) => {
            assert_eq!(file, PathBuf::from("arguments.json"));
            assert_eq!(model.name, "llama3");
        },
        _ => panic!("the later command must stand"),
    }
    let merged = settings::Settings { command: None, log: settings::Log { level: None } }
        .merge(settings::Settings { command: None, log: settings::Log { level: None } });
    assert!(merged.command.is_none());
    assert!(merged.log.level.is_none());
}

#[test]
fn arguments_have_an_identifier_once_stored() {
    let info = || SummarizedInfo { title: String::from("T"), summary: String::from("S") };
    let fresh = Argument::new(info(), String::from("raw"));
    assert_eq!(fresh.id, None);
    assert_eq!(fresh.raw, "raw");
    assert_eq!(fresh.summarized_info.title, "T");
    let stored = Argument::with_id(9, info(), String::from("raw"));
    assert_eq!(stored.id, Some(9));
    assert_eq!(stored.summarized_info.summary, "S");
    let copy = stored.clone();
    assert_eq!(copy.id, Some(9));
    assert_eq!(copy.raw, "raw");
}

#[test]
fn a_classification_has_full_confidence_and_no_rationale() {
    let relation = Relation::classified(1, 2, RelationType::Attack);
    assert_eq!(relation.arg_a_id, 1);
    assert_eq!(relation.arg_b_id, 2);
    assert_eq!(relation.relation_type, RelationType::Attack);
    assert_eq!(relation.confidence, liaisons::models::relation::FULL_CONFIDENCE);
    assert_eq!(relation.confidence, 1000);
    assert!(relation.explanation.is_empty());
    let copy = relation.clone();
    assert_eq!(copy.arg_b_id, 2);
}
