//! Exporting stored arguments and the relations among them.
//!
//! A run looks up every argument that it was given the identifier of, then
//! the relation of every ordered pair of them, and hands the lot over to
//! be written. An export is whole or it is nothing: the first lookup that
//! fails ends the run, and so does a failure to write.
//!
//! The run itself reads and writes nothing. It says what to do next, and
//! is told what doing it gave.

use vstd::prelude::*;
use vstd::string::StringExecFns;
use crate::clients::repository;
use crate::clients::repository::neo4j::{argument_of, match_argument, match_relation,
    relation_of, EdgeRecord, Fetched, NodeRecord, Statement};
use crate::clients::repository::Repository;
use crate::configuration::settings::{RepositoryCfg, RepositoryCfgView};
use crate::models::{Argument, ArgumentView, Relation, RelationView};
use crate::subcommands::pairs::{distinct, enumerate_pairs, ids_of, lemma_pairs_are_the_unequal,
    lemma_pairs_of_distinct, ordered_pairs, positions};
use crate::subcommands::predict::{ids, views};

verus! {

/// What a run is made with.
#[derive(Debug)]
pub struct ExportCfg {
    pub repo_cfg: RepositoryCfg,
    /// The identifiers of the arguments to export.
    pub args_id: Vec<u32>,
    /// The path of the file to write.
    pub file_path: std::path::PathBuf,
}

/// Why a run failed.
#[derive(Debug)]
pub enum Error {
    /// The file cannot be written.
    IOError(String),
    /// The export cannot be put into JSON.
    SerializationError(String),
    /// The graph store cannot be reached, or an argument or a relation
    /// cannot be looked up in it.
    RepositoryError(repository::Error),
}

/// The mathematical value of an [`Error`].
pub enum ErrorView {
    IOError(Seq<char>),
    SerializationError(Seq<char>),
    RepositoryError(repository::ErrorView),
}

impl View for Error {
    type V = ErrorView;

    open spec fn view(&self) -> ErrorView {
        match self {
            Error::IOError(d) => ErrorView::IOError(d@),
            Error::SerializationError(d) => ErrorView::SerializationError(d@),
            Error::RepositoryError(e) => ErrorView::RepositoryError(e@),
        }
    }
}

impl Clone for Error {
    fn clone(&self) -> (r: Self)
        ensures
            r@ == self@,
    {
        match self {
            Error::IOError(d) => Error::IOError(d.clone()),
            Error::SerializationError(d) => Error::SerializationError(d.clone()),
            Error::RepositoryError(e) => Error::RepositoryError(e.clone()),
        }
    }
}

impl ErrorView {
    /// What the error says.
    pub open spec fn message(self) -> Seq<char> {
        match self {
            ErrorView::IOError(d) => "io error: "@ + d,
            ErrorView::SerializationError(d) => "serialization error: "@ + d,
            ErrorView::RepositoryError(e) => "repository error: "@ + e.message(),
        }
    }
}

impl Error {
    /// Says what went wrong, for a reader.
    pub fn to_message(&self) -> (r: String)
        ensures
            r@ == self@.message(),
    {
        match self {
            Error::IOError(d) => "io error: ".to_owned().concat(d.as_str()),
            Error::SerializationError(d) => "serialization error: ".to_owned().concat(d.as_str()),
            Error::RepositoryError(e) => "repository error: ".to_owned().concat(
                e.to_message().as_str(),
            ),
        }
    }
}

/// What is written: the arguments, in the order of their identifiers, and
/// the relations, in the order of the pairs.
#[derive(Debug)]
pub struct ExportOutput {
    pub arguments: Vec<Argument>,
    pub relations: Vec<Relation>,
}

/// The values of a list of relations.
pub open spec fn relation_views(relations: Seq<Relation>) -> Seq<RelationView> {
    relations.map_values(|r: Relation| r@)
}

/// What to do next.
#[derive(Debug)]
pub enum Action {
    /// Reach the graph store.
    Connect,
    /// Run the statement and hand back the node in its first row.
    RetrieveArgument(Statement),
    /// Run the statement and hand back the edge in its first row.
    RetrieveRelation(Statement),
    /// Put the export into JSON and write it to the file.
    Write(ExportOutput),
    /// Nothing: the run is over, and this is how it ended.
    Finish(Result<(), Error>),
}

/// What doing the last action gave.
#[derive(Debug)]
pub enum Event {
    /// The graph store was reached, or why it was not.
    Connected(Result<(), String>),
    /// What the lookup of an argument gave.
    ArgumentRetrieved(Fetched<NodeRecord>),
    /// What the lookup of a relation gave.
    RelationRetrieved(Fetched<EdgeRecord>),
    /// The file is written.
    Written,
    /// The export cannot be put into JSON; the text says why.
    Unserializable(String),
    /// The file cannot be written; the text says why.
    Unwritable(String),
}

/// The part of the run that is under way.
#[derive(Clone, Copy, Debug, PartialEq, Eq, Structural)]
pub enum Stage {
    /// The graph store is to be reached.
    Connecting,
    /// The arguments are looked up.
    Loading,
    /// The relations are looked up.
    Fetching,
    /// The export is to be written.
    Writing,
    /// The export is written.
    Done,
    /// The run failed.
    Aborted,
}

/// The mathematical value of a run.
pub struct ExportView {
    pub repo_cfg: RepositoryCfgView,
    /// The path of the file to write.
    pub file_path: std::path::PathBuf,
    pub stage: Stage,
    /// The identifiers of the arguments to export.
    pub args_id: Seq<u32>,
    /// The arguments looked up so far, in the order of their identifiers.
    pub args: Seq<ArgumentView>,
    /// The pairs whose relation is exported, as positions in `args`; none
    /// before every argument is looked up.
    pub pairs: Seq<(int, int)>,
    /// The relations looked up so far, in the order of the pairs.
    pub relations: Seq<RelationView>,
    /// Why the run failed.
    pub failure: Option<ErrorView>,
}

impl ExportView {
    /// The run as it begins.
    pub open spec fn initial(
        repo_cfg: RepositoryCfgView,
        file_path: std::path::PathBuf,
        args_id: Seq<u32>,
    ) -> ExportView {
        ExportView {
            repo_cfg,
            file_path,
            stage: Stage::Connecting,
            args_id,
            args: Seq::empty(),
            pairs: Seq::empty(),
            relations: Seq::empty(),
            failure: None,
        }
    }

    /// The run is over.
    pub open spec fn is_over(self) -> bool {
        self.stage == Stage::Aborted || self.stage == Stage::Done
    }

    /// Every argument is looked up.
    pub open spec fn is_loaded(self) -> bool {
        self.stage == Stage::Fetching || self.stage == Stage::Writing || self.stage == Stage::Done
    }

    /// The identifier of the first argument of the pair at position `k`.
    pub open spec fn id_a(self, k: int) -> u32 {
        self.args[self.pairs[k].0].id->0
    }

    /// The identifier of the second argument of the pair at position `k`.
    pub open spec fn id_b(self, k: int) -> u32 {
        self.args[self.pairs[k].1].id->0
    }

    /// What holds of every run.
    pub open spec fn well_formed(self) -> bool {
        &&& self.args.len() <= self.args_id.len()
        &&& forall|k: int| 0 <= k < self.args.len() ==> (#[trigger] self.args[k]).id is Some
        &&& (self.stage == Stage::Aborted) == (self.failure is Some)
        &&& self.stage == Stage::Connecting ==> self.args.len() == 0
        &&& self.stage == Stage::Loading ==> self.args.len() < self.args_id.len()
        &&& self.stage == Stage::Connecting || self.stage == Stage::Loading ==> self.pairs.len()
            == 0 && self.relations.len() == 0
        &&& self.is_loaded() ==> {
            &&& self.args.len() == self.args_id.len()
            &&& self.pairs == ordered_pairs(ids(self.args))
            &&& self.relations.len() <= self.pairs.len()
            &&& (self.stage == Stage::Fetching) == (self.relations.len() < self.pairs.len())
            &&& forall|k: int|
                0 <= k < self.relations.len() ==> (#[trigger] self.relations[k]).arg_a_id
                    == self.id_a(k) && self.relations[k].arg_b_id == self.id_b(k)
        }
    }

    /// The run once the graph store is reached or one more argument is
    /// looked up.
    pub open spec fn loading_or_fetching(self) -> ExportView {
        if self.args.len() < self.args_id.len() {
            ExportView { stage: Stage::Loading, ..self }
        } else {
            let pairs = ordered_pairs(ids(self.args));
            ExportView {
                stage: if pairs.len() == 0 {
                    Stage::Writing
                } else {
                    Stage::Fetching
                },
                pairs,
                ..self
            }
        }
    }

    /// The run that failed.
    pub open spec fn aborted(self, failure: ErrorView) -> ExportView {
        ExportView { stage: Stage::Aborted, failure: Some(failure), ..self }
    }

    /// Whether the run waits for `event`. An event that it does not wait
    /// for changes nothing.
    pub open spec fn accepts(self, event: Event) -> bool {
        match (self.stage, event) {
            (Stage::Connecting, Event::Connected(_)) => true,
            (Stage::Loading, Event::ArgumentRetrieved(_)) => true,
            (Stage::Fetching, Event::RelationRetrieved(_)) => true,
            (Stage::Writing, Event::Written) => true,
            (Stage::Writing, Event::Unserializable(_)) => true,
            (Stage::Writing, Event::Unwritable(_)) => true,
            _ => false,
        }
    }

    /// The run after `event`.
    pub open spec fn step(self, event: Event) -> ExportView {
        if !self.accepts(event) {
            self
        } else {
            match event {
                Event::Connected(Ok(())) => self.loading_or_fetching(),
                Event::Connected(Err(d)) => self.aborted(
                    ErrorView::RepositoryError(
                        repository::ErrorView::Neo4j(repository::neo4j::ErrorView::Neo4jError(d@)),
                    ),
                ),
                Event::ArgumentRetrieved(fetched) => match argument_of(fetched) {
                    Ok(arg) => (ExportView {
                        args: self.args.push(arg),
                        ..self
                    }).loading_or_fetching(),
                    Err(e) => self.aborted(
                        ErrorView::RepositoryError(repository::ErrorView::Neo4j(e)),
                    ),
                },
                Event::RelationRetrieved(fetched) => {
                    let k = self.relations.len() as int;
                    match relation_of(self.id_a(k), self.id_b(k), fetched) {
                        Ok(relation) => ExportView {
                            stage: if k + 1 == self.pairs.len() {
                                Stage::Writing
                            } else {
                                Stage::Fetching
                            },
                            relations: self.relations.push(relation),
                            ..self
                        },
                        Err(e) => self.aborted(
                            ErrorView::RepositoryError(repository::ErrorView::Neo4j(e)),
                        ),
                    }
                },
                Event::Written => ExportView { stage: Stage::Done, ..self },
                Event::Unserializable(d) => self.aborted(ErrorView::SerializationError(d@)),
                Event::Unwritable(d) => self.aborted(ErrorView::IOError(d@)),
            }
        }
    }

    /// Whether `action` is what the run asks for next.
    pub open spec fn asks_for(self, action: Action) -> bool {
        match self.stage {
            Stage::Connecting => action is Connect,
            Stage::Loading => action matches Action::RetrieveArgument(statement) && statement@
                == match_argument(self.args_id[self.args.len() as int]),
            Stage::Fetching => action matches Action::RetrieveRelation(statement) && statement@
                == match_relation(
                self.id_a(self.relations.len() as int),
                self.id_b(self.relations.len() as int),
            ),
            Stage::Writing => action matches Action::Write(output) && views(output.arguments@)
                == self.args && relation_views(output.relations@) == self.relations,
            Stage::Done => action matches Action::Finish(Ok(())),
            Stage::Aborted => action matches Action::Finish(Err(e)) && Some(e@) == self.failure,
        }
    }
}

/// Every event leaves a run as every run is.
pub proof fn lemma_step_keeps_well_formed(s: ExportView, event: Event)
    requires
        s.well_formed(),
    ensures
        s.step(event).well_formed(),
{
    if s.accepts(event) {
        match event {
            Event::ArgumentRetrieved(fetched) => {
                if let Ok(arg) = argument_of(fetched) {
                    let t = ExportView { args: s.args.push(arg), ..s };
                    assert forall|k: int| 0 <= k < t.args.len() implies (#[trigger] t.args[k]).id
                        is Some by {
                        if k < s.args.len() {
                            assert(t.args[k] == s.args[k]);
                        }
                    }
                }
            },
            Event::RelationRetrieved(fetched) => {
                let n = s.relations.len() as int;
                if let Ok(relation) = relation_of(s.id_a(n), s.id_b(n), fetched) {
                    let t = s.step(event);
                    assert forall|k: int| 0 <= k < t.relations.len() implies (
                    #[trigger] t.relations[k]).arg_a_id == t.id_a(k) && t.relations[k].arg_b_id
                        == t.id_b(k) by {
                        if k < n {
                            assert(t.relations[k] == s.relations[k]);
                        }
                    }
                }
            },
            _ => {},
        }
    }
}

/// What is handed over to be written is whole: a run asks for the export
/// to be written only once every argument and the relation of every pair
/// is looked up, and each relation is the one of its pair. Of `n`
/// arguments with `n` different identifiers that is `n * n - n` relations.
pub proof fn lemma_export_is_whole(s: ExportView)
    requires
        s.well_formed(),
        s.stage == Stage::Writing || s.stage == Stage::Done,
    ensures
        s.args.len() == s.args_id.len(),
        s.relations.len() == ordered_pairs(ids(s.args)).len(),
        forall|k: int|
            0 <= k < s.relations.len() ==> (#[trigger] s.relations[k]).arg_a_id == s.id_a(k)
                && s.relations[k].arg_b_id == s.id_b(k) && s.relations[k].arg_a_id
                != s.relations[k].arg_b_id,
        distinct(ids(s.args)) ==> s.relations.len() == s.args.len() * s.args.len() - s.args.len(),
{
    lemma_pairs_are_the_unequal(ids(s.args));
    assert forall|k: int| 0 <= k < s.relations.len() implies (#[trigger] s.relations[k]).arg_a_id
        != s.relations[k].arg_b_id by {
        assert(s.pairs.contains(s.pairs[k]));
    }
    if distinct(ids(s.args)) {
        lemma_pairs_of_distinct(ids(s.args));
    }
}

/// The first failure ends a run, whatever it is told afterwards, and a
/// run that failed asks for nothing to be written.
pub proof fn lemma_failure_ends_the_run(s: ExportView, event: Event, action: Action)
    requires
        s.well_formed(),
    ensures
        s.accepts(event) && (event matches Event::Connected(Err(_))) ==> s.step(event).stage
            == Stage::Aborted,
        s.accepts(event) && (event matches Event::ArgumentRetrieved(fetched) && argument_of(
            fetched,
        ) is Err) ==> s.step(event).stage == Stage::Aborted,
        s.accepts(event) && (event matches Event::RelationRetrieved(fetched) && relation_of(
            s.id_a(s.relations.len() as int),
            s.id_b(s.relations.len() as int),
            fetched,
        ) is Err) ==> s.step(event).stage == Stage::Aborted,
        s.accepts(event) && (event is Unserializable || event is Unwritable) ==> s.step(
            event,
        ).stage == Stage::Aborted,
        s.stage == Stage::Aborted ==> s.step(event) == s,
        s.stage == Stage::Aborted && s.asks_for(action) ==> (action matches Action::Finish(
            Err(_),
        )),
        s.asks_for(action) && action is Write ==> s.stage == Stage::Writing,
{
}

/// A run of exporting.
pub struct ExportRun {
    cfg: ExportCfg,
    repository: Option<Repository>,
    args: Vec<Argument>,
    pairs: Option<Vec<(usize, usize)>>,
    relations: Vec<Relation>,
    written: bool,
    failure: Option<Error>,
}

impl View for ExportRun {
    type V = ExportView;

    closed spec fn view(&self) -> ExportView {
        ExportView {
            repo_cfg: self.cfg.repo_cfg@,
            file_path: self.cfg.file_path,
            stage: if self.failure is Some {
                Stage::Aborted
            } else if self.repository is None {
                Stage::Connecting
            } else {
                match self.pairs {
                    None => Stage::Loading,
                    Some(pairs) => if self.relations@.len() < pairs@.len() {
                        Stage::Fetching
                    } else if self.written {
                        Stage::Done
                    } else {
                        Stage::Writing
                    },
                }
            },
            args_id: self.cfg.args_id@,
            args: views(self.args@),
            pairs: match self.pairs {
                Some(pairs) => positions(pairs@),
                None => Seq::empty(),
            },
            relations: relation_views(self.relations@),
            failure: match self.failure {
                Some(e) => Some(e@),
                None => None,
            },
        }
    }
}

/// Copies a list of arguments.
fn clone_arguments(args: &Vec<Argument>) -> (r: Vec<Argument>)
    ensures
        views(r@) == views(args@),
{
    let mut out: Vec<Argument> = Vec::new();
    let mut k: usize = 0;
    while k < args.len()
        invariant
            k <= args.len(),
            out.len() == k,
            forall|i: int| 0 <= i < k ==> out@[i]@ == args@[i]@,
        decreases args.len() - k,
    {
        out.push(args[k].clone());
        k += 1;
    }
    proof {
        assert(views(out@) =~= views(args@));
    }
    out
}

/// Copies a list of relations.
fn clone_relations(relations: &Vec<Relation>) -> (r: Vec<Relation>)
    ensures
        relation_views(r@) == relation_views(relations@),
{
    let mut out: Vec<Relation> = Vec::new();
    let mut k: usize = 0;
    while k < relations.len()
        invariant
            k <= relations.len(),
            out.len() == k,
            forall|i: int| 0 <= i < k ==> out@[i]@ == relations@[i]@,
        decreases relations.len() - k,
    {
        out.push(relations[k].clone());
        k += 1;
    }
    proof {
        assert(relation_views(out@) =~= relation_views(relations@));
    }
    out
}

/// Begins a run: nothing is reached yet and nothing is looked up.
pub fn export(cfg: ExportCfg) -> (r: ExportRun)
    ensures
        r@ == ExportView::initial(cfg.repo_cfg@, cfg.file_path, cfg.args_id@),
{
    let r = ExportRun {
        cfg,
        repository: None,
        args: Vec::new(),
        pairs: None,
        relations: Vec::new(),
        written: false,
        failure: None,
    };
    proof {
        assert(r@.args =~= Seq::empty());
        assert(r@.relations =~= Seq::empty());
    }
    r
}

impl ExportRun {
    #[verifier::type_invariant]
    spec fn inv(&self) -> bool {
        &&& self.repository matches Some(r) ==> r@ == self.cfg.repo_cfg@
        &&& self.pairs is Some ==> self.repository is Some
        &&& self.pairs is None ==> self.relations@.len() == 0
        &&& self.written ==> (self.pairs matches Some(pairs) && self.relations@.len()
            == pairs@.len())
        &&& self@.well_formed()
    }

    /// The path of the file to write.
    pub fn file_path(&self) -> (r: &std::path::PathBuf)
        ensures
            *r == self@.file_path,
    {
        &self.cfg.file_path
    }

    /// The settings of the graph store to reach.
    pub fn repo_cfg(&self) -> (r: &RepositoryCfg)
        ensures
            r@ == self@.repo_cfg,
    {
        &self.cfg.repo_cfg
    }

    /// Whether the run is over.
    pub fn is_over(&self) -> (r: bool)
        ensures
            r == self@.is_over(),
    {
        proof {
            use_type_invariant(self);
        }
        self.failure.is_some() || self.written
    }

    /// What to do next.
    pub fn action(&self) -> (r: Action)
        ensures
            self@.asks_for(r),
    {
        proof {
            use_type_invariant(self);
            assert(views(self.args@).len() == self.args.len());
            assert(relation_views(self.relations@).len() == self.relations.len());
        }
        match (&self.failure, &self.repository, &self.pairs) {
            (Some(e), _, _) => Action::Finish(Err(e.clone())),
            (None, None, _) => Action::Connect,
            (None, Some(repository), None) => Action::RetrieveArgument(
                repository.retrieve_argument(self.cfg.args_id[self.args.len()]),
            ),
            (None, Some(repository), Some(pairs)) => {
                proof {
                    assert(positions(pairs@).len() == pairs.len());
                }
                let k = self.relations.len();
                if k < pairs.len() {
                    proof {
                        lemma_pairs_are_the_unequal(ids(self@.args));
                        assert(self@.pairs.contains(self@.pairs[k as int]));
                        assert(positions(pairs@)[k as int] == (
                            pairs@[k as int].0 as int,
                            pairs@[k as int].1 as int,
                        ));
                    }
                    let (i, j) = pairs[k];
                    proof {
                        assert(views(self.args@)[i as int] == self.args@[i as int]@);
                        assert(views(self.args@)[j as int] == self.args@[j as int]@);
                    }
                    match (self.args[i].id, self.args[j].id) {
                        (Some(a), Some(b)) => Action::RetrieveRelation(
                            repository.retrieve_relation(a, b),
                        ),
                        _ => {
                            proof {
                                assert(false);
                            }
                            Action::Finish(Ok(()))
                        },
                    }
                } else if self.written {
                    Action::Finish(Ok(()))
                } else {
                    Action::Write(
                        ExportOutput {
                            arguments: clone_arguments(&self.args),
                            relations: clone_relations(&self.relations),
                        },
                    )
                }
            },
        }
    }

    /// The run with the arguments looked up so far: it looks up the
    /// relations where every argument is there, and the next argument
    /// where not.
    fn settle(cfg: ExportCfg, repository: Repository, args: Vec<Argument>, Ghost(before): Ghost<
        ExportView,
    >) -> (r: ExportRun)
        requires
            repository@ == cfg.repo_cfg@,
            before.failure is None,
            before.pairs.len() == 0,
            before.relations.len() == 0,
            before.args.len() <= before.args_id.len(),
            before.repo_cfg == cfg.repo_cfg@,
            before.file_path == cfg.file_path,
            before.args_id == cfg.args_id@,
            before.args == views(args@),
            before.loading_or_fetching().well_formed(),
        ensures
            r@ == before.loading_or_fetching(),
    {
        proof {
            assert(views(args@).len() == args.len());
        }
        if args.len() < cfg.args_id.len() {
            let r = ExportRun {
                cfg,
                repository: Some(repository),
                args,
                pairs: None,
                relations: Vec::new(),
                written: false,
                failure: None,
            };
            proof {
                assert(r@.pairs =~= before.pairs);
                assert(r@.relations =~= before.relations);
            }
            r
        } else {
            let pairs = enumerate_pairs(&args);
            proof {
                assert(ids_of(args@) =~= ids(views(args@)));
                assert(positions(pairs@).len() == pairs.len());
            }
            let r = ExportRun {
                cfg,
                repository: Some(repository),
                args,
                pairs: Some(pairs),
                relations: Vec::new(),
                written: false,
                failure: None,
            };
            proof {
                assert(r@.relations =~= before.relations);
            }
            r
        }
    }

    /// Takes in what the last action gave.
    pub fn step(self, event: Event) -> (r: ExportRun)
        ensures
            r@ == self@.step(event),
    {
        proof {
            use_type_invariant(&self);
            lemma_step_keeps_well_formed(self@, event);
            assert(views(self.args@).len() == self.args.len());
            assert(relation_views(self.relations@).len() == self.relations.len());
        }
        let ghost before = self@;
        let ExportRun { cfg, repository, mut args, pairs, mut relations, written, failure } = self;
        if failure.is_some() || written {
            return ExportRun { cfg, repository, args, pairs, relations, written, failure };
        }
        match (repository, pairs, event) {
            (None, pairs, Event::Connected(connected)) => {
                match Repository::new(&cfg.repo_cfg, connected) {
                    Ok(repository) => Self::settle(cfg, repository, args, Ghost(before)),
                    Err(e) => ExportRun {
                        cfg,
                        repository: None,
                        args,
                        pairs,
                        relations,
                        written,
                        failure: Some(Error::RepositoryError(e)),
                    },
                }
            },
            (Some(repository), None, Event::ArgumentRetrieved(fetched)) => {
                match repository.argument_retrieved(fetched) {
                    Ok(arg) => {
                        let ghost loaded = ExportView { args: before.args.push(arg@), ..before };
                        args.push(arg);
                        proof {
                            assert(views(args@) =~= loaded.args);
                        }
                        Self::settle(cfg, repository, args, Ghost(loaded))
                    },
                    Err(e) => ExportRun {
                        cfg,
                        repository: Some(repository),
                        args,
                        pairs: None,
                        relations,
                        written,
                        failure: Some(Error::RepositoryError(e)),
                    },
                }
            },
            (Some(repository), Some(pairs), Event::RelationRetrieved(fetched)) => {
                proof {
                    assert(positions(pairs@).len() == pairs.len());
                }
                let k = relations.len();
                if k < pairs.len() {
                    proof {
                        lemma_pairs_are_the_unequal(ids(before.args));
                        assert(before.pairs.contains(before.pairs[k as int]));
                        assert(positions(pairs@)[k as int] == (
                            pairs@[k as int].0 as int,
                            pairs@[k as int].1 as int,
                        ));
                    }
                    let (i, j) = pairs[k];
                    proof {
                        assert(views(args@)[i as int] == args@[i as int]@);
                        assert(views(args@)[j as int] == args@[j as int]@);
                    }
                    match (args[i].id, args[j].id) {
                        (Some(a), Some(b)) => match repository.relation_retrieved(a, b, fetched) {
                            Ok(relation) => {
                                let ghost found = relation@;
                                relations.push(relation);
                                proof {
                                    assert(relation_views(relations@) =~= before.relations.push(
                                        found,
                                    ));
                                }
                                ExportRun {
                                    cfg,
                                    repository: Some(repository),
                                    args,
                                    pairs: Some(pairs),
                                    relations,
                                    written,
                                    failure,
                                }
                            },
                            Err(e) => ExportRun {
                                cfg,
                                repository: Some(repository),
                                args,
                                pairs: Some(pairs),
                                relations,
                                written,
                                failure: Some(Error::RepositoryError(e)),
                            },
                        },
                        _ => {
                            proof {
                                assert(false);
                            }
                            ExportRun {
                                cfg,
                                repository: Some(repository),
                                args,
                                pairs: Some(pairs),
                                relations,
                                written,
                                failure,
                            }
                        },
                    }
                } else {
                    ExportRun {
                        cfg,
                        repository: Some(repository),
                        args,
                        pairs: Some(pairs),
                        relations,
                        written,
                        failure,
                    }
                }
            },
            (Some(repository), Some(pairs), Event::Written) => {
                let done = relations.len() >= pairs.len();
                ExportRun {
                    cfg,
                    repository: Some(repository),
                    args,
                    pairs: Some(pairs),
                    relations,
                    written: done,
                    failure,
                }
            },
            (Some(repository), Some(pairs), Event::Unserializable(d)) => {
                let failure = if relations.len() >= pairs.len() {
                    Some(Error::SerializationError(d))
                } else {
                    None
                };
                ExportRun {
                    cfg,
                    repository: Some(repository),
                    args,
                    pairs: Some(pairs),
                    relations,
                    written,
                    failure,
                }
            },
            (Some(repository), Some(pairs), Event::Unwritable(d)) => {
                let failure = if relations.len() >= pairs.len() {
                    Some(Error::IOError(d))
                } else {
                    None
                };
                ExportRun {
                    cfg,
                    repository: Some(repository),
                    args,
                    pairs: Some(pairs),
                    relations,
                    written,
                    failure,
                }
            },
            (repository, pairs, _) => ExportRun {
                cfg,
                repository,
                args,
                pairs,
                relations,
                written,
                failure,
            },
        }
    }
}

} // verus!
