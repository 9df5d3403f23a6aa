//! Predicting the relations among stored arguments and storing them.
//!
//! A run first looks up every argument that it was given the identifier
//! of. The relations are those of a fixed set of arguments, so a single
//! lookup that fails ends the whole run, before any pair is looked at.
//! Then the run goes through the ordered pairs of the arguments. For each
//! pair the model is asked how the first argument relates to the second,
//! its answer is read as a kind of relation, and the relation is stored. A
//! pair whose request or storing fails is given up and the run goes on
//! with the next one.
//!
//! The run itself sends nothing. It says what to do next, and is told what
//! doing it gave.

use vstd::prelude::*;
use vstd::string::StringExecFns;
use crate::clients::llm;
use crate::clients::llm::ollama::{completion_of, predict_prompt, relation_of_completion,
    GenerateReply, GenerateRequestBody, GenerateRequestBodyView};
use crate::clients::repository;
use crate::clients::repository::neo4j::{argument_of, create_relation, match_argument,
    relation_stored, Fetched, NodeRecord, Statement};
use crate::clients::repository::Repository;
use crate::configuration::settings::{LLMCfg, LLMCfgView, Prompt, PromptView, RepositoryCfg,
    RepositoryCfgView};
use crate::models::{Argument, ArgumentView, Relation, RelationView};
use crate::subcommands::pairs::{distinct, enumerate_pairs, ids_of, lemma_pairs_are_the_unequal,
    lemma_pairs_of_distinct, ordered_pairs, positions};
use crate::subcommands::{endpoint_of, request_of, ItemError, ItemErrorView};

verus! {

/// What a run is made with.
#[derive(Debug)]
pub struct PredictRelationCfg {
    pub llm_cfg: LLMCfg,
    pub repo_cfg: RepositoryCfg,
    pub prompt: Prompt,
    /// The identifiers of the arguments to relate.
    pub args_id: Vec<u32>,
}

/// Why a whole run failed.
#[derive(Debug)]
pub enum Error {
    /// The graph store cannot be reached, or an argument cannot be looked
    /// up in it.
    RepositoryError(repository::Error),
}

/// The mathematical value of an [`Error`].
pub enum ErrorView {
    RepositoryError(repository::ErrorView),
}

impl View for Error {
    type V = ErrorView;

    open spec fn view(&self) -> ErrorView {
        match self {
            Error::RepositoryError(e) => ErrorView::RepositoryError(e@),
        }
    }
}

impl Clone for Error {
    fn clone(&self) -> (r: Self)
        ensures
            r@ == self@,
    {
        match self {
            Error::RepositoryError(e) => Error::RepositoryError(e.clone()),
        }
    }
}

impl ErrorView {
    /// What the error says.
    pub open spec fn message(self) -> Seq<char> {
        match self {
            ErrorView::RepositoryError(e) => "repository error: "@ + e.message(),
        }
    }
}

impl Error {
    /// Says what went wrong, for a reader.
    pub fn to_message(&self) -> (r: String)
        ensures
            r@ == self@.message(),
    {
        match self {
            Error::RepositoryError(e) => "repository error: ".to_owned().concat(
                e.to_message().as_str(),
            ),
        }
    }
}

/// How far a pair has come.
#[derive(Clone, Copy, Debug, PartialEq, Eq, Structural)]
pub enum PairState {
    /// Its turn has not come.
    Pending,
    /// The model is asked for its relation.
    Predicting,
    /// Its relation is being stored.
    Predicted,
    /// Its relation is stored.
    Stored,
    /// It was given up.
    Failed,
}

/// What to do next.
#[derive(Debug)]
pub enum Action {
    /// Reach the graph store.
    Connect,
    /// Run the statement and hand back its first row.
    Retrieve(Statement),
    /// Post `body` to `url`.
    Generate { url: String, body: GenerateRequestBody },
    /// Run the statement in a transaction of its own and count the rows
    /// that it returns.
    Store(Statement),
    /// Nothing: the run is over, and this is how it ended.
    Finish(Result<(), Error>),
}

/// What doing the last action gave.
#[derive(Debug)]
pub enum Event {
    /// The graph store was reached, or why it was not.
    Connected(Result<(), String>),
    /// What the lookup gave.
    Retrieved(Fetched<NodeRecord>),
    /// What became of the request.
    Generated(GenerateReply),
    /// The number of rows that the statement returned, or why it did not
    /// run.
    Stored(Result<u64, String>),
}

/// The part of the run that is under way.
#[derive(Clone, Copy, Debug, PartialEq, Eq, Structural)]
pub enum Stage {
    /// The graph store is to be reached.
    Connecting,
    /// The arguments are looked up.
    Loading,
    /// The pairs are gone through.
    Running,
    /// The run failed before its first pair.
    Aborted,
}

/// The identifiers of a list of arguments, in order.
pub open spec fn ids(args: Seq<ArgumentView>) -> Seq<Option<u32>> {
    args.map_values(|a: ArgumentView| a.id)
}

/// The values of a list of arguments.
pub open spec fn views(args: Seq<Argument>) -> Seq<ArgumentView> {
    args.map_values(|a: Argument| a@)
}

/// The mathematical value of a run.
pub struct PredictView {
    pub client: LLMCfgView,
    pub repo_cfg: RepositoryCfgView,
    pub prompt: PromptView,
    pub stage: Stage,
    /// The identifiers of the arguments to relate.
    pub args_id: Seq<u32>,
    /// The arguments looked up so far, in the order of their identifiers.
    pub args: Seq<ArgumentView>,
    /// The pairs to go through, as positions in `args`; none before every
    /// argument is looked up.
    pub pairs: Seq<(int, int)>,
    /// How far each pair has come.
    pub states: Seq<PairState>,
    /// The position in `pairs` of the pair in progress; the number of
    /// pairs once all are done.
    pub attempt: int,
    /// The relation that is being stored.
    pub pending: Option<RelationView>,
    /// Why the run failed.
    pub failure: Option<ErrorView>,
}

impl PredictView {
    /// The run as it begins.
    pub open spec fn initial(
        client: LLMCfgView,
        repo_cfg: RepositoryCfgView,
        prompt: PromptView,
        args_id: Seq<u32>,
    ) -> PredictView {
        PredictView {
            client,
            repo_cfg,
            prompt,
            stage: Stage::Connecting,
            args_id,
            args: Seq::empty(),
            pairs: Seq::empty(),
            states: Seq::empty(),
            attempt: 0,
            pending: None,
            failure: None,
        }
    }

    /// The run is over.
    pub open spec fn is_over(self) -> bool {
        self.stage == Stage::Aborted || (self.stage == Stage::Running && self.attempt
            == self.pairs.len())
    }

    /// The first argument of the pair in progress.
    pub open spec fn arg_a(self) -> ArgumentView {
        self.args[self.pairs[self.attempt].0]
    }

    /// The second argument of the pair in progress.
    pub open spec fn arg_b(self) -> ArgumentView {
        self.args[self.pairs[self.attempt].1]
    }

    /// What holds of every run.
    pub open spec fn well_formed(self) -> bool {
        &&& self.args.len() <= self.args_id.len()
        &&& forall|k: int| 0 <= k < self.args.len() ==> (#[trigger] self.args[k]).id is Some
        &&& (self.stage == Stage::Aborted) == (self.failure is Some)
        &&& self.stage == Stage::Connecting ==> self.args.len() == 0
        &&& self.stage == Stage::Loading ==> self.args.len() < self.args_id.len()
        &&& self.stage != Stage::Running ==> self.pairs.len() == 0
        &&& self.states.len() == self.pairs.len()
        &&& 0 <= self.attempt <= self.pairs.len()
        &&& self.stage == Stage::Running ==> {
            &&& self.args.len() == self.args_id.len()
            &&& self.pairs == ordered_pairs(ids(self.args))
            &&& forall|k: int|
                0 <= k < self.attempt ==> self.states[k] == PairState::Stored || self.states[k]
                    == PairState::Failed
            &&& forall|k: int|
                self.attempt < k < self.pairs.len() ==> self.states[k] == PairState::Pending
            &&& self.attempt < self.pairs.len() ==> self.states[self.attempt]
                == if self.pending is Some {
                PairState::Predicted
            } else {
                PairState::Predicting
            }
        }
        &&& self.pending matches Some(relation) ==> {
            &&& self.attempt < self.pairs.len()
            &&& Some(relation.arg_a_id) == self.arg_a().id
            &&& Some(relation.arg_b_id) == self.arg_b().id
            &&& relation.well_formed()
        }
    }

    /// The run once the graph store is reached or one more argument is
    /// looked up: it goes through the pairs where every argument is there,
    /// and looks up the next one where not.
    pub open spec fn loading_or_running(self) -> PredictView {
        if self.args.len() < self.args_id.len() {
            PredictView { stage: Stage::Loading, ..self }
        } else {
            let pairs = ordered_pairs(ids(self.args));
            PredictView {
                stage: Stage::Running,
                pairs,
                states: Seq::new(
                    pairs.len(),
                    |k: int|
                        if k == 0 {
                            PairState::Predicting
                        } else {
                            PairState::Pending
                        },
                ),
                ..self
            }
        }
    }

    /// The run with the pair in progress ended in `state` and the next
    /// one, if there is one, begun.
    pub open spec fn with_pair_ended(self, state: PairState) -> PredictView {
        let ended = self.states.update(self.attempt, state);
        PredictView {
            states: if self.attempt + 1 < self.pairs.len() {
                ended.update(self.attempt + 1, PairState::Predicting)
            } else {
                ended
            },
            attempt: self.attempt + 1,
            pending: None,
            ..self
        }
    }

    /// The run that failed as a whole.
    pub open spec fn aborted(self, failure: ErrorView) -> PredictView {
        PredictView { stage: Stage::Aborted, failure: Some(failure), ..self }
    }

    /// Whether the run waits for `event`. An event that it does not wait
    /// for changes nothing.
    pub open spec fn accepts(self, event: Event) -> bool {
        match (self.stage, event) {
            (Stage::Connecting, Event::Connected(_)) => true,
            (Stage::Loading, Event::Retrieved(_)) => true,
            (Stage::Running, Event::Generated(_)) => self.attempt < self.pairs.len()
                && self.pending is None,
            (Stage::Running, Event::Stored(_)) => self.pending is Some,
            _ => false,
        }
    }

    /// The run after `event`.
    pub open spec fn step(self, event: Event) -> PredictView {
        if !self.accepts(event) {
            self
        } else {
            match event {
                Event::Connected(Ok(())) => self.loading_or_running(),
                Event::Connected(Err(d)) => self.aborted(
                    ErrorView::RepositoryError(
                        repository::ErrorView::Neo4j(repository::neo4j::ErrorView::Neo4jError(d@)),
                    ),
                ),
                Event::Retrieved(fetched) => match argument_of(fetched) {
                    Ok(arg) => (PredictView {
                        args: self.args.push(arg),
                        ..self
                    }).loading_or_running(),
                    Err(e) => self.aborted(
                        ErrorView::RepositoryError(repository::ErrorView::Neo4j(e)),
                    ),
                },
                Event::Generated(reply) => match relation_of_completion(
                    self.arg_a().id->0,
                    self.arg_b().id->0,
                    completion_of(reply@),
                ) {
                    Ok(relation) => PredictView {
                        states: self.states.update(self.attempt, PairState::Predicted),
                        pending: Some(relation),
                        ..self
                    },
                    Err(_) => self.with_pair_ended(PairState::Failed),
                },
                Event::Stored(outcome) => self.with_pair_ended(
                    if relation_stored(outcome) is Ok {
                        PairState::Stored
                    } else {
                        PairState::Failed
                    },
                ),
            }
        }
    }

    /// Why `event` made the run give up the pair in progress, if it did.
    pub open spec fn item_error(self, event: Event) -> Option<ItemErrorView> {
        if !self.accepts(event) {
            None
        } else {
            match event {
                Event::Generated(reply) => match completion_of(reply@) {
                    Ok(_) => None,
                    Err(e) => Some(ItemErrorView::Llm(llm::ErrorView::Ollama(e))),
                },
                Event::Stored(outcome) => match relation_stored(outcome) {
                    Ok(_) => None,
                    Err(e) => Some(ItemErrorView::Repository(repository::ErrorView::Neo4j(e))),
                },
                _ => None,
            }
        }
    }

    /// The request that asks how the first argument of the pair at
    /// position `k` relates to the second.
    pub open spec fn request_for(self, k: int) -> GenerateRequestBodyView {
        request_of(
            self.client,
            self.prompt.system,
            predict_prompt(
                self.prompt.prompt,
                self.args[self.pairs[k].0].raw,
                self.args[self.pairs[k].1].raw,
            ),
        )
    }

    /// Whether `action` is what the run asks for next.
    pub open spec fn asks_for(self, action: Action) -> bool {
        match self.stage {
            Stage::Connecting => action is Connect,
            Stage::Loading => action matches Action::Retrieve(statement) && statement@
                == match_argument(self.args_id[self.args.len() as int]),
            Stage::Aborted => action matches Action::Finish(Err(e)) && Some(e@) == self.failure,
            Stage::Running => if self.attempt >= self.pairs.len() {
                action matches Action::Finish(Ok(()))
            } else {
                match self.pending {
                    None => action matches Action::Generate { url, body } && url@ == endpoint_of(
                        self.client,
                    ) && body@ == self.request_for(self.attempt),
                    Some(relation) => action matches Action::Store(statement) && statement@
                        == create_relation(relation),
                }
            },
        }
    }

    /// How many events the run takes in at most, once it goes through the
    /// pairs, before it is over: two for each pair that is left, one less
    /// where the pair in progress is already classified.
    pub open spec fn remaining(self) -> int {
        2 * (self.pairs.len() - self.attempt) - if self.pending is Some {
            1int
        } else {
            0int
        }
    }

    /// The run after every pair that is left got its replies: the pair at
    /// position `k` the reply `replies[k].generated` to its request and,
    /// where it came that far, the outcome `replies[k].stored` of storing
    /// its relation.
    pub open spec fn completed(self, replies: Seq<PairReplies>) -> PredictView
        decreases self.pairs.len() - self.attempt,
    {
        if self.stage != Stage::Running || self.attempt < 0 || self.attempt >= self.pairs.len()
            || self.attempt >= replies.len() {
            self
        } else {
            let asked = self.step(Event::Generated(replies[self.attempt].generated));
            let done = if asked.pending is Some {
                asked.step(Event::Stored(replies[self.attempt].stored))
            } else {
                asked
            };
            done.completed(replies)
        }
    }
}

impl PredictView {
    /// The requests that the run asks the model to answer until it is
    /// over, in order, where the pair at position `k` gets the replies
    /// `replies[k]`.
    pub open spec fn requests(self, replies: Seq<PairReplies>) -> Seq<GenerateRequestBodyView>
        decreases self.pairs.len() - self.attempt,
    {
        if self.stage != Stage::Running || self.attempt < 0 || self.attempt >= self.pairs.len()
            || self.attempt >= replies.len() {
            Seq::empty()
        } else {
            let asked = self.step(Event::Generated(replies[self.attempt].generated));
            let done = if asked.pending is Some {
                asked.step(Event::Stored(replies[self.attempt].stored))
            } else {
                asked
            };
            seq![self.request_for(self.attempt)] + done.requests(replies)
        }
    }
}

/// What the two actions for one pair gave.
pub struct PairReplies {
    /// What became of the request for the relation.
    pub generated: GenerateReply,
    /// What became of storing the relation, if it came to that.
    pub stored: Result<u64, String>,
}

/// The state in which a pair ends, which depends on its own replies
/// alone: it is stored where the model answered and the statement created
/// an edge, and given up otherwise.
pub open spec fn outcome_of(replies: PairReplies) -> PairState {
    if completion_of(replies.generated@) is Ok && relation_stored(replies.stored) is Ok {
        PairState::Stored
    } else {
        PairState::Failed
    }
}

/// The pair in progress is a pair of two arguments that were looked up,
/// with two different identifiers.
pub proof fn lemma_pair_in_progress(s: PredictView)
    requires
        s.well_formed(),
        s.stage == Stage::Running,
        s.attempt < s.pairs.len(),
    ensures
        0 <= s.pairs[s.attempt].0 < s.args.len(),
        0 <= s.pairs[s.attempt].1 < s.args.len(),
        s.arg_a().id is Some,
        s.arg_b().id is Some,
        s.arg_a().id != s.arg_b().id,
{
    lemma_pairs_are_the_unequal(ids(s.args));
    assert(s.pairs.contains(s.pairs[s.attempt]));
}

/// Every event leaves a run as every run is.
pub proof fn lemma_step_keeps_well_formed(s: PredictView, event: Event)
    requires
        s.well_formed(),
    ensures
        s.step(event).well_formed(),
{
    if s.accepts(event) {
        match event {
            Event::Retrieved(fetched) => {
                if let Ok(arg) = argument_of(fetched) {
                    let t = PredictView { args: s.args.push(arg), ..s };
                    assert forall|k: int| 0 <= k < t.args.len() implies (#[trigger] t.args[k]).id
                        is Some by {
                        if k < s.args.len() {
                            assert(t.args[k] == s.args[k]);
                        }
                    }
                }
            },
            Event::Generated(reply) => {
                lemma_pair_in_progress(s);
            },
            _ => {},
        }
    }
}

/// Whether a pair may go from the one state to the other: it waits, is
/// classified, and then either has its relation stored or is given up; it
/// may be given up at once, and it never goes back.
pub open spec fn follows(before: PairState, after: PairState) -> bool {
    ||| before == after
    ||| before == PairState::Pending && after == PairState::Predicting
    ||| before == PairState::Predicting && after == PairState::Predicted
    ||| before == PairState::Predicting && after == PairState::Failed
    ||| before == PairState::Predicted && after == PairState::Stored
    ||| before == PairState::Predicted && after == PairState::Failed
}

/// Whatever the event, every pair stays where it is or goes one step
/// along its course.
pub proof fn lemma_pairs_follow_their_course(s: PredictView, event: Event)
    requires
        s.well_formed(),
    ensures
        forall|k: int|
            0 <= k < s.states.len() ==> follows(s.states[k], #[trigger] s.step(event).states[k]),
{
}

/// While the pairs are gone through, every event that the run waits for
/// brings it nearer to its end, whatever the event holds: the pairs before
/// the one in progress stay as they ended, the arguments and the pairs
/// stay as they were, and no event ends the run as a whole. Nothing is
/// tried twice: a pair whose request failed is left behind, and so is a
/// pair once the outcome of storing it is known.
pub proof fn lemma_pair_failure_is_contained(s: PredictView, event: Event)
    requires
        s.well_formed(),
        s.stage == Stage::Running,
        s.accepts(event),
    ensures
        s.step(event).stage == Stage::Running,
        s.step(event).failure is None,
        s.step(event).args == s.args,
        s.step(event).pairs == s.pairs,
        0 <= s.step(event).remaining() < s.remaining(),
        forall|k: int| 0 <= k < s.attempt ==> s.step(event).states[k] == s.states[k],
        s.step(event).attempt == s.attempt + 1 || (s.step(event).attempt == s.attempt && s.step(
            event,
        ).pending is Some),
        event is Stored ==> s.step(event).attempt == s.attempt + 1,
{
}

/// Each pair ends as its own replies make it end, whatever became of the
/// others: every pair is attempted, and a failure at one pair keeps no
/// other pair from being stored.
pub proof fn lemma_pairs_are_independent(s: PredictView, replies: Seq<PairReplies>)
    requires
        s.well_formed(),
        s.stage == Stage::Running,
        s.pending is None,
        replies.len() == s.pairs.len(),
    ensures
        s.completed(replies).is_over(),
        s.completed(replies).stage == Stage::Running,
        s.completed(replies).well_formed(),
        s.completed(replies).pairs == s.pairs,
        forall|k: int| 0 <= k < s.attempt ==> s.completed(replies).states[k] == s.states[k],
        forall|k: int|
            s.attempt <= k < s.pairs.len() ==> s.completed(replies).states[k] == outcome_of(
                replies[k],
            ),
    decreases s.pairs.len() - s.attempt,
{
    if s.attempt < s.pairs.len() {
        let asked = s.step(Event::Generated(replies[s.attempt].generated));
        let done = if asked.pending is Some {
            asked.step(Event::Stored(replies[s.attempt].stored))
        } else {
            asked
        };
        lemma_step_keeps_well_formed(s, Event::Generated(replies[s.attempt].generated));
        lemma_step_keeps_well_formed(asked, Event::Stored(replies[s.attempt].stored));
        assert(done.states[s.attempt] == outcome_of(replies[s.attempt]));
        assert forall|k: int| 0 <= k < s.attempt implies done.states[k] == s.states[k] by {}
        lemma_pairs_are_independent(done, replies);
    }
}

/// Whatever the replies, the model is asked once for each pair that is
/// left, in the order of the pairs, and what it is asked for a pair is
/// the request of that pair.
pub proof fn lemma_one_request_for_each_pair(s: PredictView, replies: Seq<PairReplies>)
    requires
        s.well_formed(),
        s.stage == Stage::Running,
        s.pending is None,
        replies.len() == s.pairs.len(),
    ensures
        s.requests(replies).len() == s.pairs.len() - s.attempt,
        forall|k: int|
            0 <= k < s.pairs.len() - s.attempt ==> s.requests(replies)[k] == s.request_for(
                s.attempt + k,
            ),
    decreases s.pairs.len() - s.attempt,
{
    if s.attempt < s.pairs.len() {
        let asked = s.step(Event::Generated(replies[s.attempt].generated));
        let done = if asked.pending is Some {
            asked.step(Event::Stored(replies[s.attempt].stored))
        } else {
            asked
        };
        lemma_step_keeps_well_formed(s, Event::Generated(replies[s.attempt].generated));
        lemma_step_keeps_well_formed(asked, Event::Stored(replies[s.attempt].stored));
        lemma_one_request_for_each_pair(done, replies);
        assert forall|k: int| 0 <= k < s.pairs.len() - s.attempt implies s.requests(replies)[k]
            == s.request_for(s.attempt + k) by {
            if k > 0 {
                assert(s.requests(replies)[k] == done.requests(replies)[k - 1]);
                assert(done.request_for(done.attempt + (k - 1)) == s.request_for(s.attempt + k));
            }
        }
    }
}

/// Of `n` arguments with `n` different identifiers the run goes through
/// `n * n - n` pairs: every argument with every other, each pair in both
/// directions, and no argument with itself.
pub proof fn lemma_attempts_of_distinct(s: PredictView)
    requires
        s.well_formed(),
        s.stage == Stage::Running,
        distinct(ids(s.args)),
    ensures
        s.pairs.len() == s.args.len() * s.args.len() - s.args.len(),
        s.states.len() == s.args.len() * s.args.len() - s.args.len(),
        forall|i: int, j: int|
            0 <= i < s.args.len() && 0 <= j < s.args.len() && i != j ==> s.pairs.contains((i, j))
                && s.pairs.contains((j, i)),
        forall|p: (int, int)| #[trigger] s.pairs.contains(p) ==> p.0 != p.1,
{
    lemma_pairs_of_distinct(ids(s.args));
}

/// Of `n` arguments with `n` different identifiers the model is asked
/// `n * n - n` times, whatever it answers and whatever becomes of storing.
pub proof fn lemma_requests_of_distinct(s: PredictView, replies: Seq<PairReplies>)
    requires
        s.well_formed(),
        s.stage == Stage::Running,
        s.attempt == 0,
        s.pending is None,
        distinct(ids(s.args)),
        replies.len() == s.pairs.len(),
    ensures
        s.requests(replies).len() == s.args.len() * s.args.len() - s.args.len(),
{
    lemma_attempts_of_distinct(s);
    lemma_one_request_for_each_pair(s, replies);
}

/// A run that cannot reach the graph store, or cannot look up one of its
/// arguments, is over at once. Before every argument is looked up a run
/// asks neither for a request to the model nor for a relation to be
/// stored, and a run that failed as a whole never asks for anything again,
/// whatever it is told.
pub proof fn lemma_fatal_before_first_pair(s: PredictView, event: Event, action: Action)
    requires
        s.well_formed(),
    ensures
        s.stage == Stage::Connecting && (event matches Event::Connected(Err(_))) ==> s.step(
            event,
        ).stage == Stage::Aborted,
        s.stage == Stage::Loading && (event matches Event::Retrieved(fetched) && argument_of(
            fetched,
        ) is Err) ==> s.step(event).stage == Stage::Aborted,
        s.stage != Stage::Running && s.asks_for(action) ==> !(action is Generate) && !(action
            is Store),
        s.stage == Stage::Aborted ==> s.step(event) == s,
        s.stage == Stage::Aborted && s.asks_for(action) ==> (action matches Action::Finish(
            Err(_),
        )),
{
}

/// A run of predicting and storing.
pub struct PredictPipeline {
    cfg: PredictRelationCfg,
    client: llm::Client,
    repository: Option<Repository>,
    args: Vec<Argument>,
    pairs: Option<Vec<(usize, usize)>>,
    states: Vec<PairState>,
    attempt: usize,
    pending: Option<Relation>,
    failure: Option<Error>,
}

impl View for PredictPipeline {
    type V = PredictView;

    closed spec fn view(&self) -> PredictView {
        PredictView {
            client: self.client@,
            repo_cfg: self.cfg.repo_cfg@,
            prompt: self.cfg.prompt@,
            stage: if self.failure is Some {
                Stage::Aborted
            } else if self.repository is None {
                Stage::Connecting
            } else if self.pairs is None {
                Stage::Loading
            } else {
                Stage::Running
            },
            args_id: self.cfg.args_id@,
            args: views(self.args@),
            pairs: match self.pairs {
                Some(pairs) => positions(pairs@),
                None => Seq::empty(),
            },
            states: self.states@,
            attempt: self.attempt as int,
            pending: match self.pending {
                Some(relation) => Some(relation@),
                None => None,
            },
            failure: match self.failure {
                Some(e) => Some(e@),
                None => None,
            },
        }
    }
}

/// The states of `n` pairs of which the first is in progress.
fn first_in_progress(n: usize) -> (r: Vec<PairState>)
    ensures
        r@ == Seq::new(
            n as nat,
            |k: int|
                if k == 0 {
                    PairState::Predicting
                } else {
                    PairState::Pending
                },
        ),
{
    let mut states: Vec<PairState> = Vec::new();
    while states.len() < n
        invariant
            states.len() <= n,
            forall|k: int|
                0 <= k < states.len() ==> states@[k] == if k == 0 {
                    PairState::Predicting
                } else {
                    PairState::Pending
                },
        decreases n - states.len(),
    {
        if states.len() == 0 {
            states.push(PairState::Predicting);
        } else {
            states.push(PairState::Pending);
        }
    }
    proof {
        assert(states@ =~= Seq::new(
            n as nat,
            |k: int|
                if k == 0 {
                    PairState::Predicting
                } else {
                    PairState::Pending
                },
        ));
    }
    states
}

/// Begins a run: nothing is reached yet and nothing is looked up.
pub fn predict_relations(cfg: PredictRelationCfg) -> (r: PredictPipeline)
    ensures
        r@ == PredictView::initial(cfg.llm_cfg@, cfg.repo_cfg@, cfg.prompt@, cfg.args_id@),
{
    let client = llm::Client::new(&cfg.llm_cfg);
    let r = PredictPipeline {
        cfg,
        client,
        repository: None,
        args: Vec::new(),
        pairs: None,
        states: Vec::new(),
        attempt: 0,
        pending: None,
        failure: None,
    };
    proof {
        assert(r@.args =~= Seq::empty());
    }
    r
}

impl PredictPipeline {
    #[verifier::type_invariant]
    spec fn inv(&self) -> bool {
        &&& self.client@ == self.cfg.llm_cfg@
        &&& self.repository matches Some(r) ==> r@ == self.cfg.repo_cfg@
        &&& self.pairs is Some ==> self.repository is Some
        &&& self@.well_formed()
    }

    /// The settings of the graph store to reach.
    pub fn repo_cfg(&self) -> (r: &RepositoryCfg)
        ensures
            r@ == self@.repo_cfg,
    {
        &self.cfg.repo_cfg
    }

    /// Whether the run is over.
    pub fn is_over(&self) -> (r: bool)
        ensures
            r == self@.is_over(),
    {
        proof {
            use_type_invariant(self);
        }
        match (&self.failure, &self.repository, &self.pairs) {
            (Some(_), _, _) => true,
            (None, Some(_), Some(pairs)) => self.attempt == pairs.len(),
            _ => false,
        }
    }

    /// How far each pair has come, in the order of the visit. There is no
    /// pair before every argument is looked up.
    pub fn states(&self) -> (r: Vec<PairState>)
        ensures
            r@ == self@.states,
    {
        let mut out: Vec<PairState> = Vec::new();
        let mut k: usize = 0;
        while k < self.states.len()
            invariant
                k <= self.states.len(),
                out@ == self.states@.take(k as int),
            decreases self.states.len() - k,
        {
            out.push(self.states[k]);
            proof {
                assert(out@ =~= self.states@.take(k + 1));
            }
            k += 1;
        }
        proof {
            assert(out@ =~= self.states@);
        }
        out
    }

    /// The pairs that the run goes through, as positions in the list of
    /// identifiers that it was given, in the order of the visit. There is
    /// no pair before every argument is looked up.
    pub fn pairs(&self) -> (r: Vec<(usize, usize)>)
        ensures
            positions(r@) == self@.pairs,
    {
        let mut out: Vec<(usize, usize)> = Vec::new();
        match &self.pairs {
            None => {
                proof {
                    assert(positions(out@) =~= self@.pairs);
                }
            },
            Some(pairs) => {
                let mut k: usize = 0;
                while k < pairs.len()
                    invariant
                        k <= pairs.len(),
                        out@ == pairs@.take(k as int),
                    decreases pairs.len() - k,
                {
                    out.push(pairs[k]);
                    proof {
                        assert(out@ =~= pairs@.take(k + 1));
                    }
                    k += 1;
                }
                proof {
                    assert(out@ =~= pairs@);
                }
            },
        }
        out
    }

    /// What to do next.
    pub fn action(&self) -> (r: Action)
        ensures
            self@.asks_for(r),
    {
        proof {
            use_type_invariant(self);
        }
        match (&self.failure, &self.repository, &self.pairs) {
            (Some(e), _, _) => Action::Finish(Err(e.clone())),
            (None, None, _) => Action::Connect,
            (None, Some(repository), None) => {
                proof {
                    assert(views(self.args@).len() == self.args.len());
                }
                Action::Retrieve(repository.retrieve_argument(self.cfg.args_id[self.args.len()]))
            },
            (None, Some(repository), Some(pairs)) => {
                proof {
                    assert(positions(pairs@).len() == pairs.len());
                }
                if self.attempt >= pairs.len() {
                    Action::Finish(Ok(()))
                } else {
                    match &self.pending {
                        None => {
                            proof {
                                lemma_pair_in_progress(self@);
                                assert(positions(pairs@)[self.attempt as int] == (
                                    pairs@[self.attempt as int].0 as int,
                                    pairs@[self.attempt as int].1 as int,
                                ));
                                assert(views(self.args@).len() == self.args.len());
                            }
                            let (i, j) = pairs[self.attempt];
                            Action::Generate {
                                url: self.client.endpoint(),
                                body: self.client.predict_request(
                                    &self.cfg.prompt,
                                    &self.args[i],
                                    &self.args[j],
                                ),
                            }
                        },
                        Some(relation) => Action::Store(repository.add_relation(relation)),
                    }
                }
            },
        }
    }

    /// The run with the arguments looked up so far: it goes through the
    /// pairs where every argument is there, and looks up the next one
    /// where not.
    fn settle(
        cfg: PredictRelationCfg,
        client: llm::Client,
        repository: Repository,
        args: Vec<Argument>,
        Ghost(before): Ghost<PredictView>,
    ) -> (r: PredictPipeline)
        requires
            client@ == cfg.llm_cfg@,
            repository@ == cfg.repo_cfg@,
            before.failure is None,
            before.pairs.len() == 0,
            before.args.len() <= before.args_id.len(),
            before.client == client@,
            before.repo_cfg == cfg.repo_cfg@,
            before.prompt == cfg.prompt@,
            before.args_id == cfg.args_id@,
            before.args == views(args@),
            before.attempt == 0,
            before.pending is None,
            before.states.len() == 0,
            before.loading_or_running().well_formed(),
        ensures
            r@ == before.loading_or_running(),
    {
        proof {
            assert(views(args@).len() == args.len());
        }
        if args.len() < cfg.args_id.len() {
            let r = PredictPipeline {
                cfg,
                client,
                repository: Some(repository),
                args,
                pairs: None,
                states: Vec::new(),
                attempt: 0,
                pending: None,
                failure: None,
            };
            proof {
                assert(r@.pairs =~= before.pairs);
                assert(r@.states =~= before.states);
            }
            r
        } else {
            let pairs = enumerate_pairs(&args);
            let states = first_in_progress(pairs.len());
            proof {
                assert(ids_of(args@) =~= ids(views(args@)));
                assert(positions(pairs@).len() == pairs.len());
            }
            PredictPipeline {
                cfg,
                client,
                repository: Some(repository),
                args,
                pairs: Some(pairs),
                states,
                attempt: 0,
                pending: None,
                failure: None,
            }
        }
    }

    /// Takes in what the last action gave. The second part of the result
    /// says why the pair in progress was given up, where it was, for the
    /// log.
    pub fn step(self, event: Event) -> (r: (PredictPipeline, Option<ItemError>))
        ensures
            r.0@ == self@.step(event),
            match r.1 {
                Some(e) => self@.item_error(event) == Some(e@),
                None => self@.item_error(event) is None,
            },
    {
        proof {
            use_type_invariant(&self);
            lemma_step_keeps_well_formed(self@, event);
        }
        let ghost before = self@;
        let PredictPipeline {
            cfg,
            client,
            repository,
            mut args,
            pairs,
            mut states,
            attempt,
            pending,
            failure,
        } = self;
        if failure.is_some() {
            return (
                PredictPipeline {
                    cfg,
                    client,
                    repository,
                    args,
                    pairs,
                    states,
                    attempt,
                    pending,
                    failure,
                },
                None,
            );
        }
        match (repository, pairs, event) {
            (None, pairs, Event::Connected(connected)) => {
                match Repository::new(&cfg.repo_cfg, connected) {
                    Ok(repository) => (
                        Self::settle(cfg, client, repository, args, Ghost(before)),
                        None,
                    ),
                    Err(e) => (
                        PredictPipeline {
                            cfg,
                            client,
                            repository: None,
                            args,
                            pairs,
                            states,
                            attempt,
                            pending,
                            failure: Some(Error::RepositoryError(e)),
                        },
                        None,
                    ),
                }
            },
            (Some(repository), None, Event::Retrieved(fetched)) => {
                match repository.argument_retrieved(fetched) {
                    Ok(arg) => {
                        let ghost loaded = PredictView { args: before.args.push(arg@), ..before };
                        args.push(arg);
                        proof {
                            assert(views(args@) =~= loaded.args);
                            assert forall|k: int| 0 <= k < loaded.args.len() implies (
                            #[trigger] loaded.args[k]).id is Some by {
                                if k < before.args.len() {
                                    assert(loaded.args[k] == before.args[k]);
                                }
                            }
                        }
                        (Self::settle(cfg, client, repository, args, Ghost(loaded)), None)
                    },
                    Err(e) => (
                        PredictPipeline {
                            cfg,
                            client,
                            repository: Some(repository),
                            args,
                            pairs: None,
                            states,
                            attempt,
                            pending,
                            failure: Some(Error::RepositoryError(e)),
                        },
                        None,
                    ),
                }
            },
            (Some(repository), Some(pairs), Event::Generated(reply)) => {
                proof {
                    assert(positions(pairs@).len() == pairs.len());
                }
                if attempt < pairs.len() && pending.is_none() {
                    proof {
                        lemma_pair_in_progress(before);
                        assert(positions(pairs@)[attempt as int] == (
                            pairs@[attempt as int].0 as int,
                            pairs@[attempt as int].1 as int,
                        ));
                        assert(views(args@).len() == args.len());
                    }
                    let (i, j) = pairs[attempt];
                    match client.predict(&args[i], &args[j], reply) {
                        Ok(relation) => {
                            states.set(attempt, PairState::Predicted);
                            (
                                PredictPipeline {
                                    cfg,
                                    client,
                                    repository: Some(repository),
                                    args,
                                    pairs: Some(pairs),
                                    states,
                                    attempt,
                                    pending: Some(relation),
                                    failure,
                                },
                                None,
                            )
                        },
                        Err(e) => {
                            states.set(attempt, PairState::Failed);
                            if attempt + 1 < pairs.len() {
                                states.set(attempt + 1, PairState::Predicting);
                            }
                            (
                                PredictPipeline {
                                    cfg,
                                    client,
                                    repository: Some(repository),
                                    args,
                                    pairs: Some(pairs),
                                    states,
                                    attempt: attempt + 1,
                                    pending: None,
                                    failure,
                                },
                                Some(ItemError::Llm(e)),
                            )
                        },
                    }
                } else {
                    (
                        PredictPipeline {
                            cfg,
                            client,
                            repository: Some(repository),
                            args,
                            pairs: Some(pairs),
                            states,
                            attempt,
                            pending,
                            failure,
                        },
                        None,
                    )
                }
            },
            (Some(repository), Some(pairs), Event::Stored(outcome)) => {
                proof {
                    assert(positions(pairs@).len() == pairs.len());
                }
                if pending.is_some() {
                    let (state, error) = match repository.relation_added(outcome) {
                        Ok(()) => (PairState::Stored, None),
                        Err(e) => (PairState::Failed, Some(ItemError::Repository(e))),
                    };
                    states.set(attempt, state);
                    if attempt + 1 < pairs.len() {
                        states.set(attempt + 1, PairState::Predicting);
                    }
                    (
                        PredictPipeline {
                            cfg,
                            client,
                            repository: Some(repository),
                            args,
                            pairs: Some(pairs),
                            states,
                            attempt: attempt + 1,
                            pending: None,
                            failure,
                        },
                        error,
                    )
                } else {
                    (
                        PredictPipeline {
                            cfg,
                            client,
                            repository: Some(repository),
                            args,
                            pairs: Some(pairs),
                            states,
                            attempt,
                            pending,
                            failure,
                        },
                        None,
                    )
                }
            },
            (repository, pairs, _) => (
                PredictPipeline {
                    cfg,
                    client,
                    repository,
                    args,
                    pairs,
                    states,
                    attempt,
                    pending,
                    failure,
                },
                None,
            ),
        }
    }
}

} // verus!
