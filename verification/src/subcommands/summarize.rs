//! Summarizing the arguments of a file of posts and storing them.
//!
//! A run goes through the posts in the order of the file. Each post is
//! handed to the model; what the model answers is read as a summary; the
//! argument made of it is stored. A post whose request, summary or storing
//! fails is given up and the run goes on with the next one. Only what
//! happens before the first post ends the whole run: an input file that
//! cannot be read or understood, or a graph store that cannot be reached.
//!
//! The run itself sends nothing. It says what to do next, and is told what
//! doing it gave.

use vstd::prelude::*;
use vstd::string::StringExecFns;
use crate::clients::llm;
use crate::clients::llm::ollama::{completion_of, summarize_prompt, summary_of_completion,
    GenerateReply, GenerateRequestBody};
use crate::clients::repository;
use crate::clients::repository::neo4j::{argument_stored, create_argument, Statement};
use crate::clients::repository::Repository;
use crate::configuration::settings::{LLMCfg, LLMCfgView, Prompt, PromptView, RepositoryCfg,
    RepositoryCfgView};
use crate::models::{Argument, ArgumentView};
use crate::subcommands::{endpoint_of, request_of, texts, ItemError, ItemErrorView};

verus! {

/// What a run is made with.
#[derive(Debug)]
pub struct SummarizeArgumentCfg {
    pub llm_cfg: LLMCfg,
    pub repo_cfg: RepositoryCfg,
    pub prompt: Prompt,
    /// The path of the JSON file of posts.
    pub file_path: std::path::PathBuf,
}

/// Why a whole run failed.
#[derive(Debug)]
pub enum Error {
    /// The input file cannot be read.
    IOError(String),
    /// The input file is no list of posts.
    SerializationError(String),
    /// The graph store cannot be reached.
    RepositoryError(repository::Error),
}

/// The mathematical value of an [`Error`].
pub enum ErrorView {
    IOError(Seq<char>),
    SerializationError(Seq<char>),
    RepositoryError(repository::ErrorView),
}

impl View for Error {
    type V = ErrorView;

    open spec fn view(&self) -> ErrorView {
        match self {
            Error::IOError(d) => ErrorView::IOError(d@),
            Error::SerializationError(d) => ErrorView::SerializationError(d@),
            Error::RepositoryError(e) => ErrorView::RepositoryError(e@),
        }
    }
}

impl Clone for Error {
    fn clone(&self) -> (r: Self)
        ensures
            r@ == self@,
    {
        match self {
            Error::IOError(d) => Error::IOError(d.clone()),
            Error::SerializationError(d) => Error::SerializationError(d.clone()),
            Error::RepositoryError(e) => Error::RepositoryError(e.clone()),
        }
    }
}

impl ErrorView {
    /// What the error says.
    pub open spec fn message(self) -> Seq<char> {
        match self {
            ErrorView::IOError(d) => "io error: "@ + d,
            ErrorView::SerializationError(d) => "serialization error: "@ + d,
            ErrorView::RepositoryError(e) => "repository error: "@ + e.message(),
        }
    }
}

impl Error {
    /// Says what went wrong, for a reader.
    pub fn to_message(&self) -> (r: String)
        ensures
            r@ == self@.message(),
    {
        match self {
            Error::IOError(d) => "io error: ".to_owned().concat(d.as_str()),
            Error::SerializationError(d) => "serialization error: ".to_owned().concat(d.as_str()),
            Error::RepositoryError(e) => "repository error: ".to_owned().concat(
                e.to_message().as_str(),
            ),
        }
    }
}

/// How far a post has come.
#[derive(Clone, Copy, Debug, PartialEq, Eq, Structural)]
pub enum ItemState {
    /// Its turn has not come.
    Pending,
    /// The model is asked for its summary.
    Summarizing,
    /// Its argument is being stored.
    Summarized,
    /// Its argument is stored.
    Stored,
    /// It was given up.
    Failed,
}

/// What to do next.
#[derive(Debug)]
pub enum Action {
    /// Read the posts from the input file.
    ReadInput,
    /// Reach the graph store.
    Connect,
    /// Post `body` to `url`.
    Generate { url: String, body: GenerateRequestBody },
    /// Run the statement in a transaction of its own.
    Store(Statement),
    /// Nothing: the run is over, and this is how it ended.
    Finish(Result<(), Error>),
}

/// What doing the last action gave.
#[derive(Debug)]
pub enum Event {
    /// The posts of the input file, in its order.
    InputRead(Vec<String>),
    /// The input file cannot be read; the text says why.
    InputUnreadable(String),
    /// The input file is no list of posts; the text says why.
    InputMalformed(String),
    /// The graph store was reached, or why it was not.
    Connected(Result<(), String>),
    /// What became of the request.
    Generated(GenerateReply),
    /// The statement ran, or why it did not.
    Stored(Result<(), String>),
}

/// The part of the run that is under way.
#[derive(Clone, Copy, Debug, PartialEq, Eq, Structural)]
pub enum Stage {
    /// The input is to be read.
    Reading,
    /// The graph store is to be reached.
    Connecting,
    /// The posts are gone through.
    Running,
    /// The run failed before its first post.
    Aborted,
}

/// The mathematical value of a run.
pub struct SummarizeView {
    pub client: LLMCfgView,
    pub repo_cfg: RepositoryCfgView,
    pub prompt: PromptView,
    /// The path of the input file.
    pub file_path: std::path::PathBuf,
    pub stage: Stage,
    /// The posts; none before the input is read.
    pub contents: Seq<Seq<char>>,
    /// How far each post has come.
    pub states: Seq<ItemState>,
    /// The position of the post in progress; the number of posts once all
    /// are done.
    pub cursor: int,
    /// The argument that is being stored.
    pub pending: Option<ArgumentView>,
    /// Why the run failed.
    pub failure: Option<ErrorView>,
}

impl SummarizeView {
    /// The number of posts.
    pub open spec fn len(self) -> int {
        self.contents.len() as int
    }

    /// The run is over.
    pub open spec fn is_over(self) -> bool {
        self.stage == Stage::Aborted || (self.stage == Stage::Running && self.cursor == self.len())
    }

    /// What holds of every run.
    pub open spec fn well_formed(self) -> bool {
        &&& self.states.len() == self.contents.len()
        &&& 0 <= self.cursor <= self.len()
        &&& (self.stage == Stage::Aborted) == (self.failure is Some)
        &&& self.stage == Stage::Reading ==> self.len() == 0
        &&& self.stage != Stage::Running ==> self.cursor == 0 && self.pending is None
            && forall|k: int| 0 <= k < self.len() ==> self.states[k] == ItemState::Pending
        &&& self.stage == Stage::Running ==> {
            &&& forall|k: int|
                0 <= k < self.cursor ==> self.states[k] == ItemState::Stored || self.states[k]
                    == ItemState::Failed
            &&& forall|k: int| self.cursor < k < self.len() ==> self.states[k] == ItemState::Pending
            &&& self.cursor < self.len() ==> self.states[self.cursor] == if self.pending is Some {
                ItemState::Summarized
            } else {
                ItemState::Summarizing
            }
        }
        &&& self.pending matches Some(arg) ==> self.cursor < self.len() && arg.id is None
            && arg.raw == self.contents[self.cursor]
    }

    /// The run with the post in progress ended in `state` and the next
    /// one, if there is one, begun.
    pub open spec fn with_item_ended(self, state: ItemState) -> SummarizeView {
        let ended = self.states.update(self.cursor, state);
        SummarizeView {
            states: if self.cursor + 1 < self.len() {
                ended.update(self.cursor + 1, ItemState::Summarizing)
            } else {
                ended
            },
            cursor: self.cursor + 1,
            pending: None,
            ..self
        }
    }

    /// The run that failed as a whole.
    pub open spec fn aborted(self, failure: ErrorView) -> SummarizeView {
        SummarizeView { stage: Stage::Aborted, failure: Some(failure), ..self }
    }

    /// Whether the run waits for `event`. An event that it does not wait
    /// for changes nothing.
    pub open spec fn accepts(self, event: Event) -> bool {
        match (self.stage, event) {
            (Stage::Reading, Event::InputRead(_)) => true,
            (Stage::Reading, Event::InputUnreadable(_)) => true,
            (Stage::Reading, Event::InputMalformed(_)) => true,
            (Stage::Connecting, Event::Connected(_)) => true,
            (Stage::Running, Event::Generated(_)) => self.cursor < self.len() && self.pending
                is None,
            (Stage::Running, Event::Stored(_)) => self.pending is Some,
            _ => false,
        }
    }

    /// The run after `event`.
    pub open spec fn step(self, event: Event) -> SummarizeView {
        if !self.accepts(event) {
            self
        } else {
            match event {
                Event::InputRead(items) => SummarizeView {
                    stage: Stage::Connecting,
                    contents: texts(items@),
                    states: Seq::new(items@.len(), |k: int| ItemState::Pending),
                    ..self
                },
                Event::InputUnreadable(d) => self.aborted(ErrorView::IOError(d@)),
                Event::InputMalformed(d) => self.aborted(ErrorView::SerializationError(d@)),
                Event::Connected(Ok(())) => SummarizeView {
                    stage: Stage::Running,
                    states: if 0 < self.len() {
                        self.states.update(0, ItemState::Summarizing)
                    } else {
                        self.states
                    },
                    ..self
                },
                Event::Connected(Err(d)) => self.aborted(
                    ErrorView::RepositoryError(
                        repository::ErrorView::Neo4j(repository::neo4j::ErrorView::Neo4jError(d@)),
                    ),
                ),
                Event::Generated(reply) => match summary_of_completion(completion_of(reply@)) {
                    Ok(info) => SummarizeView {
                        states: self.states.update(self.cursor, ItemState::Summarized),
                        pending: Some(
                            ArgumentView {
                                id: None,
                                summarized_info: info,
                                raw: self.contents[self.cursor],
                            },
                        ),
                        ..self
                    },
                    Err(_) => self.with_item_ended(ItemState::Failed),
                },
                Event::Stored(outcome) => self.with_item_ended(
                    if outcome is Ok {
                        ItemState::Stored
                    } else {
                        ItemState::Failed
                    },
                ),
            }
        }
    }

    /// Why `event` made the run give up the post in progress, if it did.
    pub open spec fn item_error(self, event: Event) -> Option<ItemErrorView> {
        if !self.accepts(event) {
            None
        } else {
            match event {
                Event::Generated(reply) => match summary_of_completion(completion_of(reply@)) {
                    Ok(_) => None,
                    Err(e) => Some(ItemErrorView::Llm(llm::ErrorView::Ollama(e))),
                },
                Event::Stored(outcome) => match argument_stored(outcome) {
                    Ok(_) => None,
                    Err(e) => Some(ItemErrorView::Repository(repository::ErrorView::Neo4j(e))),
                },
                _ => None,
            }
        }
    }

    /// Whether `action` is what the run asks for next.
    pub open spec fn asks_for(self, action: Action) -> bool {
        match self.stage {
            Stage::Reading => action is ReadInput,
            Stage::Connecting => action is Connect,
            Stage::Aborted => action matches Action::Finish(Err(e)) && Some(e@) == self.failure,
            Stage::Running => if self.cursor >= self.len() {
                action matches Action::Finish(Ok(()))
            } else {
                match self.pending {
                    None => action matches Action::Generate { url, body } && url@ == endpoint_of(
                        self.client,
                    ) && body@ == request_of(
                        self.client,
                        self.prompt.system,
                        summarize_prompt(self.prompt.prompt, self.contents[self.cursor]),
                    ),
                    Some(arg) => action matches Action::Store(statement) && statement@
                        == create_argument(arg),
                }
            },
        }
    }

    /// How many events the run takes in at most, once it goes through the
    /// posts, before it is over: two for each post that is left, one less
    /// where the post in progress is already summarized.
    pub open spec fn remaining(self) -> int {
        2 * (self.len() - self.cursor) - if self.pending is Some {
            1int
        } else {
            0int
        }
    }

    /// The run as it begins.
    pub open spec fn initial(
        client: LLMCfgView,
        repo_cfg: RepositoryCfgView,
        prompt: PromptView,
        file_path: std::path::PathBuf,
    ) -> SummarizeView {
        SummarizeView {
            client,
            repo_cfg,
            prompt,
            file_path,
            stage: Stage::Reading,
            contents: Seq::empty(),
            states: Seq::empty(),
            cursor: 0,
            pending: None,
            failure: None,
        }
    }

    /// The run after every post that is left got its replies: the post at
    /// position `k` the reply `replies[k].generated` to its request and,
    /// where it came that far, the outcome `replies[k].stored` of storing
    /// its argument.
    pub open spec fn completed(self, replies: Seq<ItemReplies>) -> SummarizeView
        decreases self.len() - self.cursor,
    {
        if self.stage != Stage::Running || self.cursor < 0 || self.cursor >= self.len()
            || self.cursor >= replies.len() {
            self
        } else {
            let asked = self.step(Event::Generated(replies[self.cursor].generated));
            let done = if asked.pending is Some {
                asked.step(Event::Stored(replies[self.cursor].stored))
            } else {
                asked
            };
            done.completed(replies)
        }
    }
}

/// What the two actions for one post gave.
pub struct ItemReplies {
    /// What became of the request for the summary.
    pub generated: GenerateReply,
    /// What became of storing the argument, if it came to that.
    pub stored: Result<(), String>,
}

/// The state in which a post ends, which depends on its own replies
/// alone: it is stored where the model's answer is a summary and the
/// statement ran, and given up otherwise.
pub open spec fn outcome_of(replies: ItemReplies) -> ItemState {
    if summary_of_completion(completion_of(replies.generated@)) is Ok && replies.stored is Ok {
        ItemState::Stored
    } else {
        ItemState::Failed
    }
}

/// Every event leaves a run as every run is.
pub proof fn lemma_step_keeps_well_formed(s: SummarizeView, event: Event)
    requires
        s.well_formed(),
    ensures
        s.step(event).well_formed(),
{
}

/// Whether a post may go from the one state to the other: it waits, is
/// summarized, and then either has its argument stored or is given up;
/// it may be given up at once, and it never goes back.
pub open spec fn follows(before: ItemState, after: ItemState) -> bool {
    ||| before == after
    ||| before == ItemState::Pending && after == ItemState::Summarizing
    ||| before == ItemState::Summarizing && after == ItemState::Summarized
    ||| before == ItemState::Summarizing && after == ItemState::Failed
    ||| before == ItemState::Summarized && after == ItemState::Stored
    ||| before == ItemState::Summarized && after == ItemState::Failed
}

/// Whatever the event, every post stays where it is or goes one step
/// along its course.
pub proof fn lemma_posts_follow_their_course(s: SummarizeView, event: Event)
    requires
        s.well_formed(),
    ensures
        forall|k: int|
            0 <= k < s.states.len() ==> follows(s.states[k], #[trigger] s.step(event).states[k]),
{
}

/// While the posts are gone through, every event that the run waits for
/// brings it nearer to its end, whatever the event holds: the posts
/// before the one in progress stay as they ended, the list of posts stays
/// as it was read, and no event ends the run as a whole. Nothing is tried
/// twice: a post whose request failed is left behind, and so is a post
/// once the outcome of storing it is known.
pub proof fn lemma_item_failure_is_contained(s: SummarizeView, event: Event)
    requires
        s.well_formed(),
        s.stage == Stage::Running,
        s.accepts(event),
    ensures
        s.step(event).stage == Stage::Running,
        s.step(event).failure is None,
        s.step(event).contents == s.contents,
        0 <= s.step(event).remaining() < s.remaining(),
        forall|k: int| 0 <= k < s.cursor ==> s.step(event).states[k] == s.states[k],
        s.step(event).cursor == s.cursor + 1 || (s.step(event).cursor == s.cursor && s.step(
            event,
        ).pending is Some),
        event is Stored ==> s.step(event).cursor == s.cursor + 1,
{
}

/// Each post ends as its own replies make it end, whatever became of the
/// others: a failure at one post keeps no other post from being stored.
pub proof fn lemma_posts_are_independent(s: SummarizeView, replies: Seq<ItemReplies>)
    requires
        s.well_formed(),
        s.stage == Stage::Running,
        s.pending is None,
        replies.len() == s.len(),
    ensures
        s.completed(replies).is_over(),
        s.completed(replies).stage == Stage::Running,
        s.completed(replies).well_formed(),
        s.completed(replies).states.len() == s.len(),
        forall|k: int| 0 <= k < s.cursor ==> s.completed(replies).states[k] == s.states[k],
        forall|k: int|
            s.cursor <= k < s.len() ==> s.completed(replies).states[k] == outcome_of(replies[k]),
    decreases s.len() - s.cursor,
{
    if s.cursor < s.len() {
        let asked = s.step(Event::Generated(replies[s.cursor].generated));
        let done = if asked.pending is Some {
            asked.step(Event::Stored(replies[s.cursor].stored))
        } else {
            asked
        };
        lemma_step_keeps_well_formed(s, Event::Generated(replies[s.cursor].generated));
        lemma_step_keeps_well_formed(asked, Event::Stored(replies[s.cursor].stored));
        assert(done.states[s.cursor] == outcome_of(replies[s.cursor]));
        assert forall|k: int| 0 <= k < s.cursor implies done.states[k] == s.states[k] by {}
        lemma_posts_are_independent(done, replies);
    }
}

/// A run that cannot read its input, or cannot reach the graph store, is
/// over at once. Before the posts are gone through a run asks neither for
/// a request nor for a statement, and a run that failed as a whole never
/// asks for anything again, whatever it is told.
pub proof fn lemma_fatal_before_first_post(s: SummarizeView, event: Event, action: Action)
    requires
        s.well_formed(),
    ensures
        s.stage == Stage::Reading && (event is InputUnreadable || event is InputMalformed)
            ==> s.step(event).stage == Stage::Aborted,
        s.stage == Stage::Connecting && (event matches Event::Connected(Err(_))) ==> s.step(
            event,
        ).stage == Stage::Aborted,
        s.stage != Stage::Running && s.asks_for(action) ==> !(action is Generate) && !(action
            is Store),
        s.stage == Stage::Aborted ==> s.step(event) == s,
        s.stage == Stage::Aborted && s.asks_for(action) ==> (action matches Action::Finish(
            Err(_),
        )),
{
}

/// A run of summarizing and storing.
pub struct SummarizePipeline {
    cfg: SummarizeArgumentCfg,
    client: llm::Client,
    repository: Option<Repository>,
    contents: Option<Vec<String>>,
    states: Vec<ItemState>,
    cursor: usize,
    pending: Option<Argument>,
    failure: Option<Error>,
}

impl View for SummarizePipeline {
    type V = SummarizeView;

    closed spec fn view(&self) -> SummarizeView {
        SummarizeView {
            client: self.client@,
            repo_cfg: self.cfg.repo_cfg@,
            prompt: self.cfg.prompt@,
            file_path: self.cfg.file_path,
            stage: if self.failure is Some {
                Stage::Aborted
            } else if self.contents is None {
                Stage::Reading
            } else if self.repository is None {
                Stage::Connecting
            } else {
                Stage::Running
            },
            contents: match self.contents {
                Some(items) => texts(items@),
                None => Seq::empty(),
            },
            states: self.states@,
            cursor: self.cursor as int,
            pending: match self.pending {
                Some(arg) => Some(arg@),
                None => None,
            },
            failure: match self.failure {
                Some(e) => Some(e@),
                None => None,
            },
        }
    }
}

/// A list of `n` posts whose turn has not come.
fn all_pending(n: usize) -> (r: Vec<ItemState>)
    ensures
        r@ == Seq::new(n as nat, |k: int| ItemState::Pending),
{
    let mut states: Vec<ItemState> = Vec::new();
    while states.len() < n
        invariant
            states.len() <= n,
            forall|k: int| 0 <= k < states.len() ==> states@[k] == ItemState::Pending,
        decreases n - states.len(),
    {
        states.push(ItemState::Pending);
    }
    proof {
        assert(states@ =~= Seq::new(n as nat, |k: int| ItemState::Pending));
    }
    states
}

/// Begins a run: nothing is read yet and nothing is reached.
pub fn summarize_arguments(cfg: SummarizeArgumentCfg) -> (r: SummarizePipeline)
    ensures
        r@ == SummarizeView::initial(cfg.llm_cfg@, cfg.repo_cfg@, cfg.prompt@, cfg.file_path),
{
    let client = llm::Client::new(&cfg.llm_cfg);
    SummarizePipeline {
        cfg,
        client,
        repository: None,
        contents: None,
        states: Vec::new(),
        cursor: 0,
        pending: None,
        failure: None,
    }
}

impl SummarizePipeline {
    #[verifier::type_invariant]
    spec fn inv(&self) -> bool {
        &&& self.client@ == self.cfg.llm_cfg@
        &&& self.repository matches Some(r) ==> r@ == self.cfg.repo_cfg@ && self.contents is Some
        &&& self.contents is None ==> self.states@.len() == 0
        &&& self@.well_formed()
    }

    /// The path of the input file.
    pub fn file_path(&self) -> (r: &std::path::PathBuf)
        ensures
            *r == self@.file_path,
    {
        &self.cfg.file_path
    }

    /// The settings of the graph store to reach.
    pub fn repo_cfg(&self) -> (r: &RepositoryCfg)
        ensures
            r@ == self@.repo_cfg,
    {
        &self.cfg.repo_cfg
    }

    /// Whether the run is over.
    pub fn is_over(&self) -> (r: bool)
        ensures
            r == self@.is_over(),
    {
        proof {
            use_type_invariant(self);
        }
        match (&self.failure, &self.contents, &self.repository) {
            (Some(_), _, _) => true,
            (None, Some(items), Some(_)) => self.cursor == items.len(),
            _ => false,
        }
    }

    /// How far each post has come, in the order of the input.
    pub fn states(&self) -> (r: Vec<ItemState>)
        ensures
            r@ == self@.states,
    {
        let mut out: Vec<ItemState> = Vec::new();
        let mut k: usize = 0;
        while k < self.states.len()
            invariant
                k <= self.states.len(),
                out@ == self.states@.take(k as int),
            decreases self.states.len() - k,
        {
            out.push(self.states[k]);
            proof {
                assert(out@ =~= self.states@.take(k + 1));
            }
            k += 1;
        }
        proof {
            assert(out@ =~= self.states@);
        }
        out
    }

    /// What to do next.
    pub fn action(&self) -> (r: Action)
        ensures
            self@.asks_for(r),
    {
        proof {
            use_type_invariant(self);
        }
        match (&self.failure, &self.contents, &self.repository) {
            (Some(e), _, _) => Action::Finish(Err(e.clone())),
            (None, None, _) => Action::ReadInput,
            (None, Some(_), None) => Action::Connect,
            (None, Some(items), Some(repository)) => {
                if self.cursor >= items.len() {
                    Action::Finish(Ok(()))
                } else {
                    match &self.pending {
                        None => Action::Generate {
                            url: self.client.endpoint(),
                            body: self.client.summarize_request(
                                &self.cfg.prompt,
                                items[self.cursor].as_str(),
                            ),
                        },
                        Some(arg) => Action::Store(repository.add_argument(arg)),
                    }
                }
            },
        }
    }

    /// Takes in what the last action gave. The second part of the result
    /// says why the post in progress was given up, where it was, for the
    /// log.
    pub fn step(self, event: Event) -> (r: (SummarizePipeline, Option<ItemError>))
        ensures
            r.0@ == self@.step(event),
            match r.1 {
                Some(e) => self@.item_error(event) == Some(e@),
                None => self@.item_error(event) is None,
            },
    {
        proof {
            use_type_invariant(&self);
            lemma_step_keeps_well_formed(self@, event);
        }
        let SummarizePipeline {
            cfg,
            client,
            repository,
            contents,
            mut states,
            cursor,
            pending,
            failure,
        } = self;
        if failure.is_some() {
            return (
                SummarizePipeline {
                    cfg,
                    client,
                    repository,
                    contents,
                    states,
                    cursor,
                    pending,
                    failure,
                },
                None,
            );
        }
        match (contents, repository, event) {
            (None, repository, Event::InputRead(items)) => {
                let states = all_pending(items.len());
                (
                    SummarizePipeline {
                        cfg,
                        client,
                        repository,
                        contents: Some(items),
                        states,
                        cursor,
                        pending,
                        failure,
                    },
                    None,
                )
            },
            (None, repository, Event::InputUnreadable(d)) => (
                SummarizePipeline {
                    cfg,
                    client,
                    repository,
                    contents: None,
                    states,
                    cursor,
                    pending,
                    failure: Some(Error::IOError(d)),
                },
                None,
            ),
            (None, repository, Event::InputMalformed(d)) => (
                SummarizePipeline {
                    cfg,
                    client,
                    repository,
                    contents: None,
                    states,
                    cursor,
                    pending,
                    failure: Some(Error::SerializationError(d)),
                },
                None,
            ),
            (Some(items), None, Event::Connected(connected)) => {
                match Repository::new(&cfg.repo_cfg, connected) {
                    Ok(repository) => {
                        if items.len() > 0 {
                            states.set(0, ItemState::Summarizing);
                        }
                        (
                            SummarizePipeline {
                                cfg,
                                client,
                                repository: Some(repository),
                                contents: Some(items),
                                states,
                                cursor,
                                pending,
                                failure,
                            },
                            None,
                        )
                    },
                    Err(e) => (
                        SummarizePipeline {
                            cfg,
                            client,
                            repository: None,
                            contents: Some(items),
                            states,
                            cursor,
                            pending,
                            failure: Some(Error::RepositoryError(e)),
                        },
                        None,
                    ),
                }
            },
            (Some(items), Some(repository), Event::Generated(reply)) => {
                if cursor < items.len() && pending.is_none() {
                    match client.summarize(reply) {
                        Ok(info) => {
                            let arg = Argument::new(info, items[cursor].clone());
                            states.set(cursor, ItemState::Summarized);
                            (
                                SummarizePipeline {
                                    cfg,
                                    client,
                                    repository: Some(repository),
                                    contents: Some(items),
                                    states,
                                    cursor,
                                    pending: Some(arg),
                                    failure,
                                },
                                None,
                            )
                        },
                        Err(e) => {
                            states.set(cursor, ItemState::Failed);
                            if cursor + 1 < items.len() {
                                states.set(cursor + 1, ItemState::Summarizing);
                            }
                            (
                                SummarizePipeline {
                                    cfg,
                                    client,
                                    repository: Some(repository),
                                    contents: Some(items),
                                    states,
                                    cursor: cursor + 1,
                                    pending: None,
                                    failure,
                                },
                                Some(ItemError::Llm(e)),
                            )
                        },
                    }
                } else {
                    (
                        SummarizePipeline {
                            cfg,
                            client,
                            repository: Some(repository),
                            contents: Some(items),
                            states,
                            cursor,
                            pending,
                            failure,
                        },
                        None,
                    )
                }
            },
            (Some(items), Some(repository), Event::Stored(outcome)) => {
                if pending.is_some() {
                    proof {
                        assert(texts(items@).len() == items.len());
                    }
                    let (state, error) = match repository.argument_added(outcome) {
                        Ok(()) => (ItemState::Stored, None),
                        Err(e) => (ItemState::Failed, Some(ItemError::Repository(e))),
                    };
                    states.set(cursor, state);
                    if cursor + 1 < items.len() {
                        states.set(cursor + 1, ItemState::Summarizing);
                    }
                    (
                        SummarizePipeline {
                            cfg,
                            client,
                            repository: Some(repository),
                            contents: Some(items),
                            states,
                            cursor: cursor + 1,
                            pending: None,
                            failure,
                        },
                        error,
                    )
                } else {
                    (
                        SummarizePipeline {
                            cfg,
                            client,
                            repository: Some(repository),
                            contents: Some(items),
                            states,
                            cursor,
                            pending,
                            failure,
                        },
                        None,
                    )
                }
            },
            (contents, repository, _) => (
                SummarizePipeline {
                    cfg,
                    client,
                    repository,
                    contents,
                    states,
                    cursor,
                    pending,
                    failure,
                },
                None,
            ),
        }
    }
}

} // verus!
