//! The course of one run: which action comes next, and what a reply leads to.
//!
//! A run asks the engine for four things, in this order: open a session,
//! attach the warehouse, drop the destination table if it exists, create the
//! destination table from the source file. The caller performs each action and
//! hands back what the engine replied. The first failure ends the run; nothing
//! is tried again and no later step is asked for.

use vstd::prelude::*;
use crate::config::{first_defect, text_of, Config, ConfigError, ConfigView};
use crate::statement::{
    attach_statement,
    attach_text,
    create_statement,
    create_text,
    drop_statement,
    drop_text,
};

verus! {

/// One of the four things the engine is asked to do.
#[derive(Clone, Copy, Debug, PartialEq, Eq, Structural)]
pub enum Step {
    /// Open a fresh in-memory session of the engine.
    OpenSession,
    /// Attach the warehouse under the catalog alias.
    Attach,
    /// Drop the destination table if it exists.
    DropIfExists,
    /// Create the destination table from the rows of the source file.
    CreateFromFile,
}

/// Why a run ended without the table in place.
#[derive(Debug, PartialEq, Eq)]
pub enum RunError {
    /// A required setting was not supplied.
    Configuration(ConfigError),
    /// The engine could not open a session; the engine's own words.
    EngineInit(String),
    /// The warehouse could not be attached; the engine's own words.
    Attach(String),
    /// The drop or the create statement failed; the engine's own words.
    Ingestion(String),
}

/// The mathematical content of a [`RunError`].
pub enum RunErrorView {
    Configuration(ConfigError),
    EngineInit(Seq<char>),
    Attach(Seq<char>),
    Ingestion(Seq<char>),
}

/// What the caller is to do next.
#[derive(Debug, PartialEq, Eq)]
pub enum Action {
    /// Open a fresh in-memory session of the engine.
    OpenSession,
    /// Run this text as a batch of statements on the session.
    RunBatch(String),
    /// Run this text as one statement, without parameters, on the session.
    RunStatement(String),
    /// Release the session, if one is open, and report this outcome.
    Finish(Result<(), RunError>),
}

/// The mathematical content of an [`Action`].
pub enum ActionView {
    OpenSession,
    RunBatch(Seq<char>),
    RunStatement(Seq<char>),
    Finish(Result<(), RunErrorView>),
}

/// Where a run stands.
pub enum StageView {
    /// The outcome of this step is awaited.
    Pending { config: ConfigView, step: Step },
    /// All four steps were done.
    Succeeded,
    /// The run has ended with this error.
    Failed(RunErrorView),
}

enum Stage {
    Pending { config: Config, step: Step },
    Succeeded,
    Failed(RunError),
}

/// The state of one run.
pub struct Ingestion {
    stage: Stage,
}

impl View for RunError {
    type V = RunErrorView;

    open spec fn view(&self) -> RunErrorView {
        match self {
            RunError::Configuration(error) => RunErrorView::Configuration(*error),
            RunError::EngineInit(cause) => RunErrorView::EngineInit(cause@),
            RunError::Attach(cause) => RunErrorView::Attach(cause@),
            RunError::Ingestion(cause) => RunErrorView::Ingestion(cause@),
        }
    }
}

/// The view of an outcome.
pub open spec fn outcome_view(outcome: Result<(), RunError>) -> Result<(), RunErrorView> {
    match outcome {
        Ok(()) => Ok(()),
        Err(error) => Err(error@),
    }
}

impl View for Action {
    type V = ActionView;

    open spec fn view(&self) -> ActionView {
        match self {
            Action::OpenSession => ActionView::OpenSession,
            Action::RunBatch(sql) => ActionView::RunBatch(sql@),
            Action::RunStatement(sql) => ActionView::RunStatement(sql@),
            Action::Finish(outcome) => ActionView::Finish(outcome_view(*outcome)),
        }
    }
}

impl View for Stage {
    type V = StageView;

    closed spec fn view(&self) -> StageView {
        match self {
            Stage::Pending { config, step } => StageView::Pending { config: config@, step: *step },
            Stage::Succeeded => StageView::Succeeded,
            Stage::Failed(error) => StageView::Failed(error@),
        }
    }
}

impl View for Ingestion {
    type V = StageView;

    closed spec fn view(&self) -> StageView {
        self.stage@
    }
}

/// The failure that an engine reply carries: `None` when the action was done,
/// else the engine's words.
pub open spec fn cause_of(reply: Result<(), String>) -> Option<Seq<char>> {
    match reply {
        Ok(()) => None,
        Err(cause) => Some(cause@),
    }
}

/// The step that follows `step`, if any.
pub open spec fn successor(step: Step) -> Option<Step> {
    match step {
        Step::OpenSession => Some(Step::Attach),
        Step::Attach => Some(Step::DropIfExists),
        Step::DropIfExists => Some(Step::CreateFromFile),
        Step::CreateFromFile => None,
    }
}

/// The error that a failure of `step` is reported as.
pub open spec fn failure(step: Step, cause: Seq<char>) -> RunErrorView {
    match step {
        Step::OpenSession => RunErrorView::EngineInit(cause),
        Step::Attach => RunErrorView::Attach(cause),
        Step::DropIfExists => RunErrorView::Ingestion(cause),
        Step::CreateFromFile => RunErrorView::Ingestion(cause),
    }
}

/// Where a run starts: at the first step when both settings were supplied,
/// else at its end, with the configuration error.
pub open spec fn initial_stage(connection_url: Option<Seq<char>>, source: Option<Seq<char>>) -> StageView {
    match first_defect(connection_url, source) {
        Some(error) => StageView::Failed(RunErrorView::Configuration(error)),
        None => StageView::Pending {
            config: ConfigView { connection_url: connection_url->0, source: source->0 },
            step: Step::OpenSession,
        },
    }
}

/// The action that the caller is asked for at `stage`.
pub open spec fn action_at(stage: StageView) -> ActionView {
    match stage {
        StageView::Pending { config, step } => match step {
            Step::OpenSession => ActionView::OpenSession,
            Step::Attach => ActionView::RunBatch(attach_text(config.connection_url)),
            Step::DropIfExists => ActionView::RunBatch(drop_text()),
            Step::CreateFromFile => ActionView::RunStatement(create_text(config.source)),
        },
        StageView::Succeeded => ActionView::Finish(Ok(())),
        StageView::Failed(error) => ActionView::Finish(Err(error)),
    }
}

/// The stage that follows `stage` when the engine's reply to its action
/// carries `cause`. A run that has ended stays as it is.
pub open spec fn next_stage(stage: StageView, cause: Option<Seq<char>>) -> StageView {
    match stage {
        StageView::Pending { config, step } => match cause {
            Some(words) => StageView::Failed(failure(step, words)),
            None => match successor(step) {
                Some(next) => StageView::Pending { config, step: next },
                None => StageView::Succeeded,
            },
        },
        StageView::Succeeded => stage,
        StageView::Failed(_) => stage,
    }
}

impl Step {
    /// The step that follows this one, if any.
    pub fn next(self) -> (next: Option<Step>)
        ensures
            next == successor(self),
    {
        match self {
            Step::OpenSession => Some(Step::Attach),
            Step::Attach => Some(Step::DropIfExists),
            Step::DropIfExists => Some(Step::CreateFromFile),
            Step::CreateFromFile => None,
        }
    }

    /// The error that a failure of this step is reported as, with the engine's
    /// words kept as they are.
    pub fn failed(self, cause: String) -> (error: RunError)
        ensures
            error@ == failure(self, cause@),
    {
        match self {
            Step::OpenSession => RunError::EngineInit(cause),
            Step::Attach => RunError::Attach(cause),
            Step::DropIfExists => RunError::Ingestion(cause),
            Step::CreateFromFile => RunError::Ingestion(cause),
        }
    }
}

impl Clone for RunError {
    fn clone(&self) -> (copy: RunError)
        ensures
            copy@ == self@,
    {
        match self {
            RunError::Configuration(error) => RunError::Configuration(*error),
            RunError::EngineInit(cause) => RunError::EngineInit(cause.clone()),
            RunError::Attach(cause) => RunError::Attach(cause.clone()),
            RunError::Ingestion(cause) => RunError::Ingestion(cause.clone()),
        }
    }
}

impl Clone for Action {
    fn clone(&self) -> (copy: Action)
        ensures
            copy@ == self@,
    {
        match self {
            Action::OpenSession => Action::OpenSession,
            Action::RunBatch(sql) => Action::RunBatch(sql.clone()),
            Action::RunStatement(sql) => Action::RunStatement(sql.clone()),
            Action::Finish(outcome) => match outcome {
                Ok(()) => Action::Finish(Ok(())),
                Err(error) => Action::Finish(Err(error.clone())),
            },
        }
    }
}

impl RunErrorView {
    /// The text that reports this error: for a missing setting the sentence
    /// that names it, else the engine's words.
    pub open spec fn message_text(self) -> Seq<char> {
        match self {
            RunErrorView::Configuration(error) => error.message_text(),
            RunErrorView::EngineInit(cause) => cause,
            RunErrorView::Attach(cause) => cause,
            RunErrorView::Ingestion(cause) => cause,
        }
    }
}

impl RunError {
    /// The text that reports this error.
    pub fn message(&self) -> (text: String)
        ensures
            text@ == self@.message_text(),
    {
        match self {
            RunError::Configuration(error) => error.message(),
            RunError::EngineInit(cause) => cause.clone(),
            RunError::Attach(cause) => cause.clone(),
            RunError::Ingestion(cause) => cause.clone(),
        }
    }
}

impl Ingestion {
    /// Starts a run with settings that were already checked.
    pub fn new(config: Config) -> (run: Ingestion)
        ensures
            run@ == (StageView::Pending { config: config@, step: Step::OpenSession }),
    {
        Ingestion { stage: Stage::Pending { config, step: Step::OpenSession } }
    }

    /// Starts a run from the two raw settings. When one of them was not
    /// supplied the run is over before it asks the engine for anything.
    pub fn begin(connection_url: Option<String>, source: Option<String>) -> (run: Ingestion)
        ensures
            run@ == initial_stage(text_of(connection_url), text_of(source)),
    {
        match Config::resolve(connection_url, source) {
            Ok(config) => Ingestion::new(config),
            Err(error) => Ingestion { stage: Stage::Failed(RunError::Configuration(error)) },
        }
    }

    /// The action that the caller is to perform now.
    pub fn next_action(&self) -> (action: Action)
        ensures
            action@ == action_at(self@),
    {
        match &self.stage {
            Stage::Pending { config, step } => match step {
                Step::OpenSession => Action::OpenSession,
                Step::Attach => Action::RunBatch(attach_statement(config.connection_url())),
                Step::DropIfExists => Action::RunBatch(drop_statement()),
                Step::CreateFromFile => Action::RunStatement(create_statement(config.source())),
            },
            Stage::Succeeded => Action::Finish(Ok(())),
            Stage::Failed(error) => Action::Finish(Err(error.clone())),
        }
    }

    /// Takes the engine's reply to the action last asked for and moves on.
    pub fn advance(self, reply: Result<(), String>) -> (next: Ingestion)
        ensures
            next@ == next_stage(self@, cause_of(reply)),
    {
        match self.stage {
            Stage::Pending { config, step } => match reply {
                Err(cause) => Ingestion { stage: Stage::Failed(step.failed(cause)) },
                Ok(()) => match step.next() {
                    Some(next) => Ingestion { stage: Stage::Pending { config, step: next } },
                    None => Ingestion { stage: Stage::Succeeded },
                },
            },
            Stage::Succeeded => Ingestion { stage: Stage::Succeeded },
            Stage::Failed(error) => Ingestion { stage: Stage::Failed(error) },
        }
    }
}

/// The step at position `index` of a run, counted from zero.
pub open spec fn step_at(index: int) -> Step {
    if index <= 0 {
        Step::OpenSession
    } else if index == 1 {
        Step::Attach
    } else if index == 2 {
        Step::DropIfExists
    } else {
        Step::CreateFromFile
    }
}

/// The stage at which a run with checked settings starts.
pub open spec fn start(config: ConfigView) -> StageView {
    StageView::Pending { config, step: Step::OpenSession }
}

/// The stage reached from `stage` when the engine's replies carry these
/// causes, taken in order.
pub open spec fn stage_after(stage: StageView, causes: Seq<Option<Seq<char>>>) -> StageView
    decreases causes.len(),
{
    if causes.len() == 0 {
        stage
    } else {
        next_stage(stage_after(stage, causes.drop_last()), causes.last())
    }
}

/// The four actions of a run are asked for in one fixed order: open a
/// session, attach the warehouse, drop the destination if it exists, create
/// it from the source file.
pub proof fn lemma_actions_in_order(config: ConfigView)
    ensures
        action_at((StageView::Pending { config, step: step_at(0) })) == ActionView::OpenSession,
        action_at((StageView::Pending { config, step: step_at(1) })) == ActionView::RunBatch(
            attach_text(config.connection_url),
        ),
        action_at((StageView::Pending { config, step: step_at(2) })) == ActionView::RunBatch(drop_text()),
        action_at((StageView::Pending { config, step: step_at(3) })) == ActionView::RunStatement(
            create_text(config.source),
        ),
        forall|index: int| 0 <= index < 3 ==> successor(#[trigger] step_at(index)) == Some(step_at(index + 1)),
        successor(step_at(3)) is None,
{
}

/// No step is skipped or taken out of turn, and the first failure is final.
/// Let `done` be the number of replies without a failure that come before
/// the first failure, four at most. After four the run has succeeded,
/// whatever follows. Else, if a failure follows them, the run has failed
/// with the error of the step at position `done` and the words of that reply.
/// Else the run waits for the step at position `done`.
pub proof fn lemma_run_follows_the_order(config: ConfigView, causes: Seq<Option<Seq<char>>>, done: int)
    requires
        0 <= done <= 4,
        done <= causes.len(),
        forall|i: int| 0 <= i < done ==> causes[i] is None,
        done < 4 && done < causes.len() ==> causes[done] is Some,
    ensures
        stage_after(start(config), causes) == if done == 4 {
            StageView::Succeeded
        } else if done == causes.len() {
            (StageView::Pending { config, step: step_at(done) })
        } else {
            StageView::Failed(failure(step_at(done), causes[done]->0))
        },
    decreases causes.len(),
{
    if causes.len() > 0 {
        let earlier = causes.drop_last();
        if done == causes.len() {
            lemma_run_follows_the_order(config, earlier, done - 1);
        } else {
            lemma_run_follows_the_order(config, earlier, done);
        }
    }
}

/// A run that has ended stays as it is, whatever replies are handed to it.
pub proof fn lemma_end_is_final(stage: StageView, causes: Seq<Option<Seq<char>>>)
    requires
        !(stage is Pending),
    ensures
        stage_after(stage, causes) == stage,
    decreases causes.len(),
{
    if causes.len() > 0 {
        lemma_end_is_final(stage, causes.drop_last());
    }
}

/// A run is over after four replies at the latest.
pub proof fn lemma_run_ends_within_four_replies(config: ConfigView, causes: Seq<Option<Seq<char>>>)
    requires
        causes.len() >= 4,
    ensures
        !(stage_after(start(config), causes) is Pending),
{
    if causes[0] is Some {
        lemma_run_follows_the_order(config, causes, 0);
    } else if causes[1] is Some {
        lemma_run_follows_the_order(config, causes, 1);
    } else if causes[2] is Some {
        lemma_run_follows_the_order(config, causes, 2);
    } else if causes[3] is Some {
        lemma_run_follows_the_order(config, causes, 3);
    } else {
        lemma_run_follows_the_order(config, causes, 4);
    }
}

/// The number of steps that a run at `stage` may still ask for.
pub open spec fn steps_left(stage: StageView) -> nat {
    match stage {
        StageView::Pending { config, step } => match step {
            Step::OpenSession => 4,
            Step::Attach => 3,
            Step::DropIfExists => 2,
            Step::CreateFromFile => 1,
        },
        StageView::Succeeded => 0,
        StageView::Failed(_) => 0,
    }
}

/// Whether `perform`, asked for the action of `stage`, can have given a reply
/// that carries `cause`.
pub open spec fn reply_given<E: Fn(&Action) -> Result<(), String>>(
    perform: E,
    stage: StageView,
    cause: Option<Seq<char>>,
) -> bool {
    exists|action: Action, reply: Result<(), String>|
        {
            &&& stage is Pending
            &&& action@ == action_at(stage)
            &&& #[trigger] call_ensures(perform, (&action,), reply)
            &&& cause_of(reply) == cause
        }
}

/// Whether these causes are those of the replies that `perform` gave, one
/// after the other, to the actions of a run that began at `first`.
pub open spec fn replied<E: Fn(&Action) -> Result<(), String>>(
    perform: E,
    first: StageView,
    causes: Seq<Option<Seq<char>>>,
) -> bool
    decreases causes.len(),
{
    causes.len() == 0 || {
        &&& replied(perform, first, causes.drop_last())
        &&& reply_given(perform, stage_after(first, causes.drop_last()), causes.last())
    }
}

/// Each reply answers the action of the stage that the replies before it led to.
pub proof fn lemma_each_reply_answers_its_action<E: Fn(&Action) -> Result<(), String>>(
    perform: E,
    first: StageView,
    causes: Seq<Option<Seq<char>>>,
    index: int,
)
    requires
        replied(perform, first, causes),
        0 <= index < causes.len(),
    ensures
        reply_given(perform, stage_after(first, causes.take(index)), causes[index]),
    decreases causes.len(),
{
    if index < causes.len() - 1 {
        lemma_each_reply_answers_its_action(perform, first, causes.drop_last(), index);
        assert(causes.drop_last().take(index) == causes.take(index));
    } else {
        assert(causes.take(index) == causes.drop_last());
    }
}

/// Whether a run that began at `first` and ended with `outcome` got there by
/// the replies of `perform`, which carried these causes: each reply answers the
/// action of the stage that the earlier ones led to, every reply moved the run
/// one step on or ended it, and the stage after the last one reports `outcome`.
pub open spec fn carried_out<E: Fn(&Action) -> Result<(), String>>(
    perform: E,
    first: StageView,
    causes: Seq<Option<Seq<char>>>,
    outcome: Result<(), RunErrorView>,
) -> bool {
    &&& replied(perform, first, causes)
    &&& causes.len() <= steps_left(first)
    &&& action_at(stage_after(first, causes)) == ActionView::Finish(outcome)
}

/// Carries out one whole run. The two raw settings are checked first; if one
/// was not supplied, `perform` is never called. Else `perform` is called for
/// each action in turn, with the action as its argument, until one fails or
/// all four are done. The outcome is the one that the replies of `perform`
/// lead to, and it is reached after four calls at most.
pub fn ingest_data<E: Fn(&Action) -> Result<(), String>>(
    connection_url: Option<String>,
    source: Option<String>,
    perform: E,
) -> (outcome: Result<(), RunError>)
    requires
        forall|action: Action| !(action@ is Finish) ==> call_requires(perform, (&action,)),
    ensures
        exists|causes: Seq<Option<Seq<char>>>| #[trigger]
            carried_out(
                perform,
                initial_stage(text_of(connection_url), text_of(source)),
                causes,
                outcome_view(outcome),
            ),
{
    let mut run = Ingestion::begin(connection_url, source);
    let ghost first = run@;
    let ghost mut causes = Seq::<Option<Seq<char>>>::empty();
    loop
        invariant
            first == initial_stage(text_of(connection_url), text_of(source)),
            run@ == stage_after(first, causes),
            causes.len() + steps_left(run@) <= steps_left(first),
            replied(perform, first, causes),
            forall|action: Action| !(action@ is Finish) ==> call_requires(perform, (&action,)),
        decreases steps_left(run@),
    {
        let action = run.next_action();
        if let Action::Finish(outcome) = action {
            assert(carried_out(perform, first, causes, outcome_view(outcome)));
            return outcome;
        }
        let reply = perform(&action);
        proof {
            let longer = causes.push(cause_of(reply));
            assert(longer.drop_last() == causes);
            assert(reply_given(perform, stage_after(first, causes), cause_of(reply)));
            causes = longer;
        }
        run = run.advance(reply);
    }
}

} // verus!
