//! The orchestrator: a strict linear state machine
//! `Init -> GuardChecked -> Translated -> Edited -> Committed`, with a
//! terminal failure state reachable from every transition.
//!
//! The machine never performs an external action itself. `pending_action`
//! says what the surrounding binary must do next; the binary performs it
//! and feeds the outcome back through `run`. A state whose pending action
//! is `None` is terminal. The interactive stage is split into session
//! creation, the pre-filled read, and the color restore, so that the
//! guarantee "the terminal color is restored exactly once per read,
//! whatever the read's outcome" is part of the machine itself.

use vstd::prelude::*;

use crate::errors::{
    EditError, EditErrorModel, PipelineError, PipelineErrorModel, PolicyError,
    TranslationErrorModel,
};
use crate::event::{
    Event, EventModel, ReadOutcome, ReadOutcomeModel, SessionStart, SpawnOutputModel, SpawnStatus,
};
use crate::stage::{
    commit_decision, commit_with_message, edit_decision, edit_message, ensure_git_repo,
    guard_decision, translate_to_english, translation_decision, utf8_decoded,
};
use crate::text::{all_ws, lemma_trim_empty_iff_all_ws, lemma_trim_idempotent, trim_spec};

verus! {

/// A state of the pipeline. The value each state carries is the one the
/// next stage consumes.
#[derive(Debug, Clone, PartialEq, Eq)]
pub enum State {
    /// Nothing has run yet; carries the raw message to translate.
    Init { raw: String },
    /// The repository guard passed.
    GuardChecked { raw: String },
    /// The translator produced a non-empty trimmed message.
    Translated { translated: String },
    /// The editing session is ready and the prompt may be shown.
    SessionActive { translated: String },
    /// The read returned; the color must be restored before the outcome
    /// is acted on.
    LineRead { outcome: ReadOutcome },
    /// The edited message passed the non-empty policy.
    Edited { message: String },
    /// The commit succeeded; terminal.
    Committed,
    /// A stage failed; terminal.
    Failed { error: PipelineError },
}

/// Model of `State`.
pub enum StateModel {
    Init(Seq<char>),
    GuardChecked(Seq<char>),
    Translated(Seq<char>),
    SessionActive(Seq<char>),
    LineRead(ReadOutcomeModel),
    Edited(Seq<char>),
    Committed,
    Failed(PipelineErrorModel),
}

impl View for State {
    type V = StateModel;

    open spec fn view(&self) -> StateModel {
        match self {
            State::Init { raw } => StateModel::Init(raw@),
            State::GuardChecked { raw } => StateModel::GuardChecked(raw@),
            State::Translated { translated } => StateModel::Translated(translated@),
            State::SessionActive { translated } => StateModel::SessionActive(translated@),
            State::LineRead { outcome } => StateModel::LineRead(outcome@),
            State::Edited { message } => StateModel::Edited(message@),
            State::Committed => StateModel::Committed,
            State::Failed { error } => StateModel::Failed(error@),
        }
    }
}

/// An external action the pipeline asks the surrounding binary to
/// perform.
#[derive(Debug, Clone, PartialEq, Eq)]
pub enum Action {
    /// Run the version-control "inside a working tree" query, both
    /// output streams discarded.
    QueryWorkTree,
    /// Run the translator on `message` with the into-English directive,
    /// both output streams captured.
    Translate { message: String },
    /// Create the interactive editing session.
    StartSession,
    /// Switch the terminal text color to the attention color, then read
    /// one line pre-filled with `initial`, fully editable.
    PromptLine { initial: String },
    /// Restore the terminal text color to the default.
    RestoreColor,
    /// Run the version-control commit with `message` as one opaque
    /// argument, output streams inherited.
    Commit { message: String },
}

/// Model of `Action`.
pub enum ActionModel {
    QueryWorkTree,
    Translate(Seq<char>),
    StartSession,
    PromptLine(Seq<char>),
    RestoreColor,
    Commit(Seq<char>),
}

impl View for Action {
    type V = ActionModel;

    open spec fn view(&self) -> ActionModel {
        match self {
            Action::QueryWorkTree => ActionModel::QueryWorkTree,
            Action::Translate { message } => ActionModel::Translate(message@),
            Action::StartSession => ActionModel::StartSession,
            Action::PromptLine { initial } => ActionModel::PromptLine(initial@),
            Action::RestoreColor => ActionModel::RestoreColor,
            Action::Commit { message } => ActionModel::Commit(message@),
        }
    }
}

/// The action pending in a state, `None` in the two terminal states.
pub open spec fn action_model(s: StateModel) -> Option<ActionModel> {
    match s {
        StateModel::Init(_) => Some(ActionModel::QueryWorkTree),
        StateModel::GuardChecked(raw) => Some(ActionModel::Translate(raw)),
        StateModel::Translated(_) => Some(ActionModel::StartSession),
        StateModel::SessionActive(t) => Some(ActionModel::PromptLine(t)),
        StateModel::LineRead(_) => Some(ActionModel::RestoreColor),
        StateModel::Edited(m) => Some(ActionModel::Commit(m)),
        StateModel::Committed => None,
        StateModel::Failed(_) => None,
    }
}

/// Whether `e` is the outcome of the action pending in `s`: the only
/// events a state accepts.
pub open spec fn expects_model(s: StateModel, e: EventModel) -> bool {
    match (s, e) {
        (StateModel::Init(_), EventModel::GuardResult(_)) => true,
        (StateModel::GuardChecked(_), EventModel::TranslatorResult(_)) => true,
        (StateModel::Translated(_), EventModel::SessionResult(_)) => true,
        (StateModel::SessionActive(_), EventModel::LineResult(_)) => true,
        (StateModel::LineRead(_), EventModel::ColorRestored) => true,
        (StateModel::Edited(_), EventModel::CommitResult(_)) => true,
        _ => false,
    }
}

/// The transition relation of the pipeline: from a state and the outcome
/// of its pending action to the next state. Every stage failure moves to
/// the terminal `Failed` state with that stage's error; the emptiness of
/// the edited message is the orchestrator's own policy, checked here
/// after the color restore.
pub open spec fn step_model(s: StateModel, e: EventModel) -> StateModel {
    match (s, e) {
        (StateModel::Init(raw), EventModel::GuardResult(st)) => match guard_decision(st) {
            Ok(_) => StateModel::GuardChecked(raw),
            Err(err) => StateModel::Failed(PipelineErrorModel::Environment(err)),
        },
        (StateModel::GuardChecked(_), EventModel::TranslatorResult(o)) => match translation_decision(
            o,
        ) {
            Ok(t) => StateModel::Translated(t),
            Err(err) => StateModel::Failed(PipelineErrorModel::Translation(err)),
        },
        (StateModel::Translated(t), EventModel::SessionResult(st)) => match st {
            SessionStart::Ready => StateModel::SessionActive(t),
            SessionStart::Unavailable => StateModel::Failed(
                PipelineErrorModel::Edit(EditErrorModel::SessionInitFailed),
            ),
        },
        (StateModel::SessionActive(_), EventModel::LineResult(o)) => StateModel::LineRead(o),
        (StateModel::LineRead(o), EventModel::ColorRestored) => match edit_decision(o) {
            Ok(line) => if line.len() == 0 {
                StateModel::Failed(PipelineErrorModel::Policy(PolicyError::EmptyAfterEdit))
            } else {
                StateModel::Edited(line)
            },
            Err(err) => StateModel::Failed(PipelineErrorModel::Edit(err)),
        },
        (StateModel::Edited(_), EventModel::CommitResult(st)) => match commit_decision(st) {
            Ok(_) => StateModel::Committed,
            Err(err) => StateModel::Failed(PipelineErrorModel::Commit(err)),
        },
        _ => s,
    }
}

/// One transition of the pipeline, exactly as `step_model` states it.
pub fn run(state: State, event: Event) -> (r: State)
    requires
        expects_model(state@, event@),
    ensures
        r@ == step_model(state@, event@),
{
    match (state, event) {
        (State::Init { raw }, Event::GuardResult(st)) => match ensure_git_repo(st) {
            Ok(_) => State::GuardChecked { raw },
            Err(err) => State::Failed { error: PipelineError::Environment(err) },
        },
        (State::GuardChecked { raw: _ }, Event::TranslatorResult(o)) => match translate_to_english(
            o,
        ) {
            Ok(t) => State::Translated { translated: t },
            Err(err) => State::Failed { error: PipelineError::Translation(err) },
        },
        (State::Translated { translated }, Event::SessionResult(st)) => match st {
            SessionStart::Ready => State::SessionActive { translated },
            SessionStart::Unavailable => State::Failed {
                error: PipelineError::Edit(EditError::SessionInitFailed),
            },
        },
        (State::SessionActive { translated: _ }, Event::LineResult(o)) => State::LineRead {
            outcome: o,
        },
        (State::LineRead { outcome }, Event::ColorRestored) => match edit_message(outcome) {
            Ok(line) => if line.as_str().unicode_len() == 0 {
                State::Failed { error: PipelineError::Policy(PolicyError::EmptyAfterEdit) }
            } else {
                State::Edited { message: line }
            },
            Err(err) => State::Failed { error: PipelineError::Edit(err) },
        },
        (State::Edited { message: _ }, Event::CommitResult(st)) => match commit_with_message(st) {
            Ok(_) => State::Committed,
            Err(err) => State::Failed { error: PipelineError::Commit(err) },
        },
        (s, _) => s,
    }
}

impl State {
    /// The external action to perform next, `None` once the pipeline has
    /// committed or failed.
    pub fn pending_action(&self) -> (a: Option<Action>)
        ensures
            match a {
                Some(act) => action_model(self@) == Some(act@),
                None => action_model(self@) is None,
            },
    {
        match self {
            State::Init { raw: _ } => Some(Action::QueryWorkTree),
            State::GuardChecked { raw } => Some(Action::Translate { message: raw.clone() }),
            State::Translated { translated: _ } => Some(Action::StartSession),
            State::SessionActive { translated } => Some(
                Action::PromptLine { initial: translated.clone() },
            ),
            State::LineRead { outcome: _ } => Some(Action::RestoreColor),
            State::Edited { message } => Some(Action::Commit { message: message.clone() }),
            State::Committed => None,
            State::Failed { error: _ } => None,
        }
    }

    /// The process exit code the pipeline's final state calls for: zero
    /// exactly on a completed commit, one on every failure, the
    /// user-initiated cancellation among them.
    pub fn exit_code(&self) -> (c: i32)
        ensures
            self@ is Committed ==> c == 0,
            !(self@ is Committed) ==> c == 1,
    {
        match self {
            State::Committed => 0,
            _ => 1,
        }
    }
}

/// When the repository guard reports failure — the query could not be
/// launched, or ran and denied — the pipeline moves to a failed state
/// that carries that guard error, asks for no further action, and
/// accepts no further event: the translator, the editor and the
/// committer are never invoked.
pub proof fn lemma_guard_failure_halts(raw: Seq<char>, st: SpawnStatus)
    requires
        guard_decision(st) is Err,
    ensures
        step_model(StateModel::Init(raw), EventModel::GuardResult(st)) == StateModel::Failed(
            PipelineErrorModel::Environment(guard_decision(st)->Err_0),
        ),
        action_model(step_model(StateModel::Init(raw), EventModel::GuardResult(st))) is None,
        forall|e: EventModel|
            !expects_model(step_model(StateModel::Init(raw), EventModel::GuardResult(st)), e),
{
}

/// A translator output that ran successfully but is empty or
/// whitespace-only stops the pipeline with `EmptyResult`: the resulting
/// state asks for no action and accepts no event, so the interactive
/// editor is never reached.
pub proof fn lemma_empty_translation_halts(raw: Seq<char>, stdout: Seq<u8>, stderr: Seq<u8>, d: Seq<char>)
    requires
        utf8_decoded(stdout) == Some(d),
        all_ws(d),
    ensures
        step_model(
            StateModel::GuardChecked(raw),
            EventModel::TranslatorResult(
                SpawnOutputModel::Exited { success: true, stdout, stderr },
            ),
        ) == StateModel::Failed(
            PipelineErrorModel::Translation(TranslationErrorModel::EmptyResult),
        ),
        action_model(
            step_model(
                StateModel::GuardChecked(raw),
                EventModel::TranslatorResult(
                    SpawnOutputModel::Exited { success: true, stdout, stderr },
                ),
            ),
        ) is None,
        forall|e: EventModel|
            !expects_model(
                step_model(
                    StateModel::GuardChecked(raw),
                    EventModel::TranslatorResult(
                        SpawnOutputModel::Exited { success: true, stdout, stderr },
                    ),
                ),
                e,
            ),
{
    lemma_trim_empty_iff_all_ws(d);
}

/// An edited line that is empty or whitespace-only stops the pipeline
/// with the orchestrator's `EmptyAfterEdit` policy error, after the
/// color restore and before any commit action is issued.
pub proof fn lemma_empty_edit_halts(l: Seq<char>)
    requires
        all_ws(l),
    ensures
        step_model(
            StateModel::LineRead(ReadOutcomeModel::Submitted(l)),
            EventModel::ColorRestored,
        ) == StateModel::Failed(PipelineErrorModel::Policy(PolicyError::EmptyAfterEdit)),
        action_model(
            step_model(
                StateModel::LineRead(ReadOutcomeModel::Submitted(l)),
                EventModel::ColorRestored,
            ),
        ) is None,
        forall|e: EventModel|
            !expects_model(
                step_model(
                    StateModel::LineRead(ReadOutcomeModel::Submitted(l)),
                    EventModel::ColorRestored,
                ),
                e,
            ),
{
    lemma_trim_empty_iff_all_ws(l);
}

/// Round trip: when the guard passes, the translator deterministically
/// returns output whose trimmed form `t` is non-empty, and the user
/// submits the pre-filled line unchanged, the message carried by the
/// commit action is exactly `t` — editing changes nothing, and trimming
/// an already-trimmed message changes nothing.
pub proof fn lemma_round_trip(raw: Seq<char>, stdout: Seq<u8>, stderr: Seq<u8>, d: Seq<char>)
    requires
        utf8_decoded(stdout) == Some(d),
        trim_spec(d).len() > 0,
    ensures
        ({
            let t = trim_spec(d);
            let s1 = step_model(
                StateModel::Init(raw),
                EventModel::GuardResult(SpawnStatus::Exited { success: true }),
            );
            let s2 = step_model(
                s1,
                EventModel::TranslatorResult(
                    SpawnOutputModel::Exited { success: true, stdout, stderr },
                ),
            );
            let s3 = step_model(s2, EventModel::SessionResult(SessionStart::Ready));
            let s4 = step_model(s3, EventModel::LineResult(ReadOutcomeModel::Submitted(t)));
            let s5 = step_model(s4, EventModel::ColorRestored);
            &&& s2 == StateModel::Translated(t)
            &&& action_model(s3) == Some(ActionModel::PromptLine(t))
            &&& s5 == StateModel::Edited(t)
            &&& action_model(s5) == Some(ActionModel::Commit(t))
        }),
{
    lemma_trim_idempotent(d);
}

/// Terminal color discipline: whatever the outcome of the pre-filled
/// read — a submitted line, an interrupt, end-of-input, or a read error —
/// the machine's next action is to restore the color, and no state other
/// than the just-read one ever asks for a restore: the restoring
/// sequence is emitted exactly once per read.
pub proof fn lemma_color_restored_exactly_once(t: Seq<char>, o: ReadOutcomeModel)
    ensures
        step_model(StateModel::SessionActive(t), EventModel::LineResult(o)) == StateModel::LineRead(
            o,
        ),
        action_model(StateModel::LineRead(o)) == Some(ActionModel::RestoreColor),
        forall|s: StateModel|
            action_model(s) == Some(ActionModel::RestoreColor) ==> s is LineRead,
{
}

/// Each externally visible invocation originates in exactly one state:
/// the translator is only ever run from a guard-checked state and on the
/// raw message, the prompt only from an active session and with the
/// translated message, the commit only from an edited state and with the
/// edited message.
pub proof fn lemma_action_origin(s: StateModel)
    ensures
        forall|m: Seq<char>|
            action_model(s) == Some(ActionModel::Translate(m)) ==> s == StateModel::GuardChecked(m),
        forall|m: Seq<char>|
            action_model(s) == Some(ActionModel::PromptLine(m)) ==> s == StateModel::SessionActive(
                m,
            ),
        forall|m: Seq<char>|
            action_model(s) == Some(ActionModel::Commit(m)) ==> s == StateModel::Edited(m),
{
}

} // verus!
