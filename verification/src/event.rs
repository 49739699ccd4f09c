//! The outcomes that the surrounding binary observes and hands back to
//! the pipeline as events: subprocess results, editing-session creation,
//! and the interactive read.

use vstd::prelude::*;

verus! {

/// Outcome of launching a subprocess that is judged by exit status alone
/// (the repository query and the commit command).
#[derive(Debug, Clone, Copy, PartialEq, Eq, Structural)]
pub enum SpawnStatus {
    /// The process could not be launched at all.
    LaunchFailed,
    /// The process ran to completion; `success` is whether its exit
    /// status reported success.
    Exited { success: bool },
}

/// Outcome of launching the translator, whose output streams are
/// captured.
#[derive(Debug, Clone, PartialEq, Eq)]
pub enum SpawnOutput {
    /// The process could not be launched at all.
    LaunchFailed,
    /// The process ran to completion with the captured streams.
    Exited { success: bool, stdout: Vec<u8>, stderr: Vec<u8> },
}

/// Model of `SpawnOutput` with the streams as byte sequences.
pub enum SpawnOutputModel {
    LaunchFailed,
    Exited { success: bool, stdout: Seq<u8>, stderr: Seq<u8> },
}

impl View for SpawnOutput {
    type V = SpawnOutputModel;

    open spec fn view(&self) -> SpawnOutputModel {
        match self {
            SpawnOutput::LaunchFailed => SpawnOutputModel::LaunchFailed,
            SpawnOutput::Exited { success, stdout, stderr } => SpawnOutputModel::Exited {
                success: *success,
                stdout: stdout@,
                stderr: stderr@,
            },
        }
    }
}

/// Outcome of creating the interactive editing session.
#[derive(Debug, Clone, Copy, PartialEq, Eq, Structural)]
pub enum SessionStart {
    /// The session is ready for a prompt.
    Ready,
    /// The session could not be created (terminal unavailable).
    Unavailable,
}

/// Outcome of the pre-filled interactive read.
#[derive(Debug, Clone, PartialEq, Eq)]
pub enum ReadOutcome {
    /// The user submitted a line.
    Submitted(String),
    /// The user interrupted the prompt.
    Interrupted,
    /// The user sent end-of-input.
    EndOfInput,
    /// The read failed for another reason; the payload is the underlying
    /// diagnostic.
    Failed(String),
}

/// Model of `ReadOutcome` with the texts as character sequences.
pub enum ReadOutcomeModel {
    Submitted(Seq<char>),
    Interrupted,
    EndOfInput,
    Failed(Seq<char>),
}

impl View for ReadOutcome {
    type V = ReadOutcomeModel;

    open spec fn view(&self) -> ReadOutcomeModel {
        match self {
            ReadOutcome::Submitted(l) => ReadOutcomeModel::Submitted(l@),
            ReadOutcome::Interrupted => ReadOutcomeModel::Interrupted,
            ReadOutcome::EndOfInput => ReadOutcomeModel::EndOfInput,
            ReadOutcome::Failed(d) => ReadOutcomeModel::Failed(d@),
        }
    }
}

/// An event: the outcome of the action the pipeline last asked for.
#[derive(Debug, Clone, PartialEq, Eq)]
pub enum Event {
    /// Outcome of the repository query.
    GuardResult(SpawnStatus),
    /// Outcome of the translator invocation.
    TranslatorResult(SpawnOutput),
    /// Outcome of creating the editing session.
    SessionResult(SessionStart),
    /// Outcome of the pre-filled read.
    LineResult(ReadOutcome),
    /// The terminal color has been restored to the default.
    ColorRestored,
    /// Outcome of the commit invocation.
    CommitResult(SpawnStatus),
}

/// Model of `Event`.
pub enum EventModel {
    GuardResult(SpawnStatus),
    TranslatorResult(SpawnOutputModel),
    SessionResult(SessionStart),
    LineResult(ReadOutcomeModel),
    ColorRestored,
    CommitResult(SpawnStatus),
}

impl View for Event {
    type V = EventModel;

    open spec fn view(&self) -> EventModel {
        match self {
            Event::GuardResult(s) => EventModel::GuardResult(*s),
            Event::TranslatorResult(o) => EventModel::TranslatorResult(o@),
            Event::SessionResult(s) => EventModel::SessionResult(*s),
            Event::LineResult(o) => EventModel::LineResult(o@),
            Event::ColorRestored => EventModel::ColorRestored,
            Event::CommitResult(s) => EventModel::CommitResult(*s),
        }
    }
}

} // verus!
