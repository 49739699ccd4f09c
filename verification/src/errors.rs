//! The error taxonomy of the pipeline, one enum per stage, and the
//! user-facing diagnostic text of each error.
//!
//! Errors that carry a diagnostic hold it as a `String`; their
//! spec-level models hold the corresponding `Seq<char>`, so that
//! contracts can speak of the exact text.

use vstd::prelude::*;

verus! {

/// Failure of the repository guard.
#[derive(Debug, Clone, PartialEq, Eq)]
pub enum EnvironmentError {
    /// The query ran and reported that the working directory is not
    /// inside a working tree.
    NotARepository,
    /// The query could not even be launched.
    ToolUnavailable,
}

/// Failure of the translation stage.
#[derive(Debug, Clone, PartialEq, Eq)]
pub enum TranslationError {
    /// The translator could not be launched.
    LaunchFailed,
    /// The translator ran and reported failure; the payload is its
    /// error-stream text, decoded permissively and trimmed.
    Failed(String),
    /// The translator succeeded but its output is not valid UTF-8.
    InvalidEncoding,
    /// The translator's output is empty after trimming.
    EmptyResult,
}

/// Failure of the interactive editing stage.
#[derive(Debug, Clone, PartialEq, Eq)]
pub enum EditError {
    /// The editing session could not be created.
    SessionInitFailed,
    /// The read failed for a reason other than cancellation; the payload
    /// is the underlying diagnostic.
    ReadFailed(String),
    /// The user interrupted the prompt or sent end-of-input.
    Cancelled,
}

/// Failure of a policy rule owned by the orchestrator.
#[derive(Debug, Clone, PartialEq, Eq)]
pub enum PolicyError {
    /// The edited message is empty after trimming.
    EmptyAfterEdit,
}

/// Failure of the commit stage.
#[derive(Debug, Clone, PartialEq, Eq)]
pub enum CommitError {
    /// The commit command could not be launched.
    LaunchFailed,
    /// The commit command ran and reported failure.
    NonZeroExit,
}

/// Any failure that terminates the pipeline, tagged with its stage.
#[derive(Debug, Clone, PartialEq, Eq)]
pub enum PipelineError {
    Environment(EnvironmentError),
    Translation(TranslationError),
    Edit(EditError),
    Policy(PolicyError),
    Commit(CommitError),
}

/// Model of `TranslationError` with the diagnostic as a character
/// sequence.
pub enum TranslationErrorModel {
    LaunchFailed,
    Failed(Seq<char>),
    InvalidEncoding,
    EmptyResult,
}

/// Model of `EditError` with the diagnostic as a character sequence.
pub enum EditErrorModel {
    SessionInitFailed,
    ReadFailed(Seq<char>),
    Cancelled,
}

/// Model of `PipelineError`.
pub enum PipelineErrorModel {
    Environment(EnvironmentError),
    Translation(TranslationErrorModel),
    Edit(EditErrorModel),
    Policy(PolicyError),
    Commit(CommitError),
}

impl View for TranslationError {
    type V = TranslationErrorModel;

    open spec fn view(&self) -> TranslationErrorModel {
        match self {
            TranslationError::LaunchFailed => TranslationErrorModel::LaunchFailed,
            TranslationError::Failed(d) => TranslationErrorModel::Failed(d@),
            TranslationError::InvalidEncoding => TranslationErrorModel::InvalidEncoding,
            TranslationError::EmptyResult => TranslationErrorModel::EmptyResult,
        }
    }
}

impl View for EditError {
    type V = EditErrorModel;

    open spec fn view(&self) -> EditErrorModel {
        match self {
            EditError::SessionInitFailed => EditErrorModel::SessionInitFailed,
            EditError::ReadFailed(d) => EditErrorModel::ReadFailed(d@),
            EditError::Cancelled => EditErrorModel::Cancelled,
        }
    }
}

impl View for PipelineError {
    type V = PipelineErrorModel;

    open spec fn view(&self) -> PipelineErrorModel {
        match self {
            PipelineError::Environment(e) => PipelineErrorModel::Environment(*e),
            PipelineError::Translation(e) => PipelineErrorModel::Translation(e@),
            PipelineError::Edit(e) => PipelineErrorModel::Edit(e@),
            PipelineError::Policy(e) => PipelineErrorModel::Policy(*e),
            PipelineError::Commit(e) => PipelineErrorModel::Commit(*e),
        }
    }
}

/// The diagnostic text of an environment error.
pub open spec fn environment_message(e: EnvironmentError) -> Seq<char> {
    match e {
        EnvironmentError::NotARepository => "not a repository."@,
        EnvironmentError::ToolUnavailable => "failed to run git; check that git is installed."@,
    }
}

/// The diagnostic text of a translation error; a reported failure carries
/// the translator's own error-stream text.
pub open spec fn translation_message(e: TranslationErrorModel) -> Seq<char> {
    match e {
        TranslationErrorModel::LaunchFailed => "failed to run the translator; check that the trans command is installed."@,
        TranslationErrorModel::Failed(d) => "translation failed: "@ + d,
        TranslationErrorModel::InvalidEncoding => "the translation output is not valid UTF-8."@,
        TranslationErrorModel::EmptyResult => "the translation result is empty."@,
    }
}

/// The diagnostic text of an editing error; a read failure carries the
/// underlying diagnostic.
pub open spec fn edit_message_text(e: EditErrorModel) -> Seq<char> {
    match e {
        EditErrorModel::SessionInitFailed => "failed to initialize the terminal."@,
        EditErrorModel::ReadFailed(d) => "failed to read from the editor: "@ + d,
        EditErrorModel::Cancelled => "cancelled."@,
    }
}

/// The diagnostic text of a policy error.
pub open spec fn policy_message(e: PolicyError) -> Seq<char> {
    match e {
        PolicyError::EmptyAfterEdit => "the edited commit message is empty; aborting."@,
    }
}

/// The diagnostic text of a commit error.
pub open spec fn commit_message_text(e: CommitError) -> Seq<char> {
    match e {
        CommitError::LaunchFailed => "failed to run git commit."@,
        CommitError::NonZeroExit => "git commit failed."@,
    }
}

/// The diagnostic text of a pipeline failure: the text of the failing
/// stage's error, the stage's own diagnostic kept inside it.
pub open spec fn pipeline_message(e: PipelineErrorModel) -> Seq<char> {
    match e {
        PipelineErrorModel::Environment(e) => environment_message(e),
        PipelineErrorModel::Translation(e) => translation_message(e),
        PipelineErrorModel::Edit(e) => edit_message_text(e),
        PipelineErrorModel::Policy(e) => policy_message(e),
        PipelineErrorModel::Commit(e) => commit_message_text(e),
    }
}

impl PipelineError {
    /// The user-facing diagnostic of this failure, exactly as
    /// `pipeline_message` states it.
    pub fn message(&self) -> (m: String)
        ensures
            m@ == pipeline_message(self@),
    {
        match self {
            PipelineError::Environment(e) => match e {
                EnvironmentError::NotARepository => String::from_str("not a repository."),
                EnvironmentError::ToolUnavailable => String::from_str(
                    "failed to run git; check that git is installed.",
                ),
            },
            PipelineError::Translation(e) => match e {
                TranslationError::LaunchFailed => String::from_str(
                    "failed to run the translator; check that the trans command is installed.",
                ),
                TranslationError::Failed(d) => {
                    let mut m = String::from_str("translation failed: ");
                    m.append(d.as_str());
                    m
                },
                TranslationError::InvalidEncoding => String::from_str(
                    "the translation output is not valid UTF-8.",
                ),
                TranslationError::EmptyResult => String::from_str(
                    "the translation result is empty.",
                ),
            },
            PipelineError::Edit(e) => match e {
                EditError::SessionInitFailed => String::from_str(
                    "failed to initialize the terminal.",
                ),
                EditError::ReadFailed(d) => {
                    let mut m = String::from_str("failed to read from the editor: ");
                    m.append(d.as_str());
                    m
                },
                EditError::Cancelled => String::from_str("cancelled."),
            },
            PipelineError::Policy(e) => match e {
                PolicyError::EmptyAfterEdit => String::from_str(
                    "the edited commit message is empty; aborting.",
                ),
            },
            PipelineError::Commit(e) => match e {
                CommitError::LaunchFailed => String::from_str("failed to run git commit."),
                CommitError::NonZeroExit => String::from_str("git commit failed."),
            },
        }
    }
}

} // verus!
