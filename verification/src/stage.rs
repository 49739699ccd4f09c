//! The decision of each pipeline stage, as a function from the observed
//! outcome to the stage's result.
//!
//! The stages do not launch processes or touch the terminal themselves:
//! the surrounding binary performs those actions and hands the outcome
//! in, so everything decided here is verified.

use vstd::prelude::*;

use crate::errors::{
    CommitError, EditError, EditErrorModel, EnvironmentError, TranslationError,
    TranslationErrorModel,
};
use crate::event::{ReadOutcome, ReadOutcomeModel, SpawnOutput, SpawnOutputModel, SpawnStatus};
use crate::text::{trim, trim_spec};

verus! {

/// What `String::from_utf8` returns for the given bytes: `Some` with the
/// decoded characters when the bytes are valid UTF-8, `None` otherwise.
pub uninterp spec fn utf8_decoded(b: Seq<u8>) -> Option<Seq<char>>;

/// What `String::from_utf8_lossy` returns for the given bytes, invalid
/// sequences replaced.
pub uninterp spec fn utf8_lossy(b: Seq<u8>) -> Seq<char>;

/// Relies on `String::from_utf8`: whether the bytes are valid UTF-8, and
/// what they decode to, are functions of the bytes alone.
#[verifier::external_body]
fn decode_utf8(b: Vec<u8>) -> (r: Option<String>)
    ensures
        r is Some <==> utf8_decoded(b@) is Some,
        r matches Some(s) ==> utf8_decoded(b@) == Some(s@),
{
    String::from_utf8(b).ok()
}

/// Relies on `String::from_utf8_lossy`: the result is a function of the
/// bytes alone.
#[verifier::external_body]
fn decode_utf8_lossy(b: &[u8]) -> (r: String)
    ensures
        r@ == utf8_lossy(b@),
{
    String::from_utf8_lossy(b).into_owned()
}

/// The repository guard's decision: the query must have run and reported
/// success.
pub open spec fn guard_decision(status: SpawnStatus) -> Result<(), EnvironmentError> {
    match status {
        SpawnStatus::LaunchFailed => Err(EnvironmentError::ToolUnavailable),
        SpawnStatus::Exited { success } => if success {
            Ok(())
        } else {
            Err(EnvironmentError::NotARepository)
        },
    }
}

/// The translation stage's decision over the translator's outcome:
/// on a reported failure the error-stream text is decoded permissively
/// and trimmed; on success the output must decode strictly and must be
/// non-empty after trimming.
pub open spec fn translation_decision(o: SpawnOutputModel) -> Result<
    Seq<char>,
    TranslationErrorModel,
> {
    match o {
        SpawnOutputModel::LaunchFailed => Err(TranslationErrorModel::LaunchFailed),
        SpawnOutputModel::Exited { success, stdout, stderr } => {
            if !success {
                Err(TranslationErrorModel::Failed(trim_spec(utf8_lossy(stderr))))
            } else {
                match utf8_decoded(stdout) {
                    None => Err(TranslationErrorModel::InvalidEncoding),
                    Some(d) => if trim_spec(d).len() == 0 {
                        Err(TranslationErrorModel::EmptyResult)
                    } else {
                        Ok(trim_spec(d))
                    },
                }
            }
        },
    }
}

/// The editing stage's decision over the read's outcome: a submitted
/// line is trimmed here, an interrupt or end-of-input is a cancellation,
/// any other failure keeps its diagnostic.
pub open spec fn edit_decision(o: ReadOutcomeModel) -> Result<Seq<char>, EditErrorModel> {
    match o {
        ReadOutcomeModel::Submitted(l) => Ok(trim_spec(l)),
        ReadOutcomeModel::Interrupted => Err(EditErrorModel::Cancelled),
        ReadOutcomeModel::EndOfInput => Err(EditErrorModel::Cancelled),
        ReadOutcomeModel::Failed(d) => Err(EditErrorModel::ReadFailed(d)),
    }
}

/// The commit stage's decision: the commit command must have run and
/// reported success.
pub open spec fn commit_decision(status: SpawnStatus) -> Result<(), CommitError> {
    match status {
        SpawnStatus::LaunchFailed => Err(CommitError::LaunchFailed),
        SpawnStatus::Exited { success } => if success {
            Ok(())
        } else {
            Err(CommitError::NonZeroExit)
        },
    }
}

/// The model of a translation result.
pub open spec fn translation_result_model(r: Result<String, TranslationError>) -> Result<
    Seq<char>,
    TranslationErrorModel,
> {
    match r {
        Ok(t) => Ok(t@),
        Err(e) => Err(e@),
    }
}

/// The model of an editing result.
pub open spec fn edit_result_model(r: Result<String, EditError>) -> Result<
    Seq<char>,
    EditErrorModel,
> {
    match r {
        Ok(t) => Ok(t@),
        Err(e) => Err(e@),
    }
}

/// Decides whether the working directory passed the repository query.
pub fn ensure_git_repo(status: SpawnStatus) -> (r: Result<(), EnvironmentError>)
    ensures
        r == guard_decision(status),
{
    match status {
        SpawnStatus::LaunchFailed => Err(EnvironmentError::ToolUnavailable),
        SpawnStatus::Exited { success } => if success {
            Ok(())
        } else {
            Err(EnvironmentError::NotARepository)
        },
    }
}

/// Normalizes the translator's outcome into the translated message or a
/// translation error, exactly as `translation_decision` states.
pub fn translate_to_english(output: SpawnOutput) -> (r: Result<String, TranslationError>)
    ensures
        translation_result_model(r) == translation_decision(output@),
{
    match output {
        SpawnOutput::LaunchFailed => Err(TranslationError::LaunchFailed),
        SpawnOutput::Exited { success, stdout, stderr } => {
            if !success {
                let lossy = decode_utf8_lossy(stderr.as_slice());
                let d = trim(lossy.as_str());
                Err(TranslationError::Failed(d))
            } else {
                match decode_utf8(stdout) {
                    None => Err(TranslationError::InvalidEncoding),
                    Some(s) => {
                        let t = trim(s.as_str());
                        if t.as_str().unicode_len() == 0 {
                            Err(TranslationError::EmptyResult)
                        } else {
                            Ok(t)
                        }
                    },
                }
            }
        },
    }
}

/// Normalizes the read's outcome into the trimmed edited message or an
/// editing error, exactly as `edit_decision` states.
pub fn edit_message(outcome: ReadOutcome) -> (r: Result<String, EditError>)
    ensures
        edit_result_model(r) == edit_decision(outcome@),
{
    match outcome {
        ReadOutcome::Submitted(l) => Ok(trim(l.as_str())),
        ReadOutcome::Interrupted => Err(EditError::Cancelled),
        ReadOutcome::EndOfInput => Err(EditError::Cancelled),
        ReadOutcome::Failed(d) => Err(EditError::ReadFailed(d)),
    }
}

/// Decides whether the commit command succeeded.
pub fn commit_with_message(status: SpawnStatus) -> (r: Result<(), CommitError>)
    ensures
        r == commit_decision(status),
{
    match status {
        SpawnStatus::LaunchFailed => Err(CommitError::LaunchFailed),
        SpawnStatus::Exited { success } => if success {
            Ok(())
        } else {
            Err(CommitError::NonZeroExit)
        },
    }
}

} // verus!
