use gtc::errors::{EditError, PipelineError, PolicyError, TranslationError};
use gtc::event::{Event, ReadOutcome, SessionStart, SpawnOutput, SpawnStatus};
use gtc::pipeline::{run, Action, State};

#[test]
fn scenario_translate_edit_and_commit() {
    let st = State::Init { raw: "バグを修正した".to_string() };
    assert_eq!(st.pending_action(), Some(Action::QueryWorkTree));
    let st = run(st, Event::GuardResult(SpawnStatus::Exited { success: true }));
    assert_eq!(
        st.pending_action(),
        Some(Action::Translate { message: "バグを修正した".to_string() })
    );
    let st = run(
        st,
        Event::TranslatorResult(SpawnOutput::Exited {
            success: true,
            stdout: b"I fixed the bug\n".to_vec(),
            stderr: Vec::new(),
        }),
    );
    assert_eq!(st.pending_action(), Some(Action::StartSession));
    let st = run(st, Event::SessionResult(SessionStart::Ready));
    assert_eq!(
        st.pending_action(),
        Some(Action::PromptLine { initial: "I fixed the bug".to_string() })
    );
    let st = run(st, Event::LineResult(ReadOutcome::Submitted("I fixed the bug".to_string())));
    assert_eq!(st.pending_action(), Some(Action::RestoreColor));
    let st = run(st, Event::ColorRestored);
    assert_eq!(
        st.pending_action(),
        Some(Action::Commit { message: "I fixed the bug".to_string() })
    );
    let st = run(st, Event::CommitResult(SpawnStatus::Exited { success: true }));
    assert_eq!(st, State::Committed);
    assert_eq!(st.pending_action(), None);
    assert_eq!(st.exit_code(), 0);
}

#[test]
fn scenario_guard_denies_and_nothing_else_runs() {
    let st = State::Init { raw: "何かを直した".to_string() };
    let st = run(st, Event::GuardResult(SpawnStatus::Exited { success: false }));
    match &st {
        State::Failed { error } => {
            assert_eq!(error.message(), "not a repository.".to_string());
        }
        other => panic!("expected a failed state, got {:?}", other),
    }
    assert_eq!(st.pending_action(), None);
    assert_eq!(st.exit_code(), 1);
}

#[test]
fn scenario_translator_failure_surfaces_its_diagnostic() {
    let st = State::Init { raw: "何かを直した".to_string() };
    let st = run(st, Event::GuardResult(SpawnStatus::Exited { success: true }));
    let st = run(
        st,
        Event::TranslatorResult(SpawnOutput::Exited {
            success: false,
            stdout: Vec::new(),
            stderr: b"quota exceeded\n".to_vec(),
        }),
    );
    match &st {
        State::Failed { error } => {
            assert!(error.message().contains("quota exceeded"));
        }
        other => panic!("expected a failed state, got {:?}", other),
    }
    assert_eq!(st.pending_action(), None);
    assert_eq!(st.exit_code(), 1);
}

#[test]
fn scenario_user_interrupts_the_editor() {
    let st = State::Init { raw: "誤字を直した".to_string() };
    let st = run(st, Event::GuardResult(SpawnStatus::Exited { success: true }));
    let st = run(
        st,
        Event::TranslatorResult(SpawnOutput::Exited {
            success: true,
            stdout: b"Fix typo\n".to_vec(),
            stderr: Vec::new(),
        }),
    );
    let st = run(st, Event::SessionResult(SessionStart::Ready));
    let st = run(st, Event::LineResult(ReadOutcome::Interrupted));
    // the color is restored even though the read was interrupted
    assert_eq!(st.pending_action(), Some(Action::RestoreColor));
    let st = run(st, Event::ColorRestored);
    assert_eq!(
        st,
        State::Failed { error: PipelineError::Edit(EditError::Cancelled) }
    );
    assert_eq!(st.pending_action(), None);
    assert_eq!(st.exit_code(), 1);
}

#[test]
fn scenario_whitespace_translation_stops_before_the_editor() {
    let st = State::Init { raw: "何かを直した".to_string() };
    let st = run(st, Event::GuardResult(SpawnStatus::Exited { success: true }));
    let st = run(
        st,
        Event::TranslatorResult(SpawnOutput::Exited {
            success: true,
            stdout: b"   ".to_vec(),
            stderr: Vec::new(),
        }),
    );
    assert_eq!(
        st,
        State::Failed { error: PipelineError::Translation(TranslationError::EmptyResult) }
    );
    assert_eq!(st.pending_action(), None);
    assert_eq!(st.exit_code(), 1);
}

#[test]
fn guard_launch_failure_halts_the_pipeline() {
    let st = State::Init { raw: "何かを直した".to_string() };
    let st = run(st, Event::GuardResult(SpawnStatus::LaunchFailed));
    match &st {
        State::Failed { error } => {
            assert!(error.message().contains("git"));
        }
        other => panic!("expected a failed state, got {:?}", other),
    }
    assert_eq!(st.pending_action(), None);
}

#[test]
fn session_failure_halts_before_any_color_change() {
    let st = State::Translated { translated: "Fix typo".to_string() };
    let st = run(st, Event::SessionResult(SessionStart::Unavailable));
    assert_eq!(
        st,
        State::Failed { error: PipelineError::Edit(EditError::SessionInitFailed) }
    );
    assert_eq!(st.pending_action(), None);
}

#[test]
fn color_is_restored_exactly_once_for_every_read_outcome() {
    let outcomes = vec![
        ReadOutcome::Submitted("Fix typo".to_string()),
        ReadOutcome::Submitted("   ".to_string()),
        ReadOutcome::Interrupted,
        ReadOutcome::EndOfInput,
        ReadOutcome::Failed("boom".to_string()),
    ];
    for outcome in outcomes {
        let mut st = State::SessionActive { translated: "Fix typo".to_string() };
        let mut restores = 0;
        loop {
            match st.pending_action() {
                Some(Action::PromptLine { .. }) => {
                    st = run(st, Event::LineResult(outcome.clone()));
                }
                Some(Action::RestoreColor) => {
                    restores += 1;
                    st = run(st, Event::ColorRestored);
                }
                Some(Action::Commit { .. }) => {
                    st = run(st, Event::CommitResult(SpawnStatus::Exited { success: true }));
                }
                Some(other) => panic!("unexpected action {:?}", other),
                None => break,
            }
        }
        assert_eq!(restores, 1, "outcome {:?} must restore the color once", outcome);
    }
}

#[test]
fn empty_edit_is_a_policy_failure_and_commit_never_runs() {
    let st = State::SessionActive { translated: "Fix typo".to_string() };
    let st = run(st, Event::LineResult(ReadOutcome::Submitted(" \t ".to_string())));
    let st = run(st, Event::ColorRestored);
    assert_eq!(
        st,
        State::Failed { error: PipelineError::Policy(PolicyError::EmptyAfterEdit) }
    );
    assert_eq!(st.pending_action(), None);
    assert_eq!(st.exit_code(), 1);
}

#[test]
fn edited_line_replaces_the_translation() {
    let st = State::SessionActive { translated: "Fix the bug".to_string() };
    let st = run(
        st,
        Event::LineResult(ReadOutcome::Submitted("  Fix the login bug  ".to_string())),
    );
    let st = run(st, Event::ColorRestored);
    assert_eq!(
        st.pending_action(),
        Some(Action::Commit { message: "Fix the login bug".to_string() })
    );
}

#[test]
fn commit_failure_is_reported() {
    let st = State::Edited { message: "Fix typo".to_string() };
    let st = run(st, Event::CommitResult(SpawnStatus::Exited { success: false }));
    match &st {
        State::Failed { error } => {
            assert_eq!(error.message(), "git commit failed.".to_string());
        }
        other => panic!("expected a failed state, got {:?}", other),
    }
    assert_eq!(st.exit_code(), 1);
}

#[test]
fn read_failure_carries_its_diagnostic_after_the_restore() {
    let st = State::SessionActive { translated: "Fix typo".to_string() };
    let st = run(st, Event::LineResult(ReadOutcome::Failed("window size lost".to_string())));
    assert_eq!(st.pending_action(), Some(Action::RestoreColor));
    let st = run(st, Event::ColorRestored);
    match &st {
        State::Failed { error } => {
            assert!(error.message().contains("window size lost"));
        }
        other => panic!("expected a failed state, got {:?}", other),
    }
}
