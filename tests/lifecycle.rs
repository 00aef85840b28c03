use noirc_macros::ast::{FileId, MacroError};
use noirc_macros::lifecycle::{Phase, ProcessingState};

#[test]
fn phases_run_in_order_once_each() {
    let mut state = ProcessingState::NotStarted;
    let mut seen = Vec::new();
    while let Some(phase) = state.next_phase() {
        seen.push(phase);
        state = state.record(Ok(()));
    }
    assert_eq!(seen, vec![Phase::UntypedAst, Phase::CratePrelude, Phase::TypedAst]);
    assert!(matches!(state, ProcessingState::TypedProcessed));
    assert!(state.is_finished());
}

#[test]
fn an_error_aborts_the_remaining_phases() {
    let state = ProcessingState::NotStarted.record(Ok(()));
    assert_eq!(state.next_phase(), Some(Phase::CratePrelude));
    assert!(!state.is_finished());
    let error = MacroError {
        primary_message: "bad import".to_string(),
        secondary_message: None,
    };
    let state = state.record(Err((error, FileId(9))));
    assert!(state.is_finished());
    assert_eq!(state.next_phase(), None);
    match state {
        ProcessingState::Aborted(e, file) => {
            assert_eq!(e.primary_message, "bad import");
            assert_eq!(file, FileId(9));
        }
        _ => panic!("expected an aborted state"),
    }
}

#[test]
fn an_error_in_the_first_phase_aborts_at_once() {
    let error = MacroError {
        primary_message: "untyped".to_string(),
        secondary_message: Some("more".to_string()),
    };
    let state = ProcessingState::NotStarted.record(Err((error, FileId(0))));
    assert!(matches!(state, ProcessingState::Aborted(_, FileId(0))));
    assert!(state.is_finished());
}
