use vstd::prelude::*;
use crate::ast::{FileId, MacroError, MacroResult};

verus! {

/// The three points of the pipeline at which a processor runs, in the order
/// the host visits them for one crate.
#[derive(Clone, Copy, Debug, PartialEq, Eq, Structural)]
pub enum Phase {
    UntypedAst,
    CratePrelude,
    TypedAst,
}

/// How far one processor has come with one crate. Each phase runs once, in
/// order, and the first error ends the sequence.
#[derive(Debug)]
pub enum ProcessingState {
    NotStarted,
    UntypedProcessed,
    PreludeProcessed,
    TypedProcessed,
    Aborted(MacroError, FileId),
}

impl ProcessingState {
    pub open spec fn spec_next_phase(&self) -> Option<Phase> {
        match self {
            ProcessingState::NotStarted => Some(Phase::UntypedAst),
            ProcessingState::UntypedProcessed => Some(Phase::CratePrelude),
            ProcessingState::PreludeProcessed => Some(Phase::TypedAst),
            _ => None,
        }
    }

    /// The state reached when `phase` has run and succeeded.
    pub open spec fn completed(phase: Phase) -> ProcessingState {
        match phase {
            Phase::UntypedAst => ProcessingState::UntypedProcessed,
            Phase::CratePrelude => ProcessingState::PreludeProcessed,
            Phase::TypedAst => ProcessingState::TypedProcessed,
        }
    }

    /// The phase the host runs next, or none once the processor is done with
    /// the crate or has failed on it.
    #[verifier::when_used_as_spec(spec_next_phase)]
    pub fn next_phase(&self) -> (r: Option<Phase>)
        ensures
            r == self.spec_next_phase(),
    {
        match self {
            ProcessingState::NotStarted => Some(Phase::UntypedAst),
            ProcessingState::UntypedProcessed => Some(Phase::CratePrelude),
            ProcessingState::PreludeProcessed => Some(Phase::TypedAst),
            _ => None,
        }
    }

    /// Whether no phase is left to run.
    pub fn is_finished(&self) -> (r: bool)
        ensures
            r == (self.spec_next_phase() is None),
    {
        match self {
            ProcessingState::TypedProcessed => true,
            ProcessingState::Aborted(_, _) => true,
            _ => false,
        }
    }

    /// Takes the outcome of the phase that was due: success moves to the next
    /// state, an error ends processing of the crate and keeps the error.
    pub fn record(self, outcome: MacroResult<()>) -> (r: ProcessingState)
        requires
            self.spec_next_phase() is Some,
        ensures
            outcome is Ok ==> r == ProcessingState::completed(self.spec_next_phase()->Some_0),
            outcome is Err ==> r == ProcessingState::Aborted(outcome->Err_0.0, outcome->Err_0.1),
    {
        match outcome {
            Err((error, file)) => ProcessingState::Aborted(error, file),
            Ok(()) => match self {
                ProcessingState::NotStarted => ProcessingState::UntypedProcessed,
                ProcessingState::UntypedProcessed => ProcessingState::PreludeProcessed,
                _ => ProcessingState::TypedProcessed,
            },
        }
    }
}

/// The phases run in one line: three successes lead from the start to the
/// end, no state is visited twice, and a finished processor is never run again.
pub proof fn lemma_phases_are_linear()
    ensures
        ProcessingState::NotStarted.spec_next_phase() == Some(Phase::UntypedAst),
        ProcessingState::completed(Phase::UntypedAst).spec_next_phase() == Some(Phase::CratePrelude),
        ProcessingState::completed(Phase::CratePrelude).spec_next_phase() == Some(Phase::TypedAst),
        ProcessingState::completed(Phase::TypedAst).spec_next_phase() is None,
        forall|e: MacroError, f: FileId| (#[trigger] ProcessingState::Aborted(e, f).spec_next_phase()) is None,
{
}

} // verus!
