//! The pipeline state machine.
//!
//! A [`Pipeline`] moves through three states: `Built` (initial), `Executed`,
//! and `Committed` (terminal).  `execute` is only valid from `Built` and
//! `commit` only from `Executed`; a transition attempted from any other state
//! fails and leaves the pipeline unchanged.  This models the two-phase
//! contract "perform work, then finalize" and rules out double execution and
//! out-of-order commits.

use vstd::prelude::*;

verus! {

/// The status of a [`Pipeline`].
#[derive(Debug, Clone, Copy, PartialEq, Eq, Structural)]
pub enum PipelineStatus {
    /// Instantiated, but not yet executed.
    Built,
    /// Executed, but not yet committed.
    Executed,
    /// Committed.
    Committed,
}

/// Why a pipeline transition was refused.
#[derive(Debug, Clone, Copy, PartialEq, Eq, Structural)]
pub enum PipelineError {
    /// `execute` was called when the pipeline was no longer in `Built`.
    AlreadyExecuted,
    /// `commit` was called before `execute`.
    NotExecuted,
    /// `commit` was called after a previous `commit`.
    AlreadyCommitted,
}

/// The pipeline orchestrates project construction and generation.
#[derive(Debug, Clone, PartialEq, Eq, Structural)]
pub struct Pipeline {
    /// The status of the pipeline.
    pub status: PipelineStatus,
}

/// The state and result that `Pipeline::execute` produces from a given state.
pub open spec fn execute_outcome(s: PipelineStatus) -> (PipelineStatus, Result<(), PipelineError>) {
    match s {
        PipelineStatus::Built => (PipelineStatus::Executed, Ok(())),
        _ => (s, Err(PipelineError::AlreadyExecuted)),
    }
}

/// The state and result that `Pipeline::commit` produces from a given state.
pub open spec fn commit_outcome(s: PipelineStatus) -> (PipelineStatus, Result<(), PipelineError>) {
    match s {
        PipelineStatus::Built => (s, Err(PipelineError::NotExecuted)),
        PipelineStatus::Executed => (PipelineStatus::Committed, Ok(())),
        PipelineStatus::Committed => (s, Err(PipelineError::AlreadyCommitted)),
    }
}

impl Default for PipelineStatus {
    /// A fresh status is `Built`.
    fn default() -> (r: Self)
        ensures
            r == PipelineStatus::Built,
    {
        PipelineStatus::Built
    }
}

impl Default for Pipeline {
    /// A fresh pipeline is in the `Built` state.
    fn default() -> (r: Self)
        ensures
            r.status == PipelineStatus::Built,
    {
        Pipeline { status: PipelineStatus::Built }
    }
}

impl Pipeline {
    /// Constructs a new pipeline in the `Built` state.
    pub fn new() -> (r: Self)
        ensures
            r.status == PipelineStatus::Built,
    {
        Pipeline { status: PipelineStatus::Built }
    }

    /// Executes the pipeline: valid exactly once, from the `Built` state.
    pub fn execute(&mut self) -> (r: Result<(), PipelineError>)
        ensures
            (final(self).status, r) == execute_outcome(old(self).status),
    {
        if self.status != PipelineStatus::Built {
            return Err(PipelineError::AlreadyExecuted);
        }
        self.status = PipelineStatus::Executed;
        Ok(())
    }

    /// Commits pipeline changes: valid exactly once, after `execute`.
    pub fn commit(&mut self) -> (r: Result<(), PipelineError>)
        ensures
            (final(self).status, r) == commit_outcome(old(self).status),
    {
        match self.status {
            PipelineStatus::Built => Err(PipelineError::NotExecuted),
            PipelineStatus::Executed => {
                self.status = PipelineStatus::Committed;
                Ok(())
            },
            PipelineStatus::Committed => Err(PipelineError::AlreadyCommitted),
        }
    }
}

/// Law: the pipeline is single-shot.  From `Built`, `execute` succeeds and
/// `commit` fails; from `Executed`, `commit` succeeds and a second `execute`
/// fails; from `Committed`, both fail.  Hence `execute` then `commit` each
/// succeed exactly once, and any other order fails without changing state.
pub proof fn lemma_pipeline_single_shot()
    ensures
        execute_outcome(PipelineStatus::Built) == (PipelineStatus::Executed, Ok::<(), PipelineError>(())),
        commit_outcome(PipelineStatus::Executed) == (PipelineStatus::Committed, Ok::<(), PipelineError>(())),
        execute_outcome(PipelineStatus::Executed) == (PipelineStatus::Executed, Err::<(), PipelineError>(PipelineError::AlreadyExecuted)),
        execute_outcome(PipelineStatus::Committed) == (PipelineStatus::Committed, Err::<(), PipelineError>(PipelineError::AlreadyExecuted)),
        commit_outcome(PipelineStatus::Built) == (PipelineStatus::Built, Err::<(), PipelineError>(PipelineError::NotExecuted)),
        commit_outcome(PipelineStatus::Committed) == (PipelineStatus::Committed, Err::<(), PipelineError>(PipelineError::AlreadyCommitted)),
{
}

} // verus!
