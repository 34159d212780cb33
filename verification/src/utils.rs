//! The conflict detector and the run gate.
//!
//! Before any step runs, the target directory is inspected for artifacts a
//! run would overwrite.  The caller reports which artifacts exist; this
//! module decides, in a fixed priority order, which single conflict to
//! surface, and what the user's answer to the one confirmation prompt means
//! for the whole run.  In dry-run mode no mutation can happen, so no
//! conflict is ever surfaced.

use vstd::prelude::*;

verus! {

/// A pre-existing artifact that a run would touch.
#[derive(Debug, Clone, Copy, PartialEq, Eq, Structural)]
pub enum ArtifactKind {
    /// A workspace or package manifest file.
    Manifest,
    /// A license file.
    License,
    /// A readme file.
    Readme,
    /// A CI workflow file.
    CiWorkflow,
}

/// Which artifacts were found in the target directory.
#[derive(Debug, Clone, Copy, PartialEq, Eq, Structural)]
pub struct ArtifactsFound {
    /// A manifest file exists.
    pub manifest: bool,
    /// A license file exists.
    pub license: bool,
    /// A readme file exists.
    pub readme: bool,
    /// A CI workflow file exists.
    pub ci_workflow: bool,
}

/// The one prompt a run may need before it proceeds.
#[derive(Debug, Clone, Copy, PartialEq, Eq, Structural)]
pub enum PromptKind {
    /// Overwrite mode is set: warn and confirm once.
    OverwriteWarning,
    /// A conflicting artifact was found: confirm once.
    Conflict(ArtifactKind),
}

/// How a run is allowed to continue.
#[derive(Debug, Clone, Copy, PartialEq, Eq, Structural)]
pub enum RunGate {
    /// Run all enabled steps.
    Proceed,
    /// The user declined the overwrite warning: exit cleanly, doing nothing.
    AbortClean,
    /// The user declined a conflict: abort the run as a failure, creating
    /// nothing.
    AbortConflict(ArtifactKind),
}

/// The first conflicting artifact, in the fixed priority order: manifest,
/// then license, then readme, then (only when the run would touch CI) the CI
/// workflow.  Only the first is ever surfaced.
pub open spec fn spec_first_conflict(found: ArtifactsFound, ci: bool) -> Option<ArtifactKind> {
    if found.manifest {
        Some(ArtifactKind::Manifest)
    } else if found.license {
        Some(ArtifactKind::License)
    } else if found.readme {
        Some(ArtifactKind::Readme)
    } else if ci && found.ci_workflow {
        Some(ArtifactKind::CiWorkflow)
    } else {
        None
    }
}

/// The prompt a run needs, if any.  Overwrite mode always warns; otherwise a
/// dry run needs nothing, and a real run surfaces the first conflict.
pub open spec fn spec_required_prompt(
    overwrite: bool,
    dry_run: bool,
    ci: bool,
    found: ArtifactsFound,
) -> Option<PromptKind> {
    if overwrite {
        Some(PromptKind::OverwriteWarning)
    } else if dry_run {
        None
    } else {
        match spec_first_conflict(found, ci) {
            Some(k) => Some(PromptKind::Conflict(k)),
            None => None,
        }
    }
}

/// What the user's single answer means for the run.
pub open spec fn spec_gate(prompt: Option<PromptKind>, confirmed: bool) -> RunGate {
    match prompt {
        None => RunGate::Proceed,
        Some(PromptKind::OverwriteWarning) => if confirmed {
            RunGate::Proceed
        } else {
            RunGate::AbortClean
        },
        Some(PromptKind::Conflict(k)) => if confirmed {
            RunGate::Proceed
        } else {
            RunGate::AbortConflict(k)
        },
    }
}

/// Checks the target directory's artifacts for the first conflict, in the
/// fixed priority order.
pub fn first_conflict(found: &ArtifactsFound, ci: bool) -> (r: Option<ArtifactKind>)
    ensures
        r == spec_first_conflict(*found, ci),
{
    if found.manifest {
        Some(ArtifactKind::Manifest)
    } else if found.license {
        Some(ArtifactKind::License)
    } else if found.readme {
        Some(ArtifactKind::Readme)
    } else if ci && found.ci_workflow {
        Some(ArtifactKind::CiWorkflow)
    } else {
        None
    }
}

/// Decides which prompt, if any, the run needs before proceeding.
pub fn required_prompt(overwrite: bool, dry_run: bool, ci: bool, found: &ArtifactsFound) -> (r:
    Option<PromptKind>)
    ensures
        r == spec_required_prompt(overwrite, dry_run, ci, *found),
{
    if overwrite {
        Some(PromptKind::OverwriteWarning)
    } else if dry_run {
        None
    } else {
        match first_conflict(found, ci) {
            Some(k) => Some(PromptKind::Conflict(k)),
            None => None,
        }
    }
}

/// Applies the user's answer to the prompt.
pub fn gate(prompt: Option<PromptKind>, confirmed: bool) -> (r: RunGate)
    ensures
        r == spec_gate(prompt, confirmed),
{
    match prompt {
        None => RunGate::Proceed,
        Some(PromptKind::OverwriteWarning) => if confirmed {
            RunGate::Proceed
        } else {
            RunGate::AbortClean
        },
        Some(PromptKind::Conflict(k)) => if confirmed {
            RunGate::Proceed
        } else {
            RunGate::AbortConflict(k)
        },
    }
}

/// Law (conflict detection): in a real, non-overwrite run against a
/// directory holding a manifest, a declined confirmation turns the run into
/// a conflict abort — the orchestrator then plans no action and creates no
/// file.  A dry run never surfaces a conflict at all.
pub proof fn lemma_declined_manifest_conflict_aborts(found: ArtifactsFound, ci: bool)
    requires
        found.manifest,
    ensures
        spec_gate(spec_required_prompt(false, false, ci, found), false)
            == RunGate::AbortConflict(ArtifactKind::Manifest),
        spec_required_prompt(false, true, ci, found) is None,
        spec_gate(spec_required_prompt(false, true, ci, found), false) == RunGate::Proceed,
{
}

} // verus!
