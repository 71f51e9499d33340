//! Qualifying a release run: which operation may run on which source, the
//! binding of a recovery to its original run, and the publication decision
//! from the registry. Each step takes what the last read reported and names
//! the next piece of outside work, or the outcome.

use vstd::prelude::*;
use crate::algorithm::str_eq;
use crate::release_checks::{
    artifact_inventory_of, main_ancestry_of, original_run_pair_of, publish_workflow_of,
    require_main_ancestry, validate_artifact_inventory, validate_original_run_pair,
    validate_publish_workflow, ComparisonRecord, WorkflowRecord, WorkflowRunRecord,
};
use crate::release_gate::{
    count_published, decide, decision_of, ordinary_decision, ordinary_decision_of, registry_read,
    registry_read_of, ReleaseDecision, ReleaseGateError, ReleaseOperation,
};

verus! {

/// The inputs of one qualification run.
pub struct QualifyContext {
    pub operation: ReleaseOperation,
    pub source_sha: String,
    pub original_run_id: Option<u64>,
    pub original_run_attempt: Option<u64>,
    pub wait_for_registry: bool,
}

/// The qualification label reported with the decision.
#[derive(Clone, Copy, Debug, PartialEq, Eq, Structural)]
pub enum QualificationLabel {
    /// A validation-only run.
    Validation,
    /// An ordinary commit, not a release.
    Ordinary,
    /// A release none of whose crates is published.
    Unpublished,
    /// A release all of whose crates are published.
    Complete,
    /// A release some of whose crates are published.
    Partial,
}

/// Where qualification stands.
pub enum QualifyState {
    AwaitMainSha(QualifyContext),
    AwaitPreflight(QualifyContext, String),
    AwaitWorkflow(QualifyContext, String, u64, u64),
    AwaitRuns(QualifyContext, String, u64, u64),
    AwaitArtifacts(QualifyContext, String),
    AwaitAncestry(QualifyContext),
    AwaitValidation(QualifyContext),
    AwaitClassification(QualifyContext),
    AwaitReleaseVersions(QualifyContext),
    AwaitRegistry(QualifyContext),
    Finished,
}

/// What the outside work reported.
pub enum QualifyEvent {
    /// The commit protected main points to.
    MainSha(String),
    /// Both checkouts are exact and separate, and the release policy holds.
    PreflightPassed,
    /// The publication workflow.
    Workflow(WorkflowRecord),
    /// The selected attempt and the current state of the original run.
    Runs(WorkflowRunRecord, WorkflowRunRecord),
    /// The artifact count and listed artifacts of the original run.
    Artifacts(u64, usize),
    /// The comparison from the source to main.
    Comparison(ComparisonRecord),
    /// The versions of the source are valid.
    VersionsValid,
    /// Whether the source is a canonical release.
    Classified(bool),
    /// Whether each crate is published from the source.
    Registry(Vec<bool>),
}

/// The next piece of outside work, or the outcome.
pub enum QualifyAction {
    FetchMainSha,
    /// Check both checkouts against this main commit, and the release policy.
    CheckSourcesAndPolicy(String),
    FetchWorkflow,
    FetchRuns(u64, u64),
    FetchArtifacts(u64),
    /// Compare the source with this main commit.
    FetchComparison(String),
    ValidateVersions,
    ClassifyRelease,
    ReadRegistry(bool),
    Emit(ReleaseDecision, QualificationLabel),
    Fail(ReleaseGateError),
}

/// The label of a registry state.
pub open spec fn registry_label_of(states: Seq<bool>) -> QualificationLabel {
    let n = count_published(states);
    if n == 0 {
        QualificationLabel::Unpublished
    } else if n == states.len() {
        QualificationLabel::Complete
    } else {
        QualificationLabel::Partial
    }
}

/// The label of a registry state.
pub fn registry_label(states: &[bool]) -> (r: QualificationLabel)
    ensures
        r == registry_label_of(states@),
{
    let mut count: usize = 0;
    let mut i: usize = 0;
    while i < states.len()
        invariant
            i <= states.len(),
            count == count_published(states@.subrange(0, i as int)),
            count <= i,
        decreases states.len() - i,
    {
        assert(states@.subrange(0, i + 1).drop_last() =~= states@.subrange(0, i as int));
        if states[i] {
            count = count + 1;
        }
        i = i + 1;
    }
    assert(states@.subrange(0, states.len() as int) =~= states@);
    if count == 0 {
        QualificationLabel::Unpublished
    } else if count == states.len() {
        QualificationLabel::Complete
    } else {
        QualificationLabel::Partial
    }
}

/// The step after the source is bound: validation checks versions only;
/// other operations classify the source.
pub open spec fn after_source(ctx: QualifyContext) -> (QualifyState, QualifyAction) {
    if ctx.operation == ReleaseOperation::Validate {
        (QualifyState::AwaitValidation(ctx), QualifyAction::ValidateVersions)
    } else {
        (QualifyState::AwaitClassification(ctx), QualifyAction::ClassifyRelease)
    }
}

/// One qualification step.
pub open spec fn qualify_transition(s: QualifyState, e: QualifyEvent) -> (QualifyState, QualifyAction) {
    let fail = |err: ReleaseGateError| (QualifyState::Finished, QualifyAction::Fail(err));
    match (s, e) {
        (QualifyState::AwaitMainSha(ctx), QualifyEvent::MainSha(main)) => (
            QualifyState::AwaitPreflight(ctx, main),
            QualifyAction::CheckSourcesAndPolicy(main),
        ),
        (QualifyState::AwaitPreflight(ctx, main), QualifyEvent::PreflightPassed) => {
            if ctx.operation == ReleaseOperation::Recover {
                match (ctx.original_run_id, ctx.original_run_attempt) {
                    (Some(id), Some(attempt)) => if id == 0 || attempt == 0 {
                        fail(ReleaseGateError::RunIdentityNotPositive)
                    } else {
                        (QualifyState::AwaitWorkflow(ctx, main, id, attempt), QualifyAction::FetchWorkflow)
                    },
                    _ => fail(ReleaseGateError::RecoveryRunMissing),
                }
            } else if ctx.original_run_id is Some || ctx.original_run_attempt is Some {
                fail(ReleaseGateError::RunInputsOnlyForRecovery)
            } else if ctx.source_sha@ != main@ {
                fail(ReleaseGateError::RequiresCurrentMain)
            } else {
                after_source(ctx)
            }
        },
        (QualifyState::AwaitWorkflow(ctx, main, id, attempt), QualifyEvent::Workflow(w)) => {
            match publish_workflow_of(w) {
                Err(err) => fail(err),
                Ok(()) => (
                    QualifyState::AwaitRuns(ctx, main, id, attempt),
                    QualifyAction::FetchRuns(id, attempt),
                ),
            }
        },
        (QualifyState::AwaitRuns(ctx, main, id, attempt), QualifyEvent::Runs(selected, current)) => {
            match original_run_pair_of(selected, current, ctx.source_sha@, id, attempt) {
                Err(err) => fail(err),
                Ok(()) => (QualifyState::AwaitArtifacts(ctx, main), QualifyAction::FetchArtifacts(id)),
            }
        },
        (QualifyState::AwaitArtifacts(ctx, main), QualifyEvent::Artifacts(total, listed)) => {
            match artifact_inventory_of(total, listed as nat) {
                Err(err) => fail(err),
                Ok(()) => (QualifyState::AwaitAncestry(ctx), QualifyAction::FetchComparison(main)),
            }
        },
        (QualifyState::AwaitAncestry(ctx), QualifyEvent::Comparison(c)) => match main_ancestry_of(
            c,
            ctx.source_sha@,
        ) {
            Err(err) => fail(err),
            Ok(()) => after_source(ctx),
        },
        (QualifyState::AwaitValidation(ctx), QualifyEvent::VersionsValid) => (
            QualifyState::Finished,
            QualifyAction::Emit(
                ReleaseDecision { publish: false, finalize: false },
                QualificationLabel::Validation,
            ),
        ),
        (QualifyState::AwaitClassification(ctx), QualifyEvent::Classified(release)) => if release {
            (QualifyState::AwaitReleaseVersions(ctx), QualifyAction::ValidateVersions)
        } else {
            match registry_read_of(ctx.operation, false) {
                Err(err) => fail(err),
                Ok(_) => match ordinary_decision_of(ctx.operation) {
                    Err(err) => fail(err),
                    Ok(d) => (
                        QualifyState::Finished,
                        QualifyAction::Emit(d, QualificationLabel::Ordinary),
                    ),
                },
            }
        },
        (QualifyState::AwaitReleaseVersions(ctx), QualifyEvent::VersionsValid) => match registry_read_of(
            ctx.operation,
            true,
        ) {
            Err(err) => fail(err),
            Ok(read) => if read {
                (QualifyState::AwaitRegistry(ctx), QualifyAction::ReadRegistry(ctx.wait_for_registry))
            } else {
                fail(ReleaseGateError::RegistrySkipped)
            },
        },
        (QualifyState::AwaitRegistry(ctx), QualifyEvent::Registry(states)) => match decision_of(
            ctx.operation,
            states@,
        ) {
            Err(err) => fail(err),
            Ok(d) => (QualifyState::Finished, QualifyAction::Emit(d, registry_label_of(states@))),
        },
        _ => fail(ReleaseGateError::OutOfOrder),
    }
}

/// Start qualifying: read protected main first.
pub fn qualify_start(ctx: QualifyContext) -> (r: (QualifyState, QualifyAction))
    ensures
        r == (QualifyState::AwaitMainSha(ctx), QualifyAction::FetchMainSha),
{
    (QualifyState::AwaitMainSha(ctx), QualifyAction::FetchMainSha)
}

fn after_source_exec(ctx: QualifyContext) -> (r: (QualifyState, QualifyAction))
    ensures
        r == after_source(ctx),
{
    if ctx.operation == ReleaseOperation::Validate {
        (QualifyState::AwaitValidation(ctx), QualifyAction::ValidateVersions)
    } else {
        (QualifyState::AwaitClassification(ctx), QualifyAction::ClassifyRelease)
    }
}

/// One qualification step: what the last outside work reported decides the
/// next piece of work or the outcome.
pub fn qualify_step(s: QualifyState, e: QualifyEvent) -> (r: (QualifyState, QualifyAction))
    ensures
        r == qualify_transition(s, e),
{
    match (s, e) {
        (QualifyState::AwaitMainSha(ctx), QualifyEvent::MainSha(main)) => {
            let action_main = main.clone();
            (QualifyState::AwaitPreflight(ctx, main), QualifyAction::CheckSourcesAndPolicy(action_main))
        },
        (QualifyState::AwaitPreflight(ctx, main), QualifyEvent::PreflightPassed) => {
            if ctx.operation == ReleaseOperation::Recover {
                match (ctx.original_run_id, ctx.original_run_attempt) {
                    (Some(id), Some(attempt)) => {
                        if id == 0 || attempt == 0 {
                            return (
                                QualifyState::Finished,
                                QualifyAction::Fail(ReleaseGateError::RunIdentityNotPositive),
                            );
                        }
                        (QualifyState::AwaitWorkflow(ctx, main, id, attempt), QualifyAction::FetchWorkflow)
                    },
                    _ => (QualifyState::Finished, QualifyAction::Fail(ReleaseGateError::RecoveryRunMissing)),
                }
            } else if ctx.original_run_id.is_some() || ctx.original_run_attempt.is_some() {
                (QualifyState::Finished, QualifyAction::Fail(ReleaseGateError::RunInputsOnlyForRecovery))
            } else if !str_eq(ctx.source_sha.as_str(), main.as_str()) {
                (QualifyState::Finished, QualifyAction::Fail(ReleaseGateError::RequiresCurrentMain))
            } else {
                after_source_exec(ctx)
            }
        },
        (QualifyState::AwaitWorkflow(ctx, main, id, attempt), QualifyEvent::Workflow(w)) => {
            match validate_publish_workflow(&w) {
                Err(err) => (QualifyState::Finished, QualifyAction::Fail(err)),
                Ok(()) => (QualifyState::AwaitRuns(ctx, main, id, attempt), QualifyAction::FetchRuns(id, attempt)),
            }
        },
        (QualifyState::AwaitRuns(ctx, main, id, attempt), QualifyEvent::Runs(selected, current)) => {
            match validate_original_run_pair(&selected, &current, ctx.source_sha.as_str(), id, attempt) {
                Err(err) => (QualifyState::Finished, QualifyAction::Fail(err)),
                Ok(()) => (QualifyState::AwaitArtifacts(ctx, main), QualifyAction::FetchArtifacts(id)),
            }
        },
        (QualifyState::AwaitArtifacts(ctx, main), QualifyEvent::Artifacts(total, listed)) => {
            match validate_artifact_inventory(total, listed) {
                Err(err) => (QualifyState::Finished, QualifyAction::Fail(err)),
                Ok(()) => (QualifyState::AwaitAncestry(ctx), QualifyAction::FetchComparison(main)),
            }
        },
        (QualifyState::AwaitAncestry(ctx), QualifyEvent::Comparison(c)) => {
            match require_main_ancestry(&c, ctx.source_sha.as_str()) {
                Err(err) => (QualifyState::Finished, QualifyAction::Fail(err)),
                Ok(()) => after_source_exec(ctx),
            }
        },
        (QualifyState::AwaitValidation(ctx), QualifyEvent::VersionsValid) => (
            QualifyState::Finished,
            QualifyAction::Emit(
                ReleaseDecision { publish: false, finalize: false },
                QualificationLabel::Validation,
            ),
        ),
        (QualifyState::AwaitClassification(ctx), QualifyEvent::Classified(release)) => {
            if release {
                return (QualifyState::AwaitReleaseVersions(ctx), QualifyAction::ValidateVersions);
            }
            match registry_read(ctx.operation, false) {
                Err(err) => (QualifyState::Finished, QualifyAction::Fail(err)),
                Ok(_) => match ordinary_decision(ctx.operation) {
                    Err(err) => (QualifyState::Finished, QualifyAction::Fail(err)),
                    Ok(d) => (QualifyState::Finished, QualifyAction::Emit(d, QualificationLabel::Ordinary)),
                },
            }
        },
        (QualifyState::AwaitReleaseVersions(ctx), QualifyEvent::VersionsValid) => {
            match registry_read(ctx.operation, true) {
                Err(err) => (QualifyState::Finished, QualifyAction::Fail(err)),
                Ok(read) => {
                    if read {
                        let wait = ctx.wait_for_registry;
                        (QualifyState::AwaitRegistry(ctx), QualifyAction::ReadRegistry(wait))
                    } else {
                        (QualifyState::Finished, QualifyAction::Fail(ReleaseGateError::RegistrySkipped))
                    }
                },
            }
        },
        (QualifyState::AwaitRegistry(ctx), QualifyEvent::Registry(states)) => {
            match decide(ctx.operation, states.as_slice()) {
                Err(err) => (QualifyState::Finished, QualifyAction::Fail(err)),
                Ok(d) => (QualifyState::Finished, QualifyAction::Emit(d, registry_label(states.as_slice()))),
            }
        },
        _ => (QualifyState::Finished, QualifyAction::Fail(ReleaseGateError::OutOfOrder)),
    }
}

} // verus!
