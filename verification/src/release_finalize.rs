//! Finalizing a published release: the checks before any release-object
//! mutation (source version, every crate public, the App's token scope,
//! protected main unchanged, the source still on main) and, before each
//! package's mutation, the policy rebinding. Each step takes what the last
//! outside work reported and names the next piece of work, or the outcome.

use vstd::prelude::*;
use crate::algorithm::str_eq;
use crate::release_checks::{
    app_scope_of, main_ancestry_of, require_main_ancestry, validate_app_scope, ComparisonRecord,
};
use crate::release_gate::{
    require_unchanged_main, unchanged_main_of, ReleaseGateError, RELEASE_PACKAGE_COUNT,
};
use crate::release_identity::ReleaseCommit;

verus! {

/// The inputs of one finalization run.
pub struct FinalizeContext {
    pub source_sha: String,
    pub version: String,
    pub app_slug: String,
}

/// Where finalization stands. The string after the context is the policy
/// main commit, read first.
pub enum FinalizeState {
    AwaitPolicyMain(FinalizeContext),
    AwaitSourceVersion(FinalizeContext, String),
    AwaitVersions(FinalizeContext, String),
    AwaitRegistry(FinalizeContext, String),
    AwaitAppScope(FinalizeContext, String),
    AwaitMutationMain(FinalizeContext, String),
    AwaitMutationCheckouts(FinalizeContext, String, String),
    AwaitMutationAncestry(FinalizeContext, String),
    AwaitSource(FinalizeContext, String),
    /// Before package `usize`: the source must still be on policy main.
    AwaitPackageAncestry(FinalizeContext, String, String, usize),
    /// Before package `usize`: main must not have moved.
    AwaitPackageMain(FinalizeContext, String, String, usize),
    /// Package `usize` is being finalized.
    AwaitPackage(FinalizeContext, String, String, usize),
    Finished,
}

/// What the outside work reported.
pub enum FinalizeEvent {
    /// The commit protected main points to.
    MainSha(String),
    /// The checkouts are exact and separate, and the release policy holds.
    CheckoutsPassed,
    /// The version of the checked-out source.
    SourceVersion(String),
    /// The versions of the source are valid.
    VersionsValid,
    /// Whether each crate is published from the source.
    Registry(Vec<bool>),
    /// The repositories the App's token reaches: the reported count and names.
    AppScope(u64, Vec<String>),
    /// The comparison from the source to main.
    Comparison(ComparisonRecord),
    /// The source commit.
    Source(ReleaseCommit),
    /// The current package's tag and release objects are final.
    PackageFinalized,
}

/// The next piece of outside work, or the outcome.
pub enum FinalizeAction {
    FetchMainSha,
    /// Check both checkouts against this main commit and the release
    /// policy, and read the source version.
    CheckSourcesAndPolicy(String),
    ValidateVersions,
    ReadRegistry,
    FetchAppScope,
    /// Check both checkouts against this main commit again.
    CheckCheckouts(String),
    /// Compare the source with this main commit.
    FetchComparison(String),
    FetchSource,
    /// Finalize package `usize` with the source committer date.
    FinalizePackage(usize, String),
    Done,
    Fail(ReleaseGateError),
}

/// Whether every crate is published.
pub open spec fn all_published(states: Seq<bool>) -> bool {
    forall|i: int| 0 <= i < states.len() ==> #[trigger] states[i]
}

/// Every-crate-published check.
fn every_published(states: &[bool]) -> (r: bool)
    ensures
        r == all_published(states@),
{
    let mut i: usize = 0;
    while i < states.len()
        invariant
            i <= states.len(),
            forall|k: int| 0 <= k < i ==> #[trigger] states@[k],
        decreases states.len() - i,
    {
        if !states[i] {
            return false;
        }
        i = i + 1;
    }
    true
}

/// The step before package `index`: rebind to policy main, or finish once
/// every package is final.
pub open spec fn next_package(ctx: FinalizeContext, policy: String, date: String, index: usize) -> (
    FinalizeState,
    FinalizeAction,
) {
    if index >= RELEASE_PACKAGE_COUNT {
        (FinalizeState::Finished, FinalizeAction::Done)
    } else {
        (
            FinalizeState::AwaitPackageAncestry(ctx, policy, date, index),
            FinalizeAction::FetchComparison(policy),
        )
    }
}

/// One finalization step.
pub open spec fn finalize_transition(s: FinalizeState, e: FinalizeEvent) -> (FinalizeState, FinalizeAction) {
    let fail = |err: ReleaseGateError| (FinalizeState::Finished, FinalizeAction::Fail(err));
    match (s, e) {
        (FinalizeState::AwaitPolicyMain(ctx), FinalizeEvent::MainSha(policy)) => (
            FinalizeState::AwaitSourceVersion(ctx, policy),
            FinalizeAction::CheckSourcesAndPolicy(policy),
        ),
        (FinalizeState::AwaitSourceVersion(ctx, policy), FinalizeEvent::SourceVersion(v)) => if v@
            != ctx.version@ {
            fail(ReleaseGateError::VersionDiffers)
        } else {
            (FinalizeState::AwaitVersions(ctx, policy), FinalizeAction::ValidateVersions)
        },
        (FinalizeState::AwaitVersions(ctx, policy), FinalizeEvent::VersionsValid) => (
            FinalizeState::AwaitRegistry(ctx, policy),
            FinalizeAction::ReadRegistry,
        ),
        (FinalizeState::AwaitRegistry(ctx, policy), FinalizeEvent::Registry(states)) => if !all_published(
            states@,
        ) {
            fail(ReleaseGateError::NotAllPublished)
        } else {
            (FinalizeState::AwaitAppScope(ctx, policy), FinalizeAction::FetchAppScope)
        },
        (FinalizeState::AwaitAppScope(ctx, policy), FinalizeEvent::AppScope(total, repositories)) => {
            match app_scope_of(ctx.app_slug@, total, repositories@) {
                Err(err) => fail(err),
                Ok(()) => (FinalizeState::AwaitMutationMain(ctx, policy), FinalizeAction::FetchMainSha),
            }
        },
        (FinalizeState::AwaitMutationMain(ctx, policy), FinalizeEvent::MainSha(current)) => {
            match unchanged_main_of(policy@, current@) {
                Err(err) => fail(err),
                Ok(()) => (
                    FinalizeState::AwaitMutationCheckouts(ctx, policy, current),
                    FinalizeAction::CheckCheckouts(current),
                ),
            }
        },
        (FinalizeState::AwaitMutationCheckouts(ctx, policy, current), FinalizeEvent::CheckoutsPassed) => (
            FinalizeState::AwaitMutationAncestry(ctx, policy),
            FinalizeAction::FetchComparison(current),
        ),
        (FinalizeState::AwaitMutationAncestry(ctx, policy), FinalizeEvent::Comparison(c)) => {
            match main_ancestry_of(c, ctx.source_sha@) {
                Err(err) => fail(err),
                Ok(()) => (FinalizeState::AwaitSource(ctx, policy), FinalizeAction::FetchSource),
            }
        },
        (FinalizeState::AwaitSource(ctx, policy), FinalizeEvent::Source(source)) => if source.sha@
            != ctx.source_sha@ {
            fail(ReleaseGateError::SourceMismatch)
        } else {
            match source.raw_committer {
                None => fail(ReleaseGateError::SourceCommitterMissing),
                Some(committer) => next_package(ctx, policy, committer.date, 0),
            }
        },
        (FinalizeState::AwaitPackageAncestry(ctx, policy, date, index), FinalizeEvent::Comparison(c)) => {
            match main_ancestry_of(c, ctx.source_sha@) {
                Err(err) => fail(err),
                Ok(()) => (
                    FinalizeState::AwaitPackageMain(ctx, policy, date, index),
                    FinalizeAction::FetchMainSha,
                ),
            }
        },
        (FinalizeState::AwaitPackageMain(ctx, policy, date, index), FinalizeEvent::MainSha(current)) => {
            match unchanged_main_of(policy@, current@) {
                Err(err) => fail(err),
                Ok(()) => (
                    FinalizeState::AwaitPackage(ctx, policy, date, index),
                    FinalizeAction::FinalizePackage(index, date),
                ),
            }
        },
        (FinalizeState::AwaitPackage(ctx, policy, date, index), FinalizeEvent::PackageFinalized) => {
            if index + 1 >= RELEASE_PACKAGE_COUNT {
                (FinalizeState::Finished, FinalizeAction::Done)
            } else {
                next_package(ctx, policy, date, (index + 1) as usize)
            }
        },
        _ => fail(ReleaseGateError::OutOfOrder),
    }
}

/// Start finalizing: read protected main first.
pub fn finalize_start(ctx: FinalizeContext) -> (r: (FinalizeState, FinalizeAction))
    ensures
        r == (FinalizeState::AwaitPolicyMain(ctx), FinalizeAction::FetchMainSha),
{
    (FinalizeState::AwaitPolicyMain(ctx), FinalizeAction::FetchMainSha)
}

fn next_package_exec(ctx: FinalizeContext, policy: String, date: String, index: usize) -> (r: (
    FinalizeState,
    FinalizeAction,
))
    ensures
        r == next_package(ctx, policy, date, index),
{
    if index >= RELEASE_PACKAGE_COUNT {
        (FinalizeState::Finished, FinalizeAction::Done)
    } else {
        let action_policy = policy.clone();
        (FinalizeState::AwaitPackageAncestry(ctx, policy, date, index), FinalizeAction::FetchComparison(action_policy))
    }
}

/// One finalization step: what the last outside work reported decides the
/// next piece of work or the outcome.
pub fn finalize_step(s: FinalizeState, e: FinalizeEvent) -> (r: (FinalizeState, FinalizeAction))
    ensures
        r == finalize_transition(s, e),
{
    match (s, e) {
        (FinalizeState::AwaitPolicyMain(ctx), FinalizeEvent::MainSha(policy)) => {
            let action_policy = policy.clone();
            (FinalizeState::AwaitSourceVersion(ctx, policy), FinalizeAction::CheckSourcesAndPolicy(action_policy))
        },
        (FinalizeState::AwaitSourceVersion(ctx, policy), FinalizeEvent::SourceVersion(v)) => {
            if !str_eq(v.as_str(), ctx.version.as_str()) {
                return (FinalizeState::Finished, FinalizeAction::Fail(ReleaseGateError::VersionDiffers));
            }
            (FinalizeState::AwaitVersions(ctx, policy), FinalizeAction::ValidateVersions)
        },
        (FinalizeState::AwaitVersions(ctx, policy), FinalizeEvent::VersionsValid) => (
            FinalizeState::AwaitRegistry(ctx, policy),
            FinalizeAction::ReadRegistry,
        ),
        (FinalizeState::AwaitRegistry(ctx, policy), FinalizeEvent::Registry(states)) => {
            if !every_published(states.as_slice()) {
                return (FinalizeState::Finished, FinalizeAction::Fail(ReleaseGateError::NotAllPublished));
            }
            (FinalizeState::AwaitAppScope(ctx, policy), FinalizeAction::FetchAppScope)
        },
        (FinalizeState::AwaitAppScope(ctx, policy), FinalizeEvent::AppScope(total, repositories)) => {
            match validate_app_scope(ctx.app_slug.as_str(), total, repositories.as_slice()) {
                Err(err) => (FinalizeState::Finished, FinalizeAction::Fail(err)),
                Ok(()) => (FinalizeState::AwaitMutationMain(ctx, policy), FinalizeAction::FetchMainSha),
            }
        },
        (FinalizeState::AwaitMutationMain(ctx, policy), FinalizeEvent::MainSha(current)) => {
            match require_unchanged_main(policy.as_str(), current.as_str()) {
                Err(err) => (FinalizeState::Finished, FinalizeAction::Fail(err)),
                Ok(()) => {
                    let action_current = current.clone();
                    (
                        FinalizeState::AwaitMutationCheckouts(ctx, policy, current),
                        FinalizeAction::CheckCheckouts(action_current),
                    )
                },
            }
        },
        (FinalizeState::AwaitMutationCheckouts(ctx, policy, current), FinalizeEvent::CheckoutsPassed) => (
            FinalizeState::AwaitMutationAncestry(ctx, policy),
            FinalizeAction::FetchComparison(current),
        ),
        (FinalizeState::AwaitMutationAncestry(ctx, policy), FinalizeEvent::Comparison(c)) => {
            match require_main_ancestry(&c, ctx.source_sha.as_str()) {
                Err(err) => (FinalizeState::Finished, FinalizeAction::Fail(err)),
                Ok(()) => (FinalizeState::AwaitSource(ctx, policy), FinalizeAction::FetchSource),
            }
        },
        (FinalizeState::AwaitSource(ctx, policy), FinalizeEvent::Source(source)) => {
            if !str_eq(source.sha.as_str(), ctx.source_sha.as_str()) {
                return (FinalizeState::Finished, FinalizeAction::Fail(ReleaseGateError::SourceMismatch));
            }
            match source.raw_committer {
                None => (FinalizeState::Finished, FinalizeAction::Fail(ReleaseGateError::SourceCommitterMissing)),
                Some(committer) => next_package_exec(ctx, policy, committer.date, 0),
            }
        },
        (FinalizeState::AwaitPackageAncestry(ctx, policy, date, index), FinalizeEvent::Comparison(c)) => {
            match require_main_ancestry(&c, ctx.source_sha.as_str()) {
                Err(err) => (FinalizeState::Finished, FinalizeAction::Fail(err)),
                Ok(()) => (FinalizeState::AwaitPackageMain(ctx, policy, date, index), FinalizeAction::FetchMainSha),
            }
        },
        (FinalizeState::AwaitPackageMain(ctx, policy, date, index), FinalizeEvent::MainSha(current)) => {
            match require_unchanged_main(policy.as_str(), current.as_str()) {
                Err(err) => (FinalizeState::Finished, FinalizeAction::Fail(err)),
                Ok(()) => {
                    let action_date = date.clone();
                    (
                        FinalizeState::AwaitPackage(ctx, policy, date, index),
                        FinalizeAction::FinalizePackage(index, action_date),
                    )
                },
            }
        },
        (FinalizeState::AwaitPackage(ctx, policy, date, index), FinalizeEvent::PackageFinalized) => {
            if index >= RELEASE_PACKAGE_COUNT - 1 {
                return (FinalizeState::Finished, FinalizeAction::Done);
            }
            next_package_exec(ctx, policy, date, index + 1)
        },
        _ => (FinalizeState::Finished, FinalizeAction::Fail(ReleaseGateError::OutOfOrder)),
    }
}

} // verus!
