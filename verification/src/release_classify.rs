//! Classifying a main commit: is it the squash of one canonical merged
//! release pull request? Each step takes what GitHub reported and names
//! the next read, or the outcome.

use vstd::prelude::*;
use vstd::utf8::encode_utf8;
use crate::algorithm::str_eq;
use crate::release_checks::{signature_inventory_of, validate_signature_inventory, SignatureInventory};
use crate::release_gate::{is_lower_sha, require_sha, ReleaseGateError};
use crate::release_identity::{
    require_reviewed_release_head, require_verified_dco_commit, reviewed_release_head_of,
    verified_dco_commit_of, ReleaseCommit,
};
use crate::release_pull::{
    canonical_release_pull, canonical_release_pull_of, find_next_merged, is_release_branch,
    next_merged, release_branch, release_files_of, validate_release_files, AssociatedPull, PullFile,
    ReleasePackage, ReleasePull,
};

verus! {

/// The largest pull-request number the signature query accepts.
pub const MAX_QUERY_PULL_NUMBER: u64 = 2147483647;
/// Association inventories at least this long are not bounded.
pub const MAX_ASSOCIATIONS: usize = 100;

/// What classification works on: the source commit, the release version,
/// and the released packages' paths.
pub struct ClassifyContext {
    pub source_sha: String,
    pub version: String,
    pub packages: Vec<ReleasePackage>,
}

/// Where classification stands.
pub enum ClassifyState {
    AwaitSource(ClassifyContext),
    AwaitAssociations(ClassifyContext, ReleaseCommit),
    AwaitPulls {
        ctx: ClassifyContext,
        source: ReleaseCommit,
        associated: Vec<AssociatedPull>,
        next: usize,
        first_release: Option<ReleasePull>,
        several_releases: bool,
        seen_pull: bool,
        several_pulls: bool,
    },
    AwaitCommits(ClassifyContext, ReleaseCommit, ReleasePull),
    AwaitSignature(ClassifyContext, ReleaseCommit, ReleasePull, ReleaseCommit),
    AwaitFiles(ClassifyContext, ReleasePull),
    Finished,
}

/// What GitHub reported.
pub enum ClassifyEvent {
    Source(ReleaseCommit),
    Associations(Vec<AssociatedPull>),
    Pull(ReleasePull),
    Commits(Vec<ReleaseCommit>),
    Signatures(SignatureInventory),
    Files(Vec<PullFile>),
}

/// The next read, or the outcome: whether the commit is a release.
pub enum ClassifyAction {
    FetchSource,
    FetchAssociations,
    FetchPull(u64),
    FetchCommits(u64),
    FetchSignature(u64),
    FetchFiles(u64),
    Finish(Result<bool, ReleaseGateError>),
}

/// The outcome once every merged pull request is read: no release branch
/// means an ordinary commit; otherwise exactly one pull request, a release,
/// squashed as a verified DCO commit with one parent, in canonical shape.
pub open spec fn after_pulls(
    ctx: ClassifyContext,
    source: ReleaseCommit,
    first_release: Option<ReleasePull>,
    several_releases: bool,
    several_pulls: bool,
) -> (ClassifyState, ClassifyAction) {
    match first_release {
        None => (ClassifyState::Finished, ClassifyAction::Finish(Ok(false))),
        Some(pull) => if several_pulls || several_releases {
            (ClassifyState::Finished, ClassifyAction::Finish(Err(ReleaseGateError::ReleasePullNotUnique)))
        } else if verified_dco_commit_of(source, ctx.source_sha@) is Err {
            (ClassifyState::Finished, ClassifyAction::Finish(Err(ReleaseGateError::NotVerifiedDco)))
        } else if source.parents@.len() != 1 {
            (ClassifyState::Finished, ClassifyAction::Finish(Err(ReleaseGateError::SquashParents)))
        } else if !canonical_release_pull_of(pull, ctx.version@, source.parents@[0]@) {
            (ClassifyState::Finished, ClassifyAction::Finish(Err(ReleaseGateError::NotCanonicalPull)))
        } else {
            (ClassifyState::AwaitCommits(ctx, source, pull), ClassifyAction::FetchCommits(pull.number))
        },
    }
}

/// One classification step.
pub open spec fn classify_transition(s: ClassifyState, e: ClassifyEvent) -> (ClassifyState, ClassifyAction) {
    let fail = |err: ReleaseGateError| (ClassifyState::Finished, ClassifyAction::Finish(Err(err)));
    match (s, e) {
        (ClassifyState::AwaitSource(ctx), ClassifyEvent::Source(source)) => if source.sha@
            != ctx.source_sha@ {
            fail(ReleaseGateError::SourceMismatch)
        } else {
            (ClassifyState::AwaitAssociations(ctx, source), ClassifyAction::FetchAssociations)
        },
        (ClassifyState::AwaitAssociations(ctx, source), ClassifyEvent::Associations(associated)) => {
            let n = next_merged(associated@, 0);
            if associated@.len() >= MAX_ASSOCIATIONS {
                fail(ReleaseGateError::AssociationsUnbounded)
            } else if n >= associated@.len() {
                after_pulls(ctx, source, None, false, false)
            } else {
                (
                    ClassifyState::AwaitPulls {
                        ctx,
                        source,
                        associated,
                        next: n as usize,
                        first_release: None,
                        several_releases: false,
                        seen_pull: false,
                        several_pulls: false,
                    },
                    ClassifyAction::FetchPull(associated@[n].number),
                )
            }
        },
        (
            ClassifyState::AwaitPulls {
                ctx,
                source,
                associated,
                next,
                first_release,
                several_releases,
                seen_pull,
                several_pulls,
            },
            ClassifyEvent::Pull(pull),
        ) => {
            let release = is_release_branch(pull);
            let several_releases2 = several_releases || (release && first_release is Some);
            let first_release2 = if release && first_release is None {
                Some(pull)
            } else {
                first_release
            };
            let several_pulls2 = several_pulls || seen_pull;
            let n = next_merged(associated@, next + 1);
            if n < associated@.len() {
                (
                    ClassifyState::AwaitPulls {
                        ctx,
                        source,
                        associated,
                        next: n as usize,
                        first_release: first_release2,
                        several_releases: several_releases2,
                        seen_pull: true,
                        several_pulls: several_pulls2,
                    },
                    ClassifyAction::FetchPull(associated@[n].number),
                )
            } else {
                after_pulls(ctx, source, first_release2, several_releases2, several_pulls2)
            }
        },
        (ClassifyState::AwaitCommits(ctx, source, pull), ClassifyEvent::Commits(commits)) => if commits@.len()
            != 1 {
            fail(ReleaseGateError::ReviewedCommitCount)
        } else if pull.number == 0 || pull.number > MAX_QUERY_PULL_NUMBER {
            fail(ReleaseGateError::PullNumberOutOfRange)
        } else if !is_lower_sha(encode_utf8(pull.head.sha@)) || !is_lower_sha(
            encode_utf8(ctx.source_sha@),
        ) {
            fail(ReleaseGateError::NotLowercaseSha)
        } else {
            (
                ClassifyState::AwaitSignature(ctx, source, pull, commits@[0]),
                ClassifyAction::FetchSignature(pull.number),
            )
        },
        (ClassifyState::AwaitSignature(ctx, source, pull, head), ClassifyEvent::Signatures(inv)) => {
            match signature_inventory_of(inv, pull.head.sha@, ctx.source_sha@) {
                Err(err) => fail(err),
                Ok(signature) => match reviewed_release_head_of(
                    head,
                    signature,
                    pull.head.sha@,
                    pull.base.sha@,
                ) {
                    Err(err) => fail(err),
                    Ok(()) => if head.tree_sha@ != source.tree_sha@ {
                        fail(ReleaseGateError::TreeDiffers)
                    } else {
                        (ClassifyState::AwaitFiles(ctx, pull), ClassifyAction::FetchFiles(pull.number))
                    },
                },
            }
        },
        (ClassifyState::AwaitFiles(ctx, pull), ClassifyEvent::Files(files)) => match release_files_of(
            files@,
            pull.changed_files,
            ctx.packages@,
        ) {
            Err(err) => fail(err),
            Ok(()) => (ClassifyState::Finished, ClassifyAction::Finish(Ok(true))),
        },
        _ => fail(ReleaseGateError::OutOfOrder),
    }
}

/// Start classifying: read the source commit first.
pub fn classify_start(ctx: ClassifyContext) -> (r: (ClassifyState, ClassifyAction))
    ensures
        r == (ClassifyState::AwaitSource(ctx), ClassifyAction::FetchSource),
{
    (ClassifyState::AwaitSource(ctx), ClassifyAction::FetchSource)
}

fn after_pulls_exec(
    ctx: ClassifyContext,
    source: ReleaseCommit,
    first_release: Option<ReleasePull>,
    several_releases: bool,
    several_pulls: bool,
) -> (r: (ClassifyState, ClassifyAction))
    ensures
        r == after_pulls(ctx, source, first_release, several_releases, several_pulls),
{
    match first_release {
        None => (ClassifyState::Finished, ClassifyAction::Finish(Ok(false))),
        Some(pull) => {
            if several_pulls || several_releases {
                return (
                    ClassifyState::Finished,
                    ClassifyAction::Finish(Err(ReleaseGateError::ReleasePullNotUnique)),
                );
            }
            if require_verified_dco_commit(&source, ctx.source_sha.as_str()).is_err() {
                return (ClassifyState::Finished, ClassifyAction::Finish(Err(ReleaseGateError::NotVerifiedDco)));
            }
            if source.parents.len() != 1 {
                return (ClassifyState::Finished, ClassifyAction::Finish(Err(ReleaseGateError::SquashParents)));
            }
            if !canonical_release_pull(&pull, ctx.version.as_str(), source.parents[0].as_str()) {
                return (
                    ClassifyState::Finished,
                    ClassifyAction::Finish(Err(ReleaseGateError::NotCanonicalPull)),
                );
            }
            let number = pull.number;
            (ClassifyState::AwaitCommits(ctx, source, pull), ClassifyAction::FetchCommits(number))
        },
    }
}

/// One classification step: what GitHub reported decides the next read or
/// the outcome.
pub fn classify_step(s: ClassifyState, e: ClassifyEvent) -> (r: (ClassifyState, ClassifyAction))
    ensures
        r == classify_transition(s, e),
{
    match (s, e) {
        (ClassifyState::AwaitSource(ctx), ClassifyEvent::Source(source)) => {
            if !str_eq(source.sha.as_str(), ctx.source_sha.as_str()) {
                return (
                    ClassifyState::Finished,
                    ClassifyAction::Finish(Err(ReleaseGateError::SourceMismatch)),
                );
            }
            (ClassifyState::AwaitAssociations(ctx, source), ClassifyAction::FetchAssociations)
        },
        (ClassifyState::AwaitAssociations(ctx, source), ClassifyEvent::Associations(associated)) => {
            if associated.len() >= MAX_ASSOCIATIONS {
                return (
                    ClassifyState::Finished,
                    ClassifyAction::Finish(Err(ReleaseGateError::AssociationsUnbounded)),
                );
            }
            let n = find_next_merged(&associated, 0);
            if n >= associated.len() {
                return after_pulls_exec(ctx, source, None, false, false);
            }
            let number = associated[n].number;
            (
                ClassifyState::AwaitPulls {
                    ctx,
                    source,
                    associated,
                    next: n,
                    first_release: None,
                    several_releases: false,
                    seen_pull: false,
                    several_pulls: false,
                },
                ClassifyAction::FetchPull(number),
            )
        },
        (
            ClassifyState::AwaitPulls {
                ctx,
                source,
                associated,
                next,
                first_release,
                several_releases,
                seen_pull,
                several_pulls,
            },
            ClassifyEvent::Pull(pull),
        ) => {
            let release = release_branch(&pull);
            let several_releases2 = several_releases || (release && first_release.is_some());
            let first_release2 = if release && first_release.is_none() {
                Some(pull)
            } else {
                first_release
            };
            let several_pulls2 = several_pulls || seen_pull;
            let n = if next < associated.len() {
                find_next_merged(&associated, next + 1)
            } else {
                associated.len()
            };
            if n < associated.len() {
                let number = associated[n].number;
                return (
                    ClassifyState::AwaitPulls {
                        ctx,
                        source,
                        associated,
                        next: n,
                        first_release: first_release2,
                        several_releases: several_releases2,
                        seen_pull: true,
                        several_pulls: several_pulls2,
                    },
                    ClassifyAction::FetchPull(number),
                );
            }
            after_pulls_exec(ctx, source, first_release2, several_releases2, several_pulls2)
        },
        (ClassifyState::AwaitCommits(ctx, source, pull), ClassifyEvent::Commits(commits)) => {
            if commits.len() != 1 {
                return (
                    ClassifyState::Finished,
                    ClassifyAction::Finish(Err(ReleaseGateError::ReviewedCommitCount)),
                );
            }
            if pull.number == 0 || pull.number > MAX_QUERY_PULL_NUMBER {
                return (
                    ClassifyState::Finished,
                    ClassifyAction::Finish(Err(ReleaseGateError::PullNumberOutOfRange)),
                );
            }
            if require_sha(pull.head.sha.as_str()).is_err() || require_sha(ctx.source_sha.as_str()).is_err() {
                return (
                    ClassifyState::Finished,
                    ClassifyAction::Finish(Err(ReleaseGateError::NotLowercaseSha)),
                );
            }
            let ghost commits0 = commits@;
            let mut commits = commits;
            let head = match commits.pop() {
                Some(h) => h,
                None => {
                    return (
                        ClassifyState::Finished,
                        ClassifyAction::Finish(Err(ReleaseGateError::ReviewedCommitCount)),
                    )
                },
            };
            assert(head == commits0[0]);
            let number = pull.number;
            (ClassifyState::AwaitSignature(ctx, source, pull, head), ClassifyAction::FetchSignature(number))
        },
        (ClassifyState::AwaitSignature(ctx, source, pull, head), ClassifyEvent::Signatures(inv)) => {
            let signature = match validate_signature_inventory(
                inv,
                pull.head.sha.as_str(),
                ctx.source_sha.as_str(),
            ) {
                Err(err) => return (ClassifyState::Finished, ClassifyAction::Finish(Err(err))),
                Ok(sig) => sig,
            };
            match require_reviewed_release_head(
                &head,
                &signature,
                pull.head.sha.as_str(),
                pull.base.sha.as_str(),
            ) {
                Err(err) => return (ClassifyState::Finished, ClassifyAction::Finish(Err(err))),
                Ok(()) => {},
            }
            if !str_eq(head.tree_sha.as_str(), source.tree_sha.as_str()) {
                return (ClassifyState::Finished, ClassifyAction::Finish(Err(ReleaseGateError::TreeDiffers)));
            }
            let number = pull.number;
            (ClassifyState::AwaitFiles(ctx, pull), ClassifyAction::FetchFiles(number))
        },
        (ClassifyState::AwaitFiles(ctx, pull), ClassifyEvent::Files(files)) => {
            match validate_release_files(files.as_slice(), pull.changed_files, ctx.packages.as_slice()) {
                Err(err) => (ClassifyState::Finished, ClassifyAction::Finish(Err(err))),
                Ok(()) => (ClassifyState::Finished, ClassifyAction::Finish(Ok(true))),
            }
        },
        _ => (ClassifyState::Finished, ClassifyAction::Finish(Err(ReleaseGateError::OutOfOrder))),
    }
}

} // verus!
