//! Release gating decisions: how an operation and the registry state of the
//! workspace crates decide publication and finalization, and the exact
//! source-commit checks that precede any release mutation.

use vstd::prelude::*;
use vstd::utf8::encode_utf8;
use crate::algorithm::str_eq;

verus! {

/// The number of workspace crates released together.
pub const RELEASE_PACKAGE_COUNT: usize = 4;

/// A release operation.
#[derive(Clone, Copy, Debug, PartialEq, Eq, Structural)]
pub enum ReleaseOperation {
    /// Automatic release from current main.
    Auto,
    /// Validation-only dispatch; never mutates.
    Validate,
    /// Same-source recovery of an interrupted release.
    Recover,
}

/// Whether to publish crates and whether to finalize release objects.
#[derive(Clone, Copy, Debug, PartialEq, Eq, Structural)]
pub struct ReleaseDecision {
    pub publish: bool,
    pub finalize: bool,
}

/// Why a release gate refused.
#[derive(Clone, Copy, Debug, PartialEq, Eq, Structural)]
pub enum ReleaseGateError {
    /// A commit identifier is not a lowercase full SHA.
    NotLowercaseSha,
    /// Protected main changed before release-object mutation.
    MainChanged,
    /// The registry state does not cover exactly the released crates.
    RegistryCoverage,
    /// Published crates do not form a dependency-order prefix.
    PublicationNotPrefix,
    /// Partial publication needs recovery from the original source.
    PartialPublication,
    /// A recovery source is not a canonical merged release pull request.
    RecoveryNotRelease,
    /// Recovery needs the original run identifier and attempt.
    RecoveryRunMissing,
    /// Original run inputs are accepted only for recovery.
    RunInputsOnlyForRecovery,
    /// Automatic and validation operations need exact current main.
    RequiresCurrentMain,
    /// The release signature has no signer.
    SignerMissing,
    /// The release signature or its signer is not exact.
    SignerNotExact,
    /// The REST author or committer account is not the verified signer.
    AccountsDiffer,
    /// The raw git author is missing.
    RawAuthorMissing,
    /// The raw git committer is missing.
    RawCommitterMissing,
    /// Signature, raw identities, and the author sign-off differ.
    IdentitiesDiffer,
    /// The commit is not GitHub-verified and DCO-signed.
    NotVerifiedDco,
    /// The release commit is not based on its exact current base.
    NotOnExactBase,
    /// Not all crates are public before finalization.
    NotAllPublished,
    /// The finalizer version differs from the checked-out source.
    VersionDiffers,
    /// The release pull request's file inventory is incomplete.
    FileInventoryIncomplete,
    /// The release pull request changes an unexpected path.
    UnexpectedPath,
    /// The release pull request does not update the workspace manifest.
    ManifestUnchanged,
    /// The pull-request association inventory is not bounded.
    AssociationsUnbounded,
    /// The release source does not have one exact merged pull request.
    ReleasePullNotUnique,
    /// The release squash commit does not have exactly one parent.
    SquashParents,
    /// The merged release pull request differs from canonical policy.
    NotCanonicalPull,
    /// The release pull request does not contain exactly one commit.
    ReviewedCommitCount,
    /// The release squash tree differs from the reviewed tree.
    TreeDiffers,
    /// GitHub returned a different commit than requested.
    SourceMismatch,
    /// The publication workflow's identity or state changed.
    WorkflowChanged,
    /// Recovery does not match one completed original main run.
    OriginalRunMismatch,
    /// The original run was rerun or changed after the selected attempt.
    OriginalRunRerun,
    /// The original run identity is not positive.
    RunIdentityNotPositive,
    /// The original publication run retained an artifact.
    ArtifactRetained,
    /// The source is no longer an ancestor of current main.
    NotAncestorOfMain,
    /// The signature query returned errors.
    SignatureQueryFailed,
    /// The signature query returned no commit inventory.
    SignatureInventoryMissing,
    /// The release pull request's merge commit differs.
    MergeCommitDiffers,
    /// The signature inventory is incomplete or ambiguous.
    SignatureInventoryAmbiguous,
    /// The signed commit is not the reviewed head.
    SignatureHeadDiffers,
    /// The release pull-request signature is missing.
    SignatureMissing,
    /// The release pull-request number is outside the query bound.
    PullNumberOutOfRange,
    /// The token-minting action reported an unexpected App.
    UnexpectedApp,
    /// The App token is not scoped to exactly this repository.
    AppScopeTooBroad,
    /// The raw committer of the release source is missing.
    SourceCommitterMissing,
    /// An event arrived that the current step does not expect.
    OutOfOrder,
    /// Release qualification skipped registry reconciliation.
    RegistrySkipped,
    /// A crate archive's entry count or size overflowed.
    ArchiveWorkOverflow,
    /// A crate archive exceeds the bounded inspection limits.
    ArchiveTooLarge,
}

/// The number of `true` entries of `s`.
pub open spec fn count_published(s: Seq<bool>) -> nat
    decreases s.len(),
{
    if s.len() == 0 {
        0
    } else {
        count_published(s.drop_last()) + if s.last() {
            1nat
        } else {
            0nat
        }
    }
}

/// Whether the published crates form a prefix: no published crate follows
/// an unpublished one.
pub open spec fn published_prefix(s: Seq<bool>) -> bool {
    forall|i: int, j: int| 0 <= i < j < s.len() && #[trigger] s[j] ==> #[trigger] s[i]
}

/// The release decision for `operation` given the registry states.
pub open spec fn decision_of(operation: ReleaseOperation, states: Seq<bool>) -> Result<
    ReleaseDecision,
    ReleaseGateError,
> {
    if states.len() != RELEASE_PACKAGE_COUNT {
        Err(ReleaseGateError::RegistryCoverage)
    } else if operation == ReleaseOperation::Validate {
        Ok(ReleaseDecision { publish: false, finalize: false })
    } else if !published_prefix(states) {
        Err(ReleaseGateError::PublicationNotPrefix)
    } else {
        let published = count_published(states);
        match operation {
            ReleaseOperation::Recover => Ok(
                ReleaseDecision { publish: published != states.len(), finalize: true },
            ),
            _ => if published == 0 {
                Ok(ReleaseDecision { publish: true, finalize: true })
            } else if published == states.len() {
                Ok(ReleaseDecision { publish: false, finalize: false })
            } else {
                Err(ReleaseGateError::PartialPublication)
            },
        }
    }
}

/// Decide publication and finalization from the registry states.
pub fn decide(operation: ReleaseOperation, states: &[bool]) -> (r: Result<
    ReleaseDecision,
    ReleaseGateError,
>)
    ensures
        r == decision_of(operation, states@),
{
    if states.len() != RELEASE_PACKAGE_COUNT {
        return Err(ReleaseGateError::RegistryCoverage);
    }
    if operation == ReleaseOperation::Validate {
        return Ok(ReleaseDecision { publish: false, finalize: false });
    }
    let mut missing_seen = false;
    let mut published: usize = 0;
    let mut i: usize = 0;
    while i < states.len()
        invariant
            i <= states.len(),
            states.len() == RELEASE_PACKAGE_COUNT,
            operation != ReleaseOperation::Validate,
            published == count_published(states@.subrange(0, i as int)),
            published <= i,
            missing_seen <==> exists|k: int| 0 <= k < i && !states@[k],
            published_prefix(states@.subrange(0, i as int)),
        decreases states.len() - i,
    {
        let ghost prev = states@.subrange(0, i as int);
        let ghost next = states@.subrange(0, i + 1);
        assert(next.drop_last() =~= prev);
        if states[i] {
            if missing_seen {
                proof {
                    let k = choose|k: int| 0 <= k < i && !states@[k];
                    assert(next[i as int] && !next[k]);
                    assert(!published_prefix(states@)) by {
                        assert(states@[i as int] && !states@[k]);
                    }
                }
                return Err(ReleaseGateError::PublicationNotPrefix);
            }
            published = published + 1;
        } else {
            missing_seen = true;
        }
        assert(published_prefix(next)) by {
            assert forall|a: int, b: int| 0 <= a < b < next.len() && #[trigger] next[b] implies #[trigger] next[a] by {
                if b == i {
                    assert(!missing_seen || !states@[i as int] || a < i);
                    if states@[i as int] {
                        assert(states@[a]);
                    }
                } else {
                    assert(prev[b] && prev[a] == next[a]);
                }
            }
        }
        i = i + 1;
    }
    assert(states@.subrange(0, states.len() as int) =~= states@);
    match operation {
        ReleaseOperation::Recover => Ok(
            ReleaseDecision { publish: published != states.len(), finalize: true },
        ),
        _ => {
            if published == 0 {
                Ok(ReleaseDecision { publish: true, finalize: true })
            } else if published == states.len() {
                Ok(ReleaseDecision { publish: false, finalize: false })
            } else {
                Err(ReleaseGateError::PartialPublication)
            }
        },
    }
}

/// The decision for a commit that is not a release: a no-op, except that
/// recovery must name a release.
pub open spec fn ordinary_decision_of(operation: ReleaseOperation) -> Result<
    ReleaseDecision,
    ReleaseGateError,
> {
    match operation {
        ReleaseOperation::Recover => Err(ReleaseGateError::RecoveryNotRelease),
        _ => Ok(ReleaseDecision { publish: false, finalize: false }),
    }
}

/// The decision for a commit that is not a release.
pub fn ordinary_decision(operation: ReleaseOperation) -> (r: Result<ReleaseDecision, ReleaseGateError>)
    ensures
        r == ordinary_decision_of(operation),
{
    match operation {
        ReleaseOperation::Recover => Err(ReleaseGateError::RecoveryNotRelease),
        _ => Ok(ReleaseDecision { publish: false, finalize: false }),
    }
}

/// Whether the registry is read: never for validation or an ordinary
/// automatic commit; recovery of a non-release is refused.
pub open spec fn registry_read_of(operation: ReleaseOperation, release: bool) -> Result<
    bool,
    ReleaseGateError,
> {
    match operation {
        ReleaseOperation::Validate => Ok(false),
        ReleaseOperation::Auto => Ok(release),
        ReleaseOperation::Recover => if release {
            Ok(true)
        } else {
            Err(ReleaseGateError::RecoveryNotRelease)
        },
    }
}

/// Whether the registry is to be read for `operation`.
pub fn registry_read(operation: ReleaseOperation, release: bool) -> (r: Result<bool, ReleaseGateError>)
    ensures
        r == registry_read_of(operation, release),
{
    match operation {
        ReleaseOperation::Validate => Ok(false),
        ReleaseOperation::Auto => Ok(release),
        ReleaseOperation::Recover => {
            if release {
                Ok(true)
            } else {
                Err(ReleaseGateError::RecoveryNotRelease)
            }
        },
    }
}

/// The label of a registry state: `none`, `complete`, or `partial`.
pub open spec fn registry_state_text(states: Seq<bool>) -> Seq<char> {
    let n = count_published(states);
    if n == 0 {
        "none"@
    } else if n == states.len() {
        "complete"@
    } else {
        "partial"@
    }
}

proof fn lemma_count_published_bound(s: Seq<bool>)
    ensures
        count_published(s) <= s.len(),
    decreases s.len(),
{
    if s.len() > 0 {
        lemma_count_published_bound(s.drop_last());
    }
}

/// The label of the registry state.
pub fn registry_state(states: &[bool]) -> (r: &'static str)
    ensures
        r@ == registry_state_text(states@),
{
    let mut count: usize = 0;
    let mut i: usize = 0;
    while i < states.len()
        invariant
            i <= states.len(),
            count == count_published(states@.subrange(0, i as int)),
            count <= i,
        decreases states.len() - i,
    {
        assert(states@.subrange(0, i + 1).drop_last() =~= states@.subrange(0, i as int));
        if states[i] {
            count = count + 1;
        }
        i = i + 1;
    }
    assert(states@.subrange(0, states.len() as int) =~= states@);
    if count == 0 {
        "none"
    } else if count == states.len() {
        "complete"
    } else {
        "partial"
    }
}

/// Whether the UTF-8 bytes `b` of a text are a lowercase full commit SHA:
/// 40 bytes, each a digit or `a`-`f`.
pub open spec fn is_lower_sha(b: Seq<u8>) -> bool {
    b.len() == 40 && forall|k: int|
        0 <= k < 40 ==> (0x30 <= #[trigger] b[k] <= 0x39 || 0x61 <= b[k] <= 0x66)
}

/// Check that `value` is a lowercase full commit SHA.
pub fn require_sha(value: &str) -> (r: Result<(), ReleaseGateError>)
    ensures
        is_lower_sha(encode_utf8(value@)) ==> r is Ok,
        !is_lower_sha(encode_utf8(value@)) ==> r == Err::<(), ReleaseGateError>(
            ReleaseGateError::NotLowercaseSha,
        ),
{
    let bytes = value.as_bytes();
    if bytes.len() != 40 {
        return Err(ReleaseGateError::NotLowercaseSha);
    }
    let mut i: usize = 0;
    while i < 40
        invariant
            i <= 40,
            bytes.len() == 40,
            bytes@ == encode_utf8(value@),
            forall|k: int| 0 <= k < i ==> (0x30 <= #[trigger] bytes@[k] <= 0x39 || 0x61 <= bytes@[k] <= 0x66),
        decreases 40 - i,
    {
        let b = bytes[i];
        if !((0x30 <= b && b <= 0x39) || (0x61 <= b && b <= 0x66)) {
            return Err(ReleaseGateError::NotLowercaseSha);
        }
        i = i + 1;
    }
    Ok(())
}

/// Protected main is unchanged when both identifiers are lowercase SHAs
/// and equal.
pub open spec fn unchanged_main_of(initial: Seq<char>, current: Seq<char>) -> Result<(), ReleaseGateError> {
    if !is_lower_sha(encode_utf8(initial)) || !is_lower_sha(encode_utf8(current)) {
        Err(ReleaseGateError::NotLowercaseSha)
    } else if initial != current {
        Err(ReleaseGateError::MainChanged)
    } else {
        Ok(())
    }
}

/// Check that protected main did not move before a mutation.
pub fn require_unchanged_main(initial: &str, current: &str) -> (r: Result<(), ReleaseGateError>)
    ensures
        r == unchanged_main_of(initial@, current@),
{
    match require_sha(initial) {
        Err(e) => return Err(e),
        Ok(()) => {},
    }
    match require_sha(current) {
        Err(e) => return Err(e),
        Ok(()) => {},
    }
    if !str_eq(initial, current) {
        return Err(ReleaseGateError::MainChanged);
    }
    Ok(())
}

/// No crate is published exactly when the count is zero; every crate is
/// published exactly when the count is the length.
proof fn lemma_count_published_extremes(s: Seq<bool>)
    ensures
        count_published(s) == 0 <==> (forall|i: int| 0 <= i < s.len() ==> !#[trigger] s[i]),
        count_published(s) == s.len() <==> (forall|i: int| 0 <= i < s.len() ==> #[trigger] s[i]),
    decreases s.len(),
{
    if s.len() > 0 {
        let d = s.drop_last();
        lemma_count_published_extremes(d);
        lemma_count_published_bound(d);
        assert forall|i: int| 0 <= i < d.len() implies d[i] == s[i] by {}
        if count_published(s) == 0 {
            assert forall|i: int| 0 <= i < s.len() implies !#[trigger] s[i] by {
                if i < d.len() {
                    assert(d[i] == s[i]);
                }
            }
        }
        if (forall|i: int| 0 <= i < s.len() ==> !#[trigger] s[i]) {
            assert forall|i: int| 0 <= i < d.len() implies !#[trigger] d[i] by {
                assert(d[i] == s[i]);
            }
            assert(!s[s.len() - 1]);
        }
        if count_published(s) == s.len() {
            assert forall|i: int| 0 <= i < s.len() implies #[trigger] s[i] by {
                if i < d.len() {
                    assert(d[i] == s[i]);
                }
            }
        }
        if (forall|i: int| 0 <= i < s.len() ==> #[trigger] s[i]) {
            assert forall|i: int| 0 <= i < d.len() implies #[trigger] d[i] by {
                assert(d[i] == s[i]);
            }
            assert(s[s.len() - 1]);
        }
    }
}

/// What a release decision promises. Validation never publishes or
/// finalizes. An automatic release is all or nothing: it publishes and
/// finalizes exactly when no crate is published yet, does nothing when
/// every crate is, and refuses anything in between. Recovery always
/// finalizes and publishes exactly when some crate is still unpublished.
/// Publication is always followed by finalization, and any decision other
/// than validation needs the published crates to form a prefix.
pub proof fn lemma_release_decision_promises(operation: ReleaseOperation, states: Seq<bool>)
    requires
        states.len() == RELEASE_PACKAGE_COUNT,
    ensures
        operation == ReleaseOperation::Validate ==> decision_of(operation, states) == Ok::<
            ReleaseDecision,
            ReleaseGateError,
        >(ReleaseDecision { publish: false, finalize: false }),
        decision_of(operation, states) is Ok ==> (decision_of(operation, states)->Ok_0.publish
            ==> decision_of(operation, states)->Ok_0.finalize),
        operation != ReleaseOperation::Validate && decision_of(operation, states) is Ok
            ==> published_prefix(states),
        operation == ReleaseOperation::Auto ==> ((forall|i: int|
            0 <= i < states.len() ==> !#[trigger] states[i]) ==> decision_of(operation, states) == Ok::<
            ReleaseDecision,
            ReleaseGateError,
        >(ReleaseDecision { publish: true, finalize: true })),
        operation == ReleaseOperation::Auto ==> ((forall|i: int|
            0 <= i < states.len() ==> #[trigger] states[i]) ==> decision_of(operation, states) == Ok::<
            ReleaseDecision,
            ReleaseGateError,
        >(ReleaseDecision { publish: false, finalize: false })),
        operation == ReleaseOperation::Auto && (exists|i: int| 0 <= i < states.len() && #[trigger] states[i])
            && (exists|j: int| 0 <= j < states.len() && !#[trigger] states[j]) ==> decision_of(
            operation,
            states,
        ) is Err,
        operation == ReleaseOperation::Recover ==> ((decision_of(operation, states) matches Ok(d))
            ==> decision_of(operation, states)->Ok_0.finalize && (decision_of(operation, states)->Ok_0.publish
            <==> exists|i: int| 0 <= i < states.len() && !#[trigger] states[i])),
{
    lemma_count_published_extremes(states);
    lemma_count_published_bound(states);
}

} // verus!
