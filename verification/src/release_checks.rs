//! Checks on what GitHub reports about a release: the publication workflow
//! and its original run, retained artifacts, ancestry of the source on
//! main, the signature inventory of the release pull request, and the scope
//! of the release App's token.

use vstd::prelude::*;
use crate::algorithm::str_eq;
use crate::release_gate::ReleaseGateError;
use crate::release_identity::CommitSignatureRecord;
use crate::release_pull::REPOSITORY;

verus! {

/// The id of the publication workflow.
pub const PUBLISH_WORKFLOW_ID: u64 = 337_417_483;
/// The path of the publication workflow.
pub const PUBLISH_WORKFLOW_PATH: &'static str = ".github/workflows/publish.yml";
/// The most entries a published crate archive may hold.
pub const MAX_CRATE_ARCHIVE_ENTRIES: usize = 4096;
/// The most bytes a published crate archive may unpack to.
pub const MAX_CRATE_UNPACKED_BYTES: u64 = 67108864;

/// The slug of the release App.
pub const APP_SLUG: &'static str = "nvidia-yamlsigil-release-pr";

/// A workflow as GitHub reports it.
pub struct WorkflowRecord {
    pub id: u64,
    pub path: String,
    pub state: String,
}

/// A workflow run as GitHub reports it.
pub struct WorkflowRunRecord {
    pub id: u64,
    pub run_attempt: u64,
    pub workflow_id: u64,
    pub path: String,
    pub event: String,
    pub head_branch: String,
    pub head_sha: String,
    pub repository: String,
    pub head_repository: String,
    pub status: String,
    pub conclusion: Option<String>,
}

/// A comparison of two commits as GitHub reports it.
pub struct ComparisonRecord {
    pub status: String,
    pub base_sha: String,
    pub merge_base_sha: String,
}

/// One commit of the signature inventory.
pub struct SignatureNode {
    pub oid: String,
    pub signature: Option<CommitSignatureRecord>,
}

/// The signature inventory of a release pull request.
pub struct SignatureInventory {
    /// Whether the query reported errors.
    pub errors: bool,
    /// Whether the response holds the pull request.
    pub pull_found: bool,
    pub merge_oid: Option<String>,
    pub total_count: u64,
    pub nodes: Vec<SignatureNode>,
    pub has_next_page: bool,
}

/// Whether the publication workflow is the exact active workflow.
pub open spec fn publish_workflow_of(w: WorkflowRecord) -> Result<(), ReleaseGateError> {
    if w.id != PUBLISH_WORKFLOW_ID || w.path@ != PUBLISH_WORKFLOW_PATH@ || w.state@ != "active"@ {
        Err(ReleaseGateError::WorkflowChanged)
    } else {
        Ok(())
    }
}

/// Check that the publication workflow is the exact active workflow.
pub fn validate_publish_workflow(w: &WorkflowRecord) -> (r: Result<(), ReleaseGateError>)
    ensures
        r == publish_workflow_of(*w),
{
    if w.id != PUBLISH_WORKFLOW_ID || !str_eq(w.path.as_str(), PUBLISH_WORKFLOW_PATH) || !str_eq(
        w.state.as_str(),
        "active",
    ) {
        return Err(ReleaseGateError::WorkflowChanged);
    }
    Ok(())
}

/// Whether a conclusion ends a completed original run.
pub open spec fn final_conclusion(c: Seq<char>) -> bool {
    c == "success"@ || c == "failure"@ || c == "cancelled"@ || c == "timed_out"@ || c
        == "action_required"@
}

/// Whether `run` is the completed original main-push run `run_id`,
/// attempt `run_attempt`, of the publication workflow on `source_sha`.
pub open spec fn original_run_ok(run: WorkflowRunRecord, source_sha: Seq<char>, run_id: u64, run_attempt: u64) -> bool {
    &&& run.id == run_id
    &&& run.run_attempt == run_attempt
    &&& run.workflow_id == PUBLISH_WORKFLOW_ID
    &&& run.path@ == PUBLISH_WORKFLOW_PATH@
    &&& run.event@ == "push"@
    &&& run.head_branch@ == "main"@
    &&& run.head_sha@ == source_sha
    &&& run.repository@ == REPOSITORY@
    &&& run.head_repository@ == REPOSITORY@
    &&& run.status@ == "completed"@
    &&& final_conclusion(
        match run.conclusion {
            Some(c) => c@,
            None => Seq::empty(),
        },
    )
}

/// Check one original run.
pub fn validate_original_run(run: &WorkflowRunRecord, source_sha: &str, run_id: u64, run_attempt: u64) -> (r:
    Result<(), ReleaseGateError>)
    ensures
        r is Ok <==> original_run_ok(*run, source_sha@, run_id, run_attempt),
        r is Err ==> r == Err::<(), ReleaseGateError>(ReleaseGateError::OriginalRunMismatch),
{
    let conclusion: &str = match &run.conclusion {
        Some(c) => c.as_str(),
        None => "",
    };
    proof {
        reveal_strlit("");
        assert(conclusion@ == match run.conclusion {
            Some(c) => c@,
            None => Seq::<char>::empty(),
        });
    }
    let final_ok = str_eq(conclusion, "success") || str_eq(conclusion, "failure") || str_eq(
        conclusion,
        "cancelled",
    ) || str_eq(conclusion, "timed_out") || str_eq(conclusion, "action_required");
    if run.id != run_id || run.run_attempt != run_attempt || run.workflow_id != PUBLISH_WORKFLOW_ID
        || !str_eq(run.path.as_str(), PUBLISH_WORKFLOW_PATH) || !str_eq(run.event.as_str(), "push")
        || !str_eq(run.head_branch.as_str(), "main") || !str_eq(run.head_sha.as_str(), source_sha)
        || !str_eq(run.repository.as_str(), REPOSITORY) || !str_eq(
        run.head_repository.as_str(),
        REPOSITORY,
    ) || !str_eq(run.status.as_str(), "completed") || !final_ok {
        return Err(ReleaseGateError::OriginalRunMismatch);
    }
    Ok(())
}

/// The outcome of checking the selected attempt and the current state of
/// the original run: both must be that exact run.
pub open spec fn original_run_pair_of(
    attempt: WorkflowRunRecord,
    current: WorkflowRunRecord,
    source_sha: Seq<char>,
    run_id: u64,
    run_attempt: u64,
) -> Result<(), ReleaseGateError> {
    if !original_run_ok(attempt, source_sha, run_id, run_attempt) {
        Err(ReleaseGateError::OriginalRunMismatch)
    } else if !original_run_ok(current, source_sha, run_id, run_attempt) {
        Err(ReleaseGateError::OriginalRunRerun)
    } else {
        Ok(())
    }
}

/// Check the selected attempt and the current state of the original run.
pub fn validate_original_run_pair(
    attempt: &WorkflowRunRecord,
    current: &WorkflowRunRecord,
    source_sha: &str,
    run_id: u64,
    run_attempt: u64,
) -> (r: Result<(), ReleaseGateError>)
    ensures
        r == original_run_pair_of(*attempt, *current, source_sha@, run_id, run_attempt),
{
    match validate_original_run(attempt, source_sha, run_id, run_attempt) {
        Err(e) => return Err(e),
        Ok(()) => {},
    }
    match validate_original_run(current, source_sha, run_id, run_attempt) {
        Err(_) => Err(ReleaseGateError::OriginalRunRerun),
        Ok(()) => Ok(()),
    }
}

/// The outcome of checking that the original run retained no artifact.
pub open spec fn artifact_inventory_of(total_count: u64, listed: nat) -> Result<(), ReleaseGateError> {
    if total_count != 0 || listed != 0 {
        Err(ReleaseGateError::ArtifactRetained)
    } else {
        Ok(())
    }
}

/// Check that the original run retained no artifact.
pub fn validate_artifact_inventory(total_count: u64, listed: usize) -> (r: Result<(), ReleaseGateError>)
    ensures
        r == artifact_inventory_of(total_count, listed as nat),
{
    if total_count != 0 || listed != 0 {
        return Err(ReleaseGateError::ArtifactRetained);
    }
    Ok(())
}

/// The outcome of checking that `source_sha` is an ancestor of main: the
/// comparison from the source to main is ahead or identical, based at the
/// source.
pub open spec fn main_ancestry_of(c: ComparisonRecord, source_sha: Seq<char>) -> Result<(), ReleaseGateError> {
    if !(c.status@ == "ahead"@ || c.status@ == "identical"@) || c.base_sha@ != source_sha
        || c.merge_base_sha@ != source_sha {
        Err(ReleaseGateError::NotAncestorOfMain)
    } else {
        Ok(())
    }
}

/// Check that the source is an ancestor of main.
pub fn require_main_ancestry(c: &ComparisonRecord, source_sha: &str) -> (r: Result<(), ReleaseGateError>)
    ensures
        r == main_ancestry_of(*c, source_sha@),
{
    let status = c.status.as_str();
    if !(str_eq(status, "ahead") || str_eq(status, "identical")) || !str_eq(
        c.base_sha.as_str(),
        source_sha,
    ) || !str_eq(c.merge_base_sha.as_str(), source_sha) {
        return Err(ReleaseGateError::NotAncestorOfMain);
    }
    Ok(())
}

/// The outcome of checking the signature inventory of a release pull
/// request: no errors, the pull request present, merged as `merge_sha`,
/// exactly one commit `head_sha` on one page, carrying a signature.
pub open spec fn signature_inventory_of(inv: SignatureInventory, head_sha: Seq<char>, merge_sha: Seq<char>) -> Result<
    CommitSignatureRecord,
    ReleaseGateError,
> {
    if inv.errors {
        Err(ReleaseGateError::SignatureQueryFailed)
    } else if !inv.pull_found {
        Err(ReleaseGateError::SignatureInventoryMissing)
    } else if !(inv.merge_oid matches Some(m) && m@ == merge_sha) {
        Err(ReleaseGateError::MergeCommitDiffers)
    } else if inv.total_count != 1 || inv.nodes@.len() != 1 || inv.has_next_page {
        Err(ReleaseGateError::SignatureInventoryAmbiguous)
    } else if inv.nodes@[0].oid@ != head_sha {
        Err(ReleaseGateError::SignatureHeadDiffers)
    } else {
        match inv.nodes@[0].signature {
            Some(s) => Ok(s),
            None => Err(ReleaseGateError::SignatureMissing),
        }
    }
}

/// Check the signature inventory and take its one signature.
pub fn validate_signature_inventory(inv: SignatureInventory, head_sha: &str, merge_sha: &str) -> (r: Result<
    CommitSignatureRecord,
    ReleaseGateError,
>)
    ensures
        r == signature_inventory_of(inv, head_sha@, merge_sha@),
{
    if inv.errors {
        return Err(ReleaseGateError::SignatureQueryFailed);
    }
    if !inv.pull_found {
        return Err(ReleaseGateError::SignatureInventoryMissing);
    }
    let merge_ok = match &inv.merge_oid {
        Some(m) => str_eq(m.as_str(), merge_sha),
        None => false,
    };
    if !merge_ok {
        return Err(ReleaseGateError::MergeCommitDiffers);
    }
    if inv.total_count != 1 || inv.nodes.len() != 1 || inv.has_next_page {
        return Err(ReleaseGateError::SignatureInventoryAmbiguous);
    }
    let ghost nodes0 = inv.nodes@;
    let mut nodes = inv.nodes;
    let node = match nodes.pop() {
        Some(n) => n,
        None => return Err(ReleaseGateError::SignatureInventoryAmbiguous),
    };
    assert(node == nodes0[0]);
    if !str_eq(node.oid.as_str(), head_sha) {
        return Err(ReleaseGateError::SignatureHeadDiffers);
    }
    match node.signature {
        Some(s) => Ok(s),
        None => Err(ReleaseGateError::SignatureMissing),
    }
}

/// The outcome of checking the release App's token scope: the observed
/// slug is the App's, and the token reaches exactly this repository.
pub open spec fn app_scope_of(observed_slug: Seq<char>, total_count: u64, repositories: Seq<String>) -> Result<
    (),
    ReleaseGateError,
> {
    if observed_slug != APP_SLUG@ {
        Err(ReleaseGateError::UnexpectedApp)
    } else if total_count != 1 || repositories.len() != 1 || repositories[0]@ != REPOSITORY@ {
        Err(ReleaseGateError::AppScopeTooBroad)
    } else {
        Ok(())
    }
}

/// Check the release App's token scope.
pub fn validate_app_scope(observed_slug: &str, total_count: u64, repositories: &[String]) -> (r: Result<
    (),
    ReleaseGateError,
>)
    ensures
        r == app_scope_of(observed_slug@, total_count, repositories@),
{
    if !str_eq(observed_slug, APP_SLUG) {
        return Err(ReleaseGateError::UnexpectedApp);
    }
    if total_count != 1 || repositories.len() != 1 || !str_eq(repositories[0].as_str(), REPOSITORY) {
        return Err(ReleaseGateError::AppScopeTooBroad);
    }
    Ok(())
}

/// Count one more archive entry of `entry_size` bytes: an overflow or a
/// total beyond the inspection bounds is refused. The counts are updated
/// whenever they do not overflow.
pub fn accumulate_archive_work(entries: &mut usize, unpacked_bytes: &mut u64, entry_size: u64) -> (r: Result<
    (),
    ReleaseGateError,
>)
    ensures
        *old(entries) == usize::MAX ==> r == Err::<(), ReleaseGateError>(
            ReleaseGateError::ArchiveWorkOverflow,
        ) && *final(entries) == *old(entries) && *final(unpacked_bytes) == *old(unpacked_bytes),
        *old(entries) < usize::MAX && *old(unpacked_bytes) + entry_size > u64::MAX ==> r == Err::<
            (),
            ReleaseGateError,
        >(ReleaseGateError::ArchiveWorkOverflow) && *final(entries) == *old(entries) + 1
            && *final(unpacked_bytes) == *old(unpacked_bytes),
        *old(entries) < usize::MAX && *old(unpacked_bytes) + entry_size <= u64::MAX ==> {
            &&& *final(entries) == *old(entries) + 1
            &&& *final(unpacked_bytes) == *old(unpacked_bytes) + entry_size
            &&& (*final(entries) > MAX_CRATE_ARCHIVE_ENTRIES || *final(unpacked_bytes)
                > MAX_CRATE_UNPACKED_BYTES) ==> r == Err::<(), ReleaseGateError>(
                ReleaseGateError::ArchiveTooLarge,
            )
            &&& !(*final(entries) > MAX_CRATE_ARCHIVE_ENTRIES || *final(unpacked_bytes)
                > MAX_CRATE_UNPACKED_BYTES) ==> r is Ok
        },
{
    match entries.checked_add(1) {
        Some(n) => *entries = n,
        None => return Err(ReleaseGateError::ArchiveWorkOverflow),
    }
    match unpacked_bytes.checked_add(entry_size) {
        Some(n) => *unpacked_bytes = n,
        None => return Err(ReleaseGateError::ArchiveWorkOverflow),
    }
    if *entries > MAX_CRATE_ARCHIVE_ENTRIES || *unpacked_bytes > MAX_CRATE_UNPACKED_BYTES {
        return Err(ReleaseGateError::ArchiveTooLarge);
    }
    Ok(())
}

/// A comparison based at the source (base and merge base both the source)
/// shows the source on main exactly when main is identical to the source or
/// ahead of it: an unmoved main counts as much as one that moved on, and a
/// main that is behind or diverged does not.
pub proof fn lemma_ancestry_accepts_identical_as_ahead(c: ComparisonRecord, source_sha: Seq<char>)
    requires
        c.base_sha@ == source_sha,
        c.merge_base_sha@ == source_sha,
    ensures
        c.status@ == "identical"@ ==> main_ancestry_of(c, source_sha) is Ok,
        c.status@ == "ahead"@ ==> main_ancestry_of(c, source_sha) is Ok,
        c.status@ == "behind"@ ==> main_ancestry_of(c, source_sha) is Err,
        c.status@ == "diverged"@ ==> main_ancestry_of(c, source_sha) is Err,
{
    reveal_strlit("identical");
    reveal_strlit("ahead");
    reveal_strlit("behind");
    reveal_strlit("diverged");
    assert("behind"@.len() != "ahead"@.len() && "behind"@.len() != "identical"@.len());
    assert("diverged"@.len() != "ahead"@.len() && "diverged"@.len() != "identical"@.len());
}

} // verus!
