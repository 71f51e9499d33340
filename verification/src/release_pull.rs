//! The canonical shape of a merged release pull request: its branch, base,
//! repository, and the exact set of files it may change.

use vstd::prelude::*;
use vstd::utf8::encode_utf8;
use crate::algorithm::str_eq;
use crate::bytes::{bytes_match_at, matches_at};
use crate::release_gate::ReleaseGateError;

verus! {

/// The repository that releases come from.
pub const REPOSITORY: &'static str = "NVIDIA/yaml-sigil-rs";
/// The branch-name prefix of release pull requests.
pub const MANUAL_BRANCH_PREFIX: &'static str = "release-plz-manual-";
/// The workspace manifest path.
pub const WORKSPACE_MANIFEST: &'static str = "Cargo.toml";
/// The file name that follows a package path in its manifest path.
pub const MANIFEST_SUFFIX: &'static str = "/Cargo.toml";

/// A pull request associated with a commit.
pub struct AssociatedPull {
    pub number: u64,
    pub state: String,
    pub merged: bool,
}

/// One side of a pull request: branch, commit, and repository.
pub struct PullSide {
    pub reference: String,
    pub sha: String,
    pub repository: String,
}

/// A pull request.
pub struct ReleasePull {
    pub number: u64,
    pub state: String,
    pub merged: bool,
    pub changed_files: u64,
    pub base: PullSide,
    pub head: PullSide,
}

/// A file that a pull request changes.
pub struct PullFile {
    pub filename: String,
    pub status: String,
}

/// The paths of one released package.
pub struct ReleasePackage {
    pub path_in_vcs: String,
    pub changelog: String,
}

/// Whether an associated pull request was merged (closed with a merge time).
pub open spec fn merged_association(a: AssociatedPull) -> bool {
    a.state@ == "closed"@ && a.merged
}

/// The index of the first merged association at or after `i`, or the length.
pub open spec fn next_merged(assoc: Seq<AssociatedPull>, i: int) -> int
    decreases assoc.len() - i,
{
    if i < 0 || i >= assoc.len() {
        assoc.len() as int
    } else if merged_association(assoc[i]) {
        i
    } else {
        next_merged(assoc, i + 1)
    }
}

proof fn lemma_next_merged_bounds(assoc: Seq<AssociatedPull>, i: int)
    requires
        0 <= i <= assoc.len(),
    ensures
        i <= next_merged(assoc, i) <= assoc.len(),
        next_merged(assoc, i) < assoc.len() ==> merged_association(assoc[next_merged(assoc, i)]),
    decreases assoc.len() - i,
{
    if i < assoc.len() && !merged_association(assoc[i]) {
        lemma_next_merged_bounds(assoc, i + 1);
    }
}

/// The first merged association at or after `i`.
pub fn find_next_merged(assoc: &Vec<AssociatedPull>, i: usize) -> (r: usize)
    requires
        i <= assoc.len(),
    ensures
        r == next_merged(assoc@, i as int),
        i <= r <= assoc.len(),
{
    proof {
        lemma_next_merged_bounds(assoc@, i as int);
    }
    let mut k = i;
    while k < assoc.len() && !(str_eq(assoc[k].state.as_str(), "closed") && assoc[k].merged)
        invariant
            i <= k <= assoc.len(),
            next_merged(assoc@, i as int) == next_merged(assoc@, k as int),
        decreases assoc.len() - k,
    {
        k = k + 1;
    }
    k
}

/// Whether a pull request's head branch is a release branch: its name
/// starts with the release prefix.
pub open spec fn is_release_branch(pull: ReleasePull) -> bool {
    matches_at(encode_utf8(pull.head.reference@), 0, encode_utf8(MANUAL_BRANCH_PREFIX@))
}

/// Whether a pull request's head branch is a release branch.
pub fn release_branch(pull: &ReleasePull) -> (r: bool)
    ensures
        r == is_release_branch(*pull),
{
    bytes_match_at(pull.head.reference.as_str().as_bytes(), 0, MANUAL_BRANCH_PREFIX.as_bytes())
}

/// Whether `pull` is the canonical merged release pull request for
/// `version` on top of `source_parent`.
pub open spec fn canonical_release_pull_of(pull: ReleasePull, version: Seq<char>, source_parent: Seq<char>) -> bool {
    &&& pull.state@ == "closed"@
    &&& pull.merged
    &&& pull.base.reference@ == "main"@
    &&& pull.base.repository@ == REPOSITORY@
    &&& pull.base.sha@ == source_parent
    &&& pull.head.reference@ == MANUAL_BRANCH_PREFIX@ + version
    &&& pull.head.repository@ == REPOSITORY@
    &&& 0 < pull.changed_files <= 9
}

/// Whether the text `t` is `p` followed by `q`.
fn str_is_concat(t: &str, p: &str, q: &str) -> (r: bool)
    ensures
        r == (t@ == p@ + q@),
{
    let tb = t.as_bytes();
    let pb = p.as_bytes();
    let qb = q.as_bytes();
    let r = pb.len() <= tb.len() && tb.len() - pb.len() == qb.len() && bytes_match_at(tb, 0, pb)
        && bytes_match_at(tb, pb.len(), qb);
    proof {
        crate::signature_doc::lemma_encode_utf8_concat(p@, q@);
        if r {
            assert(tb@ =~= pb@ + qb@);
            crate::algorithm::lemma_str_bytes_injective(t@, p@ + q@);
        }
        if t@ == p@ + q@ {
            assert(tb@.subrange(0, pb@.len() as int) =~= pb@);
            assert(tb@.subrange(pb@.len() as int, (pb@.len() + qb@.len()) as int) =~= qb@);
        }
    }
    r
}

/// Whether `pull` is the canonical merged release pull request.
pub fn canonical_release_pull(pull: &ReleasePull, version: &str, source_parent: &str) -> (r: bool)
    ensures
        r == canonical_release_pull_of(*pull, version@, source_parent@),
{
    str_eq(pull.state.as_str(), "closed") && pull.merged && str_eq(pull.base.reference.as_str(), "main")
        && str_eq(pull.base.repository.as_str(), REPOSITORY) && str_eq(
        pull.base.sha.as_str(),
        source_parent,
    ) && str_is_concat(pull.head.reference.as_str(), MANUAL_BRANCH_PREFIX, version)
        && str_eq(pull.head.repository.as_str(), REPOSITORY) && pull.changed_files > 0
        && pull.changed_files <= 9
}

/// Whether a release pull request may change `path`: the workspace
/// manifest, or a package's manifest or changelog.
pub open spec fn allowed_release_path_of(path: Seq<char>, packages: Seq<ReleasePackage>) -> bool {
    path == WORKSPACE_MANIFEST@ || exists|k: int|
        0 <= k < packages.len() && (path == (#[trigger] packages[k]).path_in_vcs@ + MANIFEST_SUFFIX@
            || path == packages[k].changelog@)
}

/// Whether a release pull request may change `path`.
pub fn allowed_release_path(path: &str, packages: &[ReleasePackage]) -> (r: bool)
    ensures
        r == allowed_release_path_of(path@, packages@),
{
    if str_eq(path, WORKSPACE_MANIFEST) {
        return true;
    }
    let mut k: usize = 0;
    while k < packages.len()
        invariant
            k <= packages.len(),
            path@ != WORKSPACE_MANIFEST@,
            forall|j: int| 0 <= j < k ==> !(path@ == (#[trigger] packages@[j]).path_in_vcs@
                + MANIFEST_SUFFIX@ || path@ == packages@[j].changelog@),
        decreases packages.len() - k,
    {
        let package = &packages[k];
        if str_is_concat(path, package.path_in_vcs.as_str(), MANIFEST_SUFFIX) || str_eq(
            path,
            package.changelog.as_str(),
        ) {
            assert(path@ == packages@[k as int].path_in_vcs@ + MANIFEST_SUFFIX@ || path@
                == packages@[k as int].changelog@);
            return true;
        }
        assert(!(path@ == packages@[k as int].path_in_vcs@ + MANIFEST_SUFFIX@ || path@
            == packages@[k as int].changelog@));
        k = k + 1;
    }
    false
}

/// The outcome of checking a release pull request's file inventory: every
/// file counted, each a modification of an allowed path, the workspace
/// manifest among them.
pub open spec fn release_files_of(
    files: Seq<PullFile>,
    changed_files: u64,
    packages: Seq<ReleasePackage>,
) -> Result<(), ReleaseGateError> {
    if files.len() != changed_files || files.len() == 0 {
        Err(ReleaseGateError::FileInventoryIncomplete)
    } else if exists|k: int|
        0 <= k < files.len() && !((#[trigger] files[k]).status@ == "modified"@
            && allowed_release_path_of(files[k].filename@, packages)) {
        Err(ReleaseGateError::UnexpectedPath)
    } else if !exists|k: int| 0 <= k < files.len() && (#[trigger] files[k]).filename@ == WORKSPACE_MANIFEST@ {
        Err(ReleaseGateError::ManifestUnchanged)
    } else {
        Ok(())
    }
}

/// Check a release pull request's file inventory.
pub fn validate_release_files(files: &[PullFile], changed_files: u64, packages: &[ReleasePackage]) -> (r:
    Result<(), ReleaseGateError>)
    ensures
        r == release_files_of(files@, changed_files, packages@),
{
    if files.len() as u64 != changed_files || files.len() == 0 {
        return Err(ReleaseGateError::FileInventoryIncomplete);
    }
    let mut k: usize = 0;
    let mut manifest = false;
    while k < files.len()
        invariant
            k <= files.len(),
            files.len() == changed_files,
            files.len() > 0,
            forall|j: int| 0 <= j < k ==> (#[trigger] files@[j]).status@ == "modified"@
                && allowed_release_path_of(files@[j].filename@, packages@),
            manifest == exists|j: int| 0 <= j < k && (#[trigger] files@[j]).filename@ == WORKSPACE_MANIFEST@,
        decreases files.len() - k,
    {
        let file = &files[k];
        if !str_eq(file.status.as_str(), "modified") || !allowed_release_path(
            file.filename.as_str(),
            packages,
        ) {
            assert(!(files@[k as int].status@ == "modified"@ && allowed_release_path_of(
                files@[k as int].filename@,
                packages@,
            )));
            return Err(ReleaseGateError::UnexpectedPath);
        }
        if str_eq(file.filename.as_str(), WORKSPACE_MANIFEST) {
            manifest = true;
        }
        assert(manifest == exists|j: int| 0 <= j < k + 1 && (#[trigger] files@[j]).filename@
            == WORKSPACE_MANIFEST@) by {
            if files@[k as int].filename@ == WORKSPACE_MANIFEST@ {
                assert(0 <= k < k + 1);
            }
        }
        k = k + 1;
    }
    if !manifest {
        return Err(ReleaseGateError::ManifestUnchanged);
    }
    Ok(())
}

} // verus!
