//! The exact identity a release commit must carry: a GitHub-verified
//! signature by the one release signer, matching REST accounts and raw git
//! identities, and exactly one sign-off line, the release DCO trailer.

use vstd::prelude::*;
use vstd::utf8::encode_utf8;
use crate::algorithm::str_eq;
use crate::bytes::{bytes_match_at, matches_at};
use crate::release_gate::{is_lower_sha, require_sha, ReleaseGateError};

verus! {

/// GitHub login of the release signer.
pub const RELEASE_SIGNER_LOGIN: &'static str = "ddurst-nvidia";
/// GitHub account id of the release signer.
pub const RELEASE_SIGNER_ID: u64 = 267_424_412;
/// Raw git author name of release commits.
pub const RELEASE_AUTHOR_NAME: &'static str = "ddurst";
/// Raw git author email of release commits.
pub const RELEASE_AUTHOR_EMAIL: &'static str = "267424412+ddurst-nvidia@users.noreply.github.com";
/// The one sign-off line a release commit carries.
pub const DCO_TRAILER: &'static str = "Signed-off-by: ddurst <267424412+ddurst-nvidia@users.noreply.github.com>";
/// The start of a sign-off line.
pub const SIGNOFF_PREFIX: &'static str = "Signed-off-by: ";

/// A GitHub account as the REST API reports it.
pub struct ReleaseAccount {
    pub id: u64,
    pub login: String,
    pub kind: String,
}

/// A raw git author or committer identity.
pub struct GitIdentity {
    pub name: String,
    pub email: String,
    pub date: String,
}

/// A commit as the REST API reports it.
pub struct ReleaseCommit {
    pub sha: String,
    pub author: Option<ReleaseAccount>,
    pub committer: Option<ReleaseAccount>,
    pub parents: Vec<String>,
    pub raw_author: Option<GitIdentity>,
    pub raw_committer: Option<GitIdentity>,
    pub message: String,
    pub verified: bool,
    pub verification_reason: String,
    pub tree_sha: String,
}

/// The signer of a commit signature.
pub struct SignatureSigner {
    pub database_id: Option<u64>,
    pub login: String,
    pub kind: String,
}

/// A commit signature as the GraphQL API reports it.
pub struct CommitSignatureRecord {
    pub kind: String,
    pub email: String,
    pub is_valid: bool,
    pub state: String,
    pub was_signed_by_github: bool,
    pub signer: Option<SignatureSigner>,
}

/// The index of the first LF at or after `i`, or the length.
pub open spec fn newline_from(b: Seq<u8>, i: int) -> int
    decreases b.len() - i,
{
    if i < 0 || i >= b.len() {
        b.len() as int
    } else if b[i] == 0x0A {
        i
    } else {
        newline_from(b, i + 1)
    }
}

/// The end of the line text from `i` to the LF at `e`: a CR before that LF
/// is not part of the line.
pub open spec fn line_text_end(b: Seq<u8>, i: int, e: int) -> int {
    if e < b.len() && e > i && b[e - 1] == 0x0D {
        e - 1
    } else {
        e
    }
}

/// Whether some line from `i` on is exactly `t`.
pub open spec fn has_line_from(b: Seq<u8>, i: int, t: Seq<u8>) -> bool
    decreases b.len() - i,
{
    if i < 0 || i >= b.len() {
        false
    } else {
        let e = newline_from(b, i);
        if e < i || e > b.len() {
            false
        } else {
            b.subrange(i, line_text_end(b, i, e)) == t || (e < b.len() && has_line_from(b, e + 1, t))
        }
    }
}

/// Whether `line` starts with `p`.
pub open spec fn starts_with(line: Seq<u8>, p: Seq<u8>) -> bool {
    p.len() <= line.len() && line.subrange(0, p.len() as int) == p
}

/// The lines from `i` on that start with `p`, in order.
pub open spec fn lines_starting_from(b: Seq<u8>, i: int, p: Seq<u8>) -> Seq<Seq<u8>>
    decreases b.len() - i,
{
    if i < 0 || i >= b.len() {
        Seq::empty()
    } else {
        let e = newline_from(b, i);
        if e < i || e > b.len() {
            Seq::empty()
        } else {
            let line = b.subrange(i, line_text_end(b, i, e));
            let rest = if e < b.len() {
                lines_starting_from(b, e + 1, p)
            } else {
                Seq::empty()
            };
            if starts_with(line, p) {
                seq![line] + rest
            } else {
                rest
            }
        }
    }
}

/// Whether the message `m` has a line that is exactly the DCO trailer.
pub open spec fn has_dco_line(m: Seq<char>) -> bool {
    has_line_from(encode_utf8(m), 0, encode_utf8(DCO_TRAILER@))
}

/// The sign-off lines of the message `m`.
pub open spec fn signoff_lines(m: Seq<char>) -> Seq<Seq<u8>> {
    lines_starting_from(encode_utf8(m), 0, encode_utf8(SIGNOFF_PREFIX@))
}

proof fn lemma_newline_from_bounds(b: Seq<u8>, i: int)
    requires
        0 <= i <= b.len(),
    ensures
        i <= newline_from(b, i) <= b.len(),
        newline_from(b, i) < b.len() ==> b[newline_from(b, i)] == 0x0A,
    decreases b.len() - i,
{
    if i < b.len() && b[i] != 0x0A {
        lemma_newline_from_bounds(b, i + 1);
    }
}

/// Scan the lines of `b`: whether some line is exactly `t`, and whether the
/// lines that start with `p` are exactly one line equal to `t`.
fn scan_lines(b: &[u8], t: &[u8], p: &[u8]) -> (r: (bool, bool))
    ensures
        r.0 == has_line_from(b@, 0, t@),
        r.1 == (lines_starting_from(b@, 0, p@) == seq![t@]),
{
    let mut found = false;
    let mut count: usize = 0;
    let mut all_t = true;
    let ghost mut acc: Seq<Seq<u8>> = Seq::empty();
    let mut i: usize = 0;
    while i < b.len()
        invariant
            i <= b.len(),
            lines_starting_from(b@, 0, p@) == acc + lines_starting_from(b@, i as int, p@),
            has_line_from(b@, 0, t@) == (found || has_line_from(b@, i as int, t@)),
            count == acc.len(),
            count <= i,
            all_t == (forall|k: int| 0 <= k < acc.len() ==> acc[k] == t@),
        decreases b.len() - i,
    {
        proof {
            lemma_newline_from_bounds(b@, i as int);
        }
        let mut e: usize = i;
        while e < b.len() && b[e] != 0x0A
            invariant
                i <= e <= b.len(),
                newline_from(b@, i as int) == newline_from(b@, e as int),
            decreases b.len() - e,
        {
            e = e + 1;
        }
        let le: usize = if e < b.len() && e > i && b[e - 1] == 0x0D {
            e - 1
        } else {
            e
        };
        let ghost line = b@.subrange(i as int, le as int);
        let is_t = le - i == t.len() && bytes_match_at(b, i, t);
        assert(is_t == (line == t@)) by {
            if le - i == t.len() && matches_at(b@, i as int, t@) {
                assert(line =~= b@.subrange(i as int, i + t@.len()));
            }
            if line == t@ {
                assert(line =~= b@.subrange(i as int, i + t@.len()));
            }
        }
        let is_p = le - i >= p.len() && bytes_match_at(b, i, p);
        assert(is_p == starts_with(line, p@)) by {
            if le - i >= p.len() {
                assert(line.subrange(0, p@.len() as int) =~= b@.subrange(i as int, i + p@.len()));
            }
        }
        if is_t {
            found = true;
        }
        let ghost old_acc = acc;
        if is_p {
            proof {
                acc = acc.push(line);
            }
            count = count + 1;
            if !is_t {
                all_t = false;
            }
        }
        assert(all_t == (forall|k: int| 0 <= k < acc.len() ==> acc[k] == t@)) by {
            if is_p {
                assert(acc[acc.len() - 1] == line);
                assert forall|k: int| 0 <= k < old_acc.len() implies acc[k] == old_acc[k] by {}
            }
        }
        if e < b.len() {
            assert(lines_starting_from(b@, 0, p@) == acc + lines_starting_from(b@, e + 1, p@)) by {
                if is_p {
                    assert(old_acc + (seq![line] + lines_starting_from(b@, e + 1, p@)) =~= acc
                        + lines_starting_from(b@, e + 1, p@));
                }
            }
            i = e + 1;
        } else {
            assert(lines_starting_from(b@, 0, p@) == acc + lines_starting_from(b@, b.len() as int, p@))
                by {
                if is_p {
                    assert(old_acc + (seq![line] + Seq::<Seq<u8>>::empty()) =~= acc
                        + lines_starting_from(b@, b.len() as int, p@));
                } else {
                    assert(old_acc + Seq::<Seq<u8>>::empty() =~= acc
                        + lines_starting_from(b@, b.len() as int, p@));
                }
            }
            i = b.len();
        }
    }
    assert(acc + lines_starting_from(b@, i as int, p@) =~= acc);
    let exactly_t = count == 1 && all_t;
    assert(exactly_t == (acc == seq![t@])) by {
        if count == 1 && all_t {
            assert(acc =~= seq![t@]);
        }
        if acc == seq![t@] {
            assert(acc[0] == t@);
        }
    }
    (found, exactly_t)
}

/// Whether `account` is exactly the release signer's account.
pub open spec fn exact_account(account: Option<ReleaseAccount>) -> bool {
    account matches Some(a) && a.id == RELEASE_SIGNER_ID && a.login@ == RELEASE_SIGNER_LOGIN@
        && a.kind@ == "User"@
}

/// The sign-off line of a raw author identity.
pub open spec fn author_signoff(author: GitIdentity) -> Seq<char> {
    SIGNOFF_PREFIX@ + author.name@ + " <"@ + author.email@ + ">"@
}

/// Whether a signature is by the exact release signer: an SSH, GPG or
/// S/MIME signature, valid, in state VALID, not made by GitHub, whose
/// signer is the release account.
pub open spec fn exact_signer(s: CommitSignatureRecord) -> bool {
    s.signer matches Some(signer) && (s.kind@ == "GpgSignature"@ || s.kind@ == "SshSignature"@
        || s.kind@ == "SmimeSignature"@) && s.is_valid && s.state@ == "VALID"@
        && !s.was_signed_by_github && signer.database_id == Some(RELEASE_SIGNER_ID)
        && signer.login@ == RELEASE_SIGNER_LOGIN@ && signer.kind@ == "User"@
}

/// The outcome of checking a release commit's signature and identities.
pub open spec fn release_signature_identity_of(
    commit: ReleaseCommit,
    signature: CommitSignatureRecord,
) -> Result<(), ReleaseGateError> {
    if signature.signer is None {
        Err(ReleaseGateError::SignerMissing)
    } else if !exact_signer(signature) {
        Err(ReleaseGateError::SignerNotExact)
    } else if !exact_account(commit.author) || !exact_account(commit.committer) {
        Err(ReleaseGateError::AccountsDiffer)
    } else {
        match (commit.raw_author, commit.raw_committer) {
            (None, _) => Err(ReleaseGateError::RawAuthorMissing),
            (Some(_), None) => Err(ReleaseGateError::RawCommitterMissing),
            (Some(author), Some(committer)) => if author.name@ != RELEASE_AUTHOR_NAME@
                || signature.email@ != RELEASE_AUTHOR_EMAIL@ || author.email@ != signature.email@
                || committer.email@ != signature.email@ || author_signoff(author) != DCO_TRAILER@
                || signoff_lines(commit.message@) != seq![encode_utf8(author_signoff(author))] {
                Err(ReleaseGateError::IdentitiesDiffer)
            } else {
                Ok(())
            },
        }
    }
}

fn exact_account_exec(account: &Option<ReleaseAccount>) -> (r: bool)
    ensures
        r == exact_account(*account),
{
    match account {
        Some(a) => a.id == RELEASE_SIGNER_ID && str_eq(a.login.as_str(), RELEASE_SIGNER_LOGIN)
            && str_eq(a.kind.as_str(), "User"),
        None => false,
    }
}

/// Check that a release commit carries the exact release signature, REST
/// accounts, raw identities, and the one sign-off line.
pub fn require_release_signature_identity(
    commit: &ReleaseCommit,
    signature: &CommitSignatureRecord,
) -> (r: Result<(), ReleaseGateError>)
    ensures
        r == release_signature_identity_of(*commit, *signature),
{
    let signer = match &signature.signer {
        Some(s) => s,
        None => return Err(ReleaseGateError::SignerMissing),
    };
    let kind = signature.kind.as_str();
    let kind_ok = str_eq(kind, "GpgSignature") || str_eq(kind, "SshSignature") || str_eq(
        kind,
        "SmimeSignature",
    );
    let id_ok = match signer.database_id {
        Some(id) => id == RELEASE_SIGNER_ID,
        None => false,
    };
    if !kind_ok || !signature.is_valid || !str_eq(signature.state.as_str(), "VALID")
        || signature.was_signed_by_github || !id_ok || !str_eq(
        signer.login.as_str(),
        RELEASE_SIGNER_LOGIN,
    ) || !str_eq(signer.kind.as_str(), "User") {
        return Err(ReleaseGateError::SignerNotExact);
    }
    if !exact_account_exec(&commit.author) || !exact_account_exec(&commit.committer) {
        return Err(ReleaseGateError::AccountsDiffer);
    }
    let author = match &commit.raw_author {
        Some(a) => a,
        None => return Err(ReleaseGateError::RawAuthorMissing),
    };
    let committer = match &commit.raw_committer {
        Some(c) => c,
        None => return Err(ReleaseGateError::RawCommitterMissing),
    };
    if !str_eq(author.name.as_str(), RELEASE_AUTHOR_NAME) || !str_eq(
        signature.email.as_str(),
        RELEASE_AUTHOR_EMAIL,
    ) || !str_eq(author.email.as_str(), signature.email.as_str()) || !str_eq(
        committer.email.as_str(),
        signature.email.as_str(),
    ) {
        return Err(ReleaseGateError::IdentitiesDiffer);
    }
    proof {
        reveal_strlit("Signed-off-by: ");
        reveal_strlit("ddurst");
        reveal_strlit("267424412+ddurst-nvidia@users.noreply.github.com");
        reveal_strlit(" <");
        reveal_strlit(">");
        reveal_strlit("Signed-off-by: ddurst <267424412+ddurst-nvidia@users.noreply.github.com>");
        assert(author_signoff(*author) =~= DCO_TRAILER@);
    }
    let (_, exactly_dco) = scan_lines(commit.message.as_str().as_bytes(), DCO_TRAILER.as_bytes(), SIGNOFF_PREFIX.as_bytes());
    if !exactly_dco {
        return Err(ReleaseGateError::IdentitiesDiffer);
    }
    Ok(())
}

/// The outcome of checking that a commit is the expected, GitHub-verified,
/// DCO-signed commit.
pub open spec fn verified_dco_commit_of(commit: ReleaseCommit, expected_sha: Seq<char>) -> Result<
    (),
    ReleaseGateError,
> {
    if commit.sha@ != expected_sha || !commit.verified || commit.verification_reason@ != "valid"@
        || !has_dco_line(commit.message@) {
        Err(ReleaseGateError::NotVerifiedDco)
    } else {
        Ok(())
    }
}

/// Check that `commit` is the expected, GitHub-verified, DCO-signed commit.
pub fn require_verified_dco_commit(commit: &ReleaseCommit, expected_sha: &str) -> (r: Result<
    (),
    ReleaseGateError,
>)
    ensures
        r == verified_dco_commit_of(*commit, expected_sha@),
{
    if !str_eq(commit.sha.as_str(), expected_sha) || !commit.verified || !str_eq(
        commit.verification_reason.as_str(),
        "valid",
    ) {
        return Err(ReleaseGateError::NotVerifiedDco);
    }
    let (has_dco, _) = scan_lines(commit.message.as_str().as_bytes(), DCO_TRAILER.as_bytes(), SIGNOFF_PREFIX.as_bytes());
    if !has_dco {
        return Err(ReleaseGateError::NotVerifiedDco);
    }
    Ok(())
}

/// The outcome of checking a reviewed release head: both identifiers are
/// SHAs, the commit is `head_sha` with the one parent `base_sha`, it is
/// verified and DCO-signed, and its signature and identities are exact.
pub open spec fn reviewed_release_head_of(
    commit: ReleaseCommit,
    signature: CommitSignatureRecord,
    head_sha: Seq<char>,
    base_sha: Seq<char>,
) -> Result<(), ReleaseGateError> {
    if !is_lower_sha(encode_utf8(head_sha)) || !is_lower_sha(encode_utf8(base_sha)) {
        Err(ReleaseGateError::NotLowercaseSha)
    } else if commit.sha@ != head_sha || commit.parents@.len() != 1 || commit.parents@[0]@
        != base_sha {
        Err(ReleaseGateError::NotOnExactBase)
    } else if verified_dco_commit_of(commit, head_sha) is Err {
        verified_dco_commit_of(commit, head_sha)
    } else {
        release_signature_identity_of(commit, signature)
    }
}

/// Check a reviewed release head against its exact current base.
pub fn require_reviewed_release_head(
    commit: &ReleaseCommit,
    signature: &CommitSignatureRecord,
    head_sha: &str,
    base_sha: &str,
) -> (r: Result<(), ReleaseGateError>)
    ensures
        r == reviewed_release_head_of(*commit, *signature, head_sha@, base_sha@),
{
    match require_sha(head_sha) {
        Err(e) => return Err(e),
        Ok(()) => {},
    }
    match require_sha(base_sha) {
        Err(e) => return Err(e),
        Ok(()) => {},
    }
    if !str_eq(commit.sha.as_str(), head_sha) || commit.parents.len() != 1 || !str_eq(
        commit.parents[0].as_str(),
        base_sha,
    ) {
        return Err(ReleaseGateError::NotOnExactBase);
    }
    match require_verified_dco_commit(commit, head_sha) {
        Err(e) => return Err(e),
        Ok(()) => {},
    }
    require_release_signature_identity(commit, signature)
}

/// A release commit passes the identity check only if its signature is a
/// valid signature, not made by GitHub, by the release signer's account;
/// both REST accounts are that account; the raw author is the release
/// author; the raw author and committer emails are the release email; and
/// its sign-off lines are exactly one line, the release DCO trailer.
pub proof fn lemma_release_identity_promises(commit: ReleaseCommit, signature: CommitSignatureRecord)
    requires
        release_signature_identity_of(commit, signature) is Ok,
    ensures
        signature.signer is Some,
        signature.signer->0.database_id == Some(RELEASE_SIGNER_ID),
        signature.signer->0.login@ == RELEASE_SIGNER_LOGIN@,
        signature.is_valid,
        !signature.was_signed_by_github,
        signature.state@ == "VALID"@,
        commit.author is Some && commit.author->0.id == RELEASE_SIGNER_ID,
        commit.committer is Some && commit.committer->0.id == RELEASE_SIGNER_ID,
        commit.raw_author is Some && commit.raw_author->0.name@ == RELEASE_AUTHOR_NAME@
            && commit.raw_author->0.email@ == RELEASE_AUTHOR_EMAIL@,
        commit.raw_committer is Some && commit.raw_committer->0.email@ == RELEASE_AUTHOR_EMAIL@,
        signoff_lines(commit.message@) == seq![encode_utf8(DCO_TRAILER@)],
{
}

} // verus!
