use yaml_sigil::release_checks::{
    accumulate_archive_work, validate_app_scope, validate_artifact_inventory,
    validate_original_run, validate_original_run_pair, validate_publish_workflow,
    validate_signature_inventory, SignatureInventory, SignatureNode, WorkflowRecord,
    WorkflowRunRecord, APP_SLUG, MAX_CRATE_ARCHIVE_ENTRIES, MAX_CRATE_UNPACKED_BYTES,
    PUBLISH_WORKFLOW_ID, PUBLISH_WORKFLOW_PATH,
};
use yaml_sigil::release_classify::{
    classify_start, classify_step, ClassifyAction, ClassifyContext, ClassifyEvent,
};
use yaml_sigil::release_finalize::{finalize_start, finalize_step, FinalizeAction, FinalizeContext, FinalizeEvent};
use yaml_sigil::release_gate::{
    decide, ordinary_decision, registry_read, registry_state, require_unchanged_main,
    ReleaseDecision, ReleaseGateError, ReleaseOperation,
};
use yaml_sigil::release_identity::{
    require_release_signature_identity, require_reviewed_release_head, CommitSignatureRecord,
    GitIdentity, ReleaseAccount, ReleaseCommit, SignatureSigner, DCO_TRAILER,
    RELEASE_AUTHOR_EMAIL, RELEASE_AUTHOR_NAME, RELEASE_SIGNER_ID, RELEASE_SIGNER_LOGIN,
};
use yaml_sigil::release_pull::{
    allowed_release_path, validate_release_files, AssociatedPull, PullFile, PullSide,
    ReleasePackage, ReleasePull, REPOSITORY,
};
use yaml_sigil::release_qualify::{
    qualify_start, qualify_step, QualificationLabel, QualifyAction, QualifyContext, QualifyEvent,
};

const TEST_SOURCE_SHA: &str = "0123456789abcdef0123456789abcdef01234567";
const TEST_POLICY_SHA: &str = "1123456789abcdef0123456789abcdef01234567";
const TEST_DRIFT_SHA: &str = "2123456789abcdef0123456789abcdef01234567";
const TEST_TAG_OBJECT_SHA: &str = "3123456789abcdef0123456789abcdef01234567";

fn packages() -> Vec<ReleasePackage> {
    ["yaml-sigil-core", "yaml-sigil-signing", "yaml-sigil-transcription", "yaml-sigil-verification"]
        .iter()
        .map(|name| ReleasePackage {
            path_in_vcs: format!("crates/{name}"),
            changelog: format!("crates/{name}/CHANGELOG.md"),
        })
        .collect()
}

fn release_account() -> ReleaseAccount {
    ReleaseAccount {
        id: RELEASE_SIGNER_ID,
        login: RELEASE_SIGNER_LOGIN.to_string(),
        kind: "User".to_string(),
    }
}

fn release_identity() -> GitIdentity {
    GitIdentity {
        name: RELEASE_AUTHOR_NAME.to_string(),
        email: RELEASE_AUTHOR_EMAIL.to_string(),
        date: "2026-09-04T12:00:00Z".to_string(),
    }
}

fn reviewed_commit(parent_sha: &str) -> ReleaseCommit {
    ReleaseCommit {
        sha: TEST_SOURCE_SHA.to_string(),
        author: Some(release_account()),
        committer: Some(release_account()),
        parents: vec![parent_sha.to_string()],
        raw_author: Some(release_identity()),
        raw_committer: Some(release_identity()),
        message: format!("chore: release\n\n{DCO_TRAILER}"),
        verified: true,
        verification_reason: "valid".to_string(),
        tree_sha: TEST_TAG_OBJECT_SHA.to_string(),
    }
}

fn release_signature() -> CommitSignatureRecord {
    CommitSignatureRecord {
        kind: "SshSignature".to_string(),
        email: RELEASE_AUTHOR_EMAIL.to_string(),
        is_valid: true,
        state: "VALID".to_string(),
        was_signed_by_github: false,
        signer: Some(SignatureSigner {
            database_id: Some(RELEASE_SIGNER_ID),
            login: RELEASE_SIGNER_LOGIN.to_string(),
            kind: "User".to_string(),
        }),
    }
}

fn signer_with(change: impl FnOnce(&mut SignatureSigner)) -> CommitSignatureRecord {
    let mut signature = release_signature();
    change(signature.signer.as_mut().unwrap());
    signature
}

fn signature_inventory(oid: &str, merge_oid: &str, signature: Option<CommitSignatureRecord>) -> SignatureInventory {
    SignatureInventory {
        errors: false,
        pull_found: true,
        merge_oid: Some(merge_oid.to_string()),
        total_count: 1,
        nodes: vec![SignatureNode { oid: oid.to_string(), signature }],
        has_next_page: false,
    }
}

fn workflow_run_fixture(source: &str, id: u64, attempt: u64) -> WorkflowRunRecord {
    WorkflowRunRecord {
        id,
        run_attempt: attempt,
        workflow_id: PUBLISH_WORKFLOW_ID,
        path: PUBLISH_WORKFLOW_PATH.to_string(),
        event: "push".to_string(),
        head_branch: "main".to_string(),
        head_sha: source.to_string(),
        repository: REPOSITORY.to_string(),
        head_repository: REPOSITORY.to_string(),
        status: "completed".to_string(),
        conclusion: Some("failure".to_string()),
    }
}

fn exact_workflow() -> WorkflowRecord {
    WorkflowRecord {
        id: PUBLISH_WORKFLOW_ID,
        path: PUBLISH_WORKFLOW_PATH.to_string(),
        state: "active".to_string(),
    }
}

fn decision(publish: bool, finalize: bool) -> ReleaseDecision {
    ReleaseDecision { publish, finalize }
}

#[test]
fn automatic_release_is_all_or_nothing() {
    assert_eq!(decide(ReleaseOperation::Auto, &[false, false, false, false]).unwrap(), decision(true, true));
    assert!(decide(ReleaseOperation::Auto, &[true, false, false, false]).is_err());
    assert_eq!(decide(ReleaseOperation::Auto, &[true, true, true, true]).unwrap(), decision(false, false));
}

#[test]
fn ordinary_main_is_a_noop_before_registry_reconciliation() {
    assert_eq!(registry_read(ReleaseOperation::Auto, false), Ok(false));
    assert_eq!(ordinary_decision(ReleaseOperation::Auto).unwrap(), decision(false, false));
    assert!(ordinary_decision(ReleaseOperation::Recover).is_err());
}

#[test]
fn recovery_stays_on_exact_source_and_completes_objects() {
    assert_eq!(decide(ReleaseOperation::Recover, &[true, false, false, false]).unwrap(), decision(true, true));
    assert_eq!(decide(ReleaseOperation::Recover, &[true, true, true, true]).unwrap(), decision(false, true));
    assert!(decide(ReleaseOperation::Recover, &[false, true, false, false]).is_err());
    assert!(decide(ReleaseOperation::Recover, &[true, false, true, false]).is_err());
}

#[test]
fn finalizer_rejects_policy_drift_at_mutation_boundary() {
    let initial = "0123456789abcdef0123456789abcdef01234567";
    assert!(require_unchanged_main(initial, initial).is_ok());
    assert!(require_unchanged_main(initial, "1123456789abcdef0123456789abcdef01234567").is_err());
}

#[test]
fn recovery_rejects_workflow_run_attempt_and_artifact_drift() {
    let source = "0123456789abcdef0123456789abcdef01234567";
    validate_publish_workflow(&exact_workflow()).unwrap();
    let mut other_id = exact_workflow();
    other_id.id = PUBLISH_WORKFLOW_ID + 1;
    let mut other_path = exact_workflow();
    other_path.path = ".github/workflows/other.yml".to_string();
    let mut disabled = exact_workflow();
    disabled.state = "disabled_manually".to_string();
    for workflow in [other_id, other_path, disabled] {
        assert!(validate_publish_workflow(&workflow).is_err());
    }

    let run = workflow_run_fixture(source, 42, 3);
    validate_original_run(&run, source, 42, 3).unwrap();
    validate_original_run_pair(&run, &run, source, 42, 3).unwrap();
    let stale = workflow_run_fixture(source, 42, 4);
    assert!(validate_original_run(&stale, source, 42, 3).is_err());
    assert!(validate_original_run_pair(&run, &stale, source, 42, 3).is_err());
    let wrong_source = workflow_run_fixture("1123456789abcdef0123456789abcdef01234567", 42, 3);
    assert!(validate_original_run(&wrong_source, source, 42, 3).is_err());
    let mut wrong_workflow = workflow_run_fixture(source, 42, 3);
    wrong_workflow.workflow_id += 1;
    assert!(validate_original_run(&wrong_workflow, source, 42, 3).is_err());
    let mut wrong_path = workflow_run_fixture(source, 42, 3);
    wrong_path.path = ".github/workflows/other.yml".to_string();
    assert!(validate_original_run(&wrong_path, source, 42, 3).is_err());
    let mut wrong_repository = workflow_run_fixture(source, 42, 3);
    wrong_repository.repository = "NVIDIA/other".to_string();
    assert!(validate_original_run(&wrong_repository, source, 42, 3).is_err());
    let mut pending = workflow_run_fixture(source, 42, 3);
    pending.status = "in_progress".to_string();
    pending.conclusion = None;
    assert!(validate_original_run(&pending, source, 42, 3).is_err());

    validate_artifact_inventory(0, 0).unwrap();
    assert!(validate_artifact_inventory(1, 0).is_err());
    assert!(validate_artifact_inventory(0, 1).is_err());
}

#[test]
fn validation_never_mutates_even_for_partial_state() {
    assert_eq!(decide(ReleaseOperation::Validate, &[true, false, true, false]).unwrap(), decision(false, false));
    assert!(decide(ReleaseOperation::Validate, &[false]).is_err());
    assert_eq!(registry_read(ReleaseOperation::Validate, true), Ok(false));
}

#[test]
fn release_paths_are_exact_and_bounded() {
    let packages = packages();
    assert!(allowed_release_path("Cargo.toml", &packages));
    assert!(allowed_release_path("crates/yaml-sigil-core/CHANGELOG.md", &packages));
    assert!(!allowed_release_path("src/lib.rs", &packages));
    assert!(!allowed_release_path("Cargo.lock", &packages));
}

#[test]
fn crate_archive_work_is_explicitly_bounded() {
    let mut entries = MAX_CRATE_ARCHIVE_ENTRIES;
    let mut bytes = 0;
    assert!(accumulate_archive_work(&mut entries, &mut bytes, 0).is_err());

    let mut entries = 0;
    let mut bytes = MAX_CRATE_UNPACKED_BYTES;
    assert!(accumulate_archive_work(&mut entries, &mut bytes, 1).is_err());
}

#[test]
fn release_files_reject_add_remove_rename_and_unexpected_paths() {
    let packages = packages();
    let exact = [PullFile { filename: "Cargo.toml".to_string(), status: "modified".to_string() }];
    validate_release_files(&exact, 1, &packages).unwrap();
    for status in ["added", "removed", "renamed", "copied"] {
        let files = [PullFile { filename: "Cargo.toml".to_string(), status: status.to_string() }];
        assert!(validate_release_files(&files, 1, &packages).is_err());
    }
    let unexpected = [PullFile { filename: "src/lib.rs".to_string(), status: "modified".to_string() }];
    assert!(validate_release_files(&unexpected, 1, &packages).is_err());
}

#[test]
fn reviewed_release_head_requires_one_exact_current_base_parent() {
    let exact = reviewed_commit(TEST_POLICY_SHA);
    let signature = release_signature();
    require_reviewed_release_head(&exact, &signature, TEST_SOURCE_SHA, TEST_POLICY_SHA).unwrap();

    let mut no_parent = reviewed_commit(TEST_POLICY_SHA);
    no_parent.parents.clear();
    assert!(require_reviewed_release_head(&no_parent, &signature, TEST_SOURCE_SHA, TEST_POLICY_SHA).is_err());

    let wrong_parent = reviewed_commit(TEST_DRIFT_SHA);
    assert!(require_reviewed_release_head(&wrong_parent, &signature, TEST_SOURCE_SHA, TEST_POLICY_SHA).is_err());

    let mut merge = reviewed_commit(TEST_POLICY_SHA);
    merge.parents.push(TEST_DRIFT_SHA.to_string());
    assert!(require_reviewed_release_head(&merge, &signature, TEST_SOURCE_SHA, TEST_POLICY_SHA).is_err());
}

#[test]
fn release_head_requires_exact_graphql_signer_raw_identities_and_dco() {
    let exact = reviewed_commit(TEST_POLICY_SHA);
    let signature = release_signature();
    require_release_signature_identity(&exact, &signature).unwrap();

    let mut null_signer = release_signature();
    null_signer.signer = None;
    assert!(require_release_signature_identity(&exact, &null_signer).is_err());

    let wrong_id = signer_with(|s| s.database_id = Some(RELEASE_SIGNER_ID + 1));
    assert!(require_release_signature_identity(&exact, &wrong_id).is_err());

    let null_id = signer_with(|s| s.database_id = None);
    assert!(require_release_signature_identity(&exact, &null_id).is_err());

    let wrong_login = signer_with(|s| s.login = "lookalike".to_string());
    assert!(require_release_signature_identity(&exact, &wrong_login).is_err());

    let wrong_type = signer_with(|s| s.kind = "Bot".to_string());
    assert!(require_release_signature_identity(&exact, &wrong_type).is_err());

    let mut wrong_email = release_signature();
    wrong_email.email = "lookalike@example.invalid".to_string();
    assert!(require_release_signature_identity(&exact, &wrong_email).is_err());

    let mut web_flow = release_signature();
    web_flow.was_signed_by_github = true;
    assert!(require_release_signature_identity(&exact, &web_flow).is_err());

    let mut invalid = release_signature();
    invalid.is_valid = false;
    assert!(require_release_signature_identity(&exact, &invalid).is_err());

    let mut wrong_state = release_signature();
    wrong_state.state = "UNVERIFIED_EMAIL".to_string();
    assert!(require_release_signature_identity(&exact, &wrong_state).is_err());

    let mut forged_dco = reviewed_commit(TEST_POLICY_SHA);
    forged_dco.message = format!("chore: release\n\nSigned-off-by: Lookalike <{RELEASE_AUTHOR_EMAIL}>");
    assert!(require_release_signature_identity(&forged_dco, &signature).is_err());

    let mut wrong_raw_email = reviewed_commit(TEST_POLICY_SHA);
    wrong_raw_email.raw_committer.as_mut().unwrap().email = "lookalike@example.invalid".to_string();
    assert!(require_release_signature_identity(&wrong_raw_email, &signature).is_err());

    let mut wrong_rest_account = reviewed_commit(TEST_POLICY_SHA);
    wrong_rest_account.author.as_mut().unwrap().id = RELEASE_SIGNER_ID + 1;
    assert!(require_release_signature_identity(&wrong_rest_account, &signature).is_err());

    let mut null_rest_account = reviewed_commit(TEST_POLICY_SHA);
    null_rest_account.committer = None;
    assert!(require_release_signature_identity(&null_rest_account, &signature).is_err());
}

#[test]
fn release_signature_inventory_is_exact_and_bounded() {
    let exact = validate_signature_inventory(
        signature_inventory(TEST_SOURCE_SHA, TEST_SOURCE_SHA, Some(release_signature())),
        TEST_SOURCE_SHA,
        TEST_SOURCE_SHA,
    )
    .ok()
    .unwrap();
    assert_eq!(exact.email, RELEASE_AUTHOR_EMAIL);

    assert!(validate_signature_inventory(
        signature_inventory(TEST_DRIFT_SHA, TEST_SOURCE_SHA, Some(release_signature())),
        TEST_SOURCE_SHA,
        TEST_SOURCE_SHA,
    )
    .is_err());
    assert!(validate_signature_inventory(
        signature_inventory(TEST_SOURCE_SHA, TEST_SOURCE_SHA, None),
        TEST_SOURCE_SHA,
        TEST_SOURCE_SHA,
    )
    .is_err());
    assert!(validate_signature_inventory(
        signature_inventory(TEST_SOURCE_SHA, TEST_DRIFT_SHA, Some(release_signature())),
        TEST_SOURCE_SHA,
        TEST_SOURCE_SHA,
    )
    .is_err());

    let mut ambiguous = signature_inventory(TEST_SOURCE_SHA, TEST_SOURCE_SHA, Some(release_signature()));
    ambiguous.has_next_page = true;
    assert!(validate_signature_inventory(ambiguous, TEST_SOURCE_SHA, TEST_SOURCE_SHA).is_err());

    let mut errors = signature_inventory(TEST_SOURCE_SHA, TEST_SOURCE_SHA, Some(release_signature()));
    errors.errors = true;
    assert!(validate_signature_inventory(errors, TEST_SOURCE_SHA, TEST_SOURCE_SHA).is_err());
}

#[test]
fn finalizer_requires_observed_app_and_one_repository_scope() {
    let exact = vec![REPOSITORY.to_string()];
    validate_app_scope(APP_SLUG, 1, &exact).unwrap();
    assert!(validate_app_scope("other-app", 1, &exact).is_err());
    let broad = vec![REPOSITORY.to_string(), "NVIDIA/other".to_string()];
    assert!(validate_app_scope(APP_SLUG, 2, &broad).is_err());
}

#[test]
fn registry_state_labels_publication() {
    assert_eq!(registry_state(&[false, false, false, false]), "none");
    assert_eq!(registry_state(&[true, true, true, true]), "complete");
    assert_eq!(registry_state(&[true, false, false, false]), "partial");
}

fn qualify_context(operation: ReleaseOperation, run: Option<(u64, u64)>) -> QualifyContext {
    QualifyContext {
        operation,
        source_sha: TEST_SOURCE_SHA.to_string(),
        original_run_id: run.map(|r| r.0),
        original_run_attempt: run.map(|r| r.1),
        wait_for_registry: false,
    }
}

#[test]
fn qualification_validates_without_publication() {
    let (s, a) = qualify_start(qualify_context(ReleaseOperation::Validate, None));
    assert!(matches!(a, QualifyAction::FetchMainSha));
    let (s, a) = qualify_step(s, QualifyEvent::MainSha(TEST_SOURCE_SHA.to_string()));
    assert!(matches!(a, QualifyAction::CheckSourcesAndPolicy(ref m) if m.as_str() == TEST_SOURCE_SHA));
    let (s, a) = qualify_step(s, QualifyEvent::PreflightPassed);
    assert!(matches!(a, QualifyAction::ValidateVersions));
    let (_, a) = qualify_step(s, QualifyEvent::VersionsValid);
    assert!(matches!(
        a,
        QualifyAction::Emit(ReleaseDecision { publish: false, finalize: false }, QualificationLabel::Validation)
    ));
}

#[test]
fn qualification_accepts_original_run_inputs_only_for_recovery() {
    let (s, _) = qualify_start(qualify_context(ReleaseOperation::Auto, Some((42, 3))));
    let (s, _) = qualify_step(s, QualifyEvent::MainSha(TEST_SOURCE_SHA.to_string()));
    let (_, a) = qualify_step(s, QualifyEvent::PreflightPassed);
    assert!(matches!(a, QualifyAction::Fail(ReleaseGateError::RunInputsOnlyForRecovery)));

    let (s, _) = qualify_start(qualify_context(ReleaseOperation::Auto, None));
    let (s, _) = qualify_step(s, QualifyEvent::MainSha(TEST_POLICY_SHA.to_string()));
    let (_, a) = qualify_step(s, QualifyEvent::PreflightPassed);
    assert!(matches!(a, QualifyAction::Fail(ReleaseGateError::RequiresCurrentMain)));

    let (s, _) = qualify_start(qualify_context(ReleaseOperation::Recover, None));
    let (s, _) = qualify_step(s, QualifyEvent::MainSha(TEST_POLICY_SHA.to_string()));
    let (_, a) = qualify_step(s, QualifyEvent::PreflightPassed);
    assert!(matches!(a, QualifyAction::Fail(ReleaseGateError::RecoveryRunMissing)));
}

#[test]
fn automatic_qualification_publishes_an_unpublished_release() {
    let (s, _) = qualify_start(qualify_context(ReleaseOperation::Auto, None));
    let (s, _) = qualify_step(s, QualifyEvent::MainSha(TEST_SOURCE_SHA.to_string()));
    let (s, a) = qualify_step(s, QualifyEvent::PreflightPassed);
    assert!(matches!(a, QualifyAction::ClassifyRelease));
    let (s, a) = qualify_step(s, QualifyEvent::Classified(true));
    assert!(matches!(a, QualifyAction::ValidateVersions));
    let (s, a) = qualify_step(s, QualifyEvent::VersionsValid);
    assert!(matches!(a, QualifyAction::ReadRegistry(false)));
    let (_, a) = qualify_step(s, QualifyEvent::Registry(vec![false; 4]));
    assert!(matches!(
        a,
        QualifyAction::Emit(ReleaseDecision { publish: true, finalize: true }, QualificationLabel::Unpublished)
    ));
}

fn canonical_pull() -> ReleasePull {
    ReleasePull {
        number: 7,
        state: "closed".to_string(),
        merged: true,
        changed_files: 1,
        base: PullSide {
            reference: "main".to_string(),
            sha: TEST_POLICY_SHA.to_string(),
            repository: REPOSITORY.to_string(),
        },
        head: PullSide {
            reference: "release-plz-manual-0.6.0".to_string(),
            sha: TEST_SOURCE_SHA.to_string(),
            repository: REPOSITORY.to_string(),
        },
    }
}

#[test]
fn classification_accepts_one_canonical_release_pull() {
    let merge_sha = TEST_DRIFT_SHA;
    let mut source = reviewed_commit(TEST_POLICY_SHA);
    source.sha = merge_sha.to_string();
    let ctx = ClassifyContext { source_sha: merge_sha.to_string(), version: "0.6.0".to_string(), packages: packages() };
    let (s, a) = classify_start(ctx);
    assert!(matches!(a, ClassifyAction::FetchSource));
    let (s, a) = classify_step(s, ClassifyEvent::Source(source));
    assert!(matches!(a, ClassifyAction::FetchAssociations));
    let associations = vec![
        AssociatedPull { number: 6, state: "open".to_string(), merged: false },
        AssociatedPull { number: 7, state: "closed".to_string(), merged: true },
    ];
    let (s, a) = classify_step(s, ClassifyEvent::Associations(associations));
    assert!(matches!(a, ClassifyAction::FetchPull(7)));
    let (s, a) = classify_step(s, ClassifyEvent::Pull(canonical_pull()));
    assert!(matches!(a, ClassifyAction::FetchCommits(7)));
    let (s, a) = classify_step(s, ClassifyEvent::Commits(vec![reviewed_commit(TEST_POLICY_SHA)]));
    assert!(matches!(a, ClassifyAction::FetchSignature(7)));
    let (s, a) = classify_step(
        s,
        ClassifyEvent::Signatures(signature_inventory(TEST_SOURCE_SHA, merge_sha, Some(release_signature()))),
    );
    assert!(matches!(a, ClassifyAction::FetchFiles(7)));
    let files = vec![PullFile { filename: "Cargo.toml".to_string(), status: "modified".to_string() }];
    let (_, a) = classify_step(s, ClassifyEvent::Files(files));
    assert!(matches!(a, ClassifyAction::Finish(Ok(true))));
}

#[test]
fn classification_treats_a_commit_without_release_branch_as_ordinary() {
    let ctx = ClassifyContext { source_sha: TEST_SOURCE_SHA.to_string(), version: "0.6.0".to_string(), packages: packages() };
    let (s, _) = classify_start(ctx);
    let (s, _) = classify_step(s, ClassifyEvent::Source(reviewed_commit(TEST_POLICY_SHA)));
    let (s, _) = classify_step(
        s,
        ClassifyEvent::Associations(vec![AssociatedPull { number: 9, state: "closed".to_string(), merged: true }]),
    );
    let mut pull = canonical_pull();
    pull.head.reference = "feature".to_string();
    let (_, a) = classify_step(s, ClassifyEvent::Pull(pull));
    assert!(matches!(a, ClassifyAction::Finish(Ok(false))));
}

#[test]
fn finalization_checks_before_each_package() {
    let ctx = FinalizeContext {
        source_sha: TEST_SOURCE_SHA.to_string(),
        version: "0.6.0".to_string(),
        app_slug: APP_SLUG.to_string(),
    };
    let (s, _) = finalize_start(ctx);
    let (s, _) = finalize_step(s, FinalizeEvent::MainSha(TEST_POLICY_SHA.to_string()));
    let (s, a) = finalize_step(s, FinalizeEvent::SourceVersion("0.6.0".to_string()));
    assert!(matches!(a, FinalizeAction::ValidateVersions));
    let (s, a) = finalize_step(s, FinalizeEvent::VersionsValid);
    assert!(matches!(a, FinalizeAction::ReadRegistry));
    let (_, a) = finalize_step(s, FinalizeEvent::Registry(vec![true, false, true, true]));
    assert!(matches!(a, FinalizeAction::Fail(ReleaseGateError::NotAllPublished)));

    let ctx = FinalizeContext {
        source_sha: TEST_SOURCE_SHA.to_string(),
        version: "0.6.0".to_string(),
        app_slug: APP_SLUG.to_string(),
    };
    let (s, _) = finalize_start(ctx);
    let (s, _) = finalize_step(s, FinalizeEvent::MainSha(TEST_POLICY_SHA.to_string()));
    let (s, _) = finalize_step(s, FinalizeEvent::SourceVersion("0.6.0".to_string()));
    let (s, _) = finalize_step(s, FinalizeEvent::VersionsValid);
    let (s, _) = finalize_step(s, FinalizeEvent::Registry(vec![true; 4]));
    let (s, a) = finalize_step(s, FinalizeEvent::AppScope(1, vec![REPOSITORY.to_string()]));
    assert!(matches!(a, FinalizeAction::FetchMainSha));
    let (_, a) = finalize_step(s, FinalizeEvent::MainSha(TEST_DRIFT_SHA.to_string()));
    assert!(matches!(a, FinalizeAction::Fail(ReleaseGateError::MainChanged)));
}
