use platform::guarded::{
    accept_archive, accept_delete, accept_mutation, accept_snapshot, receipt_valid,
    snapshot_matches, ArchivedProvisionResult, DeletedProvisionResult,
    GetProvisionMutationRequest, GetProvisionMutationResponse, GetProvisionSnapshotRequest,
    GetProvisionSnapshotResponse, GuardedArchiveRepoRequest, GuardedArchiveRepoResponse,
    GuardedDeleteRepoRequest, GuardedDeleteRepoResponse, GuardedEnsureProtectionRequest,
    GuardedProvisioner, MutationRequest as Input, MutationResult as Output, ProtectionSavedResult,
    ProvisionActor, ProvisionMutationPhase, ProvisionMutationReceipt, ProvisionRevision,
    Unsupported,
};
use platform::messages::{Message, RepoRef};
use platform::provision::{Protection, ProvisionedRepo, RepoLifecycle};
use platform::status::{Code, Status};

#[test]
fn optional_guarded_operations_fail_closed() {
    let mut adapter = Unsupported;
    assert_eq!(
        adapter
            .snapshot(GetProvisionSnapshotRequest::empty())
            .err()
            .unwrap()
            .code(),
        Code::Unimplemented
    );
    assert_eq!(
        adapter
            .archive(GuardedArchiveRepoRequest::empty())
            .err()
            .unwrap()
            .code(),
        Code::Unimplemented
    );
    assert_eq!(
        adapter
            .delete(GuardedDeleteRepoRequest::empty())
            .err()
            .unwrap()
            .code(),
        Code::Unimplemented
    );
    assert_eq!(
        adapter
            .ensure_protection(GuardedEnsureProtectionRequest::empty())
            .err()
            .unwrap()
            .code(),
        Code::Unimplemented
    );
    assert_eq!(
        adapter
            .mutation(GetProvisionMutationRequest::empty())
            .err()
            .unwrap()
            .code(),
        Code::Unimplemented
    );
}

fn widgets() -> RepoRef {
    RepoRef {
        forge: 3,
        owner: "acme".into(),
        name: "widgets".into(),
        host: String::new(),
    }
}

#[test]
fn snapshots_reject_wrong_identity_or_incomplete_versions() {
    let request = GetProvisionSnapshotRequest {
        repo: Some(widgets()),
        branch: "main".into(),
    };
    let valid = GetProvisionSnapshotResponse {
        found: true,
        repo: Some(ProvisionedRepo {
            repo: request.repo.clone(),
            lifecycle: 0,
            rest: Vec::new(),
        }),
        revision: Some(ProvisionRevision {
            incarnation: "original".into(),
            configuration: "7".into(),
        }),
        branch: "main".into(),
        protection_found: false,
        protection: None,
    };
    assert!(snapshot_matches(&valid, &request));
    let mut wrong = valid.copy();
    wrong.repo.as_mut().unwrap().repo.as_mut().unwrap().name = "other".into();
    assert!(!snapshot_matches(&wrong, &request));
    wrong = valid.copy();
    wrong.revision = None;
    assert!(!snapshot_matches(&wrong, &request));
    wrong = valid.copy();
    wrong.protection_found = true;
    assert!(!snapshot_matches(&wrong, &request));
    let mut other = Protection::empty();
    other.branch = "other".into();
    wrong.protection = Some(other);
    assert!(!snapshot_matches(&wrong, &request));
    wrong = valid.copy();
    wrong.found = false;
    assert!(!snapshot_matches(&wrong, &request));
    let mut absent = GetProvisionSnapshotResponse::empty();
    absent.branch = "main".into();
    assert!(snapshot_matches(&absent, &request));
}

fn delete_receipt() -> ProvisionMutationReceipt {
    let mut receipt = ProvisionMutationReceipt::empty();
    receipt.operation_id = "operation-1".into();
    receipt.actor = Some(ProvisionActor {
        issuer: "issuer".into(),
        subject: "caller".into(),
    });
    receipt.request = Some(Input::Delete(GuardedDeleteRepoRequest {
        repo: Some(widgets()),
        expected: Some(ProvisionRevision {
            incarnation: "original".into(),
            configuration: "7".into(),
        }),
        confirm_name: "widgets".into(),
        idempotency_key: "delete-once".into(),
    }));
    receipt.phase = ProvisionMutationPhase::Succeeded.number();
    receipt.result = Some(Output::Deleted(DeletedProvisionResult { confirmed: true }));
    receipt
}

#[test]
fn successful_delete_receipts_require_confirmed_matching_outcomes() {
    let valid = delete_receipt();
    assert!(receipt_valid(&valid));
    let mut wrong = valid.copy();
    wrong.result = None;
    assert!(!receipt_valid(&wrong));
    wrong = valid.copy();
    wrong.phase = 999;
    assert!(!receipt_valid(&wrong));
    wrong = valid.copy();
    wrong.actor = None;
    assert!(!receipt_valid(&wrong));
    wrong = valid.copy();
    wrong.result = Some(Output::Deleted(DeletedProvisionResult { confirmed: false }));
    assert!(!receipt_valid(&wrong));
    wrong = valid.copy();
    wrong.resulting_revision = Some(ProvisionRevision {
        incarnation: "replacement".into(),
        configuration: "1".into(),
    });
    assert!(!receipt_valid(&wrong));
    wrong = valid.copy();
    wrong.phase = ProvisionMutationPhase::Pending.number();
    assert!(
        !receipt_valid(&wrong),
        "pending must not carry a confirmed outcome"
    );
    wrong.result = None;
    assert!(
        receipt_valid(&wrong),
        "pending remains an explicit non-success state"
    );
    wrong = valid;
    if let Some(Input::Delete(r)) = &mut wrong.request {
        r.confirm_name = "different".into();
    }
    assert!(!receipt_valid(&wrong));
}

fn archive_request() -> GuardedArchiveRepoRequest {
    GuardedArchiveRepoRequest {
        repo: Some(widgets()),
        expected: Some(ProvisionRevision {
            incarnation: "original".into(),
            configuration: "7".into(),
        }),
        idempotency_key: "archive-once".into(),
    }
}

fn archive_receipt() -> ProvisionMutationReceipt {
    let mut receipt = delete_receipt();
    receipt.request = Some(Input::Archive(archive_request()));
    receipt.resulting_revision = Some(ProvisionRevision {
        incarnation: "original".into(),
        configuration: "8".into(),
    });
    receipt.result = Some(Output::Archived(ArchivedProvisionResult {
        repo: Some(ProvisionedRepo {
            repo: Some(widgets()),
            lifecycle: RepoLifecycle::Archived.number(),
            rest: Vec::new(),
        }),
    }));
    receipt
}

#[test]
fn archive_receipts_tell_the_archived_repository_at_its_incarnation() {
    assert!(receipt_valid(&archive_receipt()));
    let mut wrong = archive_receipt();
    wrong.resulting_revision.as_mut().unwrap().incarnation = "other".into();
    assert!(!receipt_valid(&wrong));
    let mut wrong = archive_receipt();
    if let Some(Output::Archived(r)) = &mut wrong.result {
        r.repo.as_mut().unwrap().lifecycle = RepoLifecycle::Active.number();
    }
    assert!(!receipt_valid(&wrong));
    // An outcome of another kind does not do.
    let mut wrong = archive_receipt();
    wrong.result = delete_receipt().result;
    assert!(!receipt_valid(&wrong));
}

#[test]
fn protection_receipts_tell_the_branch_that_was_asked_for() {
    let mut request = GuardedEnsureProtectionRequest::empty();
    request.repo = Some(widgets());
    request.expected = archive_request().expected;
    request.idempotency_key = "protect".into();
    request.branch = "main".into();
    let mut receipt = archive_receipt();
    receipt.request = Some(Input::Protection(request));
    let mut protection = Protection::empty();
    protection.branch = "main".into();
    receipt.result = Some(Output::ProtectionSaved(ProtectionSavedResult {
        protection: Some(protection),
    }));
    assert!(receipt_valid(&receipt));
    if let Some(Output::ProtectionSaved(r)) = &mut receipt.result {
        r.protection.as_mut().unwrap().branch = "other".into();
    }
    assert!(!receipt_valid(&receipt));
}

#[test]
fn replies_are_handed_on_only_where_they_answer() {
    // A failure keeps its code and message.
    let status = accept_archive(
        &archive_request(),
        Err(Status::new(Code::FailedPrecondition, "repository revision changed")),
    )
    .err()
    .unwrap();
    assert_eq!(status.code(), Code::FailedPrecondition);
    assert_eq!(status.message(), "repository revision changed");
    // A receipt of the request is handed on.
    assert!(accept_archive(
        &archive_request(),
        Ok(GuardedArchiveRepoResponse { receipt: Some(archive_receipt()) })
    )
    .is_ok());
    // One of another request is not.
    let mut other = archive_request();
    other.idempotency_key = "another".into();
    let status = accept_archive(
        &other,
        Ok(GuardedArchiveRepoResponse { receipt: Some(archive_receipt()) }),
    )
    .err()
    .unwrap();
    assert_eq!(status.code(), Code::DataLoss);
    assert_eq!(status.message(), "invalid guarded mutation receipt");
    // Nor is a missing one.
    let delete = match delete_receipt().request {
        Some(Input::Delete(r)) => r,
        _ => unreachable!(),
    };
    let status = accept_delete(&delete, Ok(GuardedDeleteRepoResponse { receipt: None }))
        .err()
        .unwrap();
    assert_eq!(status.code(), Code::DataLoss);
    assert!(accept_delete(
        &delete,
        Ok(GuardedDeleteRepoResponse { receipt: Some(delete_receipt()) })
    )
    .is_ok());
}

#[test]
fn lookups_give_the_operation_that_was_asked_for() {
    let mut lookup = GetProvisionMutationRequest {
        repo: Some(widgets()),
        incarnation: "original".into(),
        idempotency_key: "archive-once".into(),
    };
    let reply = || {
        Ok(GetProvisionMutationResponse {
            receipt: Some(archive_receipt()),
        })
    };
    assert!(accept_mutation(&lookup, reply()).is_ok());
    lookup.incarnation = "replacement".into();
    let status = accept_mutation(&lookup, reply()).err().unwrap();
    assert_eq!(status.code(), Code::DataLoss);
    assert_eq!(
        status.message(),
        "guarded lookup returned an unrelated or invalid receipt"
    );
}

#[test]
fn a_snapshot_of_another_branch_is_lost() {
    let request = GetProvisionSnapshotRequest {
        repo: Some(widgets()),
        branch: "main".into(),
    };
    let mut response = GetProvisionSnapshotResponse::empty();
    response.branch = "release".into();
    let status = accept_snapshot(&request, Ok(response)).err().unwrap();
    assert_eq!(status.code(), Code::DataLoss);
    assert_eq!(status.message(), "invalid guarded repository snapshot");
}

#[test]
fn phases_are_read_back_as_written() {
    for phase in [
        ProvisionMutationPhase::Unspecified,
        ProvisionMutationPhase::Pending,
        ProvisionMutationPhase::Succeeded,
        ProvisionMutationPhase::Failed,
        ProvisionMutationPhase::ReconciliationRequired,
    ] {
        assert_eq!(ProvisionMutationPhase::from_number(phase.number()), Some(phase));
    }
    assert_eq!(ProvisionMutationPhase::from_number(999), None);
}
