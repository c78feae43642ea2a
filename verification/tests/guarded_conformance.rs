use platform::conformance::Verdict;
use platform::guarded::{
    DeletedProvisionResult, GetProvisionMutationRequest, GetProvisionMutationResponse,
    GetProvisionSnapshotRequest, GetProvisionSnapshotResponse, GuardedArchiveRepoRequest,
    GuardedArchiveRepoResponse, GuardedDeleteRepoRequest, GuardedDeleteRepoResponse,
    GuardedEnsureProtectionRequest, GuardedEnsureProtectionResponse, GuardedCall, GuardedProvisioner,
    GuardedReply, MutationRequest, MutationResult, ProvisionMutationPhase, ProvisionRevision,
};
use platform::guarded_conformance::{
    archive_retry_preserves_receipt, archive_updates_snapshot, competing_archives_have_one_winner,
    deletion_receipt_survives_removal, legacy_settings_invalidate_confirmation,
    missing_preconditions_have_no_effect, recreated_repository_rejects_original_confirmation,
    settings_reversion_keeps_confirmation_stale, stale_delete_has_no_effect,
};
use platform::guarded_geetch::{
    GrantedService, GuardedForgeProvisionService, GuardedGeetchProvisioner,
};
use platform::guarded_model::Model;
use platform::messages::{Message, RepoRef};
use platform::provision::RepoLifecycle;
use platform::status::{Code, Status};

fn repo() -> RepoRef {
    RepoRef {
        forge: 0,
        host: String::new(),
        owner: "conformance".into(),
        name: "repository".into(),
    }
}

fn assert_passes(verdict: Verdict) {
    match verdict {
        Verdict::Pass => {}
        Verdict::Refused(e) => panic!("a call failed: {e}"),
        Verdict::Broken(what) => panic!("{what}"),
    }
}

#[test]
fn model_archive_updates_snapshot() {
    assert_passes(archive_updates_snapshot(&mut Model::new(repo())));
}

#[test]
fn model_stale_delete_has_no_effect() {
    assert_passes(stale_delete_has_no_effect(&mut Model::new(repo())));
}

#[test]
fn model_competing_archives_have_one_winner() {
    assert_passes(competing_archives_have_one_winner(&mut Model::new(repo())));
}

#[test]
fn model_archive_retry_preserves_receipt() {
    assert_passes(archive_retry_preserves_receipt(&mut Model::new(repo())));
}

#[test]
fn model_deletion_receipt_survives_removal() {
    assert_passes(deletion_receipt_survives_removal(&mut Model::new(repo())));
}

#[test]
fn model_missing_preconditions_have_no_effect() {
    assert_passes(missing_preconditions_have_no_effect(&mut Model::new(repo())));
}

#[test]
fn model_legacy_settings_invalidate_confirmation() {
    assert_passes(legacy_settings_invalidate_confirmation(&mut Model::new(repo())));
}

#[test]
fn model_settings_reversion_keeps_confirmation_stale() {
    assert_passes(settings_reversion_keeps_confirmation_stale(&mut Model::new(repo())));
}

#[test]
fn model_recreated_repository_rejects_original_confirmation() {
    assert_passes(recreated_repository_rejects_original_confirmation(&mut Model::new(repo())));
}

#[test]
fn pending_model_archive_updates_snapshot() {
    assert_passes(archive_updates_snapshot(&mut Model::initially_pending(repo())));
}

#[test]
fn pending_model_stale_delete_has_no_effect() {
    assert_passes(stale_delete_has_no_effect(&mut Model::initially_pending(repo())));
}

#[test]
fn pending_model_competing_archives_have_one_winner() {
    assert_passes(competing_archives_have_one_winner(&mut Model::initially_pending(repo())));
}

#[test]
fn pending_model_archive_retry_preserves_receipt() {
    assert_passes(archive_retry_preserves_receipt(&mut Model::initially_pending(repo())));
}

#[test]
fn pending_model_deletion_receipt_survives_removal() {
    assert_passes(deletion_receipt_survives_removal(&mut Model::initially_pending(repo())));
}

#[test]
fn pending_model_missing_preconditions_have_no_effect() {
    assert_passes(missing_preconditions_have_no_effect(&mut Model::initially_pending(repo())));
}

#[test]
fn pending_model_legacy_settings_invalidate_confirmation() {
    assert_passes(legacy_settings_invalidate_confirmation(&mut Model::initially_pending(repo())));
}

#[test]
fn pending_model_settings_reversion_keeps_confirmation_stale() {
    assert_passes(settings_reversion_keeps_confirmation_stale(&mut Model::initially_pending(repo())));
}

#[test]
fn pending_model_recreated_repository_rejects_original_confirmation() {
    assert_passes(recreated_repository_rejects_original_confirmation(&mut Model::initially_pending(repo())));
}

struct RejectingServer {
    expected: GuardedDeleteRepoRequest,
    checked: usize,
}

impl GuardedForgeProvisionService for RejectingServer {
    fn wf(&self) -> bool {
        true
    }
    fn serves(
        _pre: Self,
        _authorization: String,
        _call: GuardedCall,
        _reply: GuardedReply,
        _post: Self,
    ) -> bool {
        true
    }
    fn get_provision_snapshot(
        &mut self,
        _authorization: &String,
        _request: GetProvisionSnapshotRequest,
    ) -> Result<GetProvisionSnapshotResponse, Status> {
        Err(Status::new(Code::Unimplemented, "not implemented by this server"))
    }
    fn guarded_archive_repo(
        &mut self,
        _authorization: &String,
        _request: GuardedArchiveRepoRequest,
    ) -> Result<GuardedArchiveRepoResponse, Status> {
        Err(Status::new(Code::Unimplemented, "not implemented by this server"))
    }
    fn guarded_ensure_protection(
        &mut self,
        _authorization: &String,
        _request: GuardedEnsureProtectionRequest,
    ) -> Result<GuardedEnsureProtectionResponse, Status> {
        Err(Status::new(Code::Unimplemented, "not implemented by this server"))
    }
    fn get_provision_mutation(
        &mut self,
        _authorization: &String,
        _request: GetProvisionMutationRequest,
    ) -> Result<GetProvisionMutationResponse, Status> {
        Err(Status::new(Code::Unimplemented, "not implemented by this server"))
    }
    fn guarded_delete_repo(
        &mut self,
        authorization: &String,
        request: GuardedDeleteRepoRequest,
    ) -> Result<GuardedDeleteRepoResponse, Status> {
        if authorization != "Bearer fixture-caller" {
            return Err(Status::new(Code::PermissionDenied, "caller lacks access"));
        }
        assert!(
            request.same(&self.expected),
            "adapter must preserve every confirmation field"
        );
        self.checked += 1;
        Err(Status::new(Code::FailedPrecondition, "repository revision changed"))
    }
}

#[test]
fn grpc_adapter_preserves_caller_preconditions_and_failure_codes() {
    let expected = GuardedDeleteRepoRequest {
        repo: Some(RepoRef {
            forge: 3,
            owner: "acme".into(),
            name: "widgets".into(),
            host: String::new(),
        }),
        expected: Some(ProvisionRevision {
            incarnation: "original".into(),
            configuration: "version-7".into(),
        }),
        confirm_name: "widgets".into(),
        idempotency_key: "delete-once".into(),
    };
    let service = RejectingServer {
        expected: expected.copy(),
        checked: 0,
    };
    let mut adapter = GuardedGeetchProvisioner::new(service, "Bearer fixture-caller".to_string());
    let failure = adapter.delete(expected.copy()).err().unwrap();
    assert_eq!(failure.code(), Code::FailedPrecondition);
    assert_eq!(failure.message(), "repository revision changed");
    let service = adapter.into_service();
    assert_eq!(
        service.checked, 1,
        "no automatic retry after a stale confirmation"
    );
    let mut denied =
        GuardedGeetchProvisioner::new(service, "Bearer different-caller".to_string());
    assert_eq!(
        denied.delete(expected).err().unwrap().code(),
        Code::PermissionDenied
    );
    let service = denied.into_service();
    assert_eq!(
        service.checked, 1,
        "caller credentials must not leak between instances"
    );
    let mut adapter = GuardedGeetchProvisioner::new(service, "Bearer fixture-caller".to_string());
    assert_eq!(
        adapter
            .archive(GuardedArchiveRepoRequest::empty())
            .err()
            .unwrap()
            .code(),
        Code::Unimplemented
    );
}

fn revision(n: u32) -> Option<ProvisionRevision> {
    Some(ProvisionRevision {
        incarnation: "incarnation-1".into(),
        configuration: format!("configuration-{n}"),
    })
}

fn archive(key: &str, n: u32) -> GuardedArchiveRepoRequest {
    GuardedArchiveRepoRequest {
        repo: Some(repo()),
        expected: revision(n),
        idempotency_key: key.into(),
    }
}

fn deletion(key: &str, n: u32) -> GuardedDeleteRepoRequest {
    GuardedDeleteRepoRequest {
        repo: Some(repo()),
        expected: revision(n),
        confirm_name: "repository".into(),
        idempotency_key: key.into(),
    }
}

#[test]
fn the_model_is_driven_through_the_adapter() {
    let service = GrantedService {
        provisioner: Model::initially_pending(repo()),
        authorization: "Bearer caller".to_string(),
    };
    let mut adapter = GuardedGeetchProvisioner::new(service, "Bearer caller".to_string());
    let told = adapter.archive(archive("a", 1)).ok().unwrap().receipt.unwrap();
    assert_eq!(told.phase, ProvisionMutationPhase::Pending.number());
    assert!(told.result.is_none());
    let found = adapter
        .mutation(GetProvisionMutationRequest {
            repo: Some(repo()),
            incarnation: "incarnation-1".into(),
            idempotency_key: "a".into(),
        })
        .ok()
        .unwrap()
        .receipt
        .unwrap();
    assert_eq!(found.operation_id, "operation-1");
    assert_eq!(found.phase, ProvisionMutationPhase::Succeeded.number());
    assert!(found.resulting_revision.unwrap().same(&revision(2).unwrap()));
    let snapshot = adapter
        .snapshot(GetProvisionSnapshotRequest {
            repo: Some(repo()),
            branch: "main".into(),
        })
        .ok()
        .unwrap();
    assert_eq!(snapshot.repo.unwrap().lifecycle, RepoLifecycle::Archived.number());
    // A stranger changes nothing.
    let service = adapter.into_service();
    let mut stranger = GuardedGeetchProvisioner::new(service, "Bearer other".to_string());
    let status = stranger.delete(deletion("d", 2)).err().unwrap();
    assert_eq!(status.code(), Code::PermissionDenied);
    assert_eq!(status.message(), "caller lacks access");
    let mut adapter =
        GuardedGeetchProvisioner::new(stranger.into_service(), "Bearer caller".to_string());
    let receipt = adapter.delete(deletion("d", 2)).ok().unwrap().receipt.unwrap();
    assert_eq!(receipt.operation_id, "operation-2");
    assert!(matches!(
        receipt.result,
        Some(MutationResult::Deleted(DeletedProvisionResult { confirmed: true }))
    ));
}

#[test]
fn each_refusal_of_the_model() {
    let mut model = Model::new(repo());
    let mut code = |input: MutationRequest| model.execute(&input).err().unwrap().code();
    let mut wrong_name = deletion("k", 1);
    wrong_name.confirm_name = "other".into();
    assert_eq!(code(MutationRequest::Delete(wrong_name)), Code::InvalidArgument);
    assert_eq!(
        code(MutationRequest::Protection(GuardedEnsureProtectionRequest::empty())),
        Code::Unimplemented
    );
    let mut other = archive("k", 1);
    other.repo = None;
    assert_eq!(code(MutationRequest::Archive(other)), Code::PermissionDenied);
    assert_eq!(code(MutationRequest::Archive(archive("", 1))), Code::InvalidArgument);
    assert_eq!(code(MutationRequest::Archive(archive("k", 7))), Code::FailedPrecondition);
    assert!(model.execute(&MutationRequest::Archive(archive("k", 1))).is_ok());
    // The same request again is the same receipt; another under its key is refused.
    let again = model.execute(&MutationRequest::Archive(archive("k", 1))).ok().unwrap();
    assert_eq!(again.operation_id, "operation-1");
    assert_eq!(
        model
            .execute(&MutationRequest::Archive(archive("k", 2)))
            .err()
            .unwrap()
            .code(),
        Code::AlreadyExists
    );
    for (incarnation, key, message) in [
        ("incarnation-1", "unknown", "unknown operation"),
        ("incarnation-2", "k", "unknown incarnation"),
    ] {
        let status = model
            .mutation(GetProvisionMutationRequest {
                repo: Some(repo()),
                incarnation: incarnation.into(),
                idempotency_key: key.into(),
            })
            .err()
            .unwrap();
        assert_eq!(status.code(), Code::NotFound);
        assert_eq!(status.message(), message);
    }
}
