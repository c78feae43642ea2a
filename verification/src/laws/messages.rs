//! What an absent message reads as.

use crate::guarded::{
    ArchivedProvisionResult, DeletedProvisionResult, GetProvisionMutationRequest,
    GetProvisionMutationResponse, GetProvisionSnapshotRequest, GetProvisionSnapshotResponse,
    GuardedArchiveRepoRequest, GuardedArchiveRepoResponse, GuardedDeleteRepoRequest,
    GuardedDeleteRepoResponse, GuardedEnsureProtectionRequest, GuardedEnsureProtectionResponse,
    ProtectionSavedResult, ProvisionActor, ProvisionMutationReceipt, ProvisionRevision,
};
use crate::messages::{ChangeRef, Message, RepoRef, Trigger};
use crate::provision::{Protection, ProtectionSpec, ProvisionedRepo};
use vstd::prelude::*;

verus! {

/// A reference that is absent reads as one to nothing.
pub proof fn absent_references_are_empty(repo_ref: RepoRef, change_ref: ChangeRef)
    requires
        call_ensures(<RepoRef as Message>::empty, (), repo_ref),
        call_ensures(<ChangeRef as Message>::empty, (), change_ref),
    ensures
        repo_ref.forge == 0 && repo_ref.host@.len() == 0 && repo_ref.owner@.len() == 0
            && repo_ref.name@.len() == 0,
        change_ref.number == 0 && change_ref.url@.len() == 0 && change_ref.branch@.len() == 0
            && change_ref.id@.len() == 0,
{
}

/// A trigger that is absent reads as one that is not active, delivers nothing and nowhere.
pub proof fn absent_triggers_are_empty(trigger: Trigger)
    requires
        call_ensures(<Trigger as Message>::empty, (), trigger),
    ensures
        trigger.id@.len() == 0 && trigger.url@.len() == 0 && trigger.events@.len() == 0
            && !trigger.active && trigger.target@.len() == 0,
{
    assert(crate::messages::texts(trigger.events@).len() == trigger.events@.len());
}

/// What is absent of a repository reads as nothing said of it.
pub proof fn absent_repositories_are_empty(
    provisioned_repo: ProvisionedRepo,
    protection_spec: ProtectionSpec,
    protection: Protection,
    provision_revision: ProvisionRevision,
)
    requires
        call_ensures(<ProvisionedRepo as Message>::empty, (), provisioned_repo),
        call_ensures(<ProtectionSpec as Message>::empty, (), protection_spec),
        call_ensures(<Protection as Message>::empty, (), protection),
        call_ensures(<ProvisionRevision as Message>::empty, (), provision_revision),
    ensures
        provisioned_repo.repo is None && provisioned_repo.lifecycle == 0
            && provisioned_repo.rest@.len() == 0,
        !protection_spec.block_force_push && protection_spec.rest@.len() == 0,
        protection.branch@.len() == 0 && protection.effective is None
            && protection.unsupported@.len() == 0 && protection.rest@.len() == 0,
        provision_revision.incarnation@.len() == 0 && provision_revision.configuration@.len() == 0,
{
    assert(provisioned_repo@.repo == crate::messages::seen(provisioned_repo.repo));
    assert(protection@.effective == crate::messages::seen(protection.effective));
    assert(crate::messages::texts(protection.unsupported@).len() == protection.unsupported@.len());
}

/// A request that is absent reads as one that names nothing.
pub proof fn absent_requests_are_empty(
    get_provision_snapshot_request: GetProvisionSnapshotRequest,
    guarded_archive_repo_request: GuardedArchiveRepoRequest,
    guarded_delete_repo_request: GuardedDeleteRepoRequest,
    guarded_ensure_protection_request: GuardedEnsureProtectionRequest,
    get_provision_mutation_request: GetProvisionMutationRequest,
)
    requires
        call_ensures(
            <GetProvisionSnapshotRequest as Message>::empty,
            (),
            get_provision_snapshot_request,
        ),
        call_ensures(
            <GuardedArchiveRepoRequest as Message>::empty,
            (),
            guarded_archive_repo_request,
        ),
        call_ensures(<GuardedDeleteRepoRequest as Message>::empty, (), guarded_delete_repo_request),
        call_ensures(
            <GuardedEnsureProtectionRequest as Message>::empty,
            (),
            guarded_ensure_protection_request,
        ),
        call_ensures(
            <GetProvisionMutationRequest as Message>::empty,
            (),
            get_provision_mutation_request,
        ),
    ensures
        get_provision_snapshot_request.repo is None
            && get_provision_snapshot_request.branch@.len() == 0,
        guarded_archive_repo_request.repo is None && guarded_archive_repo_request.expected is None
            && guarded_archive_repo_request.idempotency_key@.len() == 0,
        guarded_delete_repo_request.repo is None && guarded_delete_repo_request.expected is None
            && guarded_delete_repo_request.confirm_name@.len() == 0
            && guarded_delete_repo_request.idempotency_key@.len() == 0,
        guarded_ensure_protection_request.repo is None
            && guarded_ensure_protection_request.expected is None
            && guarded_ensure_protection_request.branch@.len() == 0
            && guarded_ensure_protection_request.idempotency_key@.len() == 0
            && guarded_ensure_protection_request.rest@.len() == 0,
        get_provision_mutation_request.repo is None
            && get_provision_mutation_request.incarnation@.len() == 0
            && get_provision_mutation_request.idempotency_key@.len() == 0,
{
    assert(
        get_provision_snapshot_request@.repo == crate::messages::seen(
            get_provision_snapshot_request.repo,
        )
    );
    assert(
        guarded_archive_repo_request@.repo == crate::messages::seen(
            guarded_archive_repo_request.repo,
        )
    );
    assert(
        guarded_archive_repo_request@.expected == crate::messages::seen(
            guarded_archive_repo_request.expected,
        )
    );
    assert(
        guarded_delete_repo_request@.repo == crate::messages::seen(
            guarded_delete_repo_request.repo,
        )
    );
    assert(
        guarded_delete_repo_request@.expected == crate::messages::seen(
            guarded_delete_repo_request.expected,
        )
    );
    assert(
        guarded_ensure_protection_request@.repo == crate::messages::seen(
            guarded_ensure_protection_request.repo,
        )
    );
    assert(
        guarded_ensure_protection_request@.expected == crate::messages::seen(
            guarded_ensure_protection_request.expected,
        )
    );
    assert(
        get_provision_mutation_request@.repo == crate::messages::seen(
            get_provision_mutation_request.repo,
        )
    );
}

/// An outcome that is absent reads as one that nothing came of.
pub proof fn absent_outcomes_are_empty(
    get_provision_snapshot_response: GetProvisionSnapshotResponse,
    archived_provision_result: ArchivedProvisionResult,
    deleted_provision_result: DeletedProvisionResult,
    protection_saved_result: ProtectionSavedResult,
    provision_actor: ProvisionActor,
    provision_mutation_receipt: ProvisionMutationReceipt,
    guarded_archive_repo_response: GuardedArchiveRepoResponse,
    guarded_delete_repo_response: GuardedDeleteRepoResponse,
    guarded_ensure_protection_response: GuardedEnsureProtectionResponse,
    get_provision_mutation_response: GetProvisionMutationResponse,
)
    requires
        call_ensures(
            <GetProvisionSnapshotResponse as Message>::empty,
            (),
            get_provision_snapshot_response,
        ),
        call_ensures(<ArchivedProvisionResult as Message>::empty, (), archived_provision_result),
        call_ensures(<DeletedProvisionResult as Message>::empty, (), deleted_provision_result),
        call_ensures(<ProtectionSavedResult as Message>::empty, (), protection_saved_result),
        call_ensures(<ProvisionActor as Message>::empty, (), provision_actor),
        call_ensures(<ProvisionMutationReceipt as Message>::empty, (), provision_mutation_receipt),
        call_ensures(
            <GuardedArchiveRepoResponse as Message>::empty,
            (),
            guarded_archive_repo_response,
        ),
        call_ensures(
            <GuardedDeleteRepoResponse as Message>::empty,
            (),
            guarded_delete_repo_response,
        ),
        call_ensures(
            <GuardedEnsureProtectionResponse as Message>::empty,
            (),
            guarded_ensure_protection_response,
        ),
        call_ensures(
            <GetProvisionMutationResponse as Message>::empty,
            (),
            get_provision_mutation_response,
        ),
    ensures
        !get_provision_snapshot_response.found && get_provision_snapshot_response.repo is None
            && get_provision_snapshot_response.revision is None
            && get_provision_snapshot_response.branch@.len() == 0
            && !get_provision_snapshot_response.protection_found
            && get_provision_snapshot_response.protection is None,
        archived_provision_result.repo is None,
        !deleted_provision_result.confirmed,
        protection_saved_result.protection is None,
        provision_actor.issuer@.len() == 0 && provision_actor.subject@.len() == 0,
        provision_mutation_receipt.operation_id@.len() == 0
            && provision_mutation_receipt.actor is None
            && provision_mutation_receipt.request is None && provision_mutation_receipt.phase == 0
            && provision_mutation_receipt.result is None
            && provision_mutation_receipt.resulting_revision is None
            && provision_mutation_receipt.created_at_unix_seconds == 0
            && provision_mutation_receipt.updated_at_unix_seconds == 0
            && provision_mutation_receipt.rest@.len() == 0,
        guarded_archive_repo_response.receipt is None,
        guarded_delete_repo_response.receipt is None,
        guarded_ensure_protection_response.receipt is None,
        get_provision_mutation_response.receipt is None,
{
    assert(
        get_provision_snapshot_response@.repo == crate::messages::seen(
            get_provision_snapshot_response.repo,
        )
    );
    assert(
        get_provision_snapshot_response@.revision == crate::messages::seen(
            get_provision_snapshot_response.revision,
        )
    );
    assert(
        get_provision_snapshot_response@.protection == crate::messages::seen(
            get_provision_snapshot_response.protection,
        )
    );
    assert(
        archived_provision_result@.repo == crate::messages::seen(archived_provision_result.repo)
    );
    assert(
        protection_saved_result@.protection == crate::messages::seen(
            protection_saved_result.protection,
        )
    );
    assert(
        provision_mutation_receipt@.actor == crate::messages::seen(
            provision_mutation_receipt.actor,
        )
    );
    assert(
        provision_mutation_receipt@.request == crate::messages::seen(
            provision_mutation_receipt.request,
        )
    );
    assert(
        provision_mutation_receipt@.result == crate::messages::seen(
            provision_mutation_receipt.result,
        )
    );
    assert(
        provision_mutation_receipt@.resulting_revision == crate::messages::seen(
            provision_mutation_receipt.resulting_revision,
        )
    );
    assert(
        guarded_archive_repo_response@.receipt == crate::messages::seen(
            guarded_archive_repo_response.receipt,
        )
    );
    assert(
        guarded_delete_repo_response@.receipt == crate::messages::seen(
            guarded_delete_repo_response.receipt,
        )
    );
    assert(
        guarded_ensure_protection_response@.receipt == crate::messages::seen(
            guarded_ensure_protection_response.receipt,
        )
    );
    assert(
        get_provision_mutation_response@.receipt == crate::messages::seen(
            get_provision_mutation_response.receipt,
        )
    );
}

} // verus!
