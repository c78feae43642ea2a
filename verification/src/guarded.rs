//! Guarded provisioning never falls back to unconditional mutations.
//!
//! Status codes are preserved so callers distinguish stale confirmation, denied access,
//! and an unsupported server. A reply that does not answer the request is not handed on.

use crate::messages::{
    copy_bytes, copy_opt, same_bytes, same_opt, seen, Message, RepoRef, RepoRefView,
};
use crate::provision::{
    Protection, ProtectionView, ProvisionedRepo, ProvisionedRepoView, RepoLifecycle,
};
use crate::status::{outcome, Code, Status, StatusView};
use crate::text::same;
use vstd::prelude::*;

verus! {

// ── messages ────────────────────────────────────────────────────────────────

/// A version of a repository: which one it is, and how it is configured.
#[derive(Debug)]
pub struct ProvisionRevision {
    pub incarnation: String,
    pub configuration: String,
}

/// [`ProvisionRevision`] by its characters.
pub struct ProvisionRevisionView {
    pub incarnation: Seq<char>,
    pub configuration: Seq<char>,
}

impl View for ProvisionRevision {
    type V = ProvisionRevisionView;

    open spec fn view(&self) -> ProvisionRevisionView {
        ProvisionRevisionView {
            incarnation: self.incarnation@,
            configuration: self.configuration@,
        }
    }
}

impl Message for ProvisionRevision {
    open spec fn blank() -> ProvisionRevisionView {
        ProvisionRevisionView {
            incarnation: Seq::empty(),
            configuration: Seq::empty(),
        }
    }

    fn empty() -> (r: Self) {
        let r = ProvisionRevision {
            incarnation: String::new(),
            configuration: String::new(),
        };
        r
    }

    fn copy(&self) -> (r: Self) {
        ProvisionRevision {
            incarnation: self.incarnation.clone(),
            configuration: self.configuration.clone(),
        }
    }

    fn same(&self, other: &Self) -> (r: bool) {
        self.incarnation == other.incarnation
            && self.configuration == other.configuration
    }
}

/// Asks for a repository as it is, with the protection of a branch.
#[derive(Debug)]
pub struct GetProvisionSnapshotRequest {
    pub repo: Option<RepoRef>,
    pub branch: String,
}

/// [`GetProvisionSnapshotRequest`] by its characters.
pub struct GetProvisionSnapshotRequestView {
    pub repo: Option<RepoRefView>,
    pub branch: Seq<char>,
}

impl View for GetProvisionSnapshotRequest {
    type V = GetProvisionSnapshotRequestView;

    open spec fn view(&self) -> GetProvisionSnapshotRequestView {
        GetProvisionSnapshotRequestView {
            repo: seen(self.repo),
            branch: self.branch@,
        }
    }
}

impl Message for GetProvisionSnapshotRequest {
    open spec fn blank() -> GetProvisionSnapshotRequestView {
        GetProvisionSnapshotRequestView {
            repo: None,
            branch: Seq::empty(),
        }
    }

    fn empty() -> (r: Self) {
        let r = GetProvisionSnapshotRequest {
            repo: None,
            branch: String::new(),
        };
        r
    }

    fn copy(&self) -> (r: Self) {
        GetProvisionSnapshotRequest {
            repo: copy_opt(&self.repo),
            branch: self.branch.clone(),
        }
    }

    fn same(&self, other: &Self) -> (r: bool) {
        same_opt(&self.repo, &other.repo)
            && self.branch == other.branch
    }
}

/// A repository as it is.
#[derive(Debug)]
pub struct GetProvisionSnapshotResponse {
    pub found: bool,
    pub repo: Option<ProvisionedRepo>,
    pub revision: Option<ProvisionRevision>,
    pub branch: String,
    pub protection_found: bool,
    pub protection: Option<Protection>,
}

/// [`GetProvisionSnapshotResponse`] by its characters.
pub struct GetProvisionSnapshotResponseView {
    pub found: bool,
    pub repo: Option<ProvisionedRepoView>,
    pub revision: Option<ProvisionRevisionView>,
    pub branch: Seq<char>,
    pub protection_found: bool,
    pub protection: Option<ProtectionView>,
}

impl View for GetProvisionSnapshotResponse {
    type V = GetProvisionSnapshotResponseView;

    open spec fn view(&self) -> GetProvisionSnapshotResponseView {
        GetProvisionSnapshotResponseView {
            found: self.found,
            repo: seen(self.repo),
            revision: seen(self.revision),
            branch: self.branch@,
            protection_found: self.protection_found,
            protection: seen(self.protection),
        }
    }
}

impl Message for GetProvisionSnapshotResponse {
    open spec fn blank() -> GetProvisionSnapshotResponseView {
        GetProvisionSnapshotResponseView {
            found: false,
            repo: None,
            revision: None,
            branch: Seq::empty(),
            protection_found: false,
            protection: None,
        }
    }

    fn empty() -> (r: Self) {
        let r = GetProvisionSnapshotResponse {
            found: false,
            repo: None,
            revision: None,
            branch: String::new(),
            protection_found: false,
            protection: None,
        };
        r
    }

    fn copy(&self) -> (r: Self) {
        GetProvisionSnapshotResponse {
            found: self.found,
            repo: copy_opt(&self.repo),
            revision: copy_opt(&self.revision),
            branch: self.branch.clone(),
            protection_found: self.protection_found,
            protection: copy_opt(&self.protection),
        }
    }

    fn same(&self, other: &Self) -> (r: bool) {
        self.found == other.found
            && same_opt(&self.repo, &other.repo)
            && same_opt(&self.revision, &other.revision)
            && self.branch == other.branch
            && self.protection_found == other.protection_found
            && same_opt(&self.protection, &other.protection)
    }
}

/// Archive a repository that is still at the expected revision.
#[derive(Debug)]
pub struct GuardedArchiveRepoRequest {
    pub repo: Option<RepoRef>,
    pub expected: Option<ProvisionRevision>,
    pub idempotency_key: String,
}

/// [`GuardedArchiveRepoRequest`] by its characters.
pub struct GuardedArchiveRepoRequestView {
    pub repo: Option<RepoRefView>,
    pub expected: Option<ProvisionRevisionView>,
    pub idempotency_key: Seq<char>,
}

impl View for GuardedArchiveRepoRequest {
    type V = GuardedArchiveRepoRequestView;

    open spec fn view(&self) -> GuardedArchiveRepoRequestView {
        GuardedArchiveRepoRequestView {
            repo: seen(self.repo),
            expected: seen(self.expected),
            idempotency_key: self.idempotency_key@,
        }
    }
}

impl Message for GuardedArchiveRepoRequest {
    open spec fn blank() -> GuardedArchiveRepoRequestView {
        GuardedArchiveRepoRequestView {
            repo: None,
            expected: None,
            idempotency_key: Seq::empty(),
        }
    }

    fn empty() -> (r: Self) {
        let r = GuardedArchiveRepoRequest {
            repo: None,
            expected: None,
            idempotency_key: String::new(),
        };
        r
    }

    fn copy(&self) -> (r: Self) {
        GuardedArchiveRepoRequest {
            repo: copy_opt(&self.repo),
            expected: copy_opt(&self.expected),
            idempotency_key: self.idempotency_key.clone(),
        }
    }

    fn same(&self, other: &Self) -> (r: bool) {
        same_opt(&self.repo, &other.repo)
            && same_opt(&self.expected, &other.expected)
            && self.idempotency_key == other.idempotency_key
    }
}

/// Delete a repository that is still at the expected revision.
#[derive(Debug)]
pub struct GuardedDeleteRepoRequest {
    pub repo: Option<RepoRef>,
    pub expected: Option<ProvisionRevision>,
    pub confirm_name: String,
    pub idempotency_key: String,
}

/// [`GuardedDeleteRepoRequest`] by its characters.
pub struct GuardedDeleteRepoRequestView {
    pub repo: Option<RepoRefView>,
    pub expected: Option<ProvisionRevisionView>,
    pub confirm_name: Seq<char>,
    pub idempotency_key: Seq<char>,
}

impl View for GuardedDeleteRepoRequest {
    type V = GuardedDeleteRepoRequestView;

    open spec fn view(&self) -> GuardedDeleteRepoRequestView {
        GuardedDeleteRepoRequestView {
            repo: seen(self.repo),
            expected: seen(self.expected),
            confirm_name: self.confirm_name@,
            idempotency_key: self.idempotency_key@,
        }
    }
}

impl Message for GuardedDeleteRepoRequest {
    open spec fn blank() -> GuardedDeleteRepoRequestView {
        GuardedDeleteRepoRequestView {
            repo: None,
            expected: None,
            confirm_name: Seq::empty(),
            idempotency_key: Seq::empty(),
        }
    }

    fn empty() -> (r: Self) {
        let r = GuardedDeleteRepoRequest {
            repo: None,
            expected: None,
            confirm_name: String::new(),
            idempotency_key: String::new(),
        };
        r
    }

    fn copy(&self) -> (r: Self) {
        GuardedDeleteRepoRequest {
            repo: copy_opt(&self.repo),
            expected: copy_opt(&self.expected),
            confirm_name: self.confirm_name.clone(),
            idempotency_key: self.idempotency_key.clone(),
        }
    }

    fn same(&self, other: &Self) -> (r: bool) {
        same_opt(&self.repo, &other.repo)
            && same_opt(&self.expected, &other.expected)
            && self.confirm_name == other.confirm_name
            && self.idempotency_key == other.idempotency_key
    }
}

/// Protect a branch of a repository that is still at the expected revision.
#[derive(Debug)]
pub struct GuardedEnsureProtectionRequest {
    pub repo: Option<RepoRef>,
    pub expected: Option<ProvisionRevision>,
    pub branch: String,
    pub idempotency_key: String,
    pub rest: Vec<u8>,
}

/// [`GuardedEnsureProtectionRequest`] by its characters.
pub struct GuardedEnsureProtectionRequestView {
    pub repo: Option<RepoRefView>,
    pub expected: Option<ProvisionRevisionView>,
    pub branch: Seq<char>,
    pub idempotency_key: Seq<char>,
    pub rest: Seq<u8>,
}

impl View for GuardedEnsureProtectionRequest {
    type V = GuardedEnsureProtectionRequestView;

    open spec fn view(&self) -> GuardedEnsureProtectionRequestView {
        GuardedEnsureProtectionRequestView {
            repo: seen(self.repo),
            expected: seen(self.expected),
            branch: self.branch@,
            idempotency_key: self.idempotency_key@,
            rest: self.rest@,
        }
    }
}

impl Message for GuardedEnsureProtectionRequest {
    open spec fn blank() -> GuardedEnsureProtectionRequestView {
        GuardedEnsureProtectionRequestView {
            repo: None,
            expected: None,
            branch: Seq::empty(),
            idempotency_key: Seq::empty(),
            rest: Seq::empty(),
        }
    }

    fn empty() -> (r: Self) {
        let r = GuardedEnsureProtectionRequest {
            repo: None,
            expected: None,
            branch: String::new(),
            idempotency_key: String::new(),
            rest: Vec::new(),
        };
        r
    }

    fn copy(&self) -> (r: Self) {
        GuardedEnsureProtectionRequest {
            repo: copy_opt(&self.repo),
            expected: copy_opt(&self.expected),
            branch: self.branch.clone(),
            idempotency_key: self.idempotency_key.clone(),
            rest: copy_bytes(&self.rest),
        }
    }

    fn same(&self, other: &Self) -> (r: bool) {
        same_opt(&self.repo, &other.repo)
            && same_opt(&self.expected, &other.expected)
            && self.branch == other.branch
            && self.idempotency_key == other.idempotency_key
            && same_bytes(&self.rest, &other.rest)
    }
}

/// Asks for the receipt of an operation.
#[derive(Debug)]
pub struct GetProvisionMutationRequest {
    pub repo: Option<RepoRef>,
    pub incarnation: String,
    pub idempotency_key: String,
}

/// [`GetProvisionMutationRequest`] by its characters.
pub struct GetProvisionMutationRequestView {
    pub repo: Option<RepoRefView>,
    pub incarnation: Seq<char>,
    pub idempotency_key: Seq<char>,
}

impl View for GetProvisionMutationRequest {
    type V = GetProvisionMutationRequestView;

    open spec fn view(&self) -> GetProvisionMutationRequestView {
        GetProvisionMutationRequestView {
            repo: seen(self.repo),
            incarnation: self.incarnation@,
            idempotency_key: self.idempotency_key@,
        }
    }
}

impl Message for GetProvisionMutationRequest {
    open spec fn blank() -> GetProvisionMutationRequestView {
        GetProvisionMutationRequestView {
            repo: None,
            incarnation: Seq::empty(),
            idempotency_key: Seq::empty(),
        }
    }

    fn empty() -> (r: Self) {
        let r = GetProvisionMutationRequest {
            repo: None,
            incarnation: String::new(),
            idempotency_key: String::new(),
        };
        r
    }

    fn copy(&self) -> (r: Self) {
        GetProvisionMutationRequest {
            repo: copy_opt(&self.repo),
            incarnation: self.incarnation.clone(),
            idempotency_key: self.idempotency_key.clone(),
        }
    }

    fn same(&self, other: &Self) -> (r: bool) {
        same_opt(&self.repo, &other.repo)
            && self.incarnation == other.incarnation
            && self.idempotency_key == other.idempotency_key
    }
}

/// The request that an operation carries out.
#[derive(Debug)]
pub enum MutationRequest {
    Archive(GuardedArchiveRepoRequest),
    Delete(GuardedDeleteRepoRequest),
    Protection(GuardedEnsureProtectionRequest),
}

/// [`MutationRequest`] by its characters.
pub enum MutationRequestView {
    Archive(GuardedArchiveRepoRequestView),
    Delete(GuardedDeleteRepoRequestView),
    Protection(GuardedEnsureProtectionRequestView),
}

impl View for MutationRequest {
    type V = MutationRequestView;

    open spec fn view(&self) -> MutationRequestView {
        match *self {
            MutationRequest::Archive(m) => MutationRequestView::Archive(m@),
            MutationRequest::Delete(m) => MutationRequestView::Delete(m@),
            MutationRequest::Protection(m) => MutationRequestView::Protection(m@),
        }
    }
}

impl Message for MutationRequest {
    open spec fn blank() -> MutationRequestView {
        MutationRequestView::Archive(GuardedArchiveRepoRequest::blank())
    }

    fn empty() -> (r: Self) {
        MutationRequest::Archive(GuardedArchiveRepoRequest::empty())
    }

    fn copy(&self) -> (r: Self) {
        match self {
            MutationRequest::Archive(m) => MutationRequest::Archive(m.copy()),
            MutationRequest::Delete(m) => MutationRequest::Delete(m.copy()),
            MutationRequest::Protection(m) => MutationRequest::Protection(m.copy()),
        }
    }

    fn same(&self, other: &Self) -> (r: bool) {
        match (self, other) {
            (MutationRequest::Archive(a), MutationRequest::Archive(b)) => a.same(b),
            (MutationRequest::Delete(a), MutationRequest::Delete(b)) => a.same(b),
            (MutationRequest::Protection(a), MutationRequest::Protection(b)) => a.same(b),
            _ => false,
        }
    }
}

/// What archiving came to.
#[derive(Debug)]
pub struct ArchivedProvisionResult {
    pub repo: Option<ProvisionedRepo>,
}

/// [`ArchivedProvisionResult`] by its characters.
pub struct ArchivedProvisionResultView {
    pub repo: Option<ProvisionedRepoView>,
}

impl View for ArchivedProvisionResult {
    type V = ArchivedProvisionResultView;

    open spec fn view(&self) -> ArchivedProvisionResultView {
        ArchivedProvisionResultView {
            repo: seen(self.repo),
        }
    }
}

impl Message for ArchivedProvisionResult {
    open spec fn blank() -> ArchivedProvisionResultView {
        ArchivedProvisionResultView {
            repo: None,
        }
    }

    fn empty() -> (r: Self) {
        let r = ArchivedProvisionResult {
            repo: None,
        };
        r
    }

    fn copy(&self) -> (r: Self) {
        ArchivedProvisionResult {
            repo: copy_opt(&self.repo),
        }
    }

    fn same(&self, other: &Self) -> (r: bool) {
        same_opt(&self.repo, &other.repo)
    }
}

/// What deletion came to.
#[derive(Debug)]
pub struct DeletedProvisionResult {
    pub confirmed: bool,
}

/// [`DeletedProvisionResult`] by its characters.
pub struct DeletedProvisionResultView {
    pub confirmed: bool,
}

impl View for DeletedProvisionResult {
    type V = DeletedProvisionResultView;

    open spec fn view(&self) -> DeletedProvisionResultView {
        DeletedProvisionResultView {
            confirmed: self.confirmed,
        }
    }
}

impl Message for DeletedProvisionResult {
    open spec fn blank() -> DeletedProvisionResultView {
        DeletedProvisionResultView {
            confirmed: false,
        }
    }

    fn empty() -> (r: Self) {
        let r = DeletedProvisionResult {
            confirmed: false,
        };
        r
    }

    fn copy(&self) -> (r: Self) {
        DeletedProvisionResult {
            confirmed: self.confirmed,
        }
    }

    fn same(&self, other: &Self) -> (r: bool) {
        self.confirmed == other.confirmed
    }
}

/// What protecting came to.
#[derive(Debug)]
pub struct ProtectionSavedResult {
    pub protection: Option<Protection>,
}

/// [`ProtectionSavedResult`] by its characters.
pub struct ProtectionSavedResultView {
    pub protection: Option<ProtectionView>,
}

impl View for ProtectionSavedResult {
    type V = ProtectionSavedResultView;

    open spec fn view(&self) -> ProtectionSavedResultView {
        ProtectionSavedResultView {
            protection: seen(self.protection),
        }
    }
}

impl Message for ProtectionSavedResult {
    open spec fn blank() -> ProtectionSavedResultView {
        ProtectionSavedResultView {
            protection: None,
        }
    }

    fn empty() -> (r: Self) {
        let r = ProtectionSavedResult {
            protection: None,
        };
        r
    }

    fn copy(&self) -> (r: Self) {
        ProtectionSavedResult {
            protection: copy_opt(&self.protection),
        }
    }

    fn same(&self, other: &Self) -> (r: bool) {
        same_opt(&self.protection, &other.protection)
    }
}

/// What an operation came to.
#[derive(Debug)]
pub enum MutationResult {
    Archived(ArchivedProvisionResult),
    Deleted(DeletedProvisionResult),
    ProtectionSaved(ProtectionSavedResult),
}

/// [`MutationResult`] by its characters.
pub enum MutationResultView {
    Archived(ArchivedProvisionResultView),
    Deleted(DeletedProvisionResultView),
    ProtectionSaved(ProtectionSavedResultView),
}

impl View for MutationResult {
    type V = MutationResultView;

    open spec fn view(&self) -> MutationResultView {
        match *self {
            MutationResult::Archived(m) => MutationResultView::Archived(m@),
            MutationResult::Deleted(m) => MutationResultView::Deleted(m@),
            MutationResult::ProtectionSaved(m) => MutationResultView::ProtectionSaved(m@),
        }
    }
}

impl Message for MutationResult {
    open spec fn blank() -> MutationResultView {
        MutationResultView::Archived(ArchivedProvisionResult::blank())
    }

    fn empty() -> (r: Self) {
        MutationResult::Archived(ArchivedProvisionResult::empty())
    }

    fn copy(&self) -> (r: Self) {
        match self {
            MutationResult::Archived(m) => MutationResult::Archived(m.copy()),
            MutationResult::Deleted(m) => MutationResult::Deleted(m.copy()),
            MutationResult::ProtectionSaved(m) => MutationResult::ProtectionSaved(m.copy()),
        }
    }

    fn same(&self, other: &Self) -> (r: bool) {
        match (self, other) {
            (MutationResult::Archived(a), MutationResult::Archived(b)) => a.same(b),
            (MutationResult::Deleted(a), MutationResult::Deleted(b)) => a.same(b),
            (MutationResult::ProtectionSaved(a), MutationResult::ProtectionSaved(b)) => a.same(b),
            _ => false,
        }
    }
}

/// Who asked for an operation, as the server verified it.
#[derive(Debug)]
pub struct ProvisionActor {
    pub issuer: String,
    pub subject: String,
}

/// [`ProvisionActor`] by its characters.
pub struct ProvisionActorView {
    pub issuer: Seq<char>,
    pub subject: Seq<char>,
}

impl View for ProvisionActor {
    type V = ProvisionActorView;

    open spec fn view(&self) -> ProvisionActorView {
        ProvisionActorView {
            issuer: self.issuer@,
            subject: self.subject@,
        }
    }
}

impl Message for ProvisionActor {
    open spec fn blank() -> ProvisionActorView {
        ProvisionActorView {
            issuer: Seq::empty(),
            subject: Seq::empty(),
        }
    }

    fn empty() -> (r: Self) {
        let r = ProvisionActor {
            issuer: String::new(),
            subject: String::new(),
        };
        r
    }

    fn copy(&self) -> (r: Self) {
        ProvisionActor {
            issuer: self.issuer.clone(),
            subject: self.subject.clone(),
        }
    }

    fn same(&self, other: &Self) -> (r: bool) {
        self.issuer == other.issuer
            && self.subject == other.subject
    }
}

/// The record of an operation.
#[derive(Debug)]
pub struct ProvisionMutationReceipt {
    pub operation_id: String,
    pub actor: Option<ProvisionActor>,
    pub request: Option<MutationRequest>,
    pub phase: i32,
    pub result: Option<MutationResult>,
    pub resulting_revision: Option<ProvisionRevision>,
    pub created_at_unix_seconds: i64,
    pub updated_at_unix_seconds: i64,
    pub rest: Vec<u8>,
}

/// [`ProvisionMutationReceipt`] by its characters.
pub struct ProvisionMutationReceiptView {
    pub operation_id: Seq<char>,
    pub actor: Option<ProvisionActorView>,
    pub request: Option<MutationRequestView>,
    pub phase: i32,
    pub result: Option<MutationResultView>,
    pub resulting_revision: Option<ProvisionRevisionView>,
    pub created_at_unix_seconds: i64,
    pub updated_at_unix_seconds: i64,
    pub rest: Seq<u8>,
}

impl View for ProvisionMutationReceipt {
    type V = ProvisionMutationReceiptView;

    open spec fn view(&self) -> ProvisionMutationReceiptView {
        ProvisionMutationReceiptView {
            operation_id: self.operation_id@,
            actor: seen(self.actor),
            request: seen(self.request),
            phase: self.phase,
            result: seen(self.result),
            resulting_revision: seen(self.resulting_revision),
            created_at_unix_seconds: self.created_at_unix_seconds,
            updated_at_unix_seconds: self.updated_at_unix_seconds,
            rest: self.rest@,
        }
    }
}

impl Message for ProvisionMutationReceipt {
    open spec fn blank() -> ProvisionMutationReceiptView {
        ProvisionMutationReceiptView {
            operation_id: Seq::empty(),
            actor: None,
            request: None,
            phase: 0,
            result: None,
            resulting_revision: None,
            created_at_unix_seconds: 0,
            updated_at_unix_seconds: 0,
            rest: Seq::empty(),
        }
    }

    fn empty() -> (r: Self) {
        let r = ProvisionMutationReceipt {
            operation_id: String::new(),
            actor: None,
            request: None,
            phase: 0,
            result: None,
            resulting_revision: None,
            created_at_unix_seconds: 0,
            updated_at_unix_seconds: 0,
            rest: Vec::new(),
        };
        r
    }

    fn copy(&self) -> (r: Self) {
        ProvisionMutationReceipt {
            operation_id: self.operation_id.clone(),
            actor: copy_opt(&self.actor),
            request: copy_opt(&self.request),
            phase: self.phase,
            result: copy_opt(&self.result),
            resulting_revision: copy_opt(&self.resulting_revision),
            created_at_unix_seconds: self.created_at_unix_seconds,
            updated_at_unix_seconds: self.updated_at_unix_seconds,
            rest: copy_bytes(&self.rest),
        }
    }

    fn same(&self, other: &Self) -> (r: bool) {
        self.operation_id == other.operation_id
            && same_opt(&self.actor, &other.actor)
            && same_opt(&self.request, &other.request)
            && self.phase == other.phase
            && same_opt(&self.result, &other.result)
            && same_opt(&self.resulting_revision, &other.resulting_revision)
            && self.created_at_unix_seconds == other.created_at_unix_seconds
            && self.updated_at_unix_seconds == other.updated_at_unix_seconds
            && same_bytes(&self.rest, &other.rest)
    }
}

/// The receipt of an archive.
#[derive(Debug)]
pub struct GuardedArchiveRepoResponse {
    pub receipt: Option<ProvisionMutationReceipt>,
}

/// [`GuardedArchiveRepoResponse`] by its characters.
pub struct GuardedArchiveRepoResponseView {
    pub receipt: Option<ProvisionMutationReceiptView>,
}

impl View for GuardedArchiveRepoResponse {
    type V = GuardedArchiveRepoResponseView;

    open spec fn view(&self) -> GuardedArchiveRepoResponseView {
        GuardedArchiveRepoResponseView {
            receipt: seen(self.receipt),
        }
    }
}

impl Message for GuardedArchiveRepoResponse {
    open spec fn blank() -> GuardedArchiveRepoResponseView {
        GuardedArchiveRepoResponseView {
            receipt: None,
        }
    }

    fn empty() -> (r: Self) {
        let r = GuardedArchiveRepoResponse {
            receipt: None,
        };
        r
    }

    fn copy(&self) -> (r: Self) {
        GuardedArchiveRepoResponse {
            receipt: copy_opt(&self.receipt),
        }
    }

    fn same(&self, other: &Self) -> (r: bool) {
        same_opt(&self.receipt, &other.receipt)
    }
}

/// The receipt of a deletion.
#[derive(Debug)]
pub struct GuardedDeleteRepoResponse {
    pub receipt: Option<ProvisionMutationReceipt>,
}

/// [`GuardedDeleteRepoResponse`] by its characters.
pub struct GuardedDeleteRepoResponseView {
    pub receipt: Option<ProvisionMutationReceiptView>,
}

impl View for GuardedDeleteRepoResponse {
    type V = GuardedDeleteRepoResponseView;

    open spec fn view(&self) -> GuardedDeleteRepoResponseView {
        GuardedDeleteRepoResponseView {
            receipt: seen(self.receipt),
        }
    }
}

impl Message for GuardedDeleteRepoResponse {
    open spec fn blank() -> GuardedDeleteRepoResponseView {
        GuardedDeleteRepoResponseView {
            receipt: None,
        }
    }

    fn empty() -> (r: Self) {
        let r = GuardedDeleteRepoResponse {
            receipt: None,
        };
        r
    }

    fn copy(&self) -> (r: Self) {
        GuardedDeleteRepoResponse {
            receipt: copy_opt(&self.receipt),
        }
    }

    fn same(&self, other: &Self) -> (r: bool) {
        same_opt(&self.receipt, &other.receipt)
    }
}

/// The receipt of a protection.
#[derive(Debug)]
pub struct GuardedEnsureProtectionResponse {
    pub receipt: Option<ProvisionMutationReceipt>,
}

/// [`GuardedEnsureProtectionResponse`] by its characters.
pub struct GuardedEnsureProtectionResponseView {
    pub receipt: Option<ProvisionMutationReceiptView>,
}

impl View for GuardedEnsureProtectionResponse {
    type V = GuardedEnsureProtectionResponseView;

    open spec fn view(&self) -> GuardedEnsureProtectionResponseView {
        GuardedEnsureProtectionResponseView {
            receipt: seen(self.receipt),
        }
    }
}

impl Message for GuardedEnsureProtectionResponse {
    open spec fn blank() -> GuardedEnsureProtectionResponseView {
        GuardedEnsureProtectionResponseView {
            receipt: None,
        }
    }

    fn empty() -> (r: Self) {
        let r = GuardedEnsureProtectionResponse {
            receipt: None,
        };
        r
    }

    fn copy(&self) -> (r: Self) {
        GuardedEnsureProtectionResponse {
            receipt: copy_opt(&self.receipt),
        }
    }

    fn same(&self, other: &Self) -> (r: bool) {
        same_opt(&self.receipt, &other.receipt)
    }
}

/// The receipt that was asked for.
#[derive(Debug)]
pub struct GetProvisionMutationResponse {
    pub receipt: Option<ProvisionMutationReceipt>,
}

/// [`GetProvisionMutationResponse`] by its characters.
pub struct GetProvisionMutationResponseView {
    pub receipt: Option<ProvisionMutationReceiptView>,
}

impl View for GetProvisionMutationResponse {
    type V = GetProvisionMutationResponseView;

    open spec fn view(&self) -> GetProvisionMutationResponseView {
        GetProvisionMutationResponseView {
            receipt: seen(self.receipt),
        }
    }
}

impl Message for GetProvisionMutationResponse {
    open spec fn blank() -> GetProvisionMutationResponseView {
        GetProvisionMutationResponseView {
            receipt: None,
        }
    }

    fn empty() -> (r: Self) {
        let r = GetProvisionMutationResponse {
            receipt: None,
        };
        r
    }

    fn copy(&self) -> (r: Self) {
        GetProvisionMutationResponse {
            receipt: copy_opt(&self.receipt),
        }
    }

    fn same(&self, other: &Self) -> (r: bool) {
        same_opt(&self.receipt, &other.receipt)
    }
}

/// How far an operation has come.
#[derive(Debug, Clone, Copy, PartialEq, Eq, Structural)]
pub enum ProvisionMutationPhase {
    Unspecified,
    Pending,
    Succeeded,
    Failed,
    ReconciliationRequired,
}

impl ProvisionMutationPhase {
    /// The number that stands for the phase in a message.
    pub open spec fn wire(self) -> i32 {
        match self {
            ProvisionMutationPhase::Unspecified => 0,
            ProvisionMutationPhase::Pending => 1,
            ProvisionMutationPhase::Succeeded => 2,
            ProvisionMutationPhase::Failed => 3,
            ProvisionMutationPhase::ReconciliationRequired => 4,
        }
    }

    pub fn number(self) -> (r: i32)
        ensures
            r == self.wire(),
    {
        match self {
            ProvisionMutationPhase::Unspecified => 0,
            ProvisionMutationPhase::Pending => 1,
            ProvisionMutationPhase::Succeeded => 2,
            ProvisionMutationPhase::Failed => 3,
            ProvisionMutationPhase::ReconciliationRequired => 4,
        }
    }

    /// The phase that a number stands for, where it stands for one.
    pub open spec fn of(n: i32) -> Option<ProvisionMutationPhase> {
        if n == 0 {
            Some(ProvisionMutationPhase::Unspecified)
        } else if n == 1 {
            Some(ProvisionMutationPhase::Pending)
        } else if n == 2 {
            Some(ProvisionMutationPhase::Succeeded)
        } else if n == 3 {
            Some(ProvisionMutationPhase::Failed)
        } else if n == 4 {
            Some(ProvisionMutationPhase::ReconciliationRequired)
        } else {
            None
        }
    }

    pub fn from_number(n: i32) -> (r: Option<Self>)
        ensures
            r == ProvisionMutationPhase::of(n),
    {
        match n {
            0 => Some(ProvisionMutationPhase::Unspecified),
            1 => Some(ProvisionMutationPhase::Pending),
            2 => Some(ProvisionMutationPhase::Succeeded),
            3 => Some(ProvisionMutationPhase::Failed),
            4 => Some(ProvisionMutationPhase::ReconciliationRequired),
            _ => None,
        }
    }
}

/// A phase that is written is read back.
pub proof fn phases_read_back(phase: ProvisionMutationPhase)
    ensures
        ProvisionMutationPhase::of(phase.wire()) == Some(phase),
{
}

// ── what a reply must say ───────────────────────────────────────────────────

/// The revision is there and complete.
pub open spec fn complete(revision: Option<ProvisionRevisionView>) -> bool {
    match revision {
        Some(v) => v.incarnation.len() > 0 && v.configuration.len() > 0,
        None => false,
    }
}

pub fn revision_valid(value: &Option<ProvisionRevision>) -> (r: bool)
    ensures
        r == complete(seen(*value)),
{
    match value {
        Some(v) => !v.incarnation.as_str().is_empty() && !v.configuration.as_str().is_empty(),
        None => false,
    }
}

/// The snapshot answers the request: of the same branch, and either nothing at all or
/// the same repository at a complete revision, with that branch's protection where it
/// says that there is one.
pub open spec fn snapshot_answers(
    response: GetProvisionSnapshotResponseView,
    request: GetProvisionSnapshotRequestView,
) -> bool {
    &&& response.branch == request.branch
    &&& if !response.found {
        &&& response.repo is None
        &&& response.revision is None
        &&& !response.protection_found
        &&& response.protection is None
    } else {
        &&& request.repo is Some
        &&& response.repo is Some
        &&& response.repo->0.repo == request.repo
        &&& complete(response.revision)
        &&& response.protection_found == (response.protection is Some)
        &&& response.protection is Some ==> request.branch.len() > 0
            && response.protection->0.branch == request.branch
    }
}

pub fn snapshot_matches(
    response: &GetProvisionSnapshotResponse,
    request: &GetProvisionSnapshotRequest,
) -> (r: bool)
    ensures
        r == snapshot_answers(response@, request@),
{
    if response.branch != request.branch {
        return false;
    }
    if !response.found {
        return response.repo.is_none() && response.revision.is_none()
            && !response.protection_found && response.protection.is_none();
    }
    let same_repo = match &response.repo {
        Some(r) => same_opt(&r.repo, &request.repo),
        None => false,
    };
    let own_branch = match &response.protection {
        Some(p) => !request.branch.as_str().is_empty() && p.branch == request.branch,
        None => true,
    };
    request.repo.is_some() && same_repo && revision_valid(&response.revision)
        && response.protection_found == response.protection.is_some() && own_branch
}

/// What a request names: the repository, the revision it expects, and its key.
pub struct Identity {
    pub repo: Option<RepoRefView>,
    pub expected: Option<ProvisionRevisionView>,
    pub key: Seq<char>,
}

pub open spec fn identity(input: MutationRequestView) -> Identity {
    match input {
        MutationRequestView::Archive(r) => Identity {
            repo: r.repo,
            expected: r.expected,
            key: r.idempotency_key,
        },
        MutationRequestView::Delete(r) => Identity {
            repo: r.repo,
            expected: r.expected,
            key: r.idempotency_key,
        },
        MutationRequestView::Protection(r) => Identity {
            repo: r.repo,
            expected: r.expected,
            key: r.idempotency_key,
        },
    }
}

pub fn receipt_identity(input: &MutationRequest) -> (r: (
    &Option<RepoRef>,
    &Option<ProvisionRevision>,
    &str,
))
    ensures
        identity(input@) == (Identity {
            repo: seen(*r.0),
            expected: seen(*r.1),
            key: r.2@,
        }),
{
    match input {
        MutationRequest::Archive(r) => (&r.repo, &r.expected, r.idempotency_key.as_str()),
        MutationRequest::Delete(r) => (&r.repo, &r.expected, r.idempotency_key.as_str()),
        MutationRequest::Protection(r) => (&r.repo, &r.expected, r.idempotency_key.as_str()),
    }
}

/// The receipt says who asked for what: its operation, a verified actor, and a request
/// with a repository, a complete revision and a key.
pub open spec fn attributed(receipt: ProvisionMutationReceiptView) -> bool {
    &&& receipt.request is Some
    &&& receipt.operation_id.len() > 0
    &&& receipt.actor is Some
    &&& receipt.actor->0.issuer.len() > 0
    &&& receipt.actor->0.subject.len() > 0
    &&& identity(receipt.request->0).repo is Some
    &&& complete(identity(receipt.request->0).expected)
    &&& identity(receipt.request->0).key.len() > 0
}

/// The repository survived: its resulting revision is complete and of the incarnation
/// that was expected.
pub open spec fn survived(receipt: ProvisionMutationReceiptView) -> bool {
    &&& complete(receipt.resulting_revision)
    &&& receipt.resulting_revision->0.incarnation == identity(
        receipt.request->0,
    ).expected->0.incarnation
}

/// The outcome is the one that the request asked for.
pub open spec fn fulfilled(receipt: ProvisionMutationReceiptView) -> bool {
    let repo = identity(receipt.request->0).repo;
    match (receipt.request->0, receipt.result) {
        (MutationRequestView::Archive(_), Some(MutationResultView::Archived(r))) => {
            &&& survived(receipt)
            &&& r.repo is Some
            &&& r.repo->0.repo == repo
            &&& r.repo->0.lifecycle == RepoLifecycle::Archived.wire()
        },
        (MutationRequestView::Delete(q), Some(MutationResultView::Deleted(r))) => {
            &&& r.confirmed
            &&& receipt.resulting_revision is None
            &&& q.confirm_name == repo->0.name
        },
        (MutationRequestView::Protection(q), Some(MutationResultView::ProtectionSaved(r))) => {
            &&& survived(receipt)
            &&& r.protection is Some
            &&& r.protection->0.branch == q.branch
        },
        _ => false,
    }
}

/// The receipt can be believed: attributed, and either fulfilled, or in a phase that is
/// not success and then without an outcome.
pub open spec fn believable(receipt: ProvisionMutationReceiptView) -> bool {
    &&& attributed(receipt)
    &&& match ProvisionMutationPhase::of(receipt.phase) {
        Some(ProvisionMutationPhase::Pending)
        | Some(ProvisionMutationPhase::Failed)
        | Some(ProvisionMutationPhase::ReconciliationRequired) => {
            receipt.result is None && receipt.resulting_revision is None
        },
        Some(ProvisionMutationPhase::Succeeded) => fulfilled(receipt),
        _ => false,
    }
}

pub fn receipt_valid(receipt: &ProvisionMutationReceipt) -> (r: bool)
    ensures
        r == believable(receipt@),
{
    let input = match &receipt.request {
        Some(input) => input,
        None => {
            return false;
        },
    };
    let (repo, expected, key) = receipt_identity(input);
    let acted = match &receipt.actor {
        Some(a) => !a.issuer.as_str().is_empty() && !a.subject.as_str().is_empty(),
        None => false,
    };
    if receipt.operation_id.as_str().is_empty() || !acted || repo.is_none() || !revision_valid(
        expected,
    ) || key.is_empty() {
        return false;
    }
    match ProvisionMutationPhase::from_number(receipt.phase) {
        Some(ProvisionMutationPhase::Pending)
        | Some(ProvisionMutationPhase::Failed)
        | Some(ProvisionMutationPhase::ReconciliationRequired) => {
            receipt.result.is_none() && receipt.resulting_revision.is_none()
        },
        Some(ProvisionMutationPhase::Succeeded) => {
            let same_incarnation = match (&receipt.resulting_revision, expected) {
                (Some(a), Some(b)) => a.incarnation == b.incarnation,
                _ => false,
            };
            let surviving = revision_valid(&receipt.resulting_revision) && same_incarnation;
            match (input, &receipt.result) {
                (MutationRequest::Archive(_), Some(MutationResult::Archived(r))) => {
                    let archived = match &r.repo {
                        Some(r) => same_opt(&r.repo, repo) && r.lifecycle
                            == RepoLifecycle::Archived.number(),
                        None => false,
                    };
                    surviving && archived
                },
                (MutationRequest::Delete(q), Some(MutationResult::Deleted(r))) => {
                    let named = match repo {
                        Some(repo) => q.confirm_name == repo.name,
                        None => false,
                    };
                    r.confirmed && receipt.resulting_revision.is_none() && named
                },
                (MutationRequest::Protection(q), Some(MutationResult::ProtectionSaved(r))) => {
                    let own_branch = match &r.protection {
                        Some(p) => p.branch == q.branch,
                        None => false,
                    };
                    surviving && own_branch
                },
                _ => false,
            }
        },
        _ => false,
    }
}

// ── what a caller is given ──────────────────────────────────────────────────

/// The failure of a reply that cannot be handed on.
pub open spec fn lost(message: Seq<char>) -> StatusView {
    StatusView { code: Code::DataLoss, message }
}

/// A server's failure as it came, its answer where it answers the request, else a
/// failure of its own.
pub open spec fn handed_on<V>(
    reply: Result<V, StatusView>,
    answers: bool,
    message: Seq<char>,
) -> Result<
    V,
    StatusView,
> {
    if reply is Ok && !answers {
        Err(lost(message))
    } else {
        reply
    }
}

/// The snapshot that a server sent, where it answers the request.
pub fn accept_snapshot(
    request: &GetProvisionSnapshotRequest,
    reply: Result<GetProvisionSnapshotResponse, Status>,
) -> (r: Result<GetProvisionSnapshotResponse, Status>)
    ensures
        outcome(r) == handed_on(
            outcome(reply),
            reply is Ok && snapshot_answers(reply->Ok_0@, request@),
            "invalid guarded repository snapshot"@,
        ),
{
    match reply {
        Err(status) => Err(status),
        Ok(response) => if snapshot_matches(&response, request) {
            Ok(response)
        } else {
            Err(Status::new(Code::DataLoss, "invalid guarded repository snapshot"))
        },
    }
}

/// The receipt is believable and of this request.
pub open spec fn receipt_of(
    receipt: Option<ProvisionMutationReceiptView>,
    input: MutationRequestView,
) -> bool {
    &&& receipt is Some
    &&& believable(receipt->0)
    &&& receipt->0.request == Some(input)
}

/// The receipt of an archive, where it is believable and of this request.
pub fn accept_archive(
    request: &GuardedArchiveRepoRequest,
    reply: Result<GuardedArchiveRepoResponse, Status>,
) -> (r: Result<
    GuardedArchiveRepoResponse,
    Status,
>)
    ensures
        outcome(r) == handed_on(
            outcome(reply),
            reply is Ok && receipt_of(
                reply->Ok_0@.receipt,
                MutationRequestView::Archive(request@),
            ),
            "invalid guarded mutation receipt"@,
        ),
{
    match reply {
        Err(status) => Err(status),
        Ok(response) => {
            let own = match &response.receipt {
                Some(receipt) => match &receipt.request {
                    Some(MutationRequest::Archive(input)) => receipt_valid(receipt) && input.same(
                        request,
                    ),
                    _ => false,
                },
                None => false,
            };
            if own {
                Ok(response)
            } else {
                Err(Status::new(Code::DataLoss, "invalid guarded mutation receipt"))
            }
        },
    }
}

/// The receipt of a deletion, where it is believable and of this request.
pub fn accept_delete(
    request: &GuardedDeleteRepoRequest,
    reply: Result<GuardedDeleteRepoResponse, Status>,
) -> (r: Result<
    GuardedDeleteRepoResponse,
    Status,
>)
    ensures
        outcome(r) == handed_on(
            outcome(reply),
            reply is Ok && receipt_of(
                reply->Ok_0@.receipt,
                MutationRequestView::Delete(request@),
            ),
            "invalid guarded mutation receipt"@,
        ),
{
    match reply {
        Err(status) => Err(status),
        Ok(response) => {
            let own = match &response.receipt {
                Some(receipt) => match &receipt.request {
                    Some(MutationRequest::Delete(input)) => receipt_valid(receipt) && input.same(
                        request,
                    ),
                    _ => false,
                },
                None => false,
            };
            if own {
                Ok(response)
            } else {
                Err(Status::new(Code::DataLoss, "invalid guarded mutation receipt"))
            }
        },
    }
}

/// The receipt of a protection, where it is believable and of this request.
pub fn accept_protection(
    request: &GuardedEnsureProtectionRequest,
    reply: Result<GuardedEnsureProtectionResponse, Status>,
) -> (r: Result<
    GuardedEnsureProtectionResponse,
    Status,
>)
    ensures
        outcome(r) == handed_on(
            outcome(reply),
            reply is Ok && receipt_of(
                reply->Ok_0@.receipt,
                MutationRequestView::Protection(request@),
            ),
            "invalid guarded mutation receipt"@,
        ),
{
    match reply {
        Err(status) => Err(status),
        Ok(response) => {
            let own = match &response.receipt {
                Some(receipt) => match &receipt.request {
                    Some(
                        MutationRequest::Protection(input),
                    ) => receipt_valid(receipt) && input.same(
                        request,
                    ),
                    _ => false,
                },
                None => false,
            };
            if own {
                Ok(response)
            } else {
                Err(Status::new(Code::DataLoss, "invalid guarded mutation receipt"))
            }
        },
    }
}

/// The receipt is believable and of the operation that was looked up.
pub open spec fn receipt_looked_up(
    receipt: Option<ProvisionMutationReceiptView>,
    request: GetProvisionMutationRequestView,
) -> bool {
    &&& receipt is Some
    &&& believable(receipt->0)
    &&& {
        let named = identity(receipt->0.request->0);
        &&& named.repo == request.repo
        &&& named.expected->0.incarnation == request.incarnation
        &&& named.key == request.idempotency_key
    }
}

/// The receipt that was looked up, where it is believable and of that operation.
pub fn accept_mutation(
    request: &GetProvisionMutationRequest,
    reply: Result<GetProvisionMutationResponse, Status>,
) -> (r: Result<GetProvisionMutationResponse, Status>)
    ensures
        outcome(r) == handed_on(
            outcome(reply),
            reply is Ok && receipt_looked_up(reply->Ok_0@.receipt, request@),
            "guarded lookup returned an unrelated or invalid receipt"@,
        ),
{
    match reply {
        Err(status) => Err(status),
        Ok(response) => {
            let own = match &response.receipt {
                Some(receipt) => match &receipt.request {
                    Some(input) => {
                        let (repo, revision, key) = receipt_identity(input);
                        let same_incarnation = match revision {
                            Some(v) => v.incarnation == request.incarnation,
                            None => false,
                        };
                        receipt_valid(receipt) && same_opt(repo, &request.repo)
                            && same_incarnation && same(key, request.idempotency_key.as_str())
                    },
                    None => false,
                },
                None => false,
            };
            if own {
                Ok(response)
            } else {
                Err(
                    Status::new(
                        Code::DataLoss,
                        "guarded lookup returned an unrelated or invalid receipt",
                    ),
                )
            }
        },
    }
}

/// A receipt that was accepted for a request is found again by what the request names.
pub proof fn accepted_receipt_is_looked_up(
    receipt: Option<ProvisionMutationReceiptView>,
    input: MutationRequestView,
)
    requires
        receipt_of(receipt, input),
    ensures
        receipt_looked_up(
            receipt,
            GetProvisionMutationRequestView {
                repo: identity(input).repo,
                incarnation: identity(input).expected->0.incarnation,
                idempotency_key: identity(input).key,
            },
        ),
{
}

// ── the capability ──────────────────────────────────────────────────────────

/// A call on a guarded provisioner.
pub enum GuardedCall {
    Snapshot(GetProvisionSnapshotRequestView),
    Archive(GuardedArchiveRepoRequestView),
    Delete(GuardedDeleteRepoRequestView),
    Protection(GuardedEnsureProtectionRequestView),
    Mutation(GetProvisionMutationRequestView),
}

/// What a guarded provisioner replied.
pub enum GuardedReply {
    Snapshot(Result<GetProvisionSnapshotResponseView, StatusView>),
    Archive(Result<GuardedArchiveRepoResponseView, StatusView>),
    Delete(Result<GuardedDeleteRepoResponseView, StatusView>),
    Protection(Result<GuardedEnsureProtectionResponseView, StatusView>),
    Mutation(Result<GetProvisionMutationResponseView, StatusView>),
}

/// Optional guarded capability. A provisioner without it rejects explicitly, and never
/// emulates a precondition using a separate read followed by an unconditional write.
pub trait GuardedProvisioner: Sized {
    /// What the provisioner keeps true of itself between calls.
    spec fn wf(&self) -> bool;

    /// The provisioner may reply to the call in this way, and is then in this state.
    spec fn answers(pre: Self, call: GuardedCall, reply: GuardedReply, post: Self) -> bool;

    fn snapshot(
        &mut self,
        request: GetProvisionSnapshotRequest,
    ) -> (r: Result<GetProvisionSnapshotResponse, Status>)
        requires
            old(self).wf(),
        ensures
            final(self).wf(),
            Self::answers(
                *old(self),
                GuardedCall::Snapshot(request@),
                GuardedReply::Snapshot(outcome(r)),
                *final(self),
            ),
    ;

    fn archive(
        &mut self,
        request: GuardedArchiveRepoRequest,
    ) -> (r: Result<GuardedArchiveRepoResponse, Status>)
        requires
            old(self).wf(),
        ensures
            final(self).wf(),
            Self::answers(
                *old(self),
                GuardedCall::Archive(request@),
                GuardedReply::Archive(outcome(r)),
                *final(self),
            ),
    ;

    fn delete(
        &mut self,
        request: GuardedDeleteRepoRequest,
    ) -> (r: Result<GuardedDeleteRepoResponse, Status>)
        requires
            old(self).wf(),
        ensures
            final(self).wf(),
            Self::answers(
                *old(self),
                GuardedCall::Delete(request@),
                GuardedReply::Delete(outcome(r)),
                *final(self),
            ),
    ;

    fn ensure_protection(
        &mut self,
        request: GuardedEnsureProtectionRequest,
    ) -> (r: Result<GuardedEnsureProtectionResponse, Status>)
        requires
            old(self).wf(),
        ensures
            final(self).wf(),
            Self::answers(
                *old(self),
                GuardedCall::Protection(request@),
                GuardedReply::Protection(outcome(r)),
                *final(self),
            ),
    ;

    fn mutation(
        &mut self,
        request: GetProvisionMutationRequest,
    ) -> (r: Result<GetProvisionMutationResponse, Status>)
        requires
            old(self).wf(),
        ensures
            final(self).wf(),
            Self::answers(
                *old(self),
                GuardedCall::Mutation(request@),
                GuardedReply::Mutation(outcome(r)),
                *final(self),
            ),
    ;
}

/// What a provisioner without the capability replies.
pub open spec fn refusal(call: GuardedCall) -> GuardedReply {
    match call {
        GuardedCall::Snapshot(_) => GuardedReply::Snapshot(
            Err(
                StatusView {
                    code: Code::Unimplemented,
                    message: "guarded provisioning snapshots are unsupported"@,
                },
            ),
        ),
        GuardedCall::Archive(_) => GuardedReply::Archive(
            Err(
                StatusView {
                    code: Code::Unimplemented,
                    message: "guarded archive is unsupported"@,
                },
            ),
        ),
        GuardedCall::Delete(_) => GuardedReply::Delete(
            Err(
                StatusView {
                    code: Code::Unimplemented,
                    message: "guarded deletion is unsupported"@,
                },
            ),
        ),
        GuardedCall::Protection(_) => GuardedReply::Protection(
            Err(
                StatusView {
                    code: Code::Unimplemented,
                    message: "guarded protection is unsupported"@,
                },
            ),
        ),
        GuardedCall::Mutation(_) => GuardedReply::Mutation(
            Err(
                StatusView {
                    code: Code::Unimplemented,
                    message: "guarded operation lookup is unsupported"@,
                },
            ),
        ),
    }
}

/// A provisioner without the capability: every operation fails closed.
pub struct Unsupported;

impl GuardedProvisioner for Unsupported {
    open spec fn wf(&self) -> bool {
        true
    }

    open spec fn answers(pre: Self, call: GuardedCall, reply: GuardedReply, post: Self) -> bool {
        reply == refusal(call)
    }

    fn snapshot(
        &mut self,
        _request: GetProvisionSnapshotRequest,
    ) -> (r: Result<GetProvisionSnapshotResponse, Status>) {
        Err(Status::new(Code::Unimplemented, "guarded provisioning snapshots are unsupported"))
    }

    fn archive(
        &mut self,
        _request: GuardedArchiveRepoRequest,
    ) -> (r: Result<GuardedArchiveRepoResponse, Status>) {
        Err(Status::new(Code::Unimplemented, "guarded archive is unsupported"))
    }

    fn delete(
        &mut self,
        _request: GuardedDeleteRepoRequest,
    ) -> (r: Result<GuardedDeleteRepoResponse, Status>) {
        Err(Status::new(Code::Unimplemented, "guarded deletion is unsupported"))
    }

    fn ensure_protection(
        &mut self,
        _request: GuardedEnsureProtectionRequest,
    ) -> (r: Result<GuardedEnsureProtectionResponse, Status>) {
        Err(Status::new(Code::Unimplemented, "guarded protection is unsupported"))
    }

    fn mutation(
        &mut self,
        _request: GetProvisionMutationRequest,
    ) -> (r: Result<GetProvisionMutationResponse, Status>) {
        Err(Status::new(Code::Unimplemented, "guarded operation lookup is unsupported"))
    }
}

} // verus!
