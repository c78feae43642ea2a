//! An atomic in-memory guarded provisioner with one repository.
//!
//! It exercises the shared lifecycle contract: it validates the suite, not a server's
//! persistence or restart recovery.

use crate::conformance::{End, VerdictView};
use crate::guarded::{
    complete, identity, receipt_identity, revision_valid, ArchivedProvisionResult,
    ArchivedProvisionResultView, DeletedProvisionResult, DeletedProvisionResultView,
    GetProvisionMutationRequest, GetProvisionMutationRequestView, GetProvisionMutationResponse,
    GetProvisionMutationResponseView, GetProvisionSnapshotRequest, GetProvisionSnapshotResponse,
    GetProvisionSnapshotResponseView, GuardedArchiveRepoRequest, GuardedArchiveRepoRequestView,
    GuardedArchiveRepoResponse, GuardedArchiveRepoResponseView, GuardedCall,
    GuardedDeleteRepoRequest, GuardedDeleteRepoResponse, GuardedDeleteRepoResponseView,
    GuardedEnsureProtectionRequest, GuardedEnsureProtectionResponse, GuardedProvisioner,
    GuardedReply, MutationRequest, MutationRequestView, MutationResult, MutationResultView,
    ProvisionActor, ProvisionActorView, ProvisionMutationPhase, ProvisionMutationReceipt,
    ProvisionMutationReceiptView, ProvisionRevision, ProvisionRevisionView,
};
use crate::guarded_conformance::{
    archive_request, archive_retry_preserves_receipt_course, archive_updates_snapshot_course,
    competing_archives_have_one_winner_course, delete_request,
    deletion_receipt_survives_removal_course, incomplete_requests,
    legacy_settings_invalidate_confirmation_course, lookup_of,
    missing_preconditions_have_no_effect_course, no_receipt, poll_limit, polled,
    recreated_repository_rejects_original_confirmation_course, rejects_each,
    settings_reversion_keeps_confirmation_stale_course, stale_delete_has_no_effect_course,
    timed_out, Fixture, RevisionFixture,
};
use crate::messages::{copy_opt, same_opt, seen, Message, RepoRef, RepoRefView};
use crate::provision::{
    Protection, ProtectionSpec, ProtectionSpecView, ProtectionView, ProvisionedRepo,
    ProvisionedRepoView, RepoLifecycle,
};
use crate::status::{outcome, Code, Status, StatusView};
use crate::table::Table;
use crate::text::{decimal, decimal_injective, same, u64_text};
use vstd::prelude::*;

verus! {

// ── what it does ────────────────────────────────────────────────────────────

/// The provisioner's state: the repository as it is, how often it was configured and
/// made, and the receipts by their keys.
#[verifier::ext_equal]
pub struct ModelView {
    pub pending_first: bool,
    pub repo: RepoRefView,
    pub generation: nat,
    pub incarnation: nat,
    pub snapshot: GetProvisionSnapshotResponseView,
    pub receipts: Map<Seq<char>, ProvisionMutationReceiptView>,
    pub issued: nat,
}

pub open spec fn configuration_name(n: nat) -> Seq<char> {
    "configuration-"@ + decimal(n)
}

pub open spec fn incarnation_name(n: nat) -> Seq<char> {
    "incarnation-"@ + decimal(n)
}

/// The repository as it is when it was just made.
pub open spec fn newborn(
    repo: RepoRefView,
    incarnation: nat,
    generation: nat,
) -> GetProvisionSnapshotResponseView {
    GetProvisionSnapshotResponseView {
        found: true,
        repo: Some(
            ProvisionedRepoView {
                repo: Some(repo),
                lifecycle: RepoLifecycle::Active.wire(),
                rest: Seq::empty(),
            },
        ),
        revision: Some(
            ProvisionRevisionView {
                incarnation: incarnation_name(incarnation),
                configuration: configuration_name(generation),
            },
        ),
        branch: Seq::empty(),
        protection_found: false,
        protection: None,
    }
}

pub open spec fn failed(code: Code, message: Seq<char>) -> StatusView {
    StatusView { code, message }
}

/// An operation that is told before it is finished.
pub open spec fn unfinished(receipt: ProvisionMutationReceiptView) -> ProvisionMutationReceiptView {
    ProvisionMutationReceiptView {
        phase: ProvisionMutationPhase::Pending.wire(),
        result: None,
        resulting_revision: None,
        ..receipt
    }
}

impl ModelView {
    /// The same revision under the configuration that comes next.
    pub open spec fn reconfigured(self) -> Option<ProvisionRevisionView> {
        match self.snapshot.revision {
            Some(v) => Some(
                ProvisionRevisionView {
                    configuration: configuration_name(self.generation + 1),
                    ..v
                },
            ),
            None => None,
        }
    }

    /// The repository, archived.
    pub open spec fn archived(self) -> Option<ProvisionedRepoView> {
        match self.snapshot.repo {
            Some(r) => Some(
                ProvisionedRepoView { lifecycle: RepoLifecycle::Archived.wire(), ..r },
            ),
            None => None,
        }
    }

    /// The receipt of a request that is carried out now.
    pub open spec fn receipt(
        self,
        input: MutationRequestView,
        result: MutationResultView,
        resulting_revision: Option<ProvisionRevisionView>,
    ) -> ProvisionMutationReceiptView {
        ProvisionMutationReceiptView {
            operation_id: "operation-"@ + decimal(self.issued + 1),
            actor: Some(ProvisionActorView { issuer: "fixture"@, subject: "caller"@ }),
            request: Some(input),
            phase: ProvisionMutationPhase::Succeeded.wire(),
            result: Some(result),
            resulting_revision,
            created_at_unix_seconds: 1,
            updated_at_unix_seconds: 1,
            rest: Seq::empty(),
        }
    }

    /// The state with a receipt kept under the request's key.
    pub open spec fn keep(
        self,
        input: MutationRequestView,
        receipt: ProvisionMutationReceiptView,
    ) -> ModelView {
        ModelView {
            receipts: self.receipts.insert(identity(input).key, receipt),
            issued: self.issued + 1,
            ..self
        }
    }

    /// Carries a request out, once for its key, and only at the revision it expects.
    pub open spec fn execute(self, input: MutationRequestView) -> (
        ModelView,
        Result<ProvisionMutationReceiptView, StatusView>,
    ) {
        let named = identity(input);
        if input matches MutationRequestView::Delete(q) && q.confirm_name != self.repo.name {
            (self, Err(failed(Code::InvalidArgument, "exact name required"@)))
        } else if input is Protection {
            (self, Err(failed(Code::Unimplemented, "protection model is not implemented"@)))
        } else if named.repo != Some(self.repo) {
            (self, Err(failed(Code::PermissionDenied, "repository not granted"@)))
        } else if named.key.len() == 0 || !complete(named.expected) {
            (self, Err(failed(Code::InvalidArgument, "complete preconditions required"@)))
        } else if self.receipts.contains_key(named.key) {
            if self.receipts[named.key].request == Some(input) {
                (self, Ok(self.receipts[named.key]))
            } else {
                (self, Err(failed(Code::AlreadyExists, "key already used"@)))
            }
        } else if self.snapshot.revision != named.expected {
            (self, Err(failed(Code::FailedPrecondition, "revision changed"@)))
        } else if input is Archive {
            let receipt = self.receipt(
                input,
                MutationResultView::Archived(
                    ArchivedProvisionResultView { repo: self.archived() },
                ),
                self.reconfigured(),
            );
            (
                ModelView {
                    generation: self.generation + 1,
                    snapshot: GetProvisionSnapshotResponseView {
                        repo: self.archived(),
                        revision: self.reconfigured(),
                        ..self.snapshot
                    },
                    ..self.keep(input, receipt)
                },
                Ok(receipt),
            )
        } else {
            let receipt = self.receipt(
                input,
                MutationResultView::Deleted(DeletedProvisionResultView { confirmed: true }),
                None,
            );
            (
                ModelView {
                    snapshot: GetProvisionSnapshotResponse::blank(),
                    ..self.keep(input, receipt)
                },
                Ok(receipt),
            )
        }
    }

    /// As `execute`; the first operation may be told before it is finished.
    pub open spec fn respond(self, input: MutationRequestView) -> (
        ModelView,
        Result<ProvisionMutationReceiptView, StatusView>,
    ) {
        let (after, r) = self.execute(input);
        match r {
            Ok(receipt) if self.pending_first => (
                ModelView { pending_first: false, ..after },
                Ok(unfinished(receipt)),
            ),
            _ => (after, r),
        }
    }

    /// The repository with the protection of `main`, or of no other branch.
    pub open spec fn look(self, branch: Seq<char>) -> GetProvisionSnapshotResponseView {
        let main = branch == "main"@;
        GetProvisionSnapshotResponseView {
            branch,
            protection: if main {
                self.snapshot.protection
            } else {
                None
            },
            protection_found: main && self.snapshot.protection_found,
            ..self.snapshot
        }
    }

    /// The receipt that is kept under a key, of that incarnation.
    pub open spec fn find(self, request: GetProvisionMutationRequestView) -> Result<
        ProvisionMutationReceiptView,
        StatusView,
    > {
        if request.repo != Some(self.repo) {
            Err(failed(Code::PermissionDenied, "repository not granted"@))
        } else if !self.receipts.contains_key(request.idempotency_key) {
            Err(failed(Code::NotFound, "unknown operation"@))
        } else {
            let receipt = self.receipts[request.idempotency_key];
            if receipt.request is Some && identity(receipt.request->0).expected is Some
                && identity(receipt.request->0).expected->0.incarnation == request.incarnation {
                Ok(receipt)
            } else {
                Err(failed(Code::NotFound, "unknown incarnation"@))
            }
        }
    }

    /// What a call does to the state and what it replies.
    pub open spec fn step(self, call: GuardedCall) -> (ModelView, GuardedReply) {
        match call {
            GuardedCall::Snapshot(request) => (
                self,
                GuardedReply::Snapshot(
                    if request.repo != Some(self.repo) {
                        Err(failed(Code::PermissionDenied, "repository not granted"@))
                    } else {
                        Ok(self.look(request.branch))
                    },
                ),
            ),
            GuardedCall::Archive(request) => {
                let (after, r) = self.respond(MutationRequestView::Archive(request));
                (
                    after,
                    GuardedReply::Archive(
                        match r {
                            Ok(v) => Ok(GuardedArchiveRepoResponseView { receipt: Some(v) }),
                            Err(s) => Err(s),
                        },
                    ),
                )
            },
            GuardedCall::Delete(request) => {
                let (after, r) = self.respond(MutationRequestView::Delete(request));
                (
                    after,
                    GuardedReply::Delete(
                        match r {
                            Ok(v) => Ok(GuardedDeleteRepoResponseView { receipt: Some(v) }),
                            Err(s) => Err(s),
                        },
                    ),
                )
            },
            GuardedCall::Protection(request) => (
                self,
                GuardedReply::Protection(
                    Err(failed(Code::Unimplemented, "guarded protection is unsupported"@)),
                ),
            ),
            GuardedCall::Mutation(request) => (
                self,
                GuardedReply::Mutation(
                    match self.find(request) {
                        Ok(v) => Ok(GetProvisionMutationResponseView { receipt: Some(v) }),
                        Err(s) => Err(s),
                    },
                ),
            ),
        }
    }

    /// The replies to two archives, the one after the other, and the state that they leave.
    pub open spec fn archives(
        self,
        one: GuardedArchiveRepoRequestView,
        other: GuardedArchiveRepoRequestView,
    ) -> (
        Result<GuardedArchiveRepoResponseView, StatusView>,
        Result<GuardedArchiveRepoResponseView, StatusView>,
        ModelView,
    ) {
        let (between, a) = self.step(GuardedCall::Archive(one));
        let (after, b) = between.step(GuardedCall::Archive(other));
        (a->Archive_0, b->Archive_0, after)
    }

    /// The protection of `main` as the legacy surface sets it: a change is a new
    /// configuration.
    pub open spec fn protect(self, wanted: ProtectionSpecView) -> ModelView {
        let protection = ProtectionView {
            branch: "main"@,
            effective: Some(wanted),
            unsupported: Seq::empty(),
            rest: Seq::empty(),
        };
        if self.snapshot.protection == Some(protection) {
            self
        } else {
            ModelView {
                generation: self.generation + 1,
                snapshot: GetProvisionSnapshotResponseView {
                    revision: self.reconfigured(),
                    protection_found: true,
                    protection: Some(protection),
                    ..self.snapshot
                },
                ..self
            }
        }
    }

    /// The repository deleted and made again.
    pub open spec fn recreate(self) -> ModelView {
        ModelView {
            generation: self.generation + 1,
            incarnation: self.incarnation + 1,
            snapshot: newborn(self.repo, self.incarnation + 1, self.generation + 1),
            ..self
        }
    }
}

// ── the provisioner ─────────────────────────────────────────────────────────

/// What happened to the repository's configuration.
#[derive(Debug, Clone, Copy, PartialEq, Eq, Structural)]
pub enum Event {
    Made,
    Archived,
    Protected,
}

/// An atomic in-memory provisioner with one repository.
pub struct Model {
    /// The first operation is told before it is finished.
    pending_first: bool,
    repo: RepoRef,
    /// Every event gave the repository a configuration; their number names it.
    history: Vec<Event>,
    /// The length of the history at each birth of the repository.
    births: Vec<usize>,
    snapshot: GetProvisionSnapshotResponse,
    receipts: Table<String, ProvisionMutationReceipt>,
    /// The keys in the order in which their receipts were issued.
    issued: Vec<String>,
}

impl View for Model {
    type V = ModelView;

    closed spec fn view(&self) -> ModelView {
        ModelView {
            pending_first: self.pending_first,
            repo: self.repo@,
            generation: self.history@.len(),
            incarnation: self.births@.len(),
            snapshot: self.snapshot@,
            receipts: self.receipts@.map_values(|r: ProvisionMutationReceipt| r@),
            issued: self.issued@.len(),
        }
    }
}

fn configuration(n: usize) -> (r: String)
    ensures
        r@ == configuration_name(n as nat),
{
    "configuration-".to_owned().concat(u64_text(n as u64).as_str())
}

fn incarnation(n: usize) -> (r: String)
    ensures
        r@ == incarnation_name(n as nat),
{
    "incarnation-".to_owned().concat(u64_text(n as u64).as_str())
}

fn birth(repo: &RepoRef, incarnation_number: usize, generation: usize) -> (r:
    GetProvisionSnapshotResponse)
    ensures
        r@ == newborn(repo@, incarnation_number as nat, generation as nat),
{
    GetProvisionSnapshotResponse {
        found: true,
        repo: Some(
            ProvisionedRepo {
                repo: Some(repo.clone()),
                lifecycle: RepoLifecycle::Active.number(),
                rest: Vec::new(),
            },
        ),
        revision: Some(
            ProvisionRevision {
                incarnation: incarnation(incarnation_number),
                configuration: configuration(generation),
            },
        ),
        branch: String::new(),
        protection_found: false,
        protection: None,
    }
}

impl Model {
    /// A provisioner whose repository was just made.
    pub fn new(repo: RepoRef) -> (r: Self)
        ensures
            fresh(r@),
            r@.repo == repo@,
            !r@.pending_first,
    {
        let mut history: Vec<Event> = Vec::new();
        history.push(Event::Made);
        let mut births: Vec<usize> = Vec::new();
        births.push(1);
        let snapshot = birth(&repo, 1, 1);
        let r = Model {
            pending_first: false,
            repo,
            history,
            births,
            snapshot,
            receipts: Table::new(),
            issued: Vec::new(),
        };
        assert(r@.receipts =~= Map::<Seq<char>, ProvisionMutationReceiptView>::empty());
        r
    }

    /// As `new`; the first operation is told before it is finished.
    pub fn initially_pending(repo: RepoRef) -> (r: Self)
        ensures
            fresh(r@),
            r@.repo == repo@,
            r@.pending_first,
    {
        let mut r = Model::new(repo);
        let ghost before = r@;
        r.pending_first = true;
        assert(r@ =~= ModelView { pending_first: true, ..before });
        r
    }

    /// The configuration that an event gives the repository.
    fn record(&mut self, event: Event)
        ensures
            final(self)@ == (ModelView {
                generation: old(self)@.generation + 1,
                snapshot: GetProvisionSnapshotResponseView {
                    revision: old(self)@.reconfigured(),
                    ..old(self)@.snapshot
                },
                ..old(self)@
            }),
    {
        self.history.push(event);
        let name = configuration(self.history.len());
        if let Some(revision) = &self.snapshot.revision {
            self.snapshot.revision = Some(
                ProvisionRevision {
                    incarnation: revision.incarnation.clone(),
                    configuration: name,
                },
            );
        }
        assert(self@ =~= ModelView {
            generation: old(self)@.generation + 1,
            snapshot: GetProvisionSnapshotResponseView {
                revision: old(self)@.reconfigured(),
                ..old(self)@.snapshot
            },
            ..old(self)@
        });
    }

    /// The receipt of a request that is carried out now, kept under its key.
    fn issue(
        &mut self,
        input: &MutationRequest,
        result: MutationResult,
        resulting_revision: Option<ProvisionRevision>,
    ) -> (r: ProvisionMutationReceipt)
        ensures
            r@ == old(self)@.receipt(input@, result@, seen(resulting_revision)),
            final(self)@ == old(self)@.keep(input@, r@),
    {
        let (_, _, key) = receipt_identity(input);
        self.issued.push(key.to_owned());
        let receipt = ProvisionMutationReceipt {
            operation_id: "operation-".to_owned().concat(
                u64_text(self.issued.len() as u64).as_str(),
            ),
            actor: Some(
                ProvisionActor { issuer: "fixture".to_owned(), subject: "caller".to_owned() },
            ),
            request: Some(input.copy()),
            phase: ProvisionMutationPhase::Succeeded.number(),
            result: Some(result),
            resulting_revision,
            created_at_unix_seconds: 1,
            updated_at_unix_seconds: 1,
            rest: Vec::new(),
        };
        let kept = receipt.copy();
        self.receipts.insert(key.to_owned(), kept);
        assert(self@.receipts =~= old(self)@.receipts.insert(identity(input@).key, receipt@));
        receipt
    }

    /// Carries a request out, once for its key, and only at the revision it expects.
    pub fn execute(&mut self, input: &MutationRequest) -> (r: Result<
        ProvisionMutationReceipt,
        Status,
    >)
        ensures
            (final(self)@, outcome(r)) == old(self)@.execute(input@),
    {
        let (repo, expected, key) = receipt_identity(input);
        match input {
            MutationRequest::Delete(q) => {
                if q.confirm_name != self.repo.name {
                    return Err(Status::new(Code::InvalidArgument, "exact name required"));
                }
            },
            MutationRequest::Protection(_) => {
                return Err(
                    Status::new(Code::Unimplemented, "protection model is not implemented"),
                );
            },
            MutationRequest::Archive(_) => {},
        }
        let granted = match repo {
            Some(repo) => repo.same(&self.repo),
            None => false,
        };
        if !granted {
            return Err(Status::new(Code::PermissionDenied, "repository not granted"));
        }
        if key.is_empty() || !revision_valid(expected) {
            return Err(Status::new(Code::InvalidArgument, "complete preconditions required"));
        }
        if let Some(receipt) = self.receipts.get(&key.to_owned()) {
            let same_input = match &receipt.request {
                Some(q) => q.same(input),
                None => false,
            };
            return if same_input {
                Ok(receipt.copy())
            } else {
                Err(Status::new(Code::AlreadyExists, "key already used"))
            };
        }
        if !same_opt(&self.snapshot.revision, expected) {
            return Err(Status::new(Code::FailedPrecondition, "revision changed"));
        }
        let ghost before = self@;
        match input {
            MutationRequest::Archive(_) => {
                if let Some(described) = &self.snapshot.repo {
                    let mut archived = described.copy();
                    archived.lifecycle = RepoLifecycle::Archived.number();
                    self.snapshot.repo = Some(archived);
                }
                let ghost marked = ModelView {
                    snapshot: GetProvisionSnapshotResponseView {
                        repo: before.archived(),
                        ..before.snapshot
                    },
                    ..before
                };
                assert(self@ =~= marked);
                self.record(Event::Archived);
                let result = MutationResult::Archived(
                    ArchivedProvisionResult { repo: copy_opt(&self.snapshot.repo) },
                );
                let revision = copy_opt(&self.snapshot.revision);
                let receipt = self.issue(input, result, revision);
                assert(self@ =~= before.execute(input@).0);
                Ok(receipt)
            },
            _ => {
                self.snapshot = GetProvisionSnapshotResponse::empty();
                let ghost gone = ModelView {
                    snapshot: GetProvisionSnapshotResponse::blank(),
                    ..before
                };
                assert(self@ =~= gone);
                let result = MutationResult::Deleted(DeletedProvisionResult { confirmed: true });
                let receipt = self.issue(input, result, None);
                assert(self@ =~= before.execute(input@).0);
                Ok(receipt)
            },
        }
    }

    /// As `execute`; the first operation may be told before it is finished.
    fn respond(&mut self, input: &MutationRequest) -> (r: Result<
        ProvisionMutationReceipt,
        Status,
    >)
        ensures
            (final(self)@, outcome(r)) == old(self)@.respond(input@),
    {
        match self.execute(input) {
            Err(status) => Err(status),
            Ok(receipt) => {
                if self.pending_first {
                    let ghost before = self@;
                    self.pending_first = false;
                    assert(self@ =~= ModelView { pending_first: false, ..before });
                    let mut receipt = receipt;
                    receipt.phase = ProvisionMutationPhase::Pending.number();
                    receipt.result = None;
                    receipt.resulting_revision = None;
                    Ok(receipt)
                } else {
                    Ok(receipt)
                }
            },
        }
    }

    fn granted(&self, repo: &Option<RepoRef>) -> (r: bool)
        ensures
            r == (seen(*repo) == Some(self@.repo)),
    {
        match repo {
            Some(repo) => repo.same(&self.repo),
            None => false,
        }
    }
}

/// The repository was just made, and nothing was asked yet.
pub open spec fn fresh(m: ModelView) -> bool {
    &&& m.snapshot == newborn(m.repo, m.incarnation, m.generation)
    &&& m.receipts == Map::<Seq<char>, ProvisionMutationReceiptView>::empty()
    &&& m.issued == 0
}

impl GuardedProvisioner for Model {
    open spec fn wf(&self) -> bool {
        true
    }

    open spec fn answers(pre: Self, call: GuardedCall, reply: GuardedReply, post: Self) -> bool {
        (post@, reply) == pre@.step(call)
    }

    fn snapshot(&mut self, request: GetProvisionSnapshotRequest) -> (r: Result<
        GetProvisionSnapshotResponse,
        Status,
    >) {
        if !self.granted(&request.repo) {
            return Err(Status::new(Code::PermissionDenied, "repository not granted"));
        }
        let mut snapshot = self.snapshot.copy();
        snapshot.branch = request.branch;
        if !same(snapshot.branch.as_str(), "main") {
            snapshot.protection = None;
            snapshot.protection_found = false;
        }
        Ok(snapshot)
    }

    fn archive(&mut self, request: GuardedArchiveRepoRequest) -> (r: Result<
        GuardedArchiveRepoResponse,
        Status,
    >) {
        match self.respond(&MutationRequest::Archive(request)) {
            Ok(receipt) => Ok(GuardedArchiveRepoResponse { receipt: Some(receipt) }),
            Err(status) => Err(status),
        }
    }

    fn delete(&mut self, request: GuardedDeleteRepoRequest) -> (r: Result<
        GuardedDeleteRepoResponse,
        Status,
    >) {
        match self.respond(&MutationRequest::Delete(request)) {
            Ok(receipt) => Ok(GuardedDeleteRepoResponse { receipt: Some(receipt) }),
            Err(status) => Err(status),
        }
    }

    fn ensure_protection(&mut self, _request: GuardedEnsureProtectionRequest) -> (r: Result<
        GuardedEnsureProtectionResponse,
        Status,
    >) {
        Err(Status::new(Code::Unimplemented, "guarded protection is unsupported"))
    }

    fn mutation(&mut self, request: GetProvisionMutationRequest) -> (r: Result<
        GetProvisionMutationResponse,
        Status,
    >) {
        if !self.granted(&request.repo) {
            return Err(Status::new(Code::PermissionDenied, "repository not granted"));
        }
        let receipt = match self.receipts.get(&request.idempotency_key) {
            Some(receipt) => receipt,
            None => {
                return Err(Status::new(Code::NotFound, "unknown operation"));
            },
        };
        let same_incarnation = match &receipt.request {
            Some(input) => {
                let (_, expected, _) = receipt_identity(input);
                match expected {
                    Some(v) => v.incarnation == request.incarnation,
                    None => false,
                }
            },
            None => false,
        };
        if !same_incarnation {
            return Err(Status::new(Code::NotFound, "unknown incarnation"));
        }
        Ok(GetProvisionMutationResponse { receipt: Some(receipt.copy()) })
    }
}

impl Fixture for Model {
    open spec fn subject(&self) -> RepoRefView {
        self@.repo
    }

    /// Each takes effect at once, in one order or the other.
    open spec fn contends(
        pre: Self,
        first: GuardedArchiveRepoRequestView,
        second: GuardedArchiveRepoRequestView,
        replies: (
            Result<GuardedArchiveRepoResponseView, StatusView>,
            Result<GuardedArchiveRepoResponseView, StatusView>,
        ),
        post: Self,
    ) -> bool {
        ||| pre@.archives(first, second) == (replies.0, replies.1, post@)
        ||| pre@.archives(second, first) == (replies.1, replies.0, post@)
    }

    fn archive_both(
        &mut self,
        first: GuardedArchiveRepoRequest,
        second: GuardedArchiveRepoRequest,
    ) -> (r: (
        Result<GuardedArchiveRepoResponse, Status>,
        Result<GuardedArchiveRepoResponse, Status>,
    )) {
        let a = self.archive(first);
        let b = self.archive(second);
        (a, b)
    }

    /// Nothing happens in the meantime, and time does not run out.
    open spec fn waits(pre: Self, left: bool, post: Self) -> bool {
        left && post@ == pre@
    }

    fn repo(&self) -> (r: RepoRef) {
        self.repo.clone()
    }

    fn pause(&mut self) -> (r: bool) {
        true
    }
}

impl RevisionFixture for Model {
    open spec fn protects(
        pre: Self,
        wanted: ProtectionSpecView,
        done: Result<(), StatusView>,
        post: Self,
    ) -> bool {
        done is Ok && post@ == pre@.protect(wanted)
    }

    open spec fn recreates(pre: Self, done: Result<(), StatusView>, post: Self) -> bool {
        done is Ok && post@ == pre@.recreate()
    }

    fn legacy_protection(&mut self, wanted: ProtectionSpec) -> (r: Result<(), Status>) {
        let ghost before = self@;
        let protection = Protection {
            branch: "main".to_owned(),
            effective: Some(wanted),
            unsupported: Vec::new(),
            rest: Vec::new(),
        };
        assert(crate::messages::texts(protection.unsupported@) =~= Seq::<Seq<char>>::empty());
        let unchanged = match &self.snapshot.protection {
            Some(p) => p.same(&protection),
            None => false,
        };
        if !unchanged {
            self.record(Event::Protected);
            self.snapshot.protection_found = true;
            self.snapshot.protection = Some(protection);
            assert(self@ =~= before.protect(wanted@));
        }
        Ok(())
    }

    fn recreate(&mut self) -> (r: Result<(), Status>) {
        let ghost before = self@;
        self.history.push(Event::Made);
        self.births.push(self.history.len());
        self.snapshot = birth(&self.repo, self.births.len(), self.history.len());
        assert(self@ =~= before.recreate());
        Ok(())
    }
}

// ── what it keeps ───────────────────────────────────────────────────────────

/// A request that is carried out leaves its receipt: repeating it gives the receipt back
/// and changes nothing, and the receipt is found by what the request names.
pub proof fn receipts_are_kept(m: ModelView, input: MutationRequestView)
    requires
        m.execute(input).1 is Ok,
    ensures
        ({
            let (after, r) = m.execute(input);
            &&& after.execute(input) == (after, r)
            &&& !m.receipts.contains_key(identity(input).key) ==> after.find(
                GetProvisionMutationRequestView {
                    repo: identity(input).repo,
                    incarnation: identity(input).expected->0.incarnation,
                    idempotency_key: identity(input).key,
                },
            ) == r
        }),
{
}

/// A request that is refused changes nothing.
pub proof fn refusals_have_no_effect(m: ModelView, input: MutationRequestView)
    requires
        m.respond(input).1 is Err,
    ensures
        m.respond(input).0 == m,
{
}

/// A request is carried out at most once: where it is carried out anew, the repository
/// was at the revision that the request expects.
pub proof fn only_at_the_expected_revision(m: ModelView, input: MutationRequestView)
    requires
        m.execute(input).1 is Ok,
        !m.receipts.contains_key(identity(input).key),
    ensures
        m.snapshot.revision == identity(input).expected,
        complete(identity(input).expected),
{
}

/// Waiting for an operation that the model carried out ends with its receipt.
proof fn operation_settles(
    pre: Model,
    told: ProvisionMutationReceiptView,
    full: ProvisionMutationReceiptView,
    out: Result<ProvisionMutationReceiptView, VerdictView>,
    post: Model,
)
    requires
        polled(pre, told, told, poll_limit(), out, post),
        told == full || told == unfinished(full),
        full.request is Some,
        pre@.receipts.contains_key(identity(full.request->0).key),
        pre@.receipts[identity(full.request->0).key] == full,
        identity(full.request->0).repo == Some(pre@.repo),
        complete(identity(full.request->0).expected),
        full.phase == ProvisionMutationPhase::Succeeded.wire(),
        full.operation_id.len() > 0,
        full.actor is Some,
        full.actor->0.issuer.len() > 0,
        full.actor->0.subject.len() > 0,
    ensures
        out == Ok::<ProvisionMutationReceiptView, VerdictView>(full),
        post@ == pre@,
{
    reveal_with_fuel(polled, 3);
    if told != full {
        let (left, paused) = choose|left: bool, paused: Model| #[trigger]
            Model::waits(pre, left, paused) && if !left {
                post == paused && out == Err::<ProvisionMutationReceiptView, VerdictView>(
                    VerdictView::Broken(timed_out()),
                )
            } else {
                exists|reply: GuardedReply, asked: Model| #[trigger]
                    Model::answers(
                        paused,
                        GuardedCall::Mutation(lookup_of(told)),
                        reply,
                        asked,
                    ) && match reply {
                        GuardedReply::Mutation(Ok(v)) => match v.receipt {
                            Some(next) => polled(
                                asked,
                                next,
                                told,
                                (poll_limit() - 1) as nat,
                                out,
                                post,
                            ),
                            None => post == asked && out == Err::<
                                ProvisionMutationReceiptView,
                                VerdictView,
                            >(VerdictView::Broken(no_receipt())),
                        },
                        GuardedReply::Mutation(Err(s)) => post == asked && out == Err::<
                            ProvisionMutationReceiptView,
                            VerdictView,
                        >(VerdictView::Refused(s.message)),
                        _ => false,
                    }
            };
        assert(paused@.find(lookup_of(told)) == Ok::<ProvisionMutationReceiptView, StatusView>(
            full,
        ));
    }
}

/// As [`operation_settles`], for the request that was just carried out.
proof fn settles_after(m: ModelView, input: MutationRequestView)
    requires
        m.execute(input).1 is Ok,
        !m.receipts.contains_key(identity(input).key),
    ensures
        forall|
            pre: Model,
            told: ProvisionMutationReceiptView,
            out: Result<ProvisionMutationReceiptView, VerdictView>,
            post: Model,
        | #[trigger]
            polled(pre, told, told, poll_limit(), out, post) && pre@ == m.respond(input).0
                && m.respond(input).1 == Ok::<ProvisionMutationReceiptView, StatusView>(told)
                ==> out == Ok::<ProvisionMutationReceiptView, VerdictView>(
                m.execute(input).1->Ok_0,
            ) && post@ == pre@,
{
    reveal_strlit("operation-");
    reveal_strlit("fixture");
    reveal_strlit("caller");
    assert forall|
        pre: Model,
        told: ProvisionMutationReceiptView,
        out: Result<ProvisionMutationReceiptView, VerdictView>,
        post: Model,
    | #[trigger]
        polled(pre, told, told, poll_limit(), out, post) && pre@ == m.respond(input).0
            && m.respond(input).1 == Ok::<ProvisionMutationReceiptView, StatusView>(
            told,
        ) implies out == Ok::<ProvisionMutationReceiptView, VerdictView>(
        m.execute(input).1->Ok_0,
    ) && post@ == pre@ by {
        operation_settles(pre, told, m.execute(input).1->Ok_0, out, post);
    }
}

/// The names that the model gives are told apart, and none is empty.
proof fn names_differ()
    ensures
        forall|n: nat| (#[trigger] configuration_name(n)).len() > 0,
        forall|n: nat| (#[trigger] incarnation_name(n)).len() > 0,
        forall|a: nat, b: nat| #[trigger]
            configuration_name(a) == #[trigger] configuration_name(b) ==> a == b,
        forall|a: nat, b: nat| #[trigger]
            incarnation_name(a) == #[trigger] incarnation_name(b) ==> a == b,
{
    reveal_strlit("configuration-");
    reveal_strlit("incarnation-");
    assert forall|a: nat, b: nat| #[trigger]
        configuration_name(a) == #[trigger] configuration_name(b) implies a == b by {
        assert(configuration_name(a).skip(14) =~= decimal(a));
        assert(configuration_name(b).skip(14) =~= decimal(b));
        decimal_injective(a, b);
    }
    assert forall|a: nat, b: nat| #[trigger]
        incarnation_name(a) == #[trigger] incarnation_name(b) implies a == b by {
        assert(incarnation_name(a).skip(12) =~= decimal(a));
        assert(incarnation_name(b).skip(12) =~= decimal(b));
        decimal_injective(a, b);
    }
}

/// The model refuses each request that lacks a precondition, and stays as it is.
proof fn refuses_each(
    m: Model,
    requests: Seq<GuardedArchiveRepoRequestView>,
    end: End<Model>,
)
    requires
        rejects_each(m, m@.repo, requests, m@.look(""@), end),
        forall|i: int|
            0 <= i < requests.len() ==> (#[trigger] requests[i]).repo == Some(m@.repo) && (
            requests[i].idempotency_key.len() == 0 || !complete(requests[i].expected)),
    ensures
        end.verdict is Pass,
    decreases requests.len(),
{
    if requests.len() > 0 {
        let rest = requests.drop_first();
        assert(requests[0].repo == Some(m@.repo));
        assert forall|i: int| 0 <= i < rest.len() implies (#[trigger] rest[i]).repo == Some(m@.repo)
            && (rest[i].idempotency_key.len() == 0 || !complete(rest[i].expected)) by {
            assert(rest[i] == requests[i + 1]);
        }
        assert forall|fx: Model|
            #![trigger fx@]
            fx@ == m@ && rejects_each(fx, m@.repo, rest, m@.look(""@), end) implies
            end.verdict is Pass by {
            refuses_each(fx, rest, end);
        }
    }
}

/// The model passes `archive_updates_snapshot`.
pub proof fn passes_archive_updates_snapshot(m: Model, end: End<Model>)
    requires
        fresh(m@),
        archive_updates_snapshot_course(m, m@.repo, end),
    ensures
        end.verdict is Pass,
{
    names_differ();
    reveal_strlit("archive");
    let request = archive_request(m@.repo, m@.snapshot.revision, "archive"@);
    settles_after(m@, MutationRequestView::Archive(request));
}

/// The model passes `stale_delete_has_no_effect`.
pub proof fn passes_stale_delete_has_no_effect(m: Model, end: End<Model>)
    requires
        fresh(m@),
        stale_delete_has_no_effect_course(m, m@.repo, end),
    ensures
        end.verdict is Pass,
{
    names_differ();
    reveal_strlit("archive");
    let request = archive_request(m@.repo, m@.snapshot.revision, "archive"@);
    settles_after(m@, MutationRequestView::Archive(request));
    reveal_strlit("stale-delete");
}

/// The model passes `competing_archives_have_one_winner`.
pub proof fn passes_competing_archives_have_one_winner(m: Model, end: End<Model>)
    requires
        fresh(m@),
        competing_archives_have_one_winner_course(m, m@.repo, end),
    ensures
        end.verdict is Pass,
{
    names_differ();
    reveal_strlit("first");
    reveal_strlit("second");
    let first = archive_request(m@.repo, m@.snapshot.revision, "first"@);
    let second = archive_request(m@.repo, m@.snapshot.revision, "second"@);
    settles_after(m@, MutationRequestView::Archive(first));
    settles_after(m@, MutationRequestView::Archive(second));
}

/// The model passes `archive_retry_preserves_receipt`.
pub proof fn passes_archive_retry_preserves_receipt(m: Model, end: End<Model>)
    requires
        fresh(m@),
        archive_retry_preserves_receipt_course(m, m@.repo, end),
    ensures
        end.verdict is Pass,
{
    names_differ();
    reveal_strlit("retry");
    let request = archive_request(m@.repo, m@.snapshot.revision, "retry"@);
    settles_after(m@, MutationRequestView::Archive(request));
    reveal_strlit("-different");
    let old = m@.snapshot.revision->0;
    assert((old.configuration + "-different"@).len() != old.configuration.len());
}

/// The model passes `deletion_receipt_survives_removal`.
pub proof fn passes_deletion_receipt_survives_removal(m: Model, end: End<Model>)
    requires
        fresh(m@),
        deletion_receipt_survives_removal_course(m, m@.repo, end),
    ensures
        end.verdict is Pass,
{
    names_differ();
    reveal_strlit("delete");
    reveal_strlit("-wrong");
    let name = m@.repo.name;
    assert((name + "-wrong"@).len() != name.len());
    let request = delete_request(m@.repo, m@.snapshot.revision, name, "delete"@);
    settles_after(m@, MutationRequestView::Delete(request));
}

/// The model passes `missing_preconditions_have_no_effect`.
pub proof fn passes_missing_preconditions_have_no_effect(m: Model, end: End<Model>)
    requires
        fresh(m@),
        missing_preconditions_have_no_effect_course(m, m@.repo, end),
    ensures
        end.verdict is Pass,
{
    reveal_strlit("");
    let requests = incomplete_requests(m@.repo, m@.snapshot.revision->0);
    assert forall|fx: Model|
        fx@ == m@ && #[trigger] rejects_each(fx, m@.repo, requests, m@.look(""@), end) implies
        end.verdict is Pass by {
        refuses_each(fx, requests, end);
    }
}

/// The model passes `legacy_settings_invalidate_confirmation`.
pub proof fn passes_legacy_settings_invalidate_confirmation(m: Model, end: End<Model>)
    requires
        fresh(m@),
        legacy_settings_invalidate_confirmation_course(m, m@.repo, end),
    ensures
        end.verdict is Pass,
{
    names_differ();
    reveal_strlit("stale-confirmation");
    reveal_strlit("main");
}

/// The model passes `settings_reversion_keeps_confirmation_stale`.
pub proof fn passes_settings_reversion_keeps_confirmation_stale(m: Model, end: End<Model>)
    requires
        fresh(m@),
        settings_reversion_keeps_confirmation_stale_course(m, m@.repo, end),
    ensures
        end.verdict is Pass,
{
    names_differ();
    reveal_strlit("stale-confirmation");
    reveal_strlit("main");
}

/// The model passes `recreated_repository_rejects_original_confirmation`.
pub proof fn passes_recreated_repository_rejects_original_confirmation(m: Model, end: End<Model>)
    requires
        fresh(m@),
        recreated_repository_rejects_original_confirmation_course(m, m@.repo, end),
    ensures
        end.verdict is Pass,
{
    names_differ();
    reveal_strlit("stale-confirmation");
    reveal_strlit("main");
}

} // verus!
