//! Which receipts and snapshots of a guarded provisioner are handed on.

use crate::guarded::{
    self, believable, GetProvisionMutationRequest, GetProvisionMutationResponse,
    GetProvisionSnapshotRequest, GetProvisionSnapshotResponse, GuardedArchiveRepoRequest,
    GuardedArchiveRepoResponse, GuardedCall, GuardedDeleteRepoRequest, GuardedDeleteRepoResponse,
    GuardedEnsureProtectionRequest, GuardedEnsureProtectionResponse, GuardedProvisioner,
    GuardedReply, MutationRequest, MutationRequestView, MutationResultView,
    ProvisionMutationReceipt, ProvisionMutationReceiptView, ProvisionRevisionView, Unsupported,
};
use crate::guarded_geetch::{GuardedForgeProvisionService, GuardedGeetchProvisioner};
use crate::messages::{seen, RepoRefView};
use crate::status::{Code, Status, StatusView};
use vstd::prelude::*;

verus! {

// ── receipts ────────────────────────────────────────────────────────────────

/// A revision with both of its names.
pub open spec fn whole(revision: Option<ProvisionRevisionView>) -> bool {
    revision matches Some(v) && v.incarnation.len() > 0 && v.configuration.len() > 0
}

/// A request that names a repository, a whole revision that it expects, and its key.
pub open spec fn named(
    repo: Option<RepoRefView>,
    expected: Option<ProvisionRevisionView>,
    key: Seq<char>,
) -> bool {
    repo is Some && whole(expected) && key.len() > 0
}

/// The receipt tells its operation, who asked, and what for.
pub open spec fn tells_who_asked(receipt: ProvisionMutationReceiptView) -> bool {
    &&& receipt.operation_id.len() > 0
    &&& receipt.actor is Some
    &&& receipt.actor->0.issuer.len() > 0
    &&& receipt.actor->0.subject.len() > 0
    &&& match receipt.request {
        Some(MutationRequestView::Archive(q)) => named(q.repo, q.expected, q.idempotency_key),
        Some(MutationRequestView::Delete(q)) => named(q.repo, q.expected, q.idempotency_key),
        Some(MutationRequestView::Protection(q)) => named(q.repo, q.expected, q.idempotency_key),
        None => false,
    }
}

/// What is tested is whether the receipt can be believed.
pub proof fn a_receipt_is_valid_where_it_is_believable(
    receipt: &ProvisionMutationReceipt,
    r: bool,
)
    requires
        call_ensures(guarded::receipt_valid, (receipt,), r),
    ensures
        r <==> believable(receipt@),
{
}

/// A receipt that does not tell who asked for what is never believed, in no phase; nor is one
/// in a phase that there is not.
pub proof fn nothing_is_believed_of_nobody(receipt: ProvisionMutationReceiptView)
    ensures
        believable(receipt) ==> tells_who_asked(receipt),
        believable(receipt) ==> 1 <= receipt.phase <= 4,
{
}

/// An operation that is pending (1), has failed (3) or must be reconciled (4) is believed
/// exactly where it tells who asked and has no outcome: neither a result nor a revision.
pub proof fn an_open_operation_has_no_outcome(receipt: ProvisionMutationReceiptView)
    requires
        receipt.phase == 1 || receipt.phase == 3 || receipt.phase == 4,
    ensures
        believable(receipt) <==> tells_who_asked(receipt) && receipt.result is None
            && receipt.resulting_revision is None,
{
}

/// The phases of an open operation are believed alike: what is believed in one of them is
/// believed in the others.
pub proof fn open_phases_are_believed_alike(
    one: ProvisionMutationReceiptView,
    other: ProvisionMutationReceiptView,
)
    requires
        one.phase == 1 || one.phase == 3 || one.phase == 4,
        other == (ProvisionMutationReceiptView { phase: other.phase, ..one }),
        other.phase == 1 || other.phase == 3 || other.phase == 4,
    ensures
        believable(one) == believable(other),
{
}

/// The revision is whole, and of the incarnation that was expected.
pub open spec fn lives_on(
    revision: Option<ProvisionRevisionView>,
    expected: Option<ProvisionRevisionView>,
) -> bool {
    whole(revision) && revision->0.incarnation == expected->0.incarnation
}

/// An archive that succeeded (2) is believed exactly where its result is the repository that
/// was asked for, archived (2), at a whole revision of the same incarnation.
pub proof fn an_archive_leaves_the_repository_archived(
    receipt: ProvisionMutationReceiptView,
    q: guarded::GuardedArchiveRepoRequestView,
)
    requires
        receipt.phase == 2,
        receipt.request == Some(MutationRequestView::Archive(q)),
    ensures
        believable(receipt) <==> tells_who_asked(receipt) && (
        receipt.result matches Some(MutationResultView::Archived(a)) && a.repo is Some
            && a.repo->0.repo == q.repo && a.repo->0.lifecycle == 2 && lives_on(
            receipt.resulting_revision,
            q.expected,
        )),
{
}

/// A deletion that succeeded (2) is believed exactly where it is confirmed, under the name of
/// the repository, and leaves no revision.
pub proof fn a_deletion_leaves_nothing(
    receipt: ProvisionMutationReceiptView,
    q: guarded::GuardedDeleteRepoRequestView,
)
    requires
        receipt.phase == 2,
        receipt.request == Some(MutationRequestView::Delete(q)),
    ensures
        believable(receipt) <==> tells_who_asked(receipt) && (
        receipt.result matches Some(MutationResultView::Deleted(d)) && d.confirmed
            && q.confirm_name == q.repo->0.name && receipt.resulting_revision is None),
{
}

/// A protection that was saved (2) is believed exactly where it is of the branch that was
/// asked for, at a whole revision of the same incarnation.
pub proof fn a_protection_is_of_its_branch(
    receipt: ProvisionMutationReceiptView,
    q: guarded::GuardedEnsureProtectionRequestView,
)
    requires
        receipt.phase == 2,
        receipt.request == Some(MutationRequestView::Protection(q)),
    ensures
        believable(receipt) <==> tells_who_asked(receipt) && (
        receipt.result matches Some(MutationResultView::ProtectionSaved(p)) && p.protection is Some
            && p.protection->0.branch == q.branch && lives_on(
            receipt.resulting_revision,
            q.expected,
        )),
{
}

/// The numbers of the phases: each stands for its phase, and every other for none.
pub proof fn phases_have_their_numbers(n: i32, r: Option<guarded::ProvisionMutationPhase>)
    requires
        call_ensures(guarded::ProvisionMutationPhase::from_number, (n,), r),
    ensures
        n == 0 <==> r == Some(guarded::ProvisionMutationPhase::Unspecified),
        n == 1 <==> r == Some(guarded::ProvisionMutationPhase::Pending),
        n == 2 <==> r == Some(guarded::ProvisionMutationPhase::Succeeded),
        n == 3 <==> r == Some(guarded::ProvisionMutationPhase::Failed),
        n == 4 <==> r == Some(guarded::ProvisionMutationPhase::ReconciliationRequired),
{
}

// ── what is handed on ───────────────────────────────────────────────────────

/// The server's failure is handed on with its code and its message.
pub open spec fn same_failure<A, B>(reply: Result<A, Status>, r: Result<B, Status>) -> bool {
    reply matches Err(s) ==> (r matches Err(t) && t.code == s.code && t.message@ == s.message@)
}

/// Data were lost, with this message.
pub open spec fn data_lost<T>(r: Result<T, Status>, message: Seq<char>) -> bool {
    r matches Err(e) && e.code == Code::DataLoss && e.message@ == message
}

/// The receipt of an archive is handed on exactly where it is valid and of this very
/// request; a failure is handed on as it came, and anything else is lost data.
pub proof fn an_archive_hands_on_the_receipt_of_the_request(
    request: &GuardedArchiveRepoRequest,
    reply: Result<GuardedArchiveRepoResponse, Status>,
    receipt: ProvisionMutationReceipt,
    valid: bool,
    r: Result<GuardedArchiveRepoResponse, Status>,
)
    requires
        call_ensures(guarded::accept_archive, (request, reply), r),
        call_ensures(guarded::receipt_valid, (&receipt,), valid),
        reply matches Ok(response) ==> (response.receipt is Some ==> response.receipt->0
            == receipt),
    ensures
        same_failure(reply, r),
        reply matches Ok(response) ==> (r is Ok <==> response.receipt is Some && valid && (
        receipt.request matches Some(MutationRequest::Archive(q))
            && seen(q.repo) == seen(request.repo)
            && seen(q.expected) == seen(request.expected) && q.idempotency_key@
            == request.idempotency_key@)),
        reply matches Ok(response) ==> (r matches Ok(handed) ==> handed@ == response@),
        reply is Ok ==> (r is Err ==> data_lost(r, "invalid guarded mutation receipt"@)),
{
}

/// The receipt of a deletion is handed on exactly where it is valid and of this very
/// request; a failure is handed on as it came, and anything else is lost data.
pub proof fn a_deletion_hands_on_the_receipt_of_the_request(
    request: &GuardedDeleteRepoRequest,
    reply: Result<GuardedDeleteRepoResponse, Status>,
    receipt: ProvisionMutationReceipt,
    valid: bool,
    r: Result<GuardedDeleteRepoResponse, Status>,
)
    requires
        call_ensures(guarded::accept_delete, (request, reply), r),
        call_ensures(guarded::receipt_valid, (&receipt,), valid),
        reply matches Ok(response) ==> (response.receipt is Some ==> response.receipt->0
            == receipt),
    ensures
        same_failure(reply, r),
        reply matches Ok(response) ==> (r is Ok <==> response.receipt is Some && valid && (
        receipt.request matches Some(MutationRequest::Delete(q))
            && seen(q.repo) == seen(request.repo)
            && seen(q.expected) == seen(request.expected) && q.idempotency_key@
            == request.idempotency_key@ && q.confirm_name@ == request.confirm_name@)),
        reply matches Ok(response) ==> (r matches Ok(handed) ==> handed@ == response@),
        reply is Ok ==> (r is Err ==> data_lost(r, "invalid guarded mutation receipt"@)),
{
}

/// The receipt of a protection is handed on exactly where it is valid and of this very
/// request; a failure is handed on as it came, and anything else is lost data.
pub proof fn a_protection_hands_on_the_receipt_of_the_request(
    request: &GuardedEnsureProtectionRequest,
    reply: Result<GuardedEnsureProtectionResponse, Status>,
    receipt: ProvisionMutationReceipt,
    valid: bool,
    r: Result<GuardedEnsureProtectionResponse, Status>,
)
    requires
        call_ensures(guarded::accept_protection, (request, reply), r),
        call_ensures(guarded::receipt_valid, (&receipt,), valid),
        reply matches Ok(response) ==> (response.receipt is Some ==> response.receipt->0
            == receipt),
    ensures
        same_failure(reply, r),
        reply matches Ok(response) ==> (r is Ok <==> response.receipt is Some && valid && (
        receipt.request matches Some(MutationRequest::Protection(q))
            && seen(q.repo) == seen(request.repo)
            && seen(q.expected) == seen(request.expected) && q.idempotency_key@
            == request.idempotency_key@ && q.branch@ == request.branch@ && q.rest@ == request.rest@)),
        reply matches Ok(response) ==> (r matches Ok(handed) ==> handed@ == response@),
        reply is Ok ==> (r is Err ==> data_lost(r, "invalid guarded mutation receipt"@)),
{
}

/// The repository, incarnation and key that a request names.
pub open spec fn names(
    input: MutationRequest,
    repo: Option<RepoRefView>,
    incarnation: Seq<char>,
    key: Seq<char>,
) -> bool {
    match input {
        MutationRequest::Archive(q) => seen(q.repo) == repo && q.expected is Some
            && q.expected->0.incarnation@ == incarnation && q.idempotency_key@ == key,
        MutationRequest::Delete(q) => seen(q.repo) == repo && q.expected is Some
            && q.expected->0.incarnation@ == incarnation && q.idempotency_key@ == key,
        MutationRequest::Protection(q) => seen(q.repo) == repo && q.expected is Some
            && q.expected->0.incarnation@ == incarnation && q.idempotency_key@ == key,
    }
}

/// A lookup hands on the receipt exactly where it is valid and of the operation that was
/// looked up: of its repository, its incarnation and its key, whichever phase it is in.
pub proof fn a_lookup_hands_on_the_receipt_of_the_operation(
    request: &GetProvisionMutationRequest,
    reply: Result<GetProvisionMutationResponse, Status>,
    receipt: ProvisionMutationReceipt,
    valid: bool,
    r: Result<GetProvisionMutationResponse, Status>,
)
    requires
        call_ensures(guarded::accept_mutation, (request, reply), r),
        call_ensures(guarded::receipt_valid, (&receipt,), valid),
        reply matches Ok(response) ==> (response.receipt is Some ==> response.receipt->0
            == receipt),
    ensures
        same_failure(reply, r),
        reply matches Ok(response) ==> (r is Ok <==> response.receipt is Some && valid && (
        receipt.request matches Some(input) && names(
            input,
            seen(request.repo),
            request.incarnation@,
            request.idempotency_key@,
        ))),
        reply matches Ok(response) ==> (r matches Ok(handed) ==> handed@ == response@),
        reply is Ok ==> (r is Err ==> data_lost(
            r,
            "guarded lookup returned an unrelated or invalid receipt"@,
        )),
{
}

/// A truthful receipt of an open operation is never lost: looked up by what it names, it is
/// handed on, be the operation pending (1), failed (3) or to be reconciled (4).
pub proof fn an_open_operation_is_found(
    request: &GetProvisionMutationRequest,
    response: GetProvisionMutationResponse,
    r: Result<GetProvisionMutationResponse, Status>,
)
    requires
        call_ensures(guarded::accept_mutation, (request, Ok(response)), r),
        response.receipt is Some,
        tells_who_asked(response.receipt->0@),
        response.receipt->0.phase == 1 || response.receipt->0.phase == 3
            || response.receipt->0.phase == 4,
        response.receipt->0.result is None,
        response.receipt->0.resulting_revision is None,
        response.receipt->0.request is Some,
        names(
            response.receipt->0.request->0,
            seen(request.repo),
            request.incarnation@,
            request.idempotency_key@,
        ),
    ensures
        r matches Ok(handed) && handed@ == response@,
{
}

/// A snapshot is handed on exactly where it answers the request: of its branch; and either of
/// nothing at all, or of the repository that was asked for, at a whole revision, with the
/// protection of that branch where it says that there is one.
pub proof fn a_snapshot_is_of_what_was_asked(
    request: &GetProvisionSnapshotRequest,
    reply: Result<GetProvisionSnapshotResponse, Status>,
    r: Result<GetProvisionSnapshotResponse, Status>,
)
    requires
        call_ensures(guarded::accept_snapshot, (request, reply), r),
    ensures
        same_failure(reply, r),
        reply matches Ok(s) ==> (r matches Ok(handed) ==> handed@ == s@),
        reply is Ok ==> (r is Err ==> data_lost(r, "invalid guarded repository snapshot"@)),
        reply matches Ok(s) ==> (!s.found ==> (r is Ok <==> s.branch@ == request.branch@
            && s.repo is None && s.revision is None && !s.protection_found
            && s.protection is None)),
        reply matches Ok(s) ==> (s.found ==> (r is Ok <==> {
            &&& s.branch@ == request.branch@
            &&& request.repo is Some
            &&& s.repo is Some
            &&& seen(s.repo->0.repo) == seen(request.repo)
            &&& whole(seen(s.revision))
            &&& s.protection_found <==> s.protection is Some
            &&& s.protection matches Some(p) ==> request.branch@.len() > 0 && p.branch@
                == request.branch@
        })),
{
}

/// The snapshot answers the request, by what they say.
pub proof fn snapshots_are_matched(
    response: &GetProvisionSnapshotResponse,
    request: &GetProvisionSnapshotRequest,
    r: bool,
    s: Result<GetProvisionSnapshotResponse, Status>,
)
    requires
        call_ensures(guarded::snapshot_matches, (response, request), r),
        call_ensures(guarded::accept_snapshot, (request, Ok(*response)), s),
    ensures
        r <==> s is Ok,
{
}

// ── through geetch ──────────────────────────────────────────────────────────

/// What is handed on of what was sent: the failure as it came; the receipt where it is
/// believable and of the request; the snapshot where it is of the branch; and else that
/// data were lost.
pub open spec fn handed(call: GuardedCall, sent: GuardedReply, reply: GuardedReply) -> bool {
    match (call, sent) {
        (GuardedCall::Snapshot(q), GuardedReply::Snapshot(Ok(s))) => {
            reply == sent && s.branch == q.branch || reply == GuardedReply::Snapshot(
                Err(
                    StatusView {
                        code: Code::DataLoss,
                        message: "invalid guarded repository snapshot"@,
                    },
                ),
            )
        },
        (GuardedCall::Archive(q), GuardedReply::Archive(Ok(v))) => if v.receipt is Some
            && believable(v.receipt->0) && v.receipt->0.request == Some(
            MutationRequestView::Archive(q),
        ) {
            reply == sent
        } else {
            reply == GuardedReply::Archive(
                Err(
                    StatusView {
                        code: Code::DataLoss,
                        message: "invalid guarded mutation receipt"@,
                    },
                ),
            )
        },
        (GuardedCall::Delete(q), GuardedReply::Delete(Ok(v))) => if v.receipt is Some && believable(
            v.receipt->0,
        ) && v.receipt->0.request == Some(MutationRequestView::Delete(q)) {
            reply == sent
        } else {
            reply == GuardedReply::Delete(
                Err(
                    StatusView {
                        code: Code::DataLoss,
                        message: "invalid guarded mutation receipt"@,
                    },
                ),
            )
        },
        (GuardedCall::Protection(q), GuardedReply::Protection(Ok(v))) => if v.receipt is Some
            && believable(v.receipt->0) && v.receipt->0.request == Some(
            MutationRequestView::Protection(q),
        ) {
            reply == sent
        } else {
            reply == GuardedReply::Protection(
                Err(
                    StatusView {
                        code: Code::DataLoss,
                        message: "invalid guarded mutation receipt"@,
                    },
                ),
            )
        },
        (GuardedCall::Mutation(q), GuardedReply::Mutation(Ok(v))) => {
            reply == sent && v.receipt is Some && believable(v.receipt->0) || reply
                == GuardedReply::Mutation(
                Err(
                    StatusView {
                        code: Code::DataLoss,
                        message: "guarded lookup returned an unrelated or invalid receipt"@,
                    },
                ),
            )
        },
        (GuardedCall::Snapshot(_), GuardedReply::Snapshot(Err(_))) => reply == sent,
        (GuardedCall::Archive(_), GuardedReply::Archive(Err(_))) => reply == sent,
        (GuardedCall::Delete(_), GuardedReply::Delete(Err(_))) => reply == sent,
        (GuardedCall::Protection(_), GuardedReply::Protection(Err(_))) => reply == sent,
        (GuardedCall::Mutation(_), GuardedReply::Mutation(Err(_))) => reply == sent,
        _ => false,
    }
}

/// Through geetch the service is asked the very request, once, for the caller that the
/// adapter is bound to; what it sends is handed on as [`handed`] says, and the adapter stays
/// bound to its caller.
pub proof fn geetch_asks_once_for_its_caller<S: GuardedForgeProvisionService>(
    pre: GuardedGeetchProvisioner<S>,
    call: GuardedCall,
    reply: GuardedReply,
    post: GuardedGeetchProvisioner<S>,
)
    requires
        GuardedGeetchProvisioner::<S>::answers(pre, call, reply, post),
    ensures
        post.caller() == pre.caller(),
        exists|sent: GuardedReply| #[trigger]
            S::serves(pre.remote(), pre.caller(), call, sent, post.remote()) && handed(
                call,
                sent,
                reply,
            ),
{
    let sent = choose|sent: GuardedReply| #[trigger]
        S::serves(pre.remote(), pre.caller(), call, sent, post.remote())
            && crate::guarded_geetch::replies(call, sent) && reply
            == crate::guarded_geetch::accepted(call, sent);
    assert(handed(call, sent, reply));
}

/// What geetch hands on of a lookup or a snapshot is what the tests of them let pass.
pub proof fn geetch_accepts_what_is_tested(
    lookup: &GetProvisionMutationRequest,
    found: Result<GetProvisionMutationResponse, Status>,
    looked: Result<GetProvisionMutationResponse, Status>,
    request: &GetProvisionSnapshotRequest,
    sent: Result<GetProvisionSnapshotResponse, Status>,
    shown: Result<GetProvisionSnapshotResponse, Status>,
)
    requires
        call_ensures(guarded::accept_mutation, (lookup, found), looked),
        call_ensures(guarded::accept_snapshot, (request, sent), shown),
    ensures
        crate::guarded_geetch::accepted(
            GuardedCall::Mutation(lookup@),
            GuardedReply::Mutation(crate::status::outcome(found)),
        ) == GuardedReply::Mutation(crate::status::outcome(looked)),
        crate::guarded_geetch::accepted(
            GuardedCall::Snapshot(request@),
            GuardedReply::Snapshot(crate::status::outcome(sent)),
        ) == GuardedReply::Snapshot(crate::status::outcome(shown)),
{
}

/// A provisioner without the guarded capability refuses every call as unimplemented.
pub proof fn an_unguarded_provisioner_refuses(
    pre: Unsupported,
    call: GuardedCall,
    reply: GuardedReply,
    post: Unsupported,
)
    requires
        Unsupported::answers(pre, call, reply, post),
    ensures
        match reply {
            GuardedReply::Snapshot(r) => call is Snapshot && (r matches Err(s) && s.code
                == Code::Unimplemented && s.message
                == "guarded provisioning snapshots are unsupported"@),
            GuardedReply::Archive(r) => call is Archive && (r matches Err(s) && s.code
                == Code::Unimplemented && s.message == "guarded archive is unsupported"@),
            GuardedReply::Delete(r) => call is Delete && (r matches Err(s) && s.code
                == Code::Unimplemented && s.message == "guarded deletion is unsupported"@),
            GuardedReply::Protection(r) => call is Protection && (r matches Err(s) && s.code
                == Code::Unimplemented && s.message == "guarded protection is unsupported"@),
            GuardedReply::Mutation(r) => call is Mutation && (r matches Err(s) && s.code
                == Code::Unimplemented && s.message == "guarded operation lookup is unsupported"@),
        },
{
}

} // verus!
