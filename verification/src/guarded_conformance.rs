//! Shared guarded-provisioning behavior, reusable by real server fixtures.
//!
//! Each case requires a fresh, active repository and an authorized caller. The cases
//! cover lifecycle preconditions and receipt replay. They do not establish restart
//! recovery, retention, protection, or access revocation.

use crate::conformance::{End, Verdict, VerdictView};
use crate::guarded::{
    identity, receipt_identity, ArchivedProvisionResultView, DeletedProvisionResultView,
    GetProvisionMutationRequest, GetProvisionMutationRequestView, GetProvisionSnapshotRequest,
    GetProvisionSnapshotRequestView, GetProvisionSnapshotResponse, GetProvisionSnapshotResponseView,
    GuardedArchiveRepoRequest, GuardedArchiveRepoRequestView, GuardedArchiveRepoResponse,
    GuardedArchiveRepoResponseView, GuardedCall, GuardedDeleteRepoRequest,
    GuardedDeleteRepoRequestView, GuardedProvisioner, GuardedReply, MutationRequest,
    MutationRequestView, MutationResult, MutationResultView, ProvisionMutationPhase,
    ProvisionMutationReceipt, ProvisionMutationReceiptView, ProvisionRevision,
    ProvisionRevisionView,
};
use crate::messages::{copy_opt, same_opt, seen, Message, RepoRef, RepoRefView};
use crate::provision::{ProtectionSpec, ProtectionSpecView, RepoLifecycle};
use crate::status::{outcome, Code, Status, StatusView};
use vstd::prelude::*;

verus! {

/// A live provisioner with a repository on it that is fresh and active.
pub trait Fixture: GuardedProvisioner {
    /// The repository.
    spec fn subject(&self) -> RepoRefView;

    /// Two archives that are put at the same time may have these replies, and leave the
    /// provisioner in this state.
    spec fn contends(
        pre: Self,
        first: GuardedArchiveRepoRequestView,
        second: GuardedArchiveRepoRequestView,
        replies: (
            Result<GuardedArchiveRepoResponseView, StatusView>,
            Result<GuardedArchiveRepoResponseView, StatusView>,
        ),
        post: Self,
    ) -> bool;

    /// Puts both archives at the same time, and gives the reply of each.
    fn archive_both(
        &mut self,
        first: GuardedArchiveRepoRequest,
        second: GuardedArchiveRepoRequest,
    ) -> (r: (
        Result<GuardedArchiveRepoResponse, Status>,
        Result<GuardedArchiveRepoResponse, Status>,
    ))
        requires
            old(self).wf(),
        ensures
            final(self).wf(),
            Self::contends(
                *old(self),
                first@,
                second@,
                (outcome(r.0), outcome(r.1)),
                *final(self),
            ),
    ;

    /// Waiting may end in this state, with time left or not.
    spec fn waits(pre: Self, left: bool, post: Self) -> bool;

    fn repo(&self) -> (r: RepoRef)
        ensures
            r@ == self.subject(),
    ;

    /// Waits ten milliseconds, and says whether the ten seconds that an operation has
    /// are still running.
    fn pause(&mut self) -> (r: bool)
        requires
            old(self).wf(),
        ensures
            final(self).wf(),
            Self::waits(*old(self), r, *final(self)),
    ;
}

/// The provisioner is asked, and what follows holds of its reply and of the state that
/// the call leaves it in.
pub open spec fn asks<X: Fixture>(
    pre: X,
    call: GuardedCall,
    next: spec_fn(GuardedReply, X) -> bool,
) -> bool {
    exists|reply: GuardedReply, post: X| #[trigger]
        X::answers(pre, call, reply, post) && next(reply, post)
}

/// A snapshot is owed: its failure ends the case.
pub open spec fn owes_snapshot<X: Fixture>(
    pre: X,
    repo: RepoRefView,
    branch: Seq<char>,
    end: End<X>,
    next: spec_fn(GetProvisionSnapshotResponseView, X) -> bool,
) -> bool {
    asks(
        pre,
        GuardedCall::Snapshot(GetProvisionSnapshotRequestView { repo: Some(repo), branch }),
        |reply: GuardedReply, fx: X|
            match reply {
                GuardedReply::Snapshot(Ok(v)) => next(v, fx),
                GuardedReply::Snapshot(Err(s)) => end.refused(s.message, fx),
                _ => false,
            },
    )
}

pub open spec fn no_receipt() -> Seq<char> {
    "an accepted request must have a receipt"@
}

/// A receipt of an archive is owed.
pub open spec fn owes_archive<X: Fixture>(
    pre: X,
    request: GuardedArchiveRepoRequestView,
    end: End<X>,
    next: spec_fn(ProvisionMutationReceiptView, X) -> bool,
) -> bool {
    asks(
        pre,
        GuardedCall::Archive(request),
        |reply: GuardedReply, fx: X|
            match reply {
                GuardedReply::Archive(Ok(v)) => match v.receipt {
                    Some(receipt) => next(receipt, fx),
                    None => end.broken(no_receipt(), fx),
                },
                GuardedReply::Archive(Err(s)) => end.refused(s.message, fx),
                _ => false,
            },
    )
}

/// A receipt of a deletion is owed.
pub open spec fn owes_delete<X: Fixture>(
    pre: X,
    request: GuardedDeleteRepoRequestView,
    end: End<X>,
    next: spec_fn(ProvisionMutationReceiptView, X) -> bool,
) -> bool {
    asks(
        pre,
        GuardedCall::Delete(request),
        |reply: GuardedReply, fx: X|
            match reply {
                GuardedReply::Delete(Ok(v)) => match v.receipt {
                    Some(receipt) => next(receipt, fx),
                    None => end.broken(no_receipt(), fx),
                },
                GuardedReply::Delete(Err(s)) => end.refused(s.message, fx),
                _ => false,
            },
    )
}

/// A deletion must be rejected with this code.
pub open spec fn rejects_delete<X: Fixture>(
    pre: X,
    request: GuardedDeleteRepoRequestView,
    code: Code,
    claim: Seq<char>,
    end: End<X>,
    next: spec_fn(X) -> bool,
) -> bool {
    asks(
        pre,
        GuardedCall::Delete(request),
        |reply: GuardedReply, fx: X|
            match reply {
                GuardedReply::Delete(Err(s)) => if s.code == code {
                    next(fx)
                } else {
                    end.broken(claim, fx)
                },
                GuardedReply::Delete(Ok(_)) => end.broken(claim, fx),
                _ => false,
            },
    )
}

/// An archive must be rejected with this code.
pub open spec fn rejects_archive<X: Fixture>(
    pre: X,
    request: GuardedArchiveRepoRequestView,
    code: Code,
    claim: Seq<char>,
    end: End<X>,
    next: spec_fn(X) -> bool,
) -> bool {
    asks(
        pre,
        GuardedCall::Archive(request),
        |reply: GuardedReply, fx: X|
            match reply {
                GuardedReply::Archive(Err(s)) => if s.code == code {
                    next(fx)
                } else {
                    end.broken(claim, fx)
                },
                GuardedReply::Archive(Ok(_)) => end.broken(claim, fx),
                _ => false,
            },
    )
}

/// A repeated archive must give back the receipt that the first one gave.
pub open spec fn replays_archive<X: Fixture>(
    pre: X,
    request: GuardedArchiveRepoRequestView,
    receipt: ProvisionMutationReceiptView,
    end: End<X>,
    next: spec_fn(X) -> bool,
) -> bool {
    asks(
        pre,
        GuardedCall::Archive(request),
        |reply: GuardedReply, fx: X|
            match reply {
                GuardedReply::Archive(Ok(v)) => if v.receipt == Some(receipt) {
                    next(fx)
                } else {
                    end.broken("an identical retry must give the original receipt"@, fx)
                },
                GuardedReply::Archive(Err(s)) => end.refused(s.message, fx),
                _ => false,
            },
    )
}

/// A repeated deletion must give back the receipt that the first one gave.
pub open spec fn replays_delete<X: Fixture>(
    pre: X,
    request: GuardedDeleteRepoRequestView,
    receipt: ProvisionMutationReceiptView,
    end: End<X>,
    next: spec_fn(X) -> bool,
) -> bool {
    asks(
        pre,
        GuardedCall::Delete(request),
        |reply: GuardedReply, fx: X|
            match reply {
                GuardedReply::Delete(Ok(v)) => if v.receipt == Some(receipt) {
                    next(fx)
                } else {
                    end.broken("an identical retry must give the original receipt"@, fx)
                },
                GuardedReply::Delete(Err(s)) => end.refused(s.message, fx),
                _ => false,
            },
    )
}

/// The lookup of an operation must give its receipt.
pub open spec fn looks_up<X: Fixture>(
    pre: X,
    request: GetProvisionMutationRequestView,
    receipt: ProvisionMutationReceiptView,
    end: End<X>,
    next: spec_fn(X) -> bool,
) -> bool {
    asks(
        pre,
        GuardedCall::Mutation(request),
        |reply: GuardedReply, fx: X|
            match reply {
                GuardedReply::Mutation(Ok(v)) => if v.receipt == Some(receipt) {
                    next(fx)
                } else {
                    end.broken("the lookup must give the original receipt"@, fx)
                },
                GuardedReply::Mutation(Err(s)) => end.refused(s.message, fx),
                _ => false,
            },
    )
}

/// The repository must be as it was.
pub open spec fn unchanged<X: Fixture>(
    pre: X,
    repo: RepoRefView,
    branch: Seq<char>,
    before: GetProvisionSnapshotResponseView,
    claim: Seq<char>,
    end: End<X>,
    next: spec_fn(X) -> bool,
) -> bool {
    owes_snapshot(
        pre,
        repo,
        branch,
        end,
        |after: GetProvisionSnapshotResponseView, fx: X|
            if after == before {
                next(fx)
            } else {
                end.broken(claim, fx)
            },
    )
}

// ── waiting for an operation ────────────────────────────────────────────────

/// What a receipt says of the operation: it is the one that was started.
pub open spec fn same_operation(
    receipt: ProvisionMutationReceiptView,
    initial: ProvisionMutationReceiptView,
) -> bool {
    &&& receipt.operation_id == initial.operation_id
    &&& receipt.request == initial.request
    &&& receipt.actor == initial.actor
}

/// The lookup of the operation that a receipt is of.
pub open spec fn lookup_of(
    receipt: ProvisionMutationReceiptView,
) -> GetProvisionMutationRequestView {
    let named = identity(receipt.request->0);
    GetProvisionMutationRequestView {
        repo: named.repo,
        incarnation: named.expected->0.incarnation,
        idempotency_key: named.key,
    }
}

/// What a succeeded operation's receipt comes to: it must tell the operation and a
/// verified actor.
pub open spec fn settled(receipt: ProvisionMutationReceiptView) -> Result<
    ProvisionMutationReceiptView,
    VerdictView,
> {
    if receipt.operation_id.len() == 0 {
        Err(VerdictView::Broken("a receipt must name its operation"@))
    } else if receipt.actor is None {
        Err(VerdictView::Broken("verified provenance"@))
    } else if receipt.actor->0.issuer.len() == 0 || receipt.actor->0.subject.len() == 0 {
        Err(VerdictView::Broken("a verified actor must be complete"@))
    } else {
        Ok(receipt)
    }
}

/// Pending intent is valid: the original operation is polled, without replaying it, as
/// long as it is pending and time is left.
pub open spec fn polled<X: Fixture>(
    pre: X,
    receipt: ProvisionMutationReceiptView,
    initial: ProvisionMutationReceiptView,
    fuel: nat,
    out: Result<ProvisionMutationReceiptView, VerdictView>,
    post: X,
) -> bool
    decreases fuel,
{
    let stop = |claim: Seq<char>| post == pre && out == Err::<
        ProvisionMutationReceiptView,
        VerdictView,
    >(VerdictView::Broken(claim));
    if !same_operation(receipt, initial) {
        stop("a poll must tell of the original operation"@)
    } else {
        match ProvisionMutationPhase::of(receipt.phase) {
            Some(ProvisionMutationPhase::Succeeded) => post == pre && out == settled(receipt),
            Some(ProvisionMutationPhase::Pending)
            | Some(ProvisionMutationPhase::ReconciliationRequired) => {
                if receipt.result is Some || receipt.resulting_revision is Some {
                    stop("an unfinished operation must not carry an outcome"@)
                } else if receipt.request is None {
                    stop("a receipt must carry its request"@)
                } else if identity(receipt.request->0).expected is None {
                    stop("a request must expect a revision"@)
                } else if fuel == 0 {
                    stop(timed_out())
                } else {
                    exists|left: bool, paused: X| #[trigger]
                        X::waits(pre, left, paused) && if !left {
                            post == paused && out == Err::<
                                ProvisionMutationReceiptView,
                                VerdictView,
                            >(VerdictView::Broken(timed_out()))
                        } else {
                            exists|reply: GuardedReply, asked: X| #[trigger]
                                X::answers(
                                    paused,
                                    GuardedCall::Mutation(lookup_of(receipt)),
                                    reply,
                                    asked,
                                ) && match reply {
                                    GuardedReply::Mutation(Ok(v)) => match v.receipt {
                                        Some(next) => polled(
                                            asked,
                                            next,
                                            initial,
                                            (fuel - 1) as nat,
                                            out,
                                            post,
                                        ),
                                        None => post == asked && out == Err::<
                                            ProvisionMutationReceiptView,
                                            VerdictView,
                                        >(VerdictView::Broken(no_receipt())),
                                    },
                                    GuardedReply::Mutation(Err(s)) => post == asked && out
                                        == Err::<ProvisionMutationReceiptView, VerdictView>(
                                        VerdictView::Refused(s.message),
                                    ),
                                    _ => false,
                                }
                        }
                }
            },
            None => stop("the phase must be one that is known"@),
            _ => stop("operation did not succeed"@),
        }
    }
}

pub open spec fn timed_out() -> Seq<char> {
    "healthy fixture must complete within ten seconds"@
}

/// How often an operation is polled at most: every ten milliseconds for ten seconds.
pub open spec fn poll_limit() -> nat {
    1000
}

/// An operation that was started must succeed.
pub open spec fn settles<X: Fixture>(
    pre: X,
    receipt: ProvisionMutationReceiptView,
    end: End<X>,
    next: spec_fn(ProvisionMutationReceiptView, X) -> bool,
) -> bool {
    exists|out: Result<ProvisionMutationReceiptView, VerdictView>, post: X| #[trigger]
        polled(pre, receipt, receipt, poll_limit(), out, post) && match out {
            Ok(receipt) => next(receipt, post),
            Err(verdict) => end.is(verdict, post),
        }
}

fn settle(receipt: ProvisionMutationReceipt) -> (r: Result<ProvisionMutationReceipt, Verdict>)
    ensures
        match r {
            Ok(v) => settled(receipt@) == Ok::<ProvisionMutationReceiptView, VerdictView>(v@),
            Err(v) => settled(receipt@) == Err::<ProvisionMutationReceiptView, VerdictView>(v@),
        },
{
    if receipt.operation_id.as_str().is_empty() {
        return Err(Verdict::Broken("a receipt must name its operation"));
    }
    let complete = match &receipt.actor {
        None => {
            return Err(Verdict::Broken("verified provenance"));
        },
        Some(actor) => !actor.issuer.as_str().is_empty() && !actor.subject.as_str().is_empty(),
    };
    if !complete {
        return Err(Verdict::Broken("a verified actor must be complete"));
    }
    Ok(receipt)
}

/// What `succeeded` gives, by its characters.
pub open spec fn found(r: Result<ProvisionMutationReceipt, Verdict>) -> Result<
    ProvisionMutationReceiptView,
    VerdictView,
> {
    match r {
        Ok(v) => Ok(v@),
        Err(v) => Err(v@),
    }
}

/// Waits for the operation that was started to succeed.
pub fn succeeded<X: Fixture>(fx: &mut X, receipt: ProvisionMutationReceipt) -> (r: Result<
    ProvisionMutationReceipt,
    Verdict,
>)
    requires
        old(fx).wf(),
    ensures
        final(fx).wf(),
        polled(*old(fx), receipt@, receipt@, poll_limit(), found(r), *final(fx)),
{
    let initial = receipt.copy();
    let ghost begun = receipt@;
    let ghost start = *fx;
    let mut current = receipt;
    let mut left: usize = 1000;
    loop
        invariant
            fx.wf(),
            left <= 1000,
            initial@ == begun,
            begun == receipt@,
            start == *old(fx),
            forall|out: Result<ProvisionMutationReceiptView, VerdictView>, post: X| #[trigger]
                polled(*fx, current@, begun, left as nat, out, post) ==> polled(
                    start,
                    begun,
                    begun,
                    poll_limit(),
                    out,
                    post,
                ),
        decreases left,
    {
        let ghost pre = *fx;
        let ghost now = current@;
        if current.operation_id != initial.operation_id || !same_opt(
            &current.request,
            &initial.request,
        ) || !same_opt(&current.actor, &initial.actor) {
            let r = Err(Verdict::Broken("a poll must tell of the original operation"));
            assert(polled(pre, now, begun, left as nat, found(r), pre));
            return r;
        }
        match ProvisionMutationPhase::from_number(current.phase) {
            Some(ProvisionMutationPhase::Succeeded) => {
                let r = settle(current);
                assert(polled(pre, now, begun, left as nat, found(r), pre));
                return r;
            },
            Some(ProvisionMutationPhase::Pending)
            | Some(ProvisionMutationPhase::ReconciliationRequired) => {},
            None => {
                let r = Err(Verdict::Broken("the phase must be one that is known"));
                assert(polled(pre, now, begun, left as nat, found(r), pre));
                return r;
            },
            _ => {
                let r = Err(Verdict::Broken("operation did not succeed"));
                assert(polled(pre, now, begun, left as nat, found(r), pre));
                return r;
            },
        }
        if current.result.is_some() || current.resulting_revision.is_some() {
            let r = Err(Verdict::Broken("an unfinished operation must not carry an outcome"));
            assert(polled(pre, now, begun, left as nat, found(r), pre));
            return r;
        }
        let input = match &current.request {
            Some(input) => input,
            None => {
                let r = Err(Verdict::Broken("a receipt must carry its request"));
                assert(polled(pre, now, begun, left as nat, found(r), pre));
                return r;
            },
        };
        let (repo, expected, key) = receipt_identity(input);
        let incarnation = match expected {
            Some(revision) => revision.incarnation.clone(),
            None => {
                let r = Err(Verdict::Broken("a request must expect a revision"));
                assert(polled(pre, now, begun, left as nat, found(r), pre));
                return r;
            },
        };
        if left == 0 {
            let r = Err(Verdict::Broken("healthy fixture must complete within ten seconds"));
            assert(polled(pre, now, begun, left as nat, found(r), pre));
            return r;
        }
        let query = GetProvisionMutationRequest {
            repo: copy_opt(repo),
            incarnation,
            idempotency_key: key.to_owned(),
        };
        assert(query@ == lookup_of(now));
        let more = fx.pause();
        let ghost paused = *fx;
        if !more {
            let r = Err(Verdict::Broken("healthy fixture must complete within ten seconds"));
            assert(polled(pre, now, begun, left as nat, found(r), paused));
            return r;
        }
        let reply = fx.mutation(query);
        let ghost asked = *fx;
        match reply {
            Err(status) => {
                let r = Err(Verdict::Refused(status.message));
                assert(X::answers(
                    paused,
                    GuardedCall::Mutation(lookup_of(now)),
                    GuardedReply::Mutation(outcome(reply)),
                    asked,
                ));
                assert(polled(pre, now, begun, left as nat, found(r), asked));
                return r;
            },
            Ok(response) => match response.receipt {
                None => {
                    let r = Err(Verdict::Broken("an accepted request must have a receipt"));
                    assert(polled(pre, now, begun, left as nat, found(r), asked));
                    return r;
                },
                Some(next) => {
                    let ghost n = left as nat;
                    let ghost told = next@;
                    let ghost reply = GuardedReply::Mutation(
                        Ok(crate::guarded::GetProvisionMutationResponseView {
                            receipt: Some(told),
                        }),
                    );
                    assert(X::answers(
                        paused,
                        GuardedCall::Mutation(lookup_of(now)),
                        reply,
                        asked,
                    ));
                    assert(X::waits(pre, true, paused));
                    current = next;
                    left = left - 1;
                    assert forall|
                        out: Result<ProvisionMutationReceiptView, VerdictView>,
                        post: X,
                    | #[trigger]
                        polled(*fx, current@, begun, left as nat, out, post) implies polled(
                        start,
                        begun,
                        begun,
                        poll_limit(),
                        out,
                        post,
                    ) by {
                        assert(polled(asked, told, begun, (n - 1) as nat, out, post));
                        assert(polled(pre, now, begun, n, out, post));
                    }
                },
            },
        }
    }
}

// ── requests ────────────────────────────────────────────────────────────────

pub open spec fn archive_request(
    repo: RepoRefView,
    revision: Option<ProvisionRevisionView>,
    key: Seq<char>,
) -> GuardedArchiveRepoRequestView {
    GuardedArchiveRepoRequestView { repo: Some(repo), expected: revision, idempotency_key: key }
}

fn archive(repo: &RepoRef, revision: &Option<ProvisionRevision>, key: &str) -> (r:
    GuardedArchiveRepoRequest)
    ensures
        r@ == archive_request(repo@, seen(*revision), key@),
{
    GuardedArchiveRepoRequest {
        repo: Some(repo.clone()),
        expected: copy_opt(revision),
        idempotency_key: key.to_owned(),
    }
}

pub open spec fn delete_request(
    repo: RepoRefView,
    revision: Option<ProvisionRevisionView>,
    confirm_name: Seq<char>,
    key: Seq<char>,
) -> GuardedDeleteRepoRequestView {
    GuardedDeleteRepoRequestView {
        repo: Some(repo),
        expected: revision,
        confirm_name,
        idempotency_key: key,
    }
}

fn deletion(
    repo: &RepoRef,
    revision: &Option<ProvisionRevision>,
    confirm_name: &str,
    key: &str,
) -> (r: GuardedDeleteRepoRequest)
    ensures
        r@ == delete_request(repo@, seen(*revision), confirm_name@, key@),
{
    GuardedDeleteRepoRequest {
        repo: Some(repo.clone()),
        expected: copy_opt(revision),
        confirm_name: confirm_name.to_owned(),
        idempotency_key: key.to_owned(),
    }
}

fn snapshot_request(repo: &RepoRef, branch: &str) -> (r: GetProvisionSnapshotRequest)
    ensures
        r@ == (GetProvisionSnapshotRequestView { repo: Some(repo@), branch: branch@ }),
{
    GetProvisionSnapshotRequest { repo: Some(repo.clone()), branch: branch.to_owned() }
}

// ── archive_updates_snapshot ────────────────────────────────────────────────

/// What the receipt and the snapshot after the archive come to.
pub open spec fn archive_verdict(
    repo: RepoRefView,
    old: ProvisionRevisionView,
    receipt: ProvisionMutationReceiptView,
    after: GetProvisionSnapshotResponseView,
) -> VerdictView {
    if !after.found {
        VerdictView::Broken("the repository must still be there"@)
    } else if after.repo is None {
        VerdictView::Broken("a found repository must be described"@)
    } else if after.repo->0.repo != Some(repo) {
        VerdictView::Broken("the snapshot must be of the repository"@)
    } else if after.repo->0.lifecycle != RepoLifecycle::Archived.wire() {
        VerdictView::Broken("an archived repository must say so"@)
    } else if after.revision is None {
        VerdictView::Broken("a found repository must have a revision"@)
    } else if after.revision->0.incarnation != old.incarnation {
        VerdictView::Broken("archiving must keep the incarnation"@)
    } else if after.revision->0.configuration == old.configuration {
        VerdictView::Broken("archiving must change the configuration"@)
    } else if after.revision->0.configuration.len() == 0 {
        VerdictView::Broken("a configuration must be named"@)
    } else if receipt.resulting_revision != after.revision {
        VerdictView::Broken("the receipt must tell the new revision"@)
    } else if receipt.result != Some(
        MutationResultView::Archived(ArchivedProvisionResultView { repo: after.repo }),
    ) {
        VerdictView::Broken("the receipt must tell the archived repository"@)
    } else {
        VerdictView::Pass
    }
}

fn judge_archive(
    repo: &RepoRef,
    old: &ProvisionRevision,
    receipt: &ProvisionMutationReceipt,
    after: &GetProvisionSnapshotResponse,
) -> (r: Verdict)
    ensures
        r@ == archive_verdict(repo@, old@, receipt@, after@),
{
    if !after.found {
        return Verdict::Broken("the repository must still be there");
    }
    let described = match &after.repo {
        Some(v) => v,
        None => {
            return Verdict::Broken("a found repository must be described");
        },
    };
    let own = match &described.repo {
        Some(r) => r.same(repo),
        None => false,
    };
    if !own {
        return Verdict::Broken("the snapshot must be of the repository");
    }
    if described.lifecycle != RepoLifecycle::Archived.number() {
        return Verdict::Broken("an archived repository must say so");
    }
    let new = match &after.revision {
        Some(v) => v,
        None => {
            return Verdict::Broken("a found repository must have a revision");
        },
    };
    if new.incarnation != old.incarnation {
        return Verdict::Broken("archiving must keep the incarnation");
    }
    if new.configuration == old.configuration {
        return Verdict::Broken("archiving must change the configuration");
    }
    if new.configuration.as_str().is_empty() {
        return Verdict::Broken("a configuration must be named");
    }
    if !same_opt(&receipt.resulting_revision, &after.revision) {
        return Verdict::Broken("the receipt must tell the new revision");
    }
    let told = match &receipt.result {
        Some(MutationResult::Archived(archived)) => same_opt(&archived.repo, &after.repo),
        _ => false,
    };
    if !told {
        return Verdict::Broken("the receipt must tell the archived repository");
    }
    Verdict::Pass
}

pub open spec fn archive_updates_snapshot_course<X: Fixture>(
    fx: X,
    repo: RepoRefView,
    end: End<X>,
) -> bool {
    owes_snapshot(
        fx,
        repo,
        ""@,
        end,
        |before: GetProvisionSnapshotResponseView, fx: X|
            if !before.found {
                end.broken("the repository must be there"@, fx)
            } else if before.revision is None {
                end.broken("initial revision"@, fx)
            } else if before.revision->0.incarnation.len() == 0
                || before.revision->0.configuration.len() == 0 {
                end.broken("the initial revision must be complete"@, fx)
            } else {
                let request = archive_request(repo, before.revision, "archive"@);
                owes_archive(
                    fx,
                    request,
                    end,
                    |receipt: ProvisionMutationReceiptView, fx: X|
                        settles(
                            fx,
                            receipt,
                            end,
                            |receipt: ProvisionMutationReceiptView, fx: X|
                                if receipt.request != Some(
                                    MutationRequestView::Archive(request),
                                ) {
                                    end.broken("the receipt must carry the request"@, fx)
                                } else {
                                    owes_snapshot(
                                        fx,
                                        repo,
                                        ""@,
                                        end,
                                        |after: GetProvisionSnapshotResponseView, fx: X|
                                            end.is(
                                                archive_verdict(
                                                    repo,
                                                    before.revision->0,
                                                    receipt,
                                                    after,
                                                ),
                                                fx,
                                            ),
                                    )
                                },
                        ),
                )
            },
    )
}

/// The outcome and the subsequent consistent snapshot agree on the new version.
pub fn archive_updates_snapshot<X: Fixture>(fx: &mut X) -> (r: Verdict)
    requires
        old(fx).wf(),
    ensures
        final(fx).wf(),
        archive_updates_snapshot_course(
            *old(fx),
            old(fx).subject(),
            End { verdict: r@, adapter: *final(fx) },
        ),
{
    let repo = fx.repo();
    let before = match fx.snapshot(snapshot_request(&repo, "")) {
        Ok(v) => v,
        Err(status) => {
            return Verdict::Refused(status.message);
        },
    };
    if !before.found {
        return Verdict::Broken("the repository must be there");
    }
    let old = match before.revision {
        Some(v) => v,
        None => {
            return Verdict::Broken("initial revision");
        },
    };
    if old.incarnation.as_str().is_empty() || old.configuration.as_str().is_empty() {
        return Verdict::Broken("the initial revision must be complete");
    }
    let expected = Some(old.copy());
    let request = archive(&repo, &expected, "archive");
    let receipt = match fx.archive(request.copy()) {
        Ok(v) => match v.receipt {
            Some(receipt) => receipt,
            None => {
                return Verdict::Broken("an accepted request must have a receipt");
            },
        },
        Err(status) => {
            return Verdict::Refused(status.message);
        },
    };
    let receipt = match succeeded(fx, receipt) {
        Ok(receipt) => receipt,
        Err(verdict) => {
            return verdict;
        },
    };
    let own = match &receipt.request {
        Some(MutationRequest::Archive(input)) => input.same(&request),
        _ => false,
    };
    if !own {
        return Verdict::Broken("the receipt must carry the request");
    }
    let after = match fx.snapshot(snapshot_request(&repo, "")) {
        Ok(v) => v,
        Err(status) => {
            return Verdict::Refused(status.message);
        },
    };
    judge_archive(&repo, &old, &receipt, &after)
}

// ── stale_delete_has_no_effect ──────────────────────────────────────────────

pub open spec fn stale_delete_has_no_effect_course<X: Fixture>(
    fx: X,
    repo: RepoRefView,
    end: End<X>,
) -> bool {
    owes_snapshot(
        fx,
        repo,
        ""@,
        end,
        |first: GetProvisionSnapshotResponseView, fx: X|
            owes_archive(
                fx,
                archive_request(repo, first.revision, "archive"@),
                end,
                |receipt: ProvisionMutationReceiptView, fx: X|
                    settles(
                        fx,
                        receipt,
                        end,
                        |_receipt: ProvisionMutationReceiptView, fx: X|
                            owes_snapshot(
                                fx,
                                repo,
                                ""@,
                                end,
                                |before: GetProvisionSnapshotResponseView, fx: X|
                                    rejects_delete(
                                        fx,
                                        delete_request(
                                            repo,
                                            first.revision,
                                            repo.name,
                                            "stale-delete"@,
                                        ),
                                        Code::FailedPrecondition,
                                        "a stale deletion must fail its precondition"@,
                                        end,
                                        |fx: X|
                                            unchanged(
                                                fx,
                                                repo,
                                                ""@,
                                                before,
                                                "stale deletion changed repository state"@,
                                                end,
                                                |fx: X| end.pass(fx),
                                            ),
                                    ),
                            ),
                    ),
            ),
    )
}

/// A stale request cannot delete the repository after another change commits.
pub fn stale_delete_has_no_effect<X: Fixture>(fx: &mut X) -> (r: Verdict)
    requires
        old(fx).wf(),
    ensures
        final(fx).wf(),
        stale_delete_has_no_effect_course(
            *old(fx),
            old(fx).subject(),
            End { verdict: r@, adapter: *final(fx) },
        ),
{
    let repo = fx.repo();
    let first = match fx.snapshot(snapshot_request(&repo, "")) {
        Ok(v) => v,
        Err(status) => {
            return Verdict::Refused(status.message);
        },
    };
    let receipt = match fx.archive(archive(&repo, &first.revision, "archive")) {
        Ok(v) => match v.receipt {
            Some(receipt) => receipt,
            None => {
                return Verdict::Broken("an accepted request must have a receipt");
            },
        },
        Err(status) => {
            return Verdict::Refused(status.message);
        },
    };
    if let Err(verdict) = succeeded(fx, receipt) {
        return verdict;
    }
    let before = match fx.snapshot(snapshot_request(&repo, "")) {
        Ok(v) => v,
        Err(status) => {
            return Verdict::Refused(status.message);
        },
    };
    match fx.delete(deletion(&repo, &first.revision, repo.name.as_str(), "stale-delete")) {
        Ok(_) => {
            return Verdict::Broken("a stale deletion must fail its precondition");
        },
        Err(status) => {
            if status.code != Code::FailedPrecondition {
                return Verdict::Broken("a stale deletion must fail its precondition");
            }
        },
    }
    match fx.snapshot(snapshot_request(&repo, "")) {
        Ok(after) => {
            if !after.same(&before) {
                return Verdict::Broken("stale deletion changed repository state");
            }
        },
        Err(status) => {
            return Verdict::Refused(status.message);
        },
    }
    Verdict::Pass
}

// ── competing_archives_have_one_winner ──────────────────────────────────────

/// The winner succeeds, the loser's precondition failed, and the repository is at the
/// revision that the winner tells.
pub open spec fn wins<X: Fixture>(
    fx: X,
    repo: RepoRefView,
    winner: Option<ProvisionMutationReceiptView>,
    loser: StatusView,
    end: End<X>,
) -> bool {
    match winner {
        None => end.broken(no_receipt(), fx),
        Some(winner) => settles(
            fx,
            winner,
            end,
            |winner: ProvisionMutationReceiptView, fx: X|
                if loser.code != Code::FailedPrecondition {
                    end.broken("the loser must fail its precondition"@, fx)
                } else {
                    owes_snapshot(
                        fx,
                        repo,
                        ""@,
                        end,
                        |after: GetProvisionSnapshotResponseView, fx: X|
                            if after.revision != winner.resulting_revision {
                                end.broken(
                                    "the repository must be at the winner's revision"@,
                                    fx,
                                )
                            } else {
                                end.pass(fx)
                            },
                    )
                },
        ),
    }
}

fn crown<X: Fixture>(
    fx: &mut X,
    repo: &RepoRef,
    winner: Option<ProvisionMutationReceipt>,
    loser: Status,
) -> (r: Verdict)
    requires
        old(fx).wf(),
    ensures
        final(fx).wf(),
        wins(
            *old(fx),
            repo@,
            seen(winner),
            loser@,
            End { verdict: r@, adapter: *final(fx) },
        ),
{
    let winner = match winner {
        Some(v) => v,
        None => {
            return Verdict::Broken("an accepted request must have a receipt");
        },
    };
    let winner = match succeeded(fx, winner) {
        Ok(receipt) => receipt,
        Err(verdict) => {
            return verdict;
        },
    };
    if loser.code != Code::FailedPrecondition {
        return Verdict::Broken("the loser must fail its precondition");
    }
    let after = match fx.snapshot(snapshot_request(repo, "")) {
        Ok(v) => v,
        Err(status) => {
            return Verdict::Refused(status.message);
        },
    };
    if !same_opt(&after.revision, &winner.resulting_revision) {
        return Verdict::Broken("the repository must be at the winner's revision");
    }
    Verdict::Pass
}

/// Both archives are put at the same time, and what follows holds of their replies and of
/// the state that they leave.
pub open spec fn contests<X: Fixture>(
    pre: X,
    first: GuardedArchiveRepoRequestView,
    second: GuardedArchiveRepoRequestView,
    next: spec_fn(
        Result<GuardedArchiveRepoResponseView, StatusView>,
        Result<GuardedArchiveRepoResponseView, StatusView>,
        X,
    ) -> bool,
) -> bool {
    exists|
        a: Result<GuardedArchiveRepoResponseView, StatusView>,
        b: Result<GuardedArchiveRepoResponseView, StatusView>,
        post: X,
    | #[trigger]
        X::contends(pre, first, second, (a, b), post) && next(a, b, post)
}

pub open spec fn competing_archives_have_one_winner_course<X: Fixture>(
    fx: X,
    repo: RepoRefView,
    end: End<X>,
) -> bool {
    owes_snapshot(
        fx,
        repo,
        ""@,
        end,
        |before: GetProvisionSnapshotResponseView, fx: X|
            contests(
                fx,
                archive_request(repo, before.revision, "first"@),
                archive_request(repo, before.revision, "second"@),
                |a: Result<GuardedArchiveRepoResponseView, StatusView>,
                    b: Result<GuardedArchiveRepoResponseView, StatusView>,
                    fx: X|
                    match (a, b) {
                        (Ok(w), Err(l)) => wins(fx, repo, w.receipt, l, end),
                        (Err(l), Ok(w)) => wins(fx, repo, w.receipt, l, end),
                        _ => end.broken(
                            "expected one committed operation and one stale rejection"@,
                            fx,
                        ),
                    },
            ),
    )
}

/// Distinct requests sharing a revision cannot both commit, put at the same time.
pub fn competing_archives_have_one_winner<X: Fixture>(fx: &mut X) -> (r: Verdict)
    requires
        old(fx).wf(),
    ensures
        final(fx).wf(),
        competing_archives_have_one_winner_course(
            *old(fx),
            old(fx).subject(),
            End { verdict: r@, adapter: *final(fx) },
        ),
{
    let repo = fx.repo();
    let before = match fx.snapshot(snapshot_request(&repo, "")) {
        Ok(v) => v,
        Err(status) => {
            return Verdict::Refused(status.message);
        },
    };
    let first = archive(&repo, &before.revision, "first");
    let second = archive(&repo, &before.revision, "second");
    let ghost asked = *fx;
    let ghost wanted = (first@, second@);
    let (a, b) = fx.archive_both(first, second);
    assert(X::contends(asked, wanted.0, wanted.1, (outcome(a), outcome(b)), *fx));
    match (a, b) {
        (Ok(w), Err(l)) => crown(fx, &repo, w.receipt, l),
        (Err(l), Ok(w)) => crown(fx, &repo, w.receipt, l),
        _ => Verdict::Broken("expected one committed operation and one stale rejection"),
    }
}

// ── archive_retry_preserves_receipt ─────────────────────────────────────────

/// The operation is looked up and repeated, to the same receipt; the same key with
/// another request is refused; and nothing has changed.
pub open spec fn retried<X: Fixture>(
    fx: X,
    repo: RepoRefView,
    incarnation: Seq<char>,
    request: GuardedArchiveRepoRequestView,
    changed: GuardedArchiveRepoRequestView,
    first: ProvisionMutationReceiptView,
    after: GetProvisionSnapshotResponseView,
    end: End<X>,
) -> bool {
    looks_up(
        fx,
        GetProvisionMutationRequestView {
            repo: Some(repo),
            incarnation,
            idempotency_key: "retry"@,
        },
        first,
        end,
        |fx: X|
            replays_archive(
                fx,
                request,
                first,
                end,
                |fx: X|
                    rejects_archive(
                        fx,
                        changed,
                        Code::AlreadyExists,
                        "a reused key with another request must be refused"@,
                        end,
                        |fx: X|
                            unchanged(
                                fx,
                                repo,
                                ""@,
                                after,
                                "retry must not create another revision"@,
                                end,
                                |fx: X| end.pass(fx),
                            ),
                    ),
            ),
    )
}

fn retry<X: Fixture>(
    fx: &mut X,
    repo: &RepoRef,
    incarnation: String,
    request: GuardedArchiveRepoRequest,
    changed: GuardedArchiveRepoRequest,
    first: &ProvisionMutationReceipt,
    after: &GetProvisionSnapshotResponse,
) -> (r: Verdict)
    requires
        old(fx).wf(),
    ensures
        final(fx).wf(),
        retried(
            *old(fx),
            repo@,
            incarnation@,
            request@,
            changed@,
            first@,
            after@,
            End { verdict: r@, adapter: *final(fx) },
        ),
{
    let lookup = GetProvisionMutationRequest {
        repo: Some(repo.clone()),
        incarnation,
        idempotency_key: "retry".to_owned(),
    };
    match fx.mutation(lookup) {
        Ok(v) => {
            let same = match &v.receipt {
                Some(receipt) => receipt.same(first),
                None => false,
            };
            if !same {
                return Verdict::Broken("the lookup must give the original receipt");
            }
        },
        Err(status) => {
            return Verdict::Refused(status.message);
        },
    }
    match fx.archive(request) {
        Ok(v) => {
            let same = match &v.receipt {
                Some(receipt) => receipt.same(first),
                None => false,
            };
            if !same {
                return Verdict::Broken("an identical retry must give the original receipt");
            }
        },
        Err(status) => {
            return Verdict::Refused(status.message);
        },
    }
    match fx.archive(changed) {
        Ok(_) => {
            return Verdict::Broken("a reused key with another request must be refused");
        },
        Err(status) => {
            if status.code != Code::AlreadyExists {
                return Verdict::Broken("a reused key with another request must be refused");
            }
        },
    }
    match fx.snapshot(snapshot_request(repo, "")) {
        Ok(now) => {
            if !now.same(after) {
                return Verdict::Broken("retry must not create another revision");
            }
        },
        Err(status) => {
            return Verdict::Refused(status.message);
        },
    }
    Verdict::Pass
}

pub open spec fn archive_retry_preserves_receipt_course<X: Fixture>(
    fx: X,
    repo: RepoRefView,
    end: End<X>,
) -> bool {
    owes_snapshot(
        fx,
        repo,
        ""@,
        end,
        |before: GetProvisionSnapshotResponseView, fx: X|
            if before.revision is None {
                end.broken("initial revision"@, fx)
            } else {
                let old = before.revision->0;
                let request = archive_request(repo, Some(old), "retry"@);
                let changed = archive_request(
                    repo,
                    Some(
                        ProvisionRevisionView {
                            configuration: old.configuration + "-different"@,
                            ..old
                        },
                    ),
                    "retry"@,
                );
                owes_archive(
                    fx,
                    request,
                    end,
                    |first: ProvisionMutationReceiptView, fx: X|
                        settles(
                            fx,
                            first,
                            end,
                            |first: ProvisionMutationReceiptView, fx: X|
                                owes_snapshot(
                                    fx,
                                    repo,
                                    ""@,
                                    end,
                                    |after: GetProvisionSnapshotResponseView, fx: X|
                                        retried(
                                            fx,
                                            repo,
                                            old.incarnation,
                                            request,
                                            changed,
                                            first,
                                            after,
                                            end,
                                        ),
                                ),
                        ),
                )
            },
    )
}

/// A lost response is recoverable by lookup and an identical retry; a reused key with
/// different input is rejected even when its revision is now stale.
pub fn archive_retry_preserves_receipt<X: Fixture>(fx: &mut X) -> (r: Verdict)
    requires
        old(fx).wf(),
    ensures
        final(fx).wf(),
        archive_retry_preserves_receipt_course(
            *old(fx),
            old(fx).subject(),
            End { verdict: r@, adapter: *final(fx) },
        ),
{
    let repo = fx.repo();
    let before = match fx.snapshot(snapshot_request(&repo, "")) {
        Ok(v) => v,
        Err(status) => {
            return Verdict::Refused(status.message);
        },
    };
    let old = match before.revision {
        Some(v) => v,
        None => {
            return Verdict::Broken("initial revision");
        },
    };
    let incarnation = old.incarnation.clone();
    let changed = Some(
        ProvisionRevision {
            incarnation: old.incarnation.clone(),
            configuration: old.configuration.clone().concat("-different"),
        },
    );
    let expected = Some(old);
    let request = archive(&repo, &expected, "retry");
    let changed = archive(&repo, &changed, "retry");
    let first = match fx.archive(request.copy()) {
        Ok(v) => match v.receipt {
            Some(receipt) => receipt,
            None => {
                return Verdict::Broken("an accepted request must have a receipt");
            },
        },
        Err(status) => {
            return Verdict::Refused(status.message);
        },
    };
    let first = match succeeded(fx, first) {
        Ok(receipt) => receipt,
        Err(verdict) => {
            return verdict;
        },
    };
    let after = match fx.snapshot(snapshot_request(&repo, "")) {
        Ok(v) => v,
        Err(status) => {
            return Verdict::Refused(status.message);
        },
    };
    retry(fx, &repo, incarnation, request, changed, &first, &after)
}

// ── deletion_receipt_survives_removal ───────────────────────────────────────

/// The receipt tells the confirmed deletion, the repository is gone, and the receipt can
/// still be had, by repeating the request and by lookup.
pub open spec fn removed<X: Fixture>(
    fx: X,
    repo: RepoRefView,
    incarnation: Seq<char>,
    request: GuardedDeleteRepoRequestView,
    receipt: ProvisionMutationReceiptView,
    end: End<X>,
) -> bool {
    if receipt.request != Some(MutationRequestView::Delete(request)) {
        end.broken("the receipt must carry the request"@, fx)
    } else if receipt.resulting_revision is Some {
        end.broken("a deleted repository has no revision"@, fx)
    } else if receipt.result != Some(
        MutationResultView::Deleted(DeletedProvisionResultView { confirmed: true }),
    ) {
        end.broken("the receipt must confirm the deletion"@, fx)
    } else {
        owes_snapshot(
            fx,
            repo,
            ""@,
            end,
            |after: GetProvisionSnapshotResponseView, fx: X|
                if after.found {
                    end.broken("a deleted repository must be gone"@, fx)
                } else if after.repo is Some || after.revision is Some {
                    end.broken("a deleted repository must not be described"@, fx)
                } else {
                    replays_delete(
                        fx,
                        request,
                        receipt,
                        end,
                        |fx: X|
                            looks_up(
                                fx,
                                GetProvisionMutationRequestView {
                                    repo: Some(repo),
                                    incarnation,
                                    idempotency_key: "delete"@,
                                },
                                receipt,
                                end,
                                |fx: X|
                                    unchanged(
                                        fx,
                                        repo,
                                        ""@,
                                        after,
                                        "a repeated deletion changed repository state"@,
                                        end,
                                        |fx: X| end.pass(fx),
                                    ),
                            ),
                    )
                },
        )
    }
}

fn remove<X: Fixture>(
    fx: &mut X,
    repo: &RepoRef,
    incarnation: String,
    request: GuardedDeleteRepoRequest,
    receipt: &ProvisionMutationReceipt,
) -> (r: Verdict)
    requires
        old(fx).wf(),
    ensures
        final(fx).wf(),
        removed(
            *old(fx),
            repo@,
            incarnation@,
            request@,
            receipt@,
            End { verdict: r@, adapter: *final(fx) },
        ),
{
    let own = match &receipt.request {
        Some(MutationRequest::Delete(input)) => input.same(&request),
        _ => false,
    };
    if !own {
        return Verdict::Broken("the receipt must carry the request");
    }
    if receipt.resulting_revision.is_some() {
        return Verdict::Broken("a deleted repository has no revision");
    }
    let confirmed = match &receipt.result {
        Some(MutationResult::Deleted(result)) => result.confirmed,
        _ => false,
    };
    if !confirmed {
        return Verdict::Broken("the receipt must confirm the deletion");
    }
    let after = match fx.snapshot(snapshot_request(repo, "")) {
        Ok(v) => v,
        Err(status) => {
            return Verdict::Refused(status.message);
        },
    };
    if after.found {
        return Verdict::Broken("a deleted repository must be gone");
    }
    if after.repo.is_some() || after.revision.is_some() {
        return Verdict::Broken("a deleted repository must not be described");
    }
    match fx.delete(request) {
        Ok(v) => {
            let same = match &v.receipt {
                Some(told) => told.same(receipt),
                None => false,
            };
            if !same {
                return Verdict::Broken("an identical retry must give the original receipt");
            }
        },
        Err(status) => {
            return Verdict::Refused(status.message);
        },
    }
    let lookup = GetProvisionMutationRequest {
        repo: Some(repo.clone()),
        incarnation,
        idempotency_key: "delete".to_owned(),
    };
    match fx.mutation(lookup) {
        Ok(v) => {
            let same = match &v.receipt {
                Some(told) => told.same(receipt),
                None => false,
            };
            if !same {
                return Verdict::Broken("the lookup must give the original receipt");
            }
        },
        Err(status) => {
            return Verdict::Refused(status.message);
        },
    }
    match fx.snapshot(snapshot_request(repo, "")) {
        Ok(now) => {
            if !now.same(&after) {
                return Verdict::Broken("a repeated deletion changed repository state");
            }
        },
        Err(status) => {
            return Verdict::Refused(status.message);
        },
    }
    Verdict::Pass
}

pub open spec fn deletion_receipt_survives_removal_course<X: Fixture>(
    fx: X,
    repo: RepoRefView,
    end: End<X>,
) -> bool {
    owes_snapshot(
        fx,
        repo,
        ""@,
        end,
        |before: GetProvisionSnapshotResponseView, fx: X|
            if before.revision is None {
                end.broken("initial revision"@, fx)
            } else {
                let old = before.revision->0;
                let request = delete_request(repo, Some(old), repo.name, "delete"@);
                rejects_delete(
                    fx,
                    delete_request(repo, Some(old), repo.name + "-wrong"@, "delete"@),
                    Code::InvalidArgument,
                    "a deletion must be confirmed by the exact name"@,
                    end,
                    |fx: X|
                        unchanged(
                            fx,
                            repo,
                            ""@,
                            before,
                            "an unconfirmed deletion changed repository state"@,
                            end,
                            |fx: X|
                                owes_delete(
                                    fx,
                                    request,
                                    end,
                                    |receipt: ProvisionMutationReceiptView, fx: X|
                                        settles(
                                            fx,
                                            receipt,
                                            end,
                                            |receipt: ProvisionMutationReceiptView, fx: X|
                                                removed(
                                                    fx,
                                                    repo,
                                                    old.incarnation,
                                                    request,
                                                    receipt,
                                                    end,
                                                ),
                                        ),
                                ),
                        ),
                )
            },
    )
}

/// Deletion requires exact name confirmation and preserves its receipt after repository
/// removal, allowing recovery without guessing from absence.
pub fn deletion_receipt_survives_removal<X: Fixture>(fx: &mut X) -> (r: Verdict)
    requires
        old(fx).wf(),
    ensures
        final(fx).wf(),
        deletion_receipt_survives_removal_course(
            *old(fx),
            old(fx).subject(),
            End { verdict: r@, adapter: *final(fx) },
        ),
{
    let repo = fx.repo();
    let before = match fx.snapshot(snapshot_request(&repo, "")) {
        Ok(v) => v,
        Err(status) => {
            return Verdict::Refused(status.message);
        },
    };
    let old = match &before.revision {
        Some(v) => v,
        None => {
            return Verdict::Broken("initial revision");
        },
    };
    let incarnation = old.incarnation.clone();
    let expected = Some(old.copy());
    let wrong = repo.name.clone().concat("-wrong");
    let unconfirmed = deletion(&repo, &expected, wrong.as_str(), "delete");
    match fx.delete(unconfirmed) {
        Ok(_) => {
            return Verdict::Broken("a deletion must be confirmed by the exact name");
        },
        Err(status) => {
            if status.code != Code::InvalidArgument {
                return Verdict::Broken("a deletion must be confirmed by the exact name");
            }
        },
    }
    match fx.snapshot(snapshot_request(&repo, "")) {
        Ok(after) => {
            if !after.same(&before) {
                return Verdict::Broken("an unconfirmed deletion changed repository state");
            }
        },
        Err(status) => {
            return Verdict::Refused(status.message);
        },
    }
    let request = deletion(&repo, &expected, repo.name.as_str(), "delete");
    let receipt = match fx.delete(request.copy()) {
        Ok(v) => match v.receipt {
            Some(receipt) => receipt,
            None => {
                return Verdict::Broken("an accepted request must have a receipt");
            },
        },
        Err(status) => {
            return Verdict::Refused(status.message);
        },
    };
    let receipt = match succeeded(fx, receipt) {
        Ok(receipt) => receipt,
        Err(verdict) => {
            return verdict;
        },
    };
    remove(fx, &repo, incarnation, request, &receipt)
}

// ── missing_preconditions_have_no_effect ────────────────────────────────────

/// Requests that lack a precondition: no revision, an empty one, no key, and a revision
/// without its incarnation or its configuration.
pub open spec fn incomplete_requests(repo: RepoRefView, revision: ProvisionRevisionView) -> Seq<
    GuardedArchiveRepoRequestView,
> {
    seq![
        archive_request(repo, None, "missing"@),
        archive_request(repo, Some(ProvisionRevision::blank()), "empty"@),
        archive_request(repo, Some(revision), ""@),
        archive_request(
            repo,
            Some(ProvisionRevisionView { incarnation: Seq::empty(), ..revision }),
            "partial"@,
        ),
        archive_request(
            repo,
            Some(ProvisionRevisionView { configuration: Seq::empty(), ..revision }),
            "partial"@,
        ),
    ]
}

/// Each request in turn must be rejected, and must change nothing.
pub open spec fn rejects_each<X: Fixture>(
    fx: X,
    repo: RepoRefView,
    requests: Seq<GuardedArchiveRepoRequestView>,
    before: GetProvisionSnapshotResponseView,
    end: End<X>,
) -> bool
    decreases requests.len(),
{
    if requests.len() == 0 {
        end.pass(fx)
    } else {
        rejects_archive(
            fx,
            requests[0],
            Code::InvalidArgument,
            "a request without its preconditions must be refused"@,
            end,
            |fx: X|
                unchanged(
                    fx,
                    repo,
                    ""@,
                    before,
                    "a refused request changed repository state"@,
                    end,
                    |fx: X| rejects_each(fx, repo, requests.drop_first(), before, end),
                ),
        )
    }
}

fn incomplete(repo: &RepoRef, revision: &ProvisionRevision) -> (r: Vec<
    GuardedArchiveRepoRequest,
>)
    ensures
        r@.map_values(|q: GuardedArchiveRepoRequest| q@) == incomplete_requests(repo@, revision@),
{
    let none: Option<ProvisionRevision> = None;
    let blank = Some(ProvisionRevision::empty());
    let whole = Some(revision.copy());
    let nameless = Some(
        ProvisionRevision {
            incarnation: String::new(),
            configuration: revision.configuration.clone(),
        },
    );
    let shapeless = Some(
        ProvisionRevision {
            incarnation: revision.incarnation.clone(),
            configuration: String::new(),
        },
    );
    let mut r: Vec<GuardedArchiveRepoRequest> = Vec::new();
    r.push(archive(repo, &none, "missing"));
    r.push(archive(repo, &blank, "empty"));
    r.push(archive(repo, &whole, ""));
    r.push(archive(repo, &nameless, "partial"));
    r.push(archive(repo, &shapeless, "partial"));
    assert(r@.map_values(|q: GuardedArchiveRepoRequest| q@) =~= incomplete_requests(
        repo@,
        revision@,
    ));
    r
}

fn reject_each<X: Fixture>(
    fx: &mut X,
    repo: &RepoRef,
    requests: &Vec<GuardedArchiveRepoRequest>,
    i: usize,
    before: &GetProvisionSnapshotResponse,
) -> (r: Verdict)
    requires
        old(fx).wf(),
        i <= requests@.len(),
    ensures
        final(fx).wf(),
        rejects_each(
            *old(fx),
            repo@,
            requests@.map_values(|q: GuardedArchiveRepoRequest| q@).skip(i as int),
            before@,
            End { verdict: r@, adapter: *final(fx) },
        ),
    decreases requests@.len() - i,
{
    let ghost rest = requests@.map_values(|q: GuardedArchiveRepoRequest| q@).skip(i as int);
    if i >= requests.len() {
        assert(rest.len() == 0);
        return Verdict::Pass;
    }
    assert(rest[0] == requests@[i as int]@);
    assert(rest.drop_first() =~= requests@.map_values(
        |q: GuardedArchiveRepoRequest| q@,
    ).skip(i + 1));
    match fx.archive(requests[i].copy()) {
        Ok(_) => {
            return Verdict::Broken("a request without its preconditions must be refused");
        },
        Err(status) => {
            if status.code != Code::InvalidArgument {
                return Verdict::Broken("a request without its preconditions must be refused");
            }
        },
    }
    match fx.snapshot(snapshot_request(repo, "")) {
        Ok(after) => {
            if !after.same(before) {
                return Verdict::Broken("a refused request changed repository state");
            }
        },
        Err(status) => {
            return Verdict::Refused(status.message);
        },
    }
    reject_each(fx, repo, requests, i + 1, before)
}

pub open spec fn missing_preconditions_have_no_effect_course<X: Fixture>(
    fx: X,
    repo: RepoRefView,
    end: End<X>,
) -> bool {
    owes_snapshot(
        fx,
        repo,
        ""@,
        end,
        |before: GetProvisionSnapshotResponseView, fx: X|
            if before.revision is None {
                end.broken("initial revision"@, fx)
            } else {
                rejects_each(fx, repo, incomplete_requests(repo, before.revision->0), before, end)
            },
    )
}

/// Empty keys and incomplete versions are invalid, never unconditional writes.
pub fn missing_preconditions_have_no_effect<X: Fixture>(fx: &mut X) -> (r: Verdict)
    requires
        old(fx).wf(),
    ensures
        final(fx).wf(),
        missing_preconditions_have_no_effect_course(
            *old(fx),
            old(fx).subject(),
            End { verdict: r@, adapter: *final(fx) },
        ),
{
    let repo = fx.repo();
    let before = match fx.snapshot(snapshot_request(&repo, "")) {
        Ok(v) => v,
        Err(status) => {
            return Verdict::Refused(status.message);
        },
    };
    let revision = match &before.revision {
        Some(v) => v,
        None => {
            return Verdict::Broken("initial revision");
        },
    };
    let requests = incomplete(&repo, revision);
    assert(incomplete_requests(repo@, revision@).skip(0) =~= incomplete_requests(
        repo@,
        revision@,
    ));
    reject_each(fx, &repo, &requests, 0, &before)
}

// ── changes made through the legacy provisioning surface ────────────────────

/// Required controls for testing changes made through the legacy provisioning surface.
/// Implement these with the real legacy service in backend fixtures; directly changing
/// the guarded service's revision would not test coordination.
pub trait RevisionFixture: Fixture {
    /// Setting the protection may have this outcome and end in this state.
    spec fn protects(
        pre: Self,
        wanted: ProtectionSpecView,
        done: Result<(), StatusView>,
        post: Self,
    ) -> bool;

    /// Recreating may have this outcome and end in this state.
    spec fn recreates(pre: Self, done: Result<(), StatusView>, post: Self) -> bool;

    fn legacy_protection(&mut self, wanted: ProtectionSpec) -> (r: Result<(), Status>)
        requires
            old(self).wf(),
        ensures
            final(self).wf(),
            Self::protects(*old(self), wanted@, done(r), *final(self)),
    ;

    /// Delete and recreate the same repository through its supported lifecycle.
    fn recreate(&mut self) -> (r: Result<(), Status>)
        requires
            old(self).wf(),
        ensures
            final(self).wf(),
            Self::recreates(*old(self), done(r), *final(self)),
    ;
}

/// Whether it was done, by its characters.
pub open spec fn done(r: Result<(), Status>) -> Result<(), StatusView> {
    match r {
        Ok(()) => Ok(()),
        Err(s) => Err(s@),
    }
}

/// The legacy surface must take the protection.
pub open spec fn sets<X: RevisionFixture>(
    pre: X,
    wanted: ProtectionSpecView,
    end: End<X>,
    next: spec_fn(X) -> bool,
) -> bool {
    exists|r: Result<(), StatusView>, post: X| #[trigger]
        X::protects(pre, wanted, r, post) && match r {
            Ok(()) => next(post),
            Err(s) => end.refused(s.message, post),
        }
}

/// The repository must be recreated.
pub open spec fn renews<X: RevisionFixture>(pre: X, end: End<X>, next: spec_fn(X) -> bool) -> bool {
    exists|r: Result<(), StatusView>, post: X| #[trigger]
        X::recreates(pre, r, post) && match r {
            Ok(()) => next(post),
            Err(s) => end.refused(s.message, post),
        }
}

/// A confirmation of an old revision must not delete, nor change anything.
pub open spec fn rejects_old_delete_course<X: Fixture>(
    fx: X,
    repo: RepoRefView,
    old: Option<ProvisionRevisionView>,
    end: End<X>,
) -> bool {
    owes_snapshot(
        fx,
        repo,
        "main"@,
        end,
        |before: GetProvisionSnapshotResponseView, fx: X|
            rejects_delete(
                fx,
                delete_request(repo, old, repo.name, "stale-confirmation"@),
                Code::FailedPrecondition,
                "a stale confirmation must fail its precondition"@,
                end,
                |fx: X|
                    unchanged(
                        fx,
                        repo,
                        "main"@,
                        before,
                        "a stale confirmation changed repository state"@,
                        end,
                        |fx: X| end.pass(fx),
                    ),
            ),
    )
}

pub fn rejects_old_delete<X: Fixture>(
    fx: &mut X,
    repo: &RepoRef,
    old_revision: &Option<ProvisionRevision>,
) -> (r: Verdict)
    requires
        old(fx).wf(),
    ensures
        final(fx).wf(),
        rejects_old_delete_course(
            *old(fx),
            repo@,
            seen(*old_revision),
            End { verdict: r@, adapter: *final(fx) },
        ),
{
    let before = match fx.snapshot(snapshot_request(repo, "main")) {
        Ok(v) => v,
        Err(status) => {
            return Verdict::Refused(status.message);
        },
    };
    match fx.delete(deletion(repo, old_revision, repo.name.as_str(), "stale-confirmation")) {
        Ok(_) => {
            return Verdict::Broken("a stale confirmation must fail its precondition");
        },
        Err(status) => {
            if status.code != Code::FailedPrecondition {
                return Verdict::Broken("a stale confirmation must fail its precondition");
            }
        },
    }
    match fx.snapshot(snapshot_request(repo, "main")) {
        Ok(after) => {
            if !after.same(&before) {
                return Verdict::Broken("a stale confirmation changed repository state");
            }
        },
        Err(status) => {
            return Verdict::Refused(status.message);
        },
    }
    Verdict::Pass
}

// ── legacy_settings_invalidate_confirmation ─────────────────────────────────

/// The protection with the force-push rule turned over, so that it is a real change.
pub open spec fn toggled(before: GetProvisionSnapshotResponseView) -> ProtectionSpecView {
    let now = match before.protection {
        Some(p) => match p.effective {
            Some(now) => now,
            None => ProtectionSpec::blank(),
        },
        None => ProtectionSpec::blank(),
    };
    ProtectionSpecView { block_force_push: !now.block_force_push, ..now }
}

fn toggle(before: &GetProvisionSnapshotResponse) -> (r: ProtectionSpec)
    ensures
        r@ == toggled(before@),
{
    let mut now = match &before.protection {
        Some(p) => match &p.effective {
            Some(now) => now.copy(),
            None => ProtectionSpec::empty(),
        },
        None => ProtectionSpec::empty(),
    };
    now.block_force_push = !now.block_force_push;
    now
}

/// What is wrong with the snapshot after the setting, where something is.
pub open spec fn setting_fault(
    before: GetProvisionSnapshotResponseView,
    after: GetProvisionSnapshotResponseView,
    wanted: bool,
) -> Option<Seq<char>> {
    if !(after.found && after.protection_found) {
        Some("the protection must be there"@)
    } else if after.protection is None {
        Some("a found protection must be described"@)
    } else if after.protection->0.effective is None {
        Some("a protection must tell what is in effect"@)
    } else if after.protection->0.effective->0.block_force_push != wanted {
        Some("the protection must be the one that was set"@)
    } else if before.revision is None || after.revision is None {
        Some("a found repository must have a revision"@)
    } else if before.revision->0.incarnation != after.revision->0.incarnation {
        Some("a setting must keep the incarnation"@)
    } else if before.revision->0.configuration == after.revision->0.configuration {
        Some("a setting must change the configuration"@)
    } else {
        None
    }
}

fn fault_in_setting(
    before: &GetProvisionSnapshotResponse,
    after: &GetProvisionSnapshotResponse,
    wanted: bool,
) -> (r: Option<&'static str>)
    ensures
        setting_fault(before@, after@, wanted) == match r {
            Some(claim) => Some(claim@),
            None => None,
        },
{
    if !(after.found && after.protection_found) {
        return Some("the protection must be there");
    }
    let effective = match &after.protection {
        Some(p) => match &p.effective {
            Some(effective) => effective,
            None => {
                return Some("a protection must tell what is in effect");
            },
        },
        None => {
            return Some("a found protection must be described");
        },
    };
    if effective.block_force_push != wanted {
        return Some("the protection must be the one that was set");
    }
    match (&before.revision, &after.revision) {
        (Some(was), Some(now)) => {
            if was.incarnation != now.incarnation {
                return Some("a setting must keep the incarnation");
            }
            if was.configuration == now.configuration {
                return Some("a setting must change the configuration");
            }
            None
        },
        _ => Some("a found repository must have a revision"),
    }
}

pub open spec fn legacy_settings_invalidate_confirmation_course<X: RevisionFixture>(
    fx: X,
    repo: RepoRefView,
    end: End<X>,
) -> bool {
    owes_snapshot(
        fx,
        repo,
        "main"@,
        end,
        |before: GetProvisionSnapshotResponseView, fx: X|
            sets(
                fx,
                toggled(before),
                end,
                |fx: X|
                    owes_snapshot(
                        fx,
                        repo,
                        "main"@,
                        end,
                        |after: GetProvisionSnapshotResponseView, fx: X|
                            match setting_fault(before, after, toggled(before).block_force_push) {
                                Some(claim) => end.broken(claim, fx),
                                None => rejects_old_delete_course(fx, repo, before.revision, end),
                            },
                    ),
            ),
    )
}

/// A setting made through the legacy surface makes an earlier confirmation stale.
pub fn legacy_settings_invalidate_confirmation<X: RevisionFixture>(fx: &mut X) -> (r: Verdict)
    requires
        old(fx).wf(),
    ensures
        final(fx).wf(),
        legacy_settings_invalidate_confirmation_course(
            *old(fx),
            old(fx).subject(),
            End { verdict: r@, adapter: *final(fx) },
        ),
{
    let repo = fx.repo();
    let before = match fx.snapshot(snapshot_request(&repo, "main")) {
        Ok(v) => v,
        Err(status) => {
            return Verdict::Refused(status.message);
        },
    };
    let wanted = toggle(&before);
    let block = wanted.block_force_push;
    if let Err(status) = fx.legacy_protection(wanted) {
        return Verdict::Refused(status.message);
    }
    let after = match fx.snapshot(snapshot_request(&repo, "main")) {
        Ok(v) => v,
        Err(status) => {
            return Verdict::Refused(status.message);
        },
    };
    if let Some(claim) = fault_in_setting(&before, &after, block) {
        return Verdict::Broken(claim);
    }
    rejects_old_delete(fx, &repo, &before.revision)
}

// ── settings_reversion_keeps_confirmation_stale ─────────────────────────────

/// The protection with or without the force-push rule, and nothing else.
pub open spec fn force_push_rule(block: bool) -> ProtectionSpecView {
    ProtectionSpecView { block_force_push: block, ..ProtectionSpec::blank() }
}

fn force_push(block: bool) -> (r: ProtectionSpec)
    ensures
        r@ == force_push_rule(block),
{
    let mut r = ProtectionSpec::empty();
    r.block_force_push = block;
    r
}

/// What is wrong with the snapshot after the settings were restored, where something is.
pub open spec fn reversion_fault(
    before: GetProvisionSnapshotResponseView,
    after: GetProvisionSnapshotResponseView,
) -> Option<Seq<char>> {
    if before.protection != after.protection {
        Some("the visible settings are restored"@)
    } else if before.revision is None || after.revision is None {
        Some("a found repository must have a revision"@)
    } else if before.revision->0.incarnation != after.revision->0.incarnation {
        Some("a setting must keep the incarnation"@)
    } else if before.revision == after.revision {
        Some("a reverted value must not revive an old confirmation"@)
    } else {
        None
    }
}

fn fault_in_reversion(
    before: &GetProvisionSnapshotResponse,
    after: &GetProvisionSnapshotResponse,
) -> (r: Option<&'static str>)
    ensures
        reversion_fault(before@, after@) == match r {
            Some(claim) => Some(claim@),
            None => None,
        },
{
    if !same_opt(&before.protection, &after.protection) {
        return Some("the visible settings are restored");
    }
    match (&before.revision, &after.revision) {
        (Some(was), Some(now)) => {
            if was.incarnation != now.incarnation {
                return Some("a setting must keep the incarnation");
            }
            if was.same(now) {
                return Some("a reverted value must not revive an old confirmation");
            }
            None
        },
        _ => Some("a found repository must have a revision"),
    }
}

pub open spec fn settings_reversion_keeps_confirmation_stale_course<X: RevisionFixture>(
    fx: X,
    repo: RepoRefView,
    end: End<X>,
) -> bool {
    sets(
        fx,
        force_push_rule(true),
        end,
        |fx: X|
            owes_snapshot(
                fx,
                repo,
                "main"@,
                end,
                |before: GetProvisionSnapshotResponseView, fx: X|
                    sets(
                        fx,
                        force_push_rule(false),
                        end,
                        |fx: X|
                            sets(
                                fx,
                                force_push_rule(true),
                                end,
                                |fx: X|
                                    owes_snapshot(
                                        fx,
                                        repo,
                                        "main"@,
                                        end,
                                        |after: GetProvisionSnapshotResponseView, fx: X|
                                            match reversion_fault(before, after) {
                                                Some(claim) => end.broken(claim, fx),
                                                None => rejects_old_delete_course(
                                                    fx,
                                                    repo,
                                                    before.revision,
                                                    end,
                                                ),
                                            },
                                    ),
                            ),
                    ),
            ),
    )
}

/// A setting that is made and undone leaves an earlier confirmation stale.
pub fn settings_reversion_keeps_confirmation_stale<X: RevisionFixture>(fx: &mut X) -> (r: Verdict)
    requires
        old(fx).wf(),
    ensures
        final(fx).wf(),
        settings_reversion_keeps_confirmation_stale_course(
            *old(fx),
            old(fx).subject(),
            End { verdict: r@, adapter: *final(fx) },
        ),
{
    let repo = fx.repo();
    if let Err(status) = fx.legacy_protection(force_push(true)) {
        return Verdict::Refused(status.message);
    }
    let before = match fx.snapshot(snapshot_request(&repo, "main")) {
        Ok(v) => v,
        Err(status) => {
            return Verdict::Refused(status.message);
        },
    };
    if let Err(status) = fx.legacy_protection(force_push(false)) {
        return Verdict::Refused(status.message);
    }
    if let Err(status) = fx.legacy_protection(force_push(true)) {
        return Verdict::Refused(status.message);
    }
    let after = match fx.snapshot(snapshot_request(&repo, "main")) {
        Ok(v) => v,
        Err(status) => {
            return Verdict::Refused(status.message);
        },
    };
    if let Some(claim) = fault_in_reversion(&before, &after) {
        return Verdict::Broken(claim);
    }
    rejects_old_delete(fx, &repo, &before.revision)
}

// ── recreated_repository_rejects_original_confirmation ──────────────────────

/// What is wrong with the snapshot after the repository was recreated, where something
/// is.
pub open spec fn recreation_fault(
    before: GetProvisionSnapshotResponseView,
    after: GetProvisionSnapshotResponseView,
) -> Option<Seq<char>> {
    if !after.found {
        Some("the repository must be there again"@)
    } else if before.repo is None || after.repo is None {
        Some("a found repository must be described"@)
    } else if before.repo->0.repo != after.repo->0.repo {
        Some("the repository must be the same one"@)
    } else if before.revision is None || after.revision is None {
        Some("a found repository must have a revision"@)
    } else if before.revision->0.incarnation == after.revision->0.incarnation {
        Some("a recreated repository must be another incarnation"@)
    } else {
        None
    }
}

fn fault_in_recreation(
    before: &GetProvisionSnapshotResponse,
    after: &GetProvisionSnapshotResponse,
) -> (r: Option<&'static str>)
    ensures
        recreation_fault(before@, after@) == match r {
            Some(claim) => Some(claim@),
            None => None,
        },
{
    if !after.found {
        return Some("the repository must be there again");
    }
    match (&before.repo, &after.repo) {
        (Some(was), Some(now)) => {
            if !same_opt(&was.repo, &now.repo) {
                return Some("the repository must be the same one");
            }
        },
        _ => {
            return Some("a found repository must be described");
        },
    }
    match (&before.revision, &after.revision) {
        (Some(was), Some(now)) => {
            if was.incarnation == now.incarnation {
                Some("a recreated repository must be another incarnation")
            } else {
                None
            }
        },
        _ => Some("a found repository must have a revision"),
    }
}

pub open spec fn recreated_repository_rejects_original_confirmation_course<X: RevisionFixture>(
    fx: X,
    repo: RepoRefView,
    end: End<X>,
) -> bool {
    owes_snapshot(
        fx,
        repo,
        "main"@,
        end,
        |before: GetProvisionSnapshotResponseView, fx: X|
            renews(
                fx,
                end,
                |fx: X|
                    owes_snapshot(
                        fx,
                        repo,
                        "main"@,
                        end,
                        |after: GetProvisionSnapshotResponseView, fx: X|
                            match recreation_fault(before, after) {
                                Some(claim) => end.broken(claim, fx),
                                None => rejects_old_delete_course(fx, repo, before.revision, end),
                            },
                    ),
            ),
    )
}

/// A repository that was deleted and recreated does not take the original confirmation.
pub fn recreated_repository_rejects_original_confirmation<X: RevisionFixture>(
    fx: &mut X,
) -> (r: Verdict)
    requires
        old(fx).wf(),
    ensures
        final(fx).wf(),
        recreated_repository_rejects_original_confirmation_course(
            *old(fx),
            old(fx).subject(),
            End { verdict: r@, adapter: *final(fx) },
        ),
{
    let repo = fx.repo();
    let before = match fx.snapshot(snapshot_request(&repo, "main")) {
        Ok(v) => v,
        Err(status) => {
            return Verdict::Refused(status.message);
        },
    };
    if let Err(status) = fx.recreate() {
        return Verdict::Refused(status.message);
    }
    let after = match fx.snapshot(snapshot_request(&repo, "main")) {
        Ok(v) => v,
        Err(status) => {
            return Verdict::Refused(status.message);
        },
    };
    if let Some(claim) = fault_in_recreation(&before, &after) {
        return Verdict::Broken(claim);
    }
    rejects_old_delete(fx, &repo, &before.revision)
}

} // verus!
