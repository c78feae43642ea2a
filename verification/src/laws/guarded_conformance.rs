//! What a pass of the guarded conformance suite stands for.

use crate::conformance::{End, VerdictView};
use crate::guarded::{
    GetProvisionMutationRequestView, GetProvisionSnapshotRequestView,
    GetProvisionSnapshotResponseView, GuardedArchiveRepoRequestView, GuardedArchiveRepoResponseView,
    GuardedCall, GuardedDeleteRepoRequestView, GuardedReply, MutationRequestView,
    MutationResultView, ProvisionMutationReceiptView, ProvisionRevisionView,
};
use crate::guarded_conformance::{
    archive_retry_preserves_receipt_course, archive_updates_snapshot_course,
    competing_archives_have_one_winner_course, deletion_receipt_survives_removal_course,
    legacy_settings_invalidate_confirmation_course, missing_preconditions_have_no_effect_course,
    polled, recreated_repository_rejects_original_confirmation_course, rejects_each,
    rejects_old_delete_course, removed, retried, settings_reversion_keeps_confirmation_stale_course,
    stale_delete_has_no_effect_course, wins, Fixture, RevisionFixture,
};
use crate::messages::RepoRefView;
use crate::provision::ProtectionSpecView;
use crate::status::{Code, StatusView};
use vstd::prelude::*;

verus! {

/// The snapshot that a reply tells.
pub open spec fn shown(reply: GuardedReply) -> Option<GetProvisionSnapshotResponseView> {
    match reply {
        GuardedReply::Snapshot(Ok(v)) => Some(v),
        _ => None,
    }
}

/// The receipt that a reply tells.
pub open spec fn given(reply: GuardedReply) -> Option<ProvisionMutationReceiptView> {
    match reply {
        GuardedReply::Archive(Ok(v)) => v.receipt,
        GuardedReply::Delete(Ok(v)) => v.receipt,
        GuardedReply::Mutation(Ok(v)) => v.receipt,
        _ => None,
    }
}

/// The archive or the deletion is refused with the code.
pub open spec fn refused_with(reply: GuardedReply, code: Code) -> bool {
    match reply {
        GuardedReply::Archive(Err(s)) => s.code == code,
        GuardedReply::Delete(Err(s)) => s.code == code,
        _ => false,
    }
}

/// The request to archive the repository at the revision.
pub open spec fn archive_at(
    repo: RepoRefView,
    expected: Option<ProvisionRevisionView>,
    key: Seq<char>,
) -> GuardedArchiveRepoRequestView {
    GuardedArchiveRepoRequestView { repo: Some(repo), expected, idempotency_key: key }
}

/// The request to delete the repository at the revision.
pub open spec fn delete_at(
    repo: RepoRefView,
    expected: Option<ProvisionRevisionView>,
    confirm_name: Seq<char>,
    key: Seq<char>,
) -> GuardedDeleteRepoRequestView {
    GuardedDeleteRepoRequestView { repo: Some(repo), expected, confirm_name, idempotency_key: key }
}

// ── waiting for an operation ────────────────────────────────────────────────

/// The operation of the first receipt has succeeded, and the second one says so, of whom it
/// was for.
pub open spec fn became(
    initial: ProvisionMutationReceiptView,
    receipt: ProvisionMutationReceiptView,
) -> bool {
    &&& receipt.phase == 2
    &&& receipt.operation_id.len() > 0
    &&& receipt.operation_id == initial.operation_id
    &&& receipt.request == initial.request
    &&& receipt.actor == initial.actor
    &&& (receipt.actor matches Some(actor) && actor.issuer.len() > 0 && actor.subject.len() > 0)
}

/// What is waited for is the operation that was started, and it has succeeded.
pub proof fn what_is_waited_for_has_succeeded<X: Fixture>(
    pre: X,
    receipt: ProvisionMutationReceiptView,
    initial: ProvisionMutationReceiptView,
    fuel: nat,
    out: ProvisionMutationReceiptView,
    post: X,
)
    requires
        polled(pre, receipt, initial, fuel, Ok(out), post),
    ensures
        became(initial, out),
    decreases fuel,
{
    if receipt.phase != 2 {
        let (left, paused) = choose|left: bool, paused: X| #[trigger]
            X::waits(pre, left, paused) && left && exists|reply: GuardedReply, asked: X| #[trigger]
            X::answers(
            paused,
            GuardedCall::Mutation(crate::guarded_conformance::lookup_of(receipt)),
            reply,
            asked,
        ) && match reply {
            GuardedReply::Mutation(Ok(v)) => v.receipt is Some
                && polled(asked, v.receipt->0, initial, (fuel - 1) as nat, Ok(out), post),
            _ => false,
        };
        let (reply, asked) = choose|reply: GuardedReply, asked: X| #[trigger] X::answers(
            paused,
            GuardedCall::Mutation(crate::guarded_conformance::lookup_of(receipt)),
            reply,
            asked,
        ) && match reply {
            GuardedReply::Mutation(Ok(v)) => v.receipt is Some
                && polled(asked, v.receipt->0, initial, (fuel - 1) as nat, Ok(out), post),
            _ => false,
        };
        what_is_waited_for_has_succeeded(
            asked,
            given(reply)->0,
            initial,
            (fuel - 1) as nat,
            out,
            post,
        );
    }
}

/// A wait that comes to nothing is no pass.
pub proof fn a_wait_in_vain_is_no_pass<X: Fixture>(
    pre: X,
    receipt: ProvisionMutationReceiptView,
    initial: ProvisionMutationReceiptView,
    fuel: nat,
    verdict: VerdictView,
    post: X,
)
    requires
        polled(pre, receipt, initial, fuel, Err(verdict), post),
    ensures
        !(verdict is Pass),
    decreases fuel,
{
    if verdict is Pass {
        let (left, paused) = choose|left: bool, paused: X| #[trigger]
            X::waits(pre, left, paused) && left && exists|reply: GuardedReply, asked: X| #[trigger]
            X::answers(
            paused,
            GuardedCall::Mutation(crate::guarded_conformance::lookup_of(receipt)),
            reply,
            asked,
        ) && match reply {
            GuardedReply::Mutation(Ok(v)) => v.receipt is Some
                && polled(asked, v.receipt->0, initial, (fuel - 1) as nat, Err(verdict), post),
            _ => false,
        };
        let (reply, asked) = choose|reply: GuardedReply, asked: X| #[trigger] X::answers(
            paused,
            GuardedCall::Mutation(crate::guarded_conformance::lookup_of(receipt)),
            reply,
            asked,
        ) && match reply {
            GuardedReply::Mutation(Ok(v)) => v.receipt is Some
                && polled(asked, v.receipt->0, initial, (fuel - 1) as nat, Err(verdict), post),
            _ => false,
        };
        a_wait_in_vain_is_no_pass(
            asked,
            given(reply)->0,
            initial,
            (fuel - 1) as nat,
            verdict,
            post,
        );
    }
}

/// A receipt that is final ends the wait at once: nothing is asked, and only a whole receipt
/// of an operation that succeeded is taken.
pub proof fn a_final_receipt_ends_the_wait<X: Fixture>(
    pre: X,
    receipt: ProvisionMutationReceiptView,
    initial: ProvisionMutationReceiptView,
    fuel: nat,
    out: Result<ProvisionMutationReceiptView, VerdictView>,
    post: X,
)
    requires
        polled(pre, receipt, initial, fuel, out, post),
        receipt.phase != 1,
        receipt.phase != 4,
    ensures
        post == pre,
        out matches Ok(told) ==> told == receipt,
        out is Ok <==> became(initial, receipt),
        out matches Err(verdict) ==> verdict is Broken,
{
}

/// The operation of a receipt that is open is waited for, and then asked about by its own key
/// and in the incarnation that its request expected.
pub proof fn an_open_operation_is_asked_about_by_its_key<X: Fixture>(
    pre: X,
    receipt: ProvisionMutationReceiptView,
    initial: ProvisionMutationReceiptView,
    q: GuardedArchiveRepoRequestView,
    fuel: nat,
    out: Result<ProvisionMutationReceiptView, VerdictView>,
    post: X,
)
    requires
        polled(pre, receipt, initial, fuel, out, post),
        receipt.phase == 1 || receipt.phase == 4,
        receipt.operation_id == initial.operation_id && receipt.request == initial.request
            && receipt.actor == initial.actor,
        receipt.result is None && receipt.resulting_revision is None,
        receipt.request == Some(MutationRequestView::Archive(q)) && q.expected is Some,
        fuel > 0,
    ensures
        exists|left: bool, paused: X| #[trigger] X::waits(pre, left, paused) && if left {
            exists|reply: GuardedReply, asked: X| #[trigger]
                X::answers(
                    paused,
                    GuardedCall::Mutation(
                        GetProvisionMutationRequestView {
                            repo: q.repo,
                            incarnation: q.expected->0.incarnation,
                            idempotency_key: q.idempotency_key,
                        },
                    ),
                    reply,
                    asked,
                )
                && (given(reply) is None ==> out is Err && post == asked)
        } else {
            out is Err && post == paused
        },
{
}

/// A receipt that is open and yet carries an outcome, or that is of another operation, is
/// not waited for.
pub proof fn a_receipt_that_contradicts_itself_is_broken<X: Fixture>(
    pre: X,
    receipt: ProvisionMutationReceiptView,
    initial: ProvisionMutationReceiptView,
    fuel: nat,
    out: Result<ProvisionMutationReceiptView, VerdictView>,
    post: X,
)
    requires
        polled(pre, receipt, initial, fuel, out, post),
        (receipt.phase == 1 || receipt.phase == 4)
            && (receipt.result is Some || receipt.resulting_revision is Some)
            || receipt.operation_id != initial.operation_id || receipt.request != initial.request
            || receipt.actor != initial.actor,
    ensures
        post == pre,
        out matches Err(verdict) && verdict is Broken,
{
}

// ── what a pass stands for ──────────────────────────────────────────────────

/// The request is put, its operation is waited for, and the receipt tells that it succeeded.
pub open spec fn carried_out<X: Fixture>(
    f: X,
    call: GuardedCall,
    receipt: ProvisionMutationReceiptView,
    g: X,
) -> bool {
    exists|
        put: GuardedReply,
        h: X,
        started: ProvisionMutationReceiptView,
        out: Result<ProvisionMutationReceiptView, VerdictView>,
    | #[trigger]
        X::answers(f, call, put, h) && #[trigger] polled(h, started, started, 1000, out, g)
        && given(put) == Some(started)
        && out == Ok::<ProvisionMutationReceiptView, VerdictView>(receipt)
        && became(started, receipt)
}

proof fn carrying_out<X: Fixture>()
    ensures
        forall|
            f: X,
            call: GuardedCall,
            put: GuardedReply,
            h: X,
            started: ProvisionMutationReceiptView,
            out: Result<ProvisionMutationReceiptView, VerdictView>,
            g: X,
        | #[trigger]
            X::answers(f, call, put, h) && #[trigger] polled(h, started, started, 1000, out, g)
            && given(put) == Some(started) && out is Ok ==> carried_out(f, call, out->Ok_0, g),
        forall|
            h: X,
            started: ProvisionMutationReceiptView,
            out: Result<ProvisionMutationReceiptView, VerdictView>,
            g: X,
        | #[trigger]
            polled(h, started, started, 1000, out, g) ==>
            (out matches Err(verdict) ==> !(verdict is Pass)),
{
    assert forall|
        h: X,
        started: ProvisionMutationReceiptView,
        out: Result<ProvisionMutationReceiptView, VerdictView>,
        g: X,
    | #[trigger]
        polled(h, started, started, 1000, out, g) implies (
            out matches Err(verdict) ==> !(verdict is Pass)
        ) by {
        if let Err(verdict) = out {
            a_wait_in_vain_is_no_pass(h, started, started, 1000, verdict, g);
        }
    }
    assert forall|
        f: X,
        call: GuardedCall,
        put: GuardedReply,
        h: X,
        started: ProvisionMutationReceiptView,
        out: Result<ProvisionMutationReceiptView, VerdictView>,
        g: X,
    | #[trigger]
        X::answers(f, call, put, h) && #[trigger] polled(h, started, started, 1000, out, g)
        && given(put) == Some(started) && out is Ok implies carried_out(f, call, out->Ok_0, g) by {
        what_is_waited_for_has_succeeded(h, started, started, 1000, out->Ok_0, g);
    }
}

/// The repository is archived under a new configuration of its incarnation, and the receipt
/// tells both.
pub open spec fn archived_as_told(
    repo: RepoRefView,
    before: GetProvisionSnapshotResponseView,
    receipt: ProvisionMutationReceiptView,
    after: GetProvisionSnapshotResponseView,
) -> bool {
    &&& after.found
    &&& (after.repo matches Some(now) && now.repo == Some(repo) && now.lifecycle == 2)
    &&& (
        before.revision matches Some(old)
            && (
                after.revision matches Some(new) && new.incarnation == old.incarnation
                    && new.configuration != old.configuration && new.configuration.len() > 0
            )
    )
    &&& receipt.resulting_revision == after.revision
    &&& (receipt.result matches Some(MutationResultView::Archived(told)) && told.repo == after.repo)
}

/// A pass stands for an archive at the revision that was there, which was carried out and is
/// told by its receipt and by the repository.
pub proof fn a_pass_stands_for_an_archive<X: Fixture>(fx: X, repo: RepoRefView, end: End<X>)
    requires
        archive_updates_snapshot_course(fx, repo, end),
        end.verdict is Pass,
    ensures
        exists|
            first: GuardedReply,
            call: GuardedCall,
            last: GuardedReply,
            receipt: ProvisionMutationReceiptView,
            f1: X,
            f2: X,
        | #[trigger]
            X::answers(
                fx,
                GuardedCall::Snapshot(
                    GetProvisionSnapshotRequestView { repo: Some(repo), branch: ""@ },
                ),
                first,
                f1,
            )
            && #[trigger] carried_out(f1, call, receipt, f2)
            && #[trigger] X::answers(
                f2,
                GuardedCall::Snapshot(
                    GetProvisionSnapshotRequestView { repo: Some(repo), branch: ""@ },
                ),
                last,
                end.adapter,
            )
            && call == GuardedCall::Archive(archive_at(repo, shown(first)->0.revision, "archive"@))
            && receipt.request == Some(
                MutationRequestView::Archive(
                    archive_at(repo, shown(first)->0.revision, "archive"@),
                ),
            )
            && shown(first) is Some && shown(first)->0.found && shown(last) is Some
            && archived_as_told(repo, shown(first)->0, receipt, shown(last)->0),
{
    carrying_out::<X>();
}

/// The repository is asked about, put to the call, and asked about again; the call is refused
/// and the repository is as it was.
pub open spec fn refused_without_effect<X: Fixture>(
    f: X,
    repo: RepoRefView,
    branch: Seq<char>,
    before: GetProvisionSnapshotResponseView,
    call: GuardedCall,
    code: Code,
    g: X,
) -> bool {
    exists|reply: GuardedReply, again: GuardedReply, h: X| #[trigger]
        X::answers(f, call, reply, h)
        && #[trigger] X::answers(
            h,
            GuardedCall::Snapshot(GetProvisionSnapshotRequestView { repo: Some(repo), branch }),
            again,
            g,
        )
        && refused_with(reply, code) && shown(again) == Some(before)
}

/// A pass stands for a deletion at a revision that an archive had left behind, which was
/// refused and changed nothing.
pub proof fn a_pass_stands_for_a_stale_deletion_without_effect<X: Fixture>(
    fx: X,
    repo: RepoRefView,
    end: End<X>,
)
    requires
        stale_delete_has_no_effect_course(fx, repo, end),
        end.verdict is Pass,
    ensures
        exists|
            first: GuardedReply,
            call: GuardedCall,
            later: GuardedReply,
            receipt: ProvisionMutationReceiptView,
            f1: X,
            f2: X,
            f3: X,
        | #[trigger]
            X::answers(
                fx,
                GuardedCall::Snapshot(
                    GetProvisionSnapshotRequestView { repo: Some(repo), branch: ""@ },
                ),
                first,
                f1,
            )
            && #[trigger] carried_out(f1, call, receipt, f2)
            && #[trigger] X::answers(
                f2,
                GuardedCall::Snapshot(
                    GetProvisionSnapshotRequestView { repo: Some(repo), branch: ""@ },
                ),
                later,
                f3,
            )
            && call == GuardedCall::Archive(archive_at(repo, shown(first)->0.revision, "archive"@))
            && shown(first) is Some && shown(later) is Some
            && refused_without_effect(
                f3,
                repo,
                ""@,
                shown(later)->0,
                GuardedCall::Delete(
                    delete_at(repo, shown(first)->0.revision, repo.name, "stale-delete"@),
                ),
                Code::FailedPrecondition,
                end.adapter,
            ),
{
    carrying_out::<X>();
}

/// One of two archives won: it succeeded, the other failed its precondition, and the
/// repository is at the revision that the winner's receipt tells.
pub open spec fn one_won<X: Fixture>(
    f: X,
    repo: RepoRefView,
    winner: Option<ProvisionMutationReceiptView>,
    loser: StatusView,
    g: X,
) -> bool {
    loser.code == Code::FailedPrecondition && winner is Some && exists|
        out: Result<ProvisionMutationReceiptView, VerdictView>,
        last: GuardedReply,
        h: X,
    | #[trigger]
        polled(f, winner->0, winner->0, 1000, out, h)
        && #[trigger] X::answers(
            h,
            GuardedCall::Snapshot(
                GetProvisionSnapshotRequestView { repo: Some(repo), branch: ""@ },
            ),
            last,
            g,
        )
        && out is Ok && became(winner->0, out->Ok_0) && shown(last) is Some
        && shown(last)->0.revision == out->Ok_0.resulting_revision
}

proof fn winning_is_one_won<X: Fixture>(
    f: X,
    repo: RepoRefView,
    winner: Option<ProvisionMutationReceiptView>,
    loser: StatusView,
    end: End<X>,
)
    requires
        wins(f, repo, winner, loser, end),
        end.verdict is Pass,
    ensures
        one_won(f, repo, winner, loser, end.adapter),
{
    carrying_out::<X>();
    if let Some(started) = winner {
        assert forall|out: Result<ProvisionMutationReceiptView, VerdictView>, h: X| #[trigger]
            polled(f, started, started, 1000, out, h)
            && out is Ok implies became(started, out->Ok_0) by {
            what_is_waited_for_has_succeeded(f, started, started, 1000, out->Ok_0, h);
        }
    }
}

/// A pass stands for two archives at one revision of which one won.
pub proof fn a_pass_stands_for_one_winner<X: Fixture>(fx: X, repo: RepoRefView, end: End<X>)
    requires
        competing_archives_have_one_winner_course(fx, repo, end),
        end.verdict is Pass,
    ensures
        exists|
            first: GuardedReply,
            f1: X,
            one: GuardedArchiveRepoRequestView,
            other: GuardedArchiveRepoRequestView,
            replies: (
                Result<GuardedArchiveRepoResponseView, StatusView>,
                Result<GuardedArchiveRepoResponseView, StatusView>,
            ),
            f2: X,
        | #[trigger]
            X::answers(
                fx,
                GuardedCall::Snapshot(
                    GetProvisionSnapshotRequestView { repo: Some(repo), branch: ""@ },
                ),
                first,
                f1,
            )
            && #[trigger] X::contends(f1, one, other, replies, f2) && shown(first) is Some
            && one == archive_at(repo, shown(first)->0.revision, "first"@)
            && other == archive_at(repo, shown(first)->0.revision, "second"@) && match replies {
            (Ok(w), Err(l)) => one_won(f2, repo, w.receipt, l, end.adapter),
            (Err(l), Ok(w)) => one_won(f2, repo, w.receipt, l, end.adapter),
            _ => false,
        },
{
    assert forall|f: X, winner: Option<ProvisionMutationReceiptView>, loser: StatusView| #[trigger]
        wins(f, repo, winner, loser, end) implies one_won(f, repo, winner, loser, end.adapter) by {
        winning_is_one_won(f, repo, winner, loser, end);
    }
}

/// The receipt is found again, the same request gives it again, another request under its key
/// is refused, and the repository is as it was.
pub open spec fn receipt_is_preserved<X: Fixture>(
    f: X,
    repo: RepoRefView,
    old: ProvisionRevisionView,
    receipt: ProvisionMutationReceiptView,
    after: GetProvisionSnapshotResponseView,
    g: X,
) -> bool {
    exists|found: GuardedReply, again: GuardedReply, f1: X, f2: X| #[trigger]
        X::answers(
            f,
            GuardedCall::Mutation(
                GetProvisionMutationRequestView {
                    repo: Some(repo),
                    incarnation: old.incarnation,
                    idempotency_key: "retry"@,
                },
            ),
            found,
            f1,
        )
        && #[trigger] X::answers(
            f1,
            GuardedCall::Archive(archive_at(repo, Some(old), "retry"@)),
            again,
            f2,
        )
        && found is Mutation && given(found) == Some(receipt) && again is Archive
        && given(again) == Some(receipt)
        && refused_without_effect(
            f2,
            repo,
            ""@,
            after,
            GuardedCall::Archive(
                archive_at(
                    repo,
                    Some(
                        ProvisionRevisionView {
                            incarnation: old.incarnation,
                            configuration: old.configuration + "-different"@,
                        },
                    ),
                    "retry"@,
                ),
            ),
            Code::AlreadyExists,
            g,
        )
}

proof fn retrying_preserves<X: Fixture>(
    f: X,
    repo: RepoRefView,
    old: ProvisionRevisionView,
    receipt: ProvisionMutationReceiptView,
    after: GetProvisionSnapshotResponseView,
    end: End<X>,
)
    requires
        retried(
            f,
            repo,
            old.incarnation,
            archive_at(repo, Some(old), "retry"@),
            archive_at(
                repo,
                Some(
                    ProvisionRevisionView {
                        configuration: old.configuration + "-different"@,
                        ..old
                    },
                ),
                "retry"@,
            ),
            receipt,
            after,
            end,
        ),
        end.verdict is Pass,
    ensures
        receipt_is_preserved(f, repo, old, receipt, after, end.adapter),
{
}

/// A pass stands for an archive whose receipt a retry gives again, without doing it again.
pub proof fn a_pass_stands_for_a_preserved_receipt<X: Fixture>(
    fx: X,
    repo: RepoRefView,
    end: End<X>,
)
    requires
        archive_retry_preserves_receipt_course(fx, repo, end),
        end.verdict is Pass,
    ensures
        exists|
            first: GuardedReply,
            call: GuardedCall,
            later: GuardedReply,
            receipt: ProvisionMutationReceiptView,
            f1: X,
            f2: X,
            f3: X,
        | #[trigger]
            X::answers(
                fx,
                GuardedCall::Snapshot(
                    GetProvisionSnapshotRequestView { repo: Some(repo), branch: ""@ },
                ),
                first,
                f1,
            )
            && #[trigger] carried_out(f1, call, receipt, f2)
            && #[trigger] X::answers(
                f2,
                GuardedCall::Snapshot(
                    GetProvisionSnapshotRequestView { repo: Some(repo), branch: ""@ },
                ),
                later,
                f3,
            )
            && shown(first) is Some && shown(first)->0.revision is Some
            && call == GuardedCall::Archive(archive_at(repo, shown(first)->0.revision, "retry"@))
            && shown(later) is Some
            && receipt_is_preserved(
                f3,
                repo,
                shown(first)->0.revision->0,
                receipt,
                shown(later)->0,
                end.adapter,
            ),
{
    carrying_out::<X>();
    assert forall|
        f: X,
        old: ProvisionRevisionView,
        receipt: ProvisionMutationReceiptView,
        after: GetProvisionSnapshotResponseView,
    | #[trigger]
        retried(
            f,
            repo,
            old.incarnation,
            archive_at(repo, Some(old), "retry"@),
            archive_at(
                repo,
                Some(
                    ProvisionRevisionView {
                        configuration: old.configuration + "-different"@,
                        ..old
                    },
                ),
                "retry"@,
            ),
            receipt,
            after,
            end,
        ) implies receipt_is_preserved(f, repo, old, receipt, after, end.adapter) by {
        retrying_preserves(f, repo, old, receipt, after, end);
    }
}

/// The receipt tells the deletion, the repository is gone, the same request and a lookup give
/// the receipt again, and the repository is still gone.
pub open spec fn removal_is_told<X: Fixture>(
    f: X,
    repo: RepoRefView,
    old: ProvisionRevisionView,
    receipt: ProvisionMutationReceiptView,
    g: X,
) -> bool {
    &&& receipt.request == Some(
        MutationRequestView::Delete(delete_at(repo, Some(old), repo.name, "delete"@)),
    )
    &&& receipt.resulting_revision is None
    &&& (receipt.result matches Some(MutationResultView::Deleted(told)) && told.confirmed)
    &&& exists|
        gone: GuardedReply,
        again: GuardedReply,
        found: GuardedReply,
        still: GuardedReply,
        f1: X,
        f2: X,
        f3: X,
    | #[trigger]
        X::answers(
            f,
            GuardedCall::Snapshot(
                GetProvisionSnapshotRequestView { repo: Some(repo), branch: ""@ },
            ),
            gone,
            f1,
        )
        && #[trigger] X::answers(
            f1,
            GuardedCall::Delete(delete_at(repo, Some(old), repo.name, "delete"@)),
            again,
            f2,
        )
        && #[trigger] X::answers(
            f2,
            GuardedCall::Mutation(
                GetProvisionMutationRequestView {
                    repo: Some(repo),
                    incarnation: old.incarnation,
                    idempotency_key: "delete"@,
                },
            ),
            found,
            f3,
        )
        && #[trigger] X::answers(
            f3,
            GuardedCall::Snapshot(
                GetProvisionSnapshotRequestView { repo: Some(repo), branch: ""@ },
            ),
            still,
            g,
        )
        && shown(gone) is Some && !shown(gone)->0.found && shown(gone)->0.repo is None
        && shown(gone)->0.revision is None && again is Delete && given(again) == Some(receipt)
        && found is Mutation && given(found) == Some(receipt) && shown(still) == shown(gone)
}

proof fn removing_is_told<X: Fixture>(
    f: X,
    repo: RepoRefView,
    old: ProvisionRevisionView,
    receipt: ProvisionMutationReceiptView,
    end: End<X>,
)
    requires
        removed(
            f,
            repo,
            old.incarnation,
            delete_at(repo, Some(old), repo.name, "delete"@),
            receipt,
            end,
        ),
        end.verdict is Pass,
    ensures
        removal_is_told(f, repo, old, receipt, end.adapter),
{
}

/// A pass stands for a deletion that was refused under another name and carried out under the
/// repository's own, and whose receipt outlives the repository.
pub proof fn a_pass_stands_for_a_deletion_that_is_told<X: Fixture>(
    fx: X,
    repo: RepoRefView,
    end: End<X>,
)
    requires
        deletion_receipt_survives_removal_course(fx, repo, end),
        end.verdict is Pass,
    ensures
        exists|
            first: GuardedReply,
            wrong: GuardedCall,
            reply: GuardedReply,
            again: GuardedReply,
            call: GuardedCall,
            receipt: ProvisionMutationReceiptView,
            f1: X,
            f2: X,
            f3: X,
            f4: X,
        | #[trigger]
            X::answers(
                fx,
                GuardedCall::Snapshot(
                    GetProvisionSnapshotRequestView { repo: Some(repo), branch: ""@ },
                ),
                first,
                f1,
            )
            && #[trigger] X::answers(f1, wrong, reply, f2)
            && #[trigger] X::answers(
                f2,
                GuardedCall::Snapshot(
                    GetProvisionSnapshotRequestView { repo: Some(repo), branch: ""@ },
                ),
                again,
                f3,
            )
            && #[trigger] carried_out(f3, call, receipt, f4) && shown(first) is Some
            && shown(first)->0.revision is Some
            && wrong == GuardedCall::Delete(
                delete_at(repo, shown(first)->0.revision, repo.name + "-wrong"@, "delete"@),
            )
            && refused_with(reply, Code::InvalidArgument) && shown(again) == shown(first)
            && call == GuardedCall::Delete(
                delete_at(repo, shown(first)->0.revision, repo.name, "delete"@),
            )
            && removal_is_told(f4, repo, shown(first)->0.revision->0, receipt, end.adapter),
{
    carrying_out::<X>();
    assert forall|f: X, old: ProvisionRevisionView, receipt: ProvisionMutationReceiptView|
        #[trigger] removed(
            f,
            repo,
            old.incarnation,
            delete_at(repo, Some(old), repo.name, "delete"@),
            receipt,
            end,
        ) implies removal_is_told(f, repo, old, receipt, end.adapter) by {
        removing_is_told(f, repo, old, receipt, end);
    }
}

// ── requests that lack something ────────────────────────────────────────────

/// Each request is refused in turn, and none has an effect.
pub open spec fn all_refused<X: Fixture>(
    f: X,
    repo: RepoRefView,
    requests: Seq<GuardedArchiveRepoRequestView>,
    before: GetProvisionSnapshotResponseView,
    g: X,
) -> bool
    decreases requests.len(),
{
    if requests.len() == 0 {
        f == g
    } else {
        exists|h: X| #[trigger]
            refused_without_effect(
                f,
                repo,
                ""@,
                before,
                GuardedCall::Archive(requests[0]),
                Code::InvalidArgument,
                h,
            )
            && all_refused(h, repo, requests.drop_first(), before, g)
    }
}

proof fn each_is_refused<X: Fixture>(
    f: X,
    repo: RepoRefView,
    requests: Seq<GuardedArchiveRepoRequestView>,
    before: GetProvisionSnapshotResponseView,
    end: End<X>,
)
    requires
        rejects_each(f, repo, requests, before, end),
        end.verdict is Pass,
    ensures
        all_refused(f, repo, requests, before, end.adapter),
    decreases requests.len(),
{
    if requests.len() > 0 {
        let rest = requests.drop_first();
        let call = GuardedCall::Archive(requests[0]);
        let (reply, h, again, g) = choose|reply: GuardedReply, h: X, again: GuardedReply, g: X| #[trigger]
            X::answers(f, call, reply, h) && #[trigger] X::answers(
            h,
            GuardedCall::Snapshot(
                GetProvisionSnapshotRequestView { repo: Some(repo), branch: ""@ },
            ),
            again,
            g,
        ) && refused_with(reply, Code::InvalidArgument) && shown(again) == Some(before)
            && rejects_each(g, repo, rest, before, end);
        assert(refused_without_effect(f, repo, ""@, before, call, Code::InvalidArgument, g));
        each_is_refused(g, repo, rest, before, end);
    }
}

/// A pass stands for refusals, without effect, of an archive without a revision, with an empty
/// one, without a key, without an incarnation and without a configuration.
pub proof fn a_pass_stands_for_refusals_of_what_is_incomplete<X: Fixture>(
    fx: X,
    repo: RepoRefView,
    end: End<X>,
)
    requires
        missing_preconditions_have_no_effect_course(fx, repo, end),
        end.verdict is Pass,
    ensures
        exists|first: GuardedReply, f1: X| #[trigger]
            X::answers(
                fx,
                GuardedCall::Snapshot(
                    GetProvisionSnapshotRequestView { repo: Some(repo), branch: ""@ },
                ),
                first,
                f1,
            ) && (shown(first) matches Some(before) && (before.revision matches Some(v)
                && all_refused(f1, repo, seq![
            archive_at(repo, None, "missing"@),
            archive_at(
                repo,
                Some(
                    ProvisionRevisionView {
                        incarnation: Seq::empty(),
                        configuration: Seq::empty(),
                    },
                ),
                "empty"@,
            ),
            archive_at(repo, Some(v), ""@),
            archive_at(
                repo,
                Some(
                    ProvisionRevisionView {
                        incarnation: Seq::empty(),
                        configuration: v.configuration,
                    },
                ),
                "partial"@,
            ),
            archive_at(
                repo,
                Some(
                    ProvisionRevisionView {
                        incarnation: v.incarnation,
                        configuration: Seq::empty(),
                    },
                ),
                "partial"@,
            ),
        ], before, end.adapter))),
{
    assert forall|
        f: X,
        requests: Seq<GuardedArchiveRepoRequestView>,
        before: GetProvisionSnapshotResponseView,
    | #[trigger]
        rejects_each(f, repo, requests, before, end) implies all_refused(
            f,
            repo,
            requests,
            before,
            end.adapter,
        ) by {
        each_is_refused(f, repo, requests, before, end);
    }
}

// ── confirmations that went stale ───────────────────────────────────────────

/// A deletion at the revision is refused, and the repository is as it was.
pub open spec fn is_stale<X: Fixture>(
    f: X,
    repo: RepoRefView,
    old: Option<ProvisionRevisionView>,
    g: X,
) -> bool {
    exists|first: GuardedReply, f1: X| #[trigger]
        X::answers(
            f,
            GuardedCall::Snapshot(
                GetProvisionSnapshotRequestView { repo: Some(repo), branch: "main"@ },
            ),
            first,
            f1,
        )
        && shown(first) is Some
        && refused_without_effect(
            f1,
            repo,
            "main"@,
            shown(first)->0,
            GuardedCall::Delete(delete_at(repo, old, repo.name, "stale-confirmation"@)),
            Code::FailedPrecondition,
            g,
        )
}

/// A pass stands for a confirmation that is refused.
pub proof fn a_pass_stands_for_a_stale_confirmation<X: Fixture>(
    f: X,
    repo: RepoRefView,
    old: Option<ProvisionRevisionView>,
    end: End<X>,
)
    requires
        rejects_old_delete_course(f, repo, old, end),
        end.verdict is Pass,
    ensures
        is_stale(f, repo, old, end.adapter),
{
}

/// Both have a revision, of one incarnation.
pub open spec fn one_incarnation(
    before: GetProvisionSnapshotResponseView,
    after: GetProvisionSnapshotResponseView,
) -> bool {
    before.revision matches Some(v)
        && (after.revision matches Some(w) && v.incarnation == w.incarnation)
}

/// Whether force pushes are blocked, as a snapshot tells it; nothing is blocked where it
/// tells nothing.
pub open spec fn blocks(snapshot: GetProvisionSnapshotResponseView) -> bool {
    snapshot.protection matches Some(p) && (p.effective matches Some(rule) && rule.block_force_push)
}

/// A pass stands for a setting that was turned over, gave the repository a new configuration
/// and made the confirmation before it stale.
pub proof fn a_pass_stands_for_a_setting_that_counts<X: RevisionFixture>(
    fx: X,
    repo: RepoRefView,
    end: End<X>,
)
    requires
        legacy_settings_invalidate_confirmation_course(fx, repo, end),
        end.verdict is Pass,
    ensures
        exists|
            first: GuardedReply,
            later: GuardedReply,
            wanted: ProtectionSpecView,
            done: Result<(), StatusView>,
            f1: X,
            f2: X,
            f3: X,
        | #[trigger]
            X::answers(
                fx,
                GuardedCall::Snapshot(
                    GetProvisionSnapshotRequestView { repo: Some(repo), branch: "main"@ },
                ),
                first,
                f1,
            )
            && #[trigger] X::protects(f1, wanted, done, f2) && done is Ok
            && #[trigger] X::answers(
                f2,
                GuardedCall::Snapshot(
                    GetProvisionSnapshotRequestView { repo: Some(repo), branch: "main"@ },
                ),
                later,
                f3,
            )
            && shown(first) is Some && shown(later) is Some
            && wanted.block_force_push == !blocks(shown(first)->0) && shown(later)->0.found
            && shown(later)->0.protection_found
            && (
                shown(later)->0.protection matches Some(p)
                    && (
                        p.effective matches Some(rule)
                            && rule.block_force_push == wanted.block_force_push
                    )
            )
            && one_incarnation(shown(first)->0, shown(later)->0)
            && shown(
                first,
            )->0.revision->0.configuration != shown(later)->0.revision->0.configuration
            && is_stale(f3, repo, shown(first)->0.revision, end.adapter),
{
    stale_confirmations::<X>(repo, end);
}

proof fn stale_confirmations<X: Fixture>(repo: RepoRefView, end: End<X>)
    ensures
        end.verdict is Pass ==> forall|f: X, old: Option<ProvisionRevisionView>| #[trigger]
            rejects_old_delete_course(f, repo, old, end) ==> is_stale(f, repo, old, end.adapter),
{
    if end.verdict is Pass {
        assert forall|f: X, old: Option<ProvisionRevisionView>| #[trigger]
            rejects_old_delete_course(f, repo, old, end) implies is_stale(
                f,
                repo,
                old,
                end.adapter,
            ) by {
            a_pass_stands_for_a_stale_confirmation(f, repo, old, end);
        }
    }
}

/// A rule that is nothing but a block of force pushes, or its lack.
pub open spec fn only_force_push(block: bool) -> ProtectionSpecView {
    ProtectionSpecView { block_force_push: block, rest: Seq::empty() }
}

/// A pass stands for a setting that was changed and changed back: it looks as before, and yet
/// the confirmation before it is stale.
pub proof fn a_pass_stands_for_a_reversion_that_counts<X: RevisionFixture>(
    fx: X,
    repo: RepoRefView,
    end: End<X>,
)
    requires
        settings_reversion_keeps_confirmation_stale_course(fx, repo, end),
        end.verdict is Pass,
    ensures
        exists|
            first: GuardedReply,
            later: GuardedReply,
            w1: ProtectionSpecView,
            w2: ProtectionSpecView,
            w3: ProtectionSpecView,
            d1: Result<(), StatusView>,
            d2: Result<(), StatusView>,
            d3: Result<(), StatusView>,
            f1: X,
            f2: X,
            f3: X,
            f4: X,
            f5: X,
        | #[trigger]
            X::protects(fx, w1, d1, f1)
            && #[trigger] X::answers(
                f1,
                GuardedCall::Snapshot(
                    GetProvisionSnapshotRequestView { repo: Some(repo), branch: "main"@ },
                ),
                first,
                f2,
            )
            && #[trigger] X::protects(f2, w2, d2, f3) && #[trigger] X::protects(f3, w3, d3, f4)
            && #[trigger] X::answers(
                f4,
                GuardedCall::Snapshot(
                    GetProvisionSnapshotRequestView { repo: Some(repo), branch: "main"@ },
                ),
                later,
                f5,
            )
            && shown(first) is Some && shown(later) is Some && d1 is Ok && d2 is Ok && d3 is Ok
            && w1 == only_force_push(true) && w2 == only_force_push(false)
            && w3 == only_force_push(true)
            && shown(first)->0.protection == shown(later)->0.protection
            && one_incarnation(shown(first)->0, shown(later)->0)
            && shown(first)->0.revision != shown(later)->0.revision
            && is_stale(f5, repo, shown(first)->0.revision, end.adapter),
{
    stale_confirmations::<X>(repo, end);
}

/// A pass stands for a repository that was made again under its name: it is another
/// incarnation, and the confirmation of the one before is stale.
pub proof fn a_pass_stands_for_another_incarnation<X: RevisionFixture>(
    fx: X,
    repo: RepoRefView,
    end: End<X>,
)
    requires
        recreated_repository_rejects_original_confirmation_course(fx, repo, end),
        end.verdict is Pass,
    ensures
        exists|
            first: GuardedReply,
            later: GuardedReply,
            done: Result<(), StatusView>,
            f1: X,
            f2: X,
            f3: X,
        | #[trigger]
            X::answers(
                fx,
                GuardedCall::Snapshot(
                    GetProvisionSnapshotRequestView { repo: Some(repo), branch: "main"@ },
                ),
                first,
                f1,
            )
            && #[trigger] X::recreates(f1, done, f2) && done is Ok
            && #[trigger] X::answers(
                f2,
                GuardedCall::Snapshot(
                    GetProvisionSnapshotRequestView { repo: Some(repo), branch: "main"@ },
                ),
                later,
                f3,
            )
            && shown(first) is Some && shown(later) is Some && shown(later)->0.found
            && (
                shown(first)->0.repo matches Some(r)
                    && (shown(later)->0.repo matches Some(s) && r.repo == s.repo)
            )
            && (
                shown(first)->0.revision matches Some(v)
                    && (shown(later)->0.revision matches Some(w) && v.incarnation != w.incarnation)
            )
            && is_stale(f3, repo, shown(first)->0.revision, end.adapter),
{
    stale_confirmations::<X>(repo, end);
}

} // verus!
