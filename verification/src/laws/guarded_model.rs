//! What the guarded provisioner in memory does, call by call.

use crate::guarded::{
    GetProvisionMutationRequestView, GetProvisionSnapshotRequestView, GuardedArchiveRepoRequestView,
    GuardedArchiveRepoResponseView, GuardedCall, GuardedDeleteRepoRequestView,
    GuardedEnsureProtectionRequestView, GuardedProvisioner, GuardedReply, MutationRequestView,
    MutationResultView, ProvisionMutationReceiptView, ProvisionRevisionView,
};
use crate::guarded_conformance::{Fixture, RevisionFixture};
use crate::guarded_geetch::{GrantedService, GuardedForgeProvisionService};
use crate::guarded_model::{Model, ModelView};
use crate::messages::{RepoRef, RepoRefView};
use crate::provision::{ProtectionSpecView, ProtectionView};
use crate::status::{Code, StatusView};
use crate::text::decimal;
use vstd::prelude::*;

verus! {

/// The call is refused with the code and the message.
pub open spec fn refuses<T>(r: Result<T, StatusView>, code: Code, message: Seq<char>) -> bool {
    r matches Err(s) && s.code == code && s.message == message
}

/// The request names this repository, a key, and a whole revision.
pub open spec fn grants(
    m: ModelView,
    repo: Option<RepoRefView>,
    expected: Option<ProvisionRevisionView>,
    key: Seq<char>,
) -> bool {
    repo == Some(m.repo) && key.len() > 0
        && (expected matches Some(v) && v.incarnation.len() > 0 && v.configuration.len() > 0)
}

/// The key was used for this very request.
pub open spec fn replays(m: ModelView, key: Seq<char>, input: MutationRequestView) -> bool {
    m.receipts.contains_key(key) && m.receipts[key].request == Some(input)
}

/// The key is new, and the revision is the repository's.
pub open spec fn current(
    m: ModelView,
    expected: Option<ProvisionRevisionView>,
    key: Seq<char>,
) -> bool {
    !m.receipts.contains_key(key) && m.snapshot.revision == expected
}

/// What is told of a receipt: the receipt itself, unless the first operation is to be told
/// before it is finished; then the same operation without an outcome.
pub open spec fn tells(
    m: ModelView,
    told: ProvisionMutationReceiptView,
    kept: ProvisionMutationReceiptView,
) -> bool {
    if m.pending_first {
        &&& told.phase == 1 && told.result is None && told.resulting_revision is None
        &&& told.operation_id == kept.operation_id && told.actor == kept.actor
            && told.request == kept.request
        &&& told.created_at_unix_seconds == kept.created_at_unix_seconds
            && told.updated_at_unix_seconds == kept.updated_at_unix_seconds
            && told.rest == kept.rest
    } else {
        told == kept
    }
}

/// A receipt of the request is kept under its key, and every other receipt stays.
pub open spec fn keeps(
    m: ModelView,
    n: ModelView,
    key: Seq<char>,
    input: MutationRequestView,
) -> bool {
    let kept = n.receipts[key];
    &&& n.receipts.contains_key(key) && kept.request == Some(input) && kept.phase == 2
    &&& kept.operation_id == "operation-"@ + decimal((m.issued + 1) as nat)
    &&& (kept.actor matches Some(actor) && actor.issuer == "fixture"@ && actor.subject == "caller"@)
    &&& kept.created_at_unix_seconds == 1 && kept.updated_at_unix_seconds == 1
        && kept.rest.len() == 0
    &&& n.issued == m.issued + 1 && !n.pending_first && n.repo == m.repo
        && n.incarnation == m.incarnation
    &&& forall|other: Seq<char>|
        #![trigger n.receipts.contains_key(other)] other != key ==>
        n.receipts.contains_key(other) == m.receipts.contains_key(other)
        && (m.receipts.contains_key(other) ==> n.receipts[other] == m.receipts[other])
}

/// An archive that cannot be granted changes nothing, and says why: the repository first, then
/// what it lacks, then a key that another request used, then a revision that is no longer.
pub proof fn an_archive_is_refused_without_effect(m: ModelView, q: GuardedArchiveRepoRequestView)
    requires
        !(
            grants(m, q.repo, q.expected, q.idempotency_key)
                && (
                    replays(m, q.idempotency_key, MutationRequestView::Archive(q))
                        || current(m, q.expected, q.idempotency_key)
                )
        ),
    ensures
        ({
            let (n, reply) = m.step(GuardedCall::Archive(q));
            &&& n == m
            &&& reply matches GuardedReply::Archive(r)
            &&& q.repo != Some(m.repo) ==>
                refuses(r, Code::PermissionDenied, "repository not granted"@)
            &&& q.repo == Some(m.repo) && !grants(m, q.repo, q.expected, q.idempotency_key) ==>
                refuses(r, Code::InvalidArgument, "complete preconditions required"@)
            &&& grants(m, q.repo, q.expected, q.idempotency_key)
                && m.receipts.contains_key(q.idempotency_key) ==>
                refuses(r, Code::AlreadyExists, "key already used"@)
            &&& grants(m, q.repo, q.expected, q.idempotency_key)
                && !m.receipts.contains_key(q.idempotency_key) ==>
                refuses(r, Code::FailedPrecondition, "revision changed"@)
        }),
{
}

/// The same request again is told its own receipt, and is not carried out again.
pub proof fn an_archive_is_replayed(m: ModelView, q: GuardedArchiveRepoRequestView)
    requires
        grants(m, q.repo, q.expected, q.idempotency_key),
        replays(m, q.idempotency_key, MutationRequestView::Archive(q)),
    ensures
        ({
            let (n, reply) = m.step(GuardedCall::Archive(q));
            &&& n == (ModelView { pending_first: false, ..m })
            &&& (
                reply matches GuardedReply::Archive(Ok(sent))
                    && (
                        sent.receipt matches Some(told)
                            && tells(m, told, m.receipts[q.idempotency_key])
                    )
            )
        }),
{
}

/// An archive at the revision that it expects is carried out, and its receipt is kept.
pub proof fn an_archive_is_carried_out(m: ModelView, q: GuardedArchiveRepoRequestView)
    requires
        grants(m, q.repo, q.expected, q.idempotency_key),
        current(m, q.expected, q.idempotency_key),
    ensures
        ({
            let (n, reply) = m.step(GuardedCall::Archive(q));
            let kept = n.receipts[q.idempotency_key];
            &&& (
                reply matches GuardedReply::Archive(Ok(sent))
                    && (sent.receipt matches Some(told) && tells(m, told, kept))
            )
            &&& keeps(m, n, q.idempotency_key, MutationRequestView::Archive(q))
            &&& kept.resulting_revision == n.snapshot.revision
            &&& (
                n.snapshot.revision matches Some(now)
                    && now.incarnation == q.expected->0.incarnation
                    && now.configuration == "configuration-"@ + decimal((m.generation + 1) as nat)
            )
            &&& n.generation == m.generation + 1
            &&& (
                kept.result matches Some(MutationResultView::Archived(told))
                    && told.repo == n.snapshot.repo
            )
            &&& (
                m.snapshot.repo matches Some(was) ==>
                    (
                        n.snapshot.repo matches Some(now) && now.lifecycle == 2
                            && now.repo == was.repo && now.rest == was.rest
                    )
            )
            &&& m.snapshot.repo is None ==> n.snapshot.repo is None
            &&& n.snapshot.found == m.snapshot.found && n.snapshot.branch == m.snapshot.branch
                && n.snapshot.protection_found == m.snapshot.protection_found
                && n.snapshot.protection == m.snapshot.protection
        }),
{
}

/// A deletion needs the repository's exact name, before anything else.
pub proof fn a_deletion_needs_the_exact_name(m: ModelView, q: GuardedDeleteRepoRequestView)
    requires
        q.confirm_name != m.repo.name,
    ensures
        m.step(GuardedCall::Delete(q)).0 == m,
        m.step(GuardedCall::Delete(q)).1 matches GuardedReply::Delete(r)
            && refuses(r, Code::InvalidArgument, "exact name required"@),
{
}

/// A deletion that cannot be granted changes nothing, and says why: the repository first, then
/// what it lacks, then a key that another request used, then a revision that is no longer.
pub proof fn a_deletion_is_refused_without_effect(m: ModelView, q: GuardedDeleteRepoRequestView)
    requires
        q.confirm_name == m.repo.name,
        !(
            grants(m, q.repo, q.expected, q.idempotency_key)
                && (
                    replays(m, q.idempotency_key, MutationRequestView::Delete(q))
                        || current(m, q.expected, q.idempotency_key)
                )
        ),
    ensures
        ({
            let (n, reply) = m.step(GuardedCall::Delete(q));
            &&& n == m
            &&& reply matches GuardedReply::Delete(r)
            &&& q.repo != Some(m.repo) ==>
                refuses(r, Code::PermissionDenied, "repository not granted"@)
            &&& q.repo == Some(m.repo) && !grants(m, q.repo, q.expected, q.idempotency_key) ==>
                refuses(r, Code::InvalidArgument, "complete preconditions required"@)
            &&& grants(m, q.repo, q.expected, q.idempotency_key)
                && m.receipts.contains_key(q.idempotency_key) ==>
                refuses(r, Code::AlreadyExists, "key already used"@)
            &&& grants(m, q.repo, q.expected, q.idempotency_key)
                && !m.receipts.contains_key(q.idempotency_key) ==>
                refuses(r, Code::FailedPrecondition, "revision changed"@)
        }),
{
}

/// The same request again is told its own receipt, and is not carried out again.
pub proof fn a_deletion_is_replayed(m: ModelView, q: GuardedDeleteRepoRequestView)
    requires
        q.confirm_name == m.repo.name,
        grants(m, q.repo, q.expected, q.idempotency_key),
        replays(m, q.idempotency_key, MutationRequestView::Delete(q)),
    ensures
        ({
            let (n, reply) = m.step(GuardedCall::Delete(q));
            &&& n == (ModelView { pending_first: false, ..m })
            &&& (
                reply matches GuardedReply::Delete(Ok(sent))
                    && (
                        sent.receipt matches Some(told)
                            && tells(m, told, m.receipts[q.idempotency_key])
                    )
            )
        }),
{
}

/// A deletion at the revision that it expects is carried out, and its receipt is kept.
pub proof fn a_deletion_is_carried_out(m: ModelView, q: GuardedDeleteRepoRequestView)
    requires
        q.confirm_name == m.repo.name,
        grants(m, q.repo, q.expected, q.idempotency_key),
        current(m, q.expected, q.idempotency_key),
    ensures
        ({
            let (n, reply) = m.step(GuardedCall::Delete(q));
            let kept = n.receipts[q.idempotency_key];
            &&& (
                reply matches GuardedReply::Delete(Ok(sent))
                    && (sent.receipt matches Some(told) && tells(m, told, kept))
            )
            &&& keeps(m, n, q.idempotency_key, MutationRequestView::Delete(q))
            &&& kept.resulting_revision is None
            &&& n.generation == m.generation
            &&& (kept.result matches Some(MutationResultView::Deleted(told)) && told.confirmed)
            &&& !n.snapshot.found && n.snapshot.repo is None && n.snapshot.revision is None
                && n.snapshot.branch.len() == 0 && !n.snapshot.protection_found
                && n.snapshot.protection is None
        }),
{
}

/// A protection is not among what is guarded here.
pub proof fn a_guarded_protection_is_unsupported(
    m: ModelView,
    q: GuardedEnsureProtectionRequestView,
)
    ensures
        m.step(GuardedCall::Protection(q)).0 == m,
        m.step(GuardedCall::Protection(q)).1 matches GuardedReply::Protection(r)
            && refuses(r, Code::Unimplemented, "guarded protection is unsupported"@),
        m.execute(MutationRequestView::Protection(q)).0 == m,
        refuses(
            m.execute(MutationRequestView::Protection(q)).1,
            Code::Unimplemented,
            "protection model is not implemented"@,
        ),
{
}

/// A request is told the repository as it is, with the protection of `main` where that is the
/// branch that is asked for.
pub proof fn a_snapshot_is_of_the_repository(m: ModelView, q: GetProvisionSnapshotRequestView)
    ensures
        ({
            let (n, reply) = m.step(GuardedCall::Snapshot(q));
            &&& n == m
            &&& reply matches GuardedReply::Snapshot(r)
            &&& q.repo != Some(m.repo) ==>
                refuses(r, Code::PermissionDenied, "repository not granted"@)
            &&& q.repo == Some(
                m.repo,
            ) ==> (r matches Ok(told) && told.branch == q.branch
                && told.found == m.snapshot.found && told.repo == m.snapshot.repo
                && told.revision == m.snapshot.revision && if q.branch == "main"@ {
                told.protection == m.snapshot.protection
                    && told.protection_found == m.snapshot.protection_found
            } else {
                told.protection is None && !told.protection_found
            })
        }),
{
}

/// The incarnation that a request expected.
pub open spec fn expected_incarnation(input: MutationRequestView) -> Option<Seq<char>> {
    let expected = match input {
        MutationRequestView::Archive(q) => q.expected,
        MutationRequestView::Delete(q) => q.expected,
        MutationRequestView::Protection(q) => q.expected,
    };
    match expected {
        Some(v) => Some(v.incarnation),
        None => None,
    }
}

/// A receipt is found by its key and by the incarnation that its request expected, and by
/// nothing less.
pub proof fn a_receipt_is_found_by_its_key_and_incarnation(
    m: ModelView,
    q: GetProvisionMutationRequestView,
)
    ensures
        ({
            let (n, reply) = m.step(GuardedCall::Mutation(q));
            let kept = m.receipts[q.idempotency_key];
            let own = kept.request matches Some(input) && expected_incarnation(input) == Some(
                q.incarnation,
            );
            &&& n == m
            &&& reply matches GuardedReply::Mutation(r)
            &&& q.repo != Some(m.repo) ==>
                refuses(r, Code::PermissionDenied, "repository not granted"@)
            &&& q.repo == Some(m.repo) && !m.receipts.contains_key(q.idempotency_key) ==>
                refuses(r, Code::NotFound, "unknown operation"@)
            &&& q.repo == Some(m.repo) && m.receipts.contains_key(q.idempotency_key) && !own ==>
                refuses(r, Code::NotFound, "unknown incarnation"@)
            &&& q.repo == Some(m.repo) && m.receipts.contains_key(q.idempotency_key) && own ==>
                (r matches Ok(sent) && sent.receipt == Some(kept))
        }),
{
}

/// Setting the protection that is set changes nothing; setting another gives the repository a
/// new configuration under its incarnation.
pub proof fn a_setting_is_a_new_configuration(m: ModelView, wanted: ProtectionSpecView)
    ensures
        ({
            let n = m.protect(wanted);
            let set = ProtectionView {
                branch: "main"@,
                effective: Some(wanted),
                unsupported: Seq::empty(),
                rest: Seq::empty(),
            };
            &&& m.snapshot.protection == Some(set) ==> n == m
            &&& m.snapshot.protection != Some(set) ==> n.generation == m.generation + 1
                && n.snapshot.protection_found && n.snapshot.protection == Some(set)
            &&& m.snapshot.protection != Some(set) ==>
                (
                    m.snapshot.revision matches Some(was) ==>
                        (
                            n.snapshot.revision matches Some(now)
                                && now.incarnation == was.incarnation
                                && now.configuration == "configuration-"@ + decimal(
                                    (m.generation + 1) as nat,
                                )
                        )
                )
            &&& n.snapshot.revision is Some <==> m.snapshot.revision is Some
            &&& n.snapshot.found == m.snapshot.found && n.snapshot.repo == m.snapshot.repo
                && n.snapshot.branch == m.snapshot.branch
            &&& n.receipts == m.receipts && n.issued == m.issued && n.repo == m.repo
                && n.incarnation == m.incarnation && n.pending_first == m.pending_first
        }),
{
}

/// A repository that is as it was when it was made.
pub open spec fn just_made(m: ModelView) -> bool {
    &&& m.snapshot.found && !m.snapshot.protection_found && m.snapshot.protection is None
        && m.snapshot.branch.len() == 0
    &&& (
        m.snapshot.repo matches Some(told) && told.repo == Some(m.repo) && told.lifecycle == 1
            && told.rest.len() == 0
    )
    &&& (
        m.snapshot.revision matches Some(now)
            && now.incarnation == "incarnation-"@ + decimal(m.incarnation)
            && now.configuration == "configuration-"@ + decimal(m.generation)
    )
}

/// A repository that is made again is another incarnation at a new configuration; what was
/// done to the one before is still told.
pub proof fn a_repository_is_made_again(m: ModelView)
    ensures
        ({
            let n = m.recreate();
            &&& just_made(n) && n.repo == m.repo
            &&& n.incarnation == m.incarnation + 1 && n.generation == m.generation + 1
            &&& n.receipts == m.receipts && n.issued == m.issued
                && n.pending_first == m.pending_first
        }),
{
}

/// A new provisioner's repository was just made and nothing was done to it; only one that is
/// asked to tells its first operation early.
pub proof fn a_new_model_was_just_made(repo: RepoRef, r: Model, early: Model)
    requires
        call_ensures(Model::new, (repo,), r),
        call_ensures(Model::initially_pending, (repo,), early),
    ensures
        just_made(r@) && just_made(early@),
        r@.repo == repo@ && early@.repo == repo@,
        !r@.pending_first && early@.pending_first,
        r@.issued == 0 && early@.issued == 0,
        forall|key: Seq<char>| !#[trigger] r@.receipts.contains_key(key),
        forall|key: Seq<char>| !#[trigger] early@.receipts.contains_key(key),
{
}

/// The provisioner answers as its model says.
pub proof fn the_model_is_what_answers(
    pre: Model,
    call: GuardedCall,
    reply: GuardedReply,
    post: Model,
)
    requires
        Model::answers(pre, call, reply, post),
    ensures
        (post@, reply) == pre@.step(call),
{
}

/// Waiting changes nothing, and there is always time left.
pub proof fn waiting_changes_nothing(pre: Model, left: bool, post: Model)
    requires
        <Model as Fixture>::waits(pre, left, post),
    ensures
        left,
        post@ == pre@,
{
}

/// The repository of the fixture is the provisioner's; a setting and a rebirth succeed, and
/// do what they say.
pub proof fn settings_and_rebirths_succeed(
    pre: Model,
    wanted: ProtectionSpecView,
    done: Result<(), StatusView>,
    set: Model,
    again: Result<(), StatusView>,
    born: Model,
)
    requires
        <Model as RevisionFixture>::protects(pre, wanted, done, set),
        <Model as RevisionFixture>::recreates(pre, again, born),
    ensures
        pre.subject() == pre@.repo,
        done is Ok && again is Ok,
        set@.snapshot.protection matches Some(p) && p.branch == "main"@
            && p.effective == Some(wanted),
        just_made(born@) && born@.incarnation == pre@.incarnation + 1,
{
}

/// Of two archives that are put at once, one is answered as if it were alone, and the other
/// as if it came after.
pub proof fn archives_at_once_come_one_after_the_other(
    pre: Model,
    first: GuardedArchiveRepoRequestView,
    second: GuardedArchiveRepoRequestView,
    replies: (
        Result<GuardedArchiveRepoResponseView, StatusView>,
        Result<GuardedArchiveRepoResponseView, StatusView>
    ),
    post: Model,
)
    requires
        <Model as Fixture>::contends(pre, first, second, replies, post),
    ensures
        ({
            let (m, a) = pre@.step(GuardedCall::Archive(first));
            let (n, b) = pre@.step(GuardedCall::Archive(second));
            ||| GuardedReply::Archive(replies.0) == a
                && (post@, GuardedReply::Archive(replies.1)) == m.step(GuardedCall::Archive(second))
            ||| GuardedReply::Archive(replies.1) == b
                && (post@, GuardedReply::Archive(replies.0)) == n.step(GuardedCall::Archive(first))
        }),
{
}

/// Only the caller to whom the service is granted is served; another is denied, without
/// effect.
pub proof fn only_the_granted_caller_is_served<P: GuardedProvisioner>(
    pre: GrantedService<P>,
    authorization: String,
    call: GuardedCall,
    reply: GuardedReply,
    post: GrantedService<P>,
)
    requires
        GrantedService::<P>::serves(pre, authorization, call, reply, post),
    ensures
        post.authorization == pre.authorization,
        authorization@ == pre.authorization@ ==>
            P::answers(pre.provisioner, call, reply, post.provisioner),
        authorization@ != pre.authorization@ ==> post == pre && match (call, reply) {
            (
                GuardedCall::Snapshot(_),
                GuardedReply::Snapshot(r)
            ) => refuses(r, Code::PermissionDenied, "caller lacks access"@),
            (
                GuardedCall::Archive(_),
                GuardedReply::Archive(r)
            ) => refuses(r, Code::PermissionDenied, "caller lacks access"@),
            (GuardedCall::Delete(_), GuardedReply::Delete(r)) => refuses(
                r,
                Code::PermissionDenied,
                "caller lacks access"@,
            ),
            (
                GuardedCall::Protection(_),
                GuardedReply::Protection(r)
            ) => refuses(r, Code::PermissionDenied, "caller lacks access"@),
            (
                GuardedCall::Mutation(_),
                GuardedReply::Mutation(r)
            ) => refuses(r, Code::PermissionDenied, "caller lacks access"@),
            _ => false,
        },
{
}

} // verus!
