//! The guarded provisioner over a running geetchd, bound to one caller.
//!
//! A request is handed on as it is, once, with the caller's authorization. What comes back
//! is handed on where it answers the request; a failure keeps its code and its message.

use crate::guarded::{
    accept_archive, accept_delete, accept_mutation, accept_protection, accept_snapshot, believable,
    complete, handed_on, identity, lost, receipt_looked_up, receipt_of, snapshot_answers,
    GetProvisionMutationRequest, GetProvisionMutationResponse, GetProvisionSnapshotRequest,
    GetProvisionSnapshotResponse, GuardedArchiveRepoRequest, GuardedArchiveRepoResponse,
    GuardedCall, GuardedDeleteRepoRequest, GuardedDeleteRepoResponse,
    GuardedEnsureProtectionRequest, GuardedEnsureProtectionResponse, GuardedProvisioner,
    GuardedReply, MutationRequestView,
};
use crate::guarded_model::{configuration_name, fresh, incarnation_name, Model, ModelView};
use crate::messages::Message;
use crate::provision::ProtectionSpecView;
use crate::status::{outcome, Code, Status, StatusView};
use crate::text::same;
use vstd::prelude::*;

verus! {

/// The guarded provisioning service, as a server implements it. Each request comes with
/// the authorization of its caller.
pub trait GuardedForgeProvisionService: Sized {
    /// What the server keeps true of itself between calls.
    spec fn wf(&self) -> bool;

    /// The server may reply to the call of a caller in this way, and is then in this state.
    spec fn serves(
        pre: Self,
        authorization: String,
        call: GuardedCall,
        reply: GuardedReply,
        post: Self,
    ) -> bool;

    fn get_provision_snapshot(
        &mut self,
        authorization: &String,
        request: GetProvisionSnapshotRequest,
    ) -> (r: Result<
        GetProvisionSnapshotResponse,
        Status,
    >)
        requires
            old(self).wf(),
        ensures
            final(self).wf(),
            Self::serves(
                *old(self),
                *authorization,
                GuardedCall::Snapshot(request@),
                GuardedReply::Snapshot(outcome(r)),
                *final(self),
            ),
    ;

    fn guarded_archive_repo(
        &mut self,
        authorization: &String,
        request: GuardedArchiveRepoRequest,
    ) -> (r: Result<
        GuardedArchiveRepoResponse,
        Status,
    >)
        requires
            old(self).wf(),
        ensures
            final(self).wf(),
            Self::serves(
                *old(self),
                *authorization,
                GuardedCall::Archive(request@),
                GuardedReply::Archive(outcome(r)),
                *final(self),
            ),
    ;

    fn guarded_delete_repo(
        &mut self,
        authorization: &String,
        request: GuardedDeleteRepoRequest,
    ) -> (r: Result<
        GuardedDeleteRepoResponse,
        Status,
    >)
        requires
            old(self).wf(),
        ensures
            final(self).wf(),
            Self::serves(
                *old(self),
                *authorization,
                GuardedCall::Delete(request@),
                GuardedReply::Delete(outcome(r)),
                *final(self),
            ),
    ;

    fn guarded_ensure_protection(
        &mut self,
        authorization: &String,
        request: GuardedEnsureProtectionRequest,
    ) -> (r: Result<
        GuardedEnsureProtectionResponse,
        Status,
    >)
        requires
            old(self).wf(),
        ensures
            final(self).wf(),
            Self::serves(
                *old(self),
                *authorization,
                GuardedCall::Protection(request@),
                GuardedReply::Protection(outcome(r)),
                *final(self),
            ),
    ;

    fn get_provision_mutation(
        &mut self,
        authorization: &String,
        request: GetProvisionMutationRequest,
    ) -> (r: Result<
        GetProvisionMutationResponse,
        Status,
    >)
        requires
            old(self).wf(),
        ensures
            final(self).wf(),
            Self::serves(
                *old(self),
                *authorization,
                GuardedCall::Mutation(request@),
                GuardedReply::Mutation(outcome(r)),
                *final(self),
            ),
    ;
}

/// The reply is of the kind that the call has.
pub open spec fn replies(call: GuardedCall, reply: GuardedReply) -> bool {
    match call {
        GuardedCall::Snapshot(_) => reply is Snapshot,
        GuardedCall::Archive(_) => reply is Archive,
        GuardedCall::Delete(_) => reply is Delete,
        GuardedCall::Protection(_) => reply is Protection,
        GuardedCall::Mutation(_) => reply is Mutation,
    }
}

/// What a caller is given of what the server sent: its failure as it came, its answer
/// where it answers the call, else the failure that data were lost.
pub open spec fn accepted(call: GuardedCall, sent: GuardedReply) -> GuardedReply {
    match (call, sent) {
        (GuardedCall::Snapshot(q), GuardedReply::Snapshot(r)) => GuardedReply::Snapshot(
            handed_on(
                r,
                r is Ok && snapshot_answers(r->Ok_0, q),
                "invalid guarded repository snapshot"@,
            ),
        ),
        (GuardedCall::Archive(q), GuardedReply::Archive(r)) => GuardedReply::Archive(
            handed_on(
                r,
                r is Ok && receipt_of(r->Ok_0.receipt, MutationRequestView::Archive(q)),
                "invalid guarded mutation receipt"@,
            ),
        ),
        (GuardedCall::Delete(q), GuardedReply::Delete(r)) => GuardedReply::Delete(
            handed_on(
                r,
                r is Ok && receipt_of(r->Ok_0.receipt, MutationRequestView::Delete(q)),
                "invalid guarded mutation receipt"@,
            ),
        ),
        (GuardedCall::Protection(q), GuardedReply::Protection(r)) => GuardedReply::Protection(
            handed_on(
                r,
                r is Ok && receipt_of(r->Ok_0.receipt, MutationRequestView::Protection(q)),
                "invalid guarded mutation receipt"@,
            ),
        ),
        (GuardedCall::Mutation(q), GuardedReply::Mutation(r)) => GuardedReply::Mutation(
            handed_on(
                r,
                r is Ok && receipt_looked_up(r->Ok_0.receipt, q),
                "guarded lookup returned an unrelated or invalid receipt"@,
            ),
        ),
        _ => sent,
    }
}

/// Native geetch passthrough bound to one caller's authorization. Create another
/// instance when the caller changes; credentials are never part of the requests.
pub struct GuardedGeetchProvisioner<S> {
    service: S,
    authorization: String,
}

impl<S> GuardedGeetchProvisioner<S> {
    /// The service that is asked.
    pub closed spec fn remote(&self) -> S {
        self.service
    }

    /// The caller's authorization.
    pub closed spec fn caller(&self) -> String {
        self.authorization
    }

    /// The service that is asked, for a caller that is done with the adapter.
    pub fn into_service(self) -> (r: S)
        ensures
            r == self.remote(),
    {
        self.service
    }
}

impl<S: GuardedForgeProvisionService> GuardedGeetchProvisioner<S> {
    /// An adapter for one caller; it is valid where the service is.
    pub fn new(service: S, authorization: String) -> (r: Self)
        ensures
            r.remote() == service,
            r.caller() == authorization,
            r.wf() == service.wf(),
    {
        GuardedGeetchProvisioner { service, authorization }
    }
}

impl<S: GuardedForgeProvisionService> GuardedProvisioner for GuardedGeetchProvisioner<S> {
    open spec fn wf(&self) -> bool {
        self.remote().wf()
    }

    /// The service is asked the same, once, for the caller, and what it sent is handed on
    /// where it can be accepted.
    open spec fn answers(pre: Self, call: GuardedCall, reply: GuardedReply, post: Self) -> bool {
        &&& post.caller() == pre.caller()
        &&& exists|sent: GuardedReply| #[trigger]
            S::serves(pre.remote(), pre.caller(), call, sent, post.remote()) && replies(call, sent)
                && reply == accepted(call, sent)
    }

    fn snapshot(&mut self, request: GetProvisionSnapshotRequest) -> (r: Result<
        GetProvisionSnapshotResponse,
        Status,
    >) {
        let sent = self.service.get_provision_snapshot(&self.authorization, request.copy());
        assert(S::serves(
            old(self).remote(),
            old(self).caller(),
            GuardedCall::Snapshot(request@),
            GuardedReply::Snapshot(outcome(sent)),
            self.remote(),
        ));
        accept_snapshot(&request, sent)
    }

    fn archive(&mut self, request: GuardedArchiveRepoRequest) -> (r: Result<
        GuardedArchiveRepoResponse,
        Status,
    >) {
        let sent = self.service.guarded_archive_repo(&self.authorization, request.copy());
        assert(S::serves(
            old(self).remote(),
            old(self).caller(),
            GuardedCall::Archive(request@),
            GuardedReply::Archive(outcome(sent)),
            self.remote(),
        ));
        accept_archive(&request, sent)
    }

    fn delete(&mut self, request: GuardedDeleteRepoRequest) -> (r: Result<
        GuardedDeleteRepoResponse,
        Status,
    >) {
        let sent = self.service.guarded_delete_repo(&self.authorization, request.copy());
        assert(S::serves(
            old(self).remote(),
            old(self).caller(),
            GuardedCall::Delete(request@),
            GuardedReply::Delete(outcome(sent)),
            self.remote(),
        ));
        accept_delete(&request, sent)
    }

    fn ensure_protection(&mut self, request: GuardedEnsureProtectionRequest) -> (r: Result<
        GuardedEnsureProtectionResponse,
        Status,
    >) {
        let sent = self.service.guarded_ensure_protection(&self.authorization, request.copy());
        assert(S::serves(
            old(self).remote(),
            old(self).caller(),
            GuardedCall::Protection(request@),
            GuardedReply::Protection(outcome(sent)),
            self.remote(),
        ));
        accept_protection(&request, sent)
    }

    fn mutation(&mut self, request: GetProvisionMutationRequest) -> (r: Result<
        GetProvisionMutationResponse,
        Status,
    >) {
        let sent = self.service.get_provision_mutation(&self.authorization, request.copy());
        assert(S::serves(
            old(self).remote(),
            old(self).caller(),
            GuardedCall::Mutation(request@),
            GuardedReply::Mutation(outcome(sent)),
            self.remote(),
        ));
        accept_mutation(&request, sent)
    }
}

// ── a server that is granted to one caller ──────────────────────────────────

/// A provisioner that is served to one caller.
pub struct GrantedService<P> {
    pub provisioner: P,
    pub authorization: String,
}

/// What another caller is told.
pub open spec fn denied() -> StatusView {
    StatusView { code: Code::PermissionDenied, message: "caller lacks access"@ }
}

/// The failure of a call, as its reply.
pub open spec fn failure(call: GuardedCall, status: StatusView) -> GuardedReply {
    match call {
        GuardedCall::Snapshot(_) => GuardedReply::Snapshot(Err(status)),
        GuardedCall::Archive(_) => GuardedReply::Archive(Err(status)),
        GuardedCall::Delete(_) => GuardedReply::Delete(Err(status)),
        GuardedCall::Protection(_) => GuardedReply::Protection(Err(status)),
        GuardedCall::Mutation(_) => GuardedReply::Mutation(Err(status)),
    }
}

impl<P: GuardedProvisioner> GuardedForgeProvisionService for GrantedService<P> {
    open spec fn wf(&self) -> bool {
        self.provisioner.wf()
    }

    /// Its caller is served by the provisioner; any other is denied, without effect.
    open spec fn serves(
        pre: Self,
        authorization: String,
        call: GuardedCall,
        reply: GuardedReply,
        post: Self,
    ) -> bool {
        if authorization@ == pre.authorization@ {
            &&& post.authorization == pre.authorization
            &&& P::answers(pre.provisioner, call, reply, post.provisioner)
        } else {
            post == pre && reply == failure(call, denied())
        }
    }

    fn get_provision_snapshot(
        &mut self,
        authorization: &String,
        request: GetProvisionSnapshotRequest,
    ) -> (r: Result<
        GetProvisionSnapshotResponse,
        Status,
    >) {
        if !same(authorization.as_str(), self.authorization.as_str()) {
            return Err(Status::new(Code::PermissionDenied, "caller lacks access"));
        }
        self.provisioner.snapshot(request)
    }

    fn guarded_archive_repo(
        &mut self,
        authorization: &String,
        request: GuardedArchiveRepoRequest,
    ) -> (r: Result<
        GuardedArchiveRepoResponse,
        Status,
    >) {
        if !same(authorization.as_str(), self.authorization.as_str()) {
            return Err(Status::new(Code::PermissionDenied, "caller lacks access"));
        }
        self.provisioner.archive(request)
    }

    fn guarded_delete_repo(
        &mut self,
        authorization: &String,
        request: GuardedDeleteRepoRequest,
    ) -> (r: Result<
        GuardedDeleteRepoResponse,
        Status,
    >) {
        if !same(authorization.as_str(), self.authorization.as_str()) {
            return Err(Status::new(Code::PermissionDenied, "caller lacks access"));
        }
        self.provisioner.delete(request)
    }

    fn guarded_ensure_protection(
        &mut self,
        authorization: &String,
        request: GuardedEnsureProtectionRequest,
    ) -> (r: Result<
        GuardedEnsureProtectionResponse,
        Status,
    >) {
        if !same(authorization.as_str(), self.authorization.as_str()) {
            return Err(Status::new(Code::PermissionDenied, "caller lacks access"));
        }
        self.provisioner.ensure_protection(request)
    }

    fn get_provision_mutation(
        &mut self,
        authorization: &String,
        request: GetProvisionMutationRequest,
    ) -> (r: Result<
        GetProvisionMutationResponse,
        Status,
    >) {
        if !same(authorization.as_str(), self.authorization.as_str()) {
            return Err(Status::new(Code::PermissionDenied, "caller lacks access"));
        }
        self.provisioner.mutation(request)
    }
}

// ── what holds of the way ───────────────────────────────────────────────────

/// A failure keeps its code and its message.
pub proof fn failures_are_preserved(call: GuardedCall, status: StatusView)
    ensures
        accepted(call, failure(call, status)) == failure(call, status),
{
}

/// Nothing is accepted that was not sent: an answer that is handed on is the server's.
pub proof fn answers_are_the_servers(call: GuardedCall, sent: GuardedReply)
    ensures
        accepted(call, sent) == sent || exists|message: Seq<char>|
            accepted(call, sent) == #[trigger] failure(call, lost(message)),
{
    let snapshot = failure(call, lost("invalid guarded repository snapshot"@));
    let receipt = failure(call, lost("invalid guarded mutation receipt"@));
    let lookup = failure(call, lost("guarded lookup returned an unrelated or invalid receipt"@));
    assert(accepted(call, sent) == sent || accepted(call, sent) == snapshot || accepted(call, sent)
        == receipt || accepted(call, sent) == lookup);
}

/// A caller without access is denied, and the provisioner does not change.
pub proof fn stranger_has_no_effect<P: GuardedProvisioner>(
    pre: GuardedGeetchProvisioner<GrantedService<P>>,
    call: GuardedCall,
    reply: GuardedReply,
    post: GuardedGeetchProvisioner<GrantedService<P>>,
)
    requires
        pre.caller()@ != pre.remote().authorization@,
        GuardedGeetchProvisioner::answers(pre, call, reply, post),
    ensures
        reply == failure(call, denied()),
        post.remote() == pre.remote(),
        post.caller() == pre.caller(),
{
    failures_are_preserved(call, denied());
}

/// The caller with access is given what the provisioner told, where it can be accepted.
pub proof fn caller_is_answered<P: GuardedProvisioner>(
    pre: GuardedGeetchProvisioner<GrantedService<P>>,
    call: GuardedCall,
    reply: GuardedReply,
    post: GuardedGeetchProvisioner<GrantedService<P>>,
)
    requires
        pre.caller()@ == pre.remote().authorization@,
        GuardedGeetchProvisioner::answers(pre, call, reply, post),
    ensures
        post.remote().authorization == pre.remote().authorization,
        exists|told: GuardedReply| #[trigger]
            P::answers(pre.remote().provisioner, call, told, post.remote().provisioner) && reply
                == accepted(call, told),
{
    let sent = choose|sent: GuardedReply| #[trigger]
        GrantedService::serves(pre.remote(), pre.caller(), call, sent, post.remote()) && reply
            == accepted(call, sent);
    assert(P::answers(pre.remote().provisioner, call, sent, post.remote().provisioner));
}

/// A failure that the server sends is handed on unchanged, code and message, whatever the
/// call was: nothing is made of it, and nothing is tried again.
pub proof fn failures_are_handed_on<S: GuardedForgeProvisionService>(
    pre: GuardedGeetchProvisioner<S>,
    call: GuardedCall,
    status: StatusView,
    reply: GuardedReply,
    post: GuardedGeetchProvisioner<S>,
)
    requires
        GuardedGeetchProvisioner::<S>::answers(pre, call, reply, post),
        forall|sent: GuardedReply| #[trigger]
            S::serves(pre.remote(), pre.caller(), call, sent, post.remote()) && replies(call, sent)
                ==> sent == failure(call, status),
    ensures
        reply == failure(call, status),
        S::serves(pre.remote(), pre.caller(), call, reply, post.remote()),
{
}

// ── the in-memory provisioner, driven this way ──────────────────────────────

/// What the in-memory provisioner keeps true of its repository and its receipts.
pub open spec fn sound(m: ModelView) -> bool {
    &&& if m.snapshot.found {
        &&& m.snapshot.repo is Some
        &&& m.snapshot.repo->0.repo == Some(m.repo)
        &&& complete(m.snapshot.revision)
        &&& m.snapshot.protection_found == (m.snapshot.protection is Some)
        &&& m.snapshot.protection is Some ==> m.snapshot.protection->0.branch == "main"@
    } else {
        m.snapshot == GetProvisionSnapshotResponse::blank()
    }
    &&& forall|key: Seq<char>| #[trigger]
        m.receipts.contains_key(key) ==> {
            &&& believable(m.receipts[key])
            &&& identity(m.receipts[key].request->0).key == key
            &&& identity(m.receipts[key].request->0).repo == Some(m.repo)
        }
}

proof fn names_are_not_empty()
    ensures
        forall|n: nat| (#[trigger] configuration_name(n)).len() > 0,
        forall|n: nat| (#[trigger] incarnation_name(n)).len() > 0,
        "operation-"@.len() > 0,
        "fixture"@.len() > 0,
        "caller"@.len() > 0,
        "main"@.len() > 0,
{
    reveal_strlit("configuration-");
    reveal_strlit("incarnation-");
    reveal_strlit("operation-");
    reveal_strlit("fixture");
    reveal_strlit("caller");
    reveal_strlit("main");
}

/// A provisioner whose repository was just made is sound.
pub proof fn fresh_is_sound(m: ModelView)
    requires
        fresh(m),
    ensures
        sound(m),
{
    names_are_not_empty();
}

/// Every call keeps the provisioner sound.
pub proof fn calls_keep_it_sound(m: ModelView, call: GuardedCall)
    requires
        sound(m),
    ensures
        sound(m.step(call).0),
{
    names_are_not_empty();
}

/// Protecting the branch of a repository that is there keeps the provisioner sound, and
/// so does making the repository again.
pub proof fn settings_keep_it_sound(m: ModelView, wanted: ProtectionSpecView)
    requires
        sound(m),
    ensures
        m.snapshot.found ==> sound(m.protect(wanted)),
        sound(m.recreate()),
{
    names_are_not_empty();
}

/// What a sound provisioner replies is accepted as it is.
pub proof fn sound_replies_are_accepted(m: ModelView, call: GuardedCall)
    requires
        sound(m),
    ensures
        accepted(call, m.step(call).1) == m.step(call).1,
{
    names_are_not_empty();
}

/// Through the adapter the in-memory provisioner does what it does by itself: the same
/// reply, the same state.
pub proof fn model_answers_as_itself(
    pre: GuardedGeetchProvisioner<GrantedService<Model>>,
    call: GuardedCall,
    reply: GuardedReply,
    post: GuardedGeetchProvisioner<GrantedService<Model>>,
)
    requires
        pre.caller()@ == pre.remote().authorization@,
        sound(pre.remote().provisioner@),
        GuardedGeetchProvisioner::answers(pre, call, reply, post),
    ensures
        (post.remote().provisioner@, reply) == pre.remote().provisioner@.step(call),
        sound(post.remote().provisioner@),
{
    caller_is_answered(pre, call, reply, post);
    sound_replies_are_accepted(pre.remote().provisioner@, call);
    calls_keep_it_sound(pre.remote().provisioner@, call);
}

} // verus!
