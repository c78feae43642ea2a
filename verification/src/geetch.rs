//! `geetch`: drive a running geetchd as a forge.
//!
//! geetch serves the forge contract natively, rather than mapping it onto someone else's
//! API. So this adapter is a near-1:1 passthrough: build the request, call the service,
//! unwrap the response. That nothing is lost on the way is proved below.

use crate::forge::{
    default_reply, fits, not_supported_error, BranchOutcome, EnsuredTrigger, EnsuredTriggerView,
    Forge, ForgeCall, ForgeError, ForgeReply, ForgeResult, OpenedChange, OpenedChangeView,
    PipelineStatus, PipelineStatusView, ReplyView,
};
use crate::gateway::{passes_on, response_to, ServedForge};
use crate::messages::{
    copy_texts, texts, ChangeRef, ChangeState, CiStatus, FileBlob, ForgeCapabilities, ForgeKind,
    Issue, Message, PullRequest, RepoRef, Repository, Trigger,
};
use crate::status::{outcome, Code, Status, StatusView};
use crate::text::{debug_text, has_prefix, quoted};
use crate::wire::{
    replies, CommitFileRequest, CreateBranchRequest, EnableAutoMergeRequest, EnsureTriggerRequest,
    ForgeService, GetCapabilitiesRequest, GetChangeStateRequest, GetDefaultBranchRequest,
    ListTriggersRequest, MergeRequest, OpenChangeRequest, PipelineStatusRequest, ReadFileRequest,
    ServiceCall, ServiceReply,
};
use vstd::prelude::*;

verus! {

// ── connecting ──────────────────────────────────────────────────────────────

/// The endpoint of an address: as it is where it names a scheme, else over `http`.
pub open spec fn endpoint_of(addr: Seq<char>) -> Seq<char> {
    if "http://"@.is_prefix_of(addr) || "https://"@.is_prefix_of(addr) {
        addr
    } else {
        "http://"@ + addr
    }
}

/// The endpoint to connect to. A bare `host:port` is accepted and given an `http://`
/// scheme.
pub fn endpoint_url(addr: &str) -> (r: String)
    ensures
        r@ == endpoint_of(addr@),
{
    if has_prefix(addr, "http://") || has_prefix(addr, "https://") {
        addr.to_owned()
    } else {
        "http://".to_owned().concat(addr)
    }
}

/// The error of an address that is none.
pub fn invalid_address(addr: &str, cause: &str) -> (r: ForgeError)
    ensures
        r@ == "invalid geetch address "@ + debug_text(addr@) + ": "@ + cause@,
{
    ForgeError::from_text(
        "invalid geetch address ".to_owned().concat(quoted(addr).as_str()).concat(": ").concat(
            cause,
        ),
    )
}

/// The error of an address where nothing answers.
pub fn unreachable_address(addr: &str, cause: &str) -> (r: ForgeError)
    ensures
        r@ == "could not reach geetch at "@ + endpoint_of(addr@) + ": "@ + cause@,
{
    ForgeError::from_text(
        "could not reach geetch at ".to_owned().concat(endpoint_url(addr).as_str()).concat(
            ": ",
        ).concat(cause),
    )
}

/// A status becomes a [`ForgeError`] carrying the server's message. The code is dropped
/// deliberately: callers branch on the operation, not on a transport code.
pub fn err(s: Status) -> (r: ForgeError)
    ensures
        r@ == s@.message,
{
    ForgeError::from_text(s.message)
}

// ── the forge ───────────────────────────────────────────────────────────────

/// The request for a call, where the service is asked at all.
pub open spec fn request_of(call: ForgeCall) -> Option<ServiceCall> {
    match call {
        ForgeCall::DefaultBranch { repo } => Some(ServiceCall::DefaultBranch { repo: Some(repo) }),
        ForgeCall::ReadFile { repo, path, at } => Some(
            ServiceCall::ReadFile { repo: Some(repo), path, at },
        ),
        ForgeCall::CreateBranch { repo, name, from_ref } => Some(
            ServiceCall::CreateBranch { repo: Some(repo), name, from_sha: from_ref },
        ),
        ForgeCall::CommitFile { repo, branch, path, content, blob_sha, message } => Some(
            ServiceCall::CommitFile { repo: Some(repo), branch, path, content, blob_sha, message },
        ),
        ForgeCall::OpenChange { repo, head, base, title, body, remove_source_branch } => Some(
            ServiceCall::OpenChange {
                repo: Some(repo),
                head,
                base,
                title,
                body,
                remove_source_branch,
            },
        ),
        ForgeCall::EnableAutoMerge { repo, change } => Some(
            ServiceCall::EnableAutoMerge { repo: Some(repo), change: Some(change) },
        ),
        ForgeCall::PipelineStatus { repo, change } => Some(
            ServiceCall::PipelineStatus { repo: Some(repo), change: Some(change) },
        ),
        ForgeCall::Merge { repo, change } => Some(
            ServiceCall::Merge { repo: Some(repo), change: Some(change) },
        ),
        ForgeCall::ChangeState { repo, change } => Some(
            ServiceCall::ChangeState { repo: Some(repo), change: Some(change) },
        ),
        ForgeCall::ListTriggers { repo } => Some(ServiceCall::ListTriggers { repo: Some(repo) }),
        ForgeCall::EnsureTrigger { repo, url, events, secret } => Some(
            ServiceCall::EnsureTrigger { repo: Some(repo), url, events, secret },
        ),
        ForgeCall::Capabilities => None,
        _ => None,
    }
}

/// What the adapter replies, from what the service sent; `None` for what it never asks for.
pub open spec fn unwrapped(reply: ServiceReply) -> Option<ReplyView> {
    match reply {
        ServiceReply::DefaultBranch(r) => Some(
            ReplyView::Text(
                match r {
                    Ok(v) => Ok(v.branch),
                    Err(s) => Err(s.message),
                },
            ),
        ),
        ServiceReply::ReadFile(r) => Some(
            ReplyView::File(
                match r {
                    Ok(v) => Ok(v.blob),
                    Err(s) => Err(s.message),
                },
            ),
        ),
        ServiceReply::CreateBranch(r) => Some(
            ReplyView::Branch(
                match r {
                    Ok(v) => Ok(
                        BranchOutcome { created: v.created, already_existed: v.already_existed },
                    ),
                    Err(s) => Err(s.message),
                },
            ),
        ),
        ServiceReply::CommitFile(r) => Some(
            ReplyView::Text(
                match r {
                    Ok(v) => Ok(v.commit_sha),
                    Err(s) => Err(s.message),
                },
            ),
        ),
        ServiceReply::OpenChange(r) => Some(
            ReplyView::Change(
                match r {
                    Ok(v) => Ok(
                        OpenedChangeView {
                            change: match v.change { Some(c) => c, None => ChangeRef::blank() },
                            already_existed: v.already_existed,
                        },
                    ),
                    Err(s) => Err(s.message),
                },
            ),
        ),
        ServiceReply::EnableAutoMerge(r) => Some(
            ReplyView::Flag(
                match r {
                    Ok(v) => Ok(v.enabled),
                    Err(s) => Err(s.message),
                },
            ),
        ),
        ServiceReply::PipelineStatus(r) => Some(
            ReplyView::Pipeline(
                match r {
                    Ok(v) => Ok(
                        PipelineStatusView {
                            status: status_of(v.status),
                            pipeline_id: v.pipeline_id,
                            url: v.pipeline_url,
                        },
                    ),
                    Err(s) => Err(s.message),
                },
            ),
        ),
        ServiceReply::Merge(r) => Some(
            ReplyView::Text(
                match r {
                    Ok(v) => Ok(v.merge_commit_sha),
                    Err(s) => Err(s.message),
                },
            ),
        ),
        ServiceReply::ChangeState(r) => Some(
            ReplyView::State(
                match r {
                    Ok(v) => Ok(state_of(v.state)),
                    Err(s) => Err(s.message),
                },
            ),
        ),
        ServiceReply::ListTriggers(r) => Some(
            ReplyView::Triggers(
                match r {
                    Ok(v) => Ok(v.triggers),
                    Err(s) => Err(s.message),
                },
            ),
        ),
        ServiceReply::EnsureTrigger(r) => Some(
            ReplyView::Ensured(
                match r {
                    Ok(v) => Ok(
                        EnsuredTriggerView {
                            trigger: match v.trigger { Some(t) => t, None => Trigger::blank() },
                            created: v.created,
                        },
                    ),
                    Err(s) => Err(s.message),
                },
            ),
        ),
        // A server that does not know the question is an older one, whose capabilities are
        // known: triggers. Every other failure is one.
        ServiceReply::Capabilities(r) => Some(
            ReplyView::Capabilities(
                match r {
                    Ok(v) => Ok(
                        match v.capabilities {
                            Some(c) => c,
                            None => ForgeCapabilities::nothing(),
                        },
                    ),
                    Err(s) => if s.code == Code::Unimplemented {
                        Ok(ForgeCapabilities::triggers_only())
                    } else {
                        Err(s.message)
                    },
                },
            ),
        ),
        _ => None,
    }
}

/// The pipeline status that a number stands for, where it stands for one.
pub open spec fn status_of(n: i32) -> CiStatus {
    if exists|s: CiStatus| s.wire() == n {
        choose|s: CiStatus| s.wire() == n
    } else {
        CiStatus::Unspecified
    }
}

fn ci_status(n: i32) -> (r: CiStatus)
    ensures
        r == status_of(n),
{
    match CiStatus::from_number(n) {
        Some(s) => {
            proof {
                crate::messages::wire_numbers_are_distinct();
                assert(s.wire() == n);
            }
            s
        },
        None => CiStatus::Unspecified,
    }
}

/// The change state that a number stands for, where it stands for one.
pub open spec fn state_of(n: i32) -> ChangeState {
    if exists|s: ChangeState| s.wire() == n {
        choose|s: ChangeState| s.wire() == n
    } else {
        ChangeState::Unspecified
    }
}

fn change_state_of(n: i32) -> (r: ChangeState)
    ensures
        r == state_of(n),
{
    match ChangeState::from_number(n) {
        Some(s) => {
            proof {
                crate::messages::wire_numbers_are_distinct();
                assert(s.wire() == n);
            }
            s
        },
        None => ChangeState::Unspecified,
    }
}

/// A forge backed by a running geetchd's forge service.
pub struct GeetchForge<S> {
    pub service: S,
}

impl<S: ForgeService> GeetchForge<S> {
    /// Wrap a connected service.
    pub fn new(service: S) -> (r: Self)
        ensures
            r.service == service,
    {
        GeetchForge { service }
    }
}

/// The repository that asks for capabilities: a bare forge selector.
pub open spec fn selector(repo: RepoRef) -> bool {
    repo@ == crate::messages::RepoRefView { forge: ForgeKind::Geetch.wire(), ..RepoRef::blank() }
}

impl<S: ForgeService> Forge for GeetchForge<S> {
    open spec fn wf(&self) -> bool {
        self.service.wf()
    }

    /// The service is asked the same, and its response is unwrapped; what geetch does not
    /// serve is refused.
    open spec fn answers(pre: Self, call: ForgeCall, reply: ForgeReply, post: Self) -> bool {
        if call is Capabilities {
            exists|repo: RepoRef, sent: ServiceReply|
                selector(repo) && #[trigger] S::serves(
                    pre.service,
                    ServiceCall::Capabilities { repo: Some(repo) },
                    sent,
                    post.service,
                ) && sent is Capabilities && Some(reply@) == unwrapped(sent)
        } else {
            match request_of(call) {
                None => post == pre && default_reply(call) == Some(reply@),
                Some(request) => exists|sent: ServiceReply| #[trigger]
                    S::serves(pre.service, request, sent, post.service) && replies(request, sent)
                        && Some(reply@) == unwrapped(sent),
            }
        }
    }

    open spec fn target(&self) -> ForgeKind {
        ForgeKind::Geetch
    }

    fn kind(&self) -> (r: ForgeKind) {
        ForgeKind::Geetch
    }

    fn default_branch(&mut self, repo: &RepoRef) -> (r: ForgeResult<String>) {
        let ghost before = self.service;
        let sent = self.service.get_default_branch(
            GetDefaultBranchRequest { repo: Some(repo.clone()) },
        );
        assert(S::serves(
            before,
            ServiceCall::DefaultBranch { repo: Some(*repo) },
            ServiceReply::DefaultBranch(outcome(sent)),
            self.service,
        ));
        match sent {
            Ok(v) => Ok(v.branch),
            Err(s) => Err(err(s)),
        }
    }

    fn read_file(
        &mut self,
        repo: &RepoRef,
        path: &str,
        at: &str,
    ) -> (r: ForgeResult<Option<FileBlob>>) {
        let ghost before = self.service;
        let sent = self.service.read_file(
            ReadFileRequest { repo: Some(repo.clone()), path: path.to_owned(), at: at.to_owned() },
        );
        assert(S::serves(
            before,
            ServiceCall::ReadFile { repo: Some(*repo), path: path@, at: at@ },
            ServiceReply::ReadFile(outcome(sent)),
            self.service,
        ));
        match sent {
            Ok(v) => Ok(v.blob),
            Err(s) => Err(err(s)),
        }
    }

    fn create_branch(
        &mut self,
        repo: &RepoRef,
        name: &str,
        from_ref: &str,
    ) -> (r: ForgeResult<BranchOutcome>) {
        let ghost before = self.service;
        let sent = self.service.create_branch(
            CreateBranchRequest {
                repo: Some(repo.clone()),
                name: name.to_owned(),
                from_sha: from_ref.to_owned(),
            },
        );
        assert(S::serves(
            before,
            ServiceCall::CreateBranch { repo: Some(*repo), name: name@, from_sha: from_ref@ },
            ServiceReply::CreateBranch(outcome(sent)),
            self.service,
        ));
        match sent {
            Ok(v) => Ok(BranchOutcome { created: v.created, already_existed: v.already_existed }),
            Err(s) => Err(err(s)),
        }
    }

    fn commit_file(
        &mut self,
        repo: &RepoRef,
        branch: &str,
        path: &str,
        content: &str,
        blob_sha: &str,
        message: &str,
    ) -> (r: ForgeResult<String>) {
        let ghost before = self.service;
        let sent = self.service.commit_file(
            CommitFileRequest {
                repo: Some(repo.clone()),
                branch: branch.to_owned(),
                path: path.to_owned(),
                content: content.to_owned(),
                blob_sha: blob_sha.to_owned(),
                message: message.to_owned(),
            },
        );
        assert(S::serves(
            before,
            ServiceCall::CommitFile {
                repo: Some(*repo),
                branch: branch@,
                path: path@,
                content: content@,
                blob_sha: blob_sha@,
                message: message@,
            },
            ServiceReply::CommitFile(outcome(sent)),
            self.service,
        ));
        match sent {
            Ok(v) => Ok(v.commit_sha),
            Err(s) => Err(err(s)),
        }
    }

    fn open_change(
        &mut self,
        repo: &RepoRef,
        head: &str,
        base: &str,
        title: &str,
        body: &str,
        remove_source_branch: bool,
    ) -> (r: ForgeResult<OpenedChange>) {
        let ghost before = self.service;
        let sent = self.service.open_change(
            OpenChangeRequest {
                repo: Some(repo.clone()),
                head: head.to_owned(),
                base: base.to_owned(),
                title: title.to_owned(),
                body: body.to_owned(),
                remove_source_branch,
            },
        );
        assert(S::serves(
            before,
            ServiceCall::OpenChange {
                repo: Some(*repo),
                head: head@,
                base: base@,
                title: title@,
                body: body@,
                remove_source_branch,
            },
            ServiceReply::OpenChange(outcome(sent)),
            self.service,
        ));
        match sent {
            Ok(v) => Ok(
                OpenedChange {
                    change: match v.change { Some(c) => c, None => ChangeRef::empty() },
                    already_existed: v.already_existed,
                },
            ),
            Err(s) => Err(err(s)),
        }
    }

    fn enable_auto_merge(&mut self, repo: &RepoRef, change: &ChangeRef) -> (r: ForgeResult<bool>) {
        let ghost before = self.service;
        let sent = self.service.enable_auto_merge(
            EnableAutoMergeRequest { repo: Some(repo.clone()), change: Some(change.clone()) },
        );
        assert(S::serves(
            before,
            ServiceCall::EnableAutoMerge { repo: Some(*repo), change: Some(*change) },
            ServiceReply::EnableAutoMerge(outcome(sent)),
            self.service,
        ));
        match sent {
            Ok(v) => Ok(v.enabled),
            Err(s) => Err(err(s)),
        }
    }

    fn pipeline_status(
        &mut self,
        repo: &RepoRef,
        change: &ChangeRef,
    ) -> (r: ForgeResult<PipelineStatus>) {
        let ghost before = self.service;
        let sent = self.service.pipeline_status(
            PipelineStatusRequest { repo: Some(repo.clone()), change: Some(change.clone()) },
        );
        assert(S::serves(
            before,
            ServiceCall::PipelineStatus { repo: Some(*repo), change: Some(*change) },
            ServiceReply::PipelineStatus(outcome(sent)),
            self.service,
        ));
        match sent {
            Ok(v) => Ok(
                PipelineStatus {
                    status: ci_status(v.status),
                    pipeline_id: v.pipeline_id,
                    url: v.pipeline_url,
                },
            ),
            Err(s) => Err(err(s)),
        }
    }

    fn merge(&mut self, repo: &RepoRef, change: &ChangeRef) -> (r: ForgeResult<String>) {
        let ghost before = self.service;
        let sent = self.service.merge(
            MergeRequest { repo: Some(repo.clone()), change: Some(change.clone()) },
        );
        assert(S::serves(
            before,
            ServiceCall::Merge { repo: Some(*repo), change: Some(*change) },
            ServiceReply::Merge(outcome(sent)),
            self.service,
        ));
        match sent {
            Ok(v) => Ok(v.merge_commit_sha),
            Err(s) => Err(err(s)),
        }
    }

    fn change_state(
        &mut self,
        repo: &RepoRef,
        change: &ChangeRef,
    ) -> (r: ForgeResult<ChangeState>) {
        let ghost before = self.service;
        let sent = self.service.get_change_state(
            GetChangeStateRequest { repo: Some(repo.clone()), change: Some(change.clone()) },
        );
        assert(S::serves(
            before,
            ServiceCall::ChangeState { repo: Some(*repo), change: Some(*change) },
            ServiceReply::ChangeState(outcome(sent)),
            self.service,
        ));
        match sent {
            Ok(v) => Ok(change_state_of(v.state)),
            Err(s) => Err(err(s)),
        }
    }

    fn list_triggers(&mut self, repo: &RepoRef) -> (r: ForgeResult<Vec<Trigger>>) {
        let ghost before = self.service;
        let sent = self.service.list_triggers(
            ListTriggersRequest { repo: Some(repo.clone()) },
        );
        assert(S::serves(
            before,
            ServiceCall::ListTriggers { repo: Some(*repo) },
            ServiceReply::ListTriggers(outcome(sent)),
            self.service,
        ));
        match sent {
            Ok(v) => Ok(v.triggers),
            Err(s) => Err(err(s)),
        }
    }

    fn ensure_trigger(
        &mut self,
        repo: &RepoRef,
        url: &str,
        events: &[String],
        secret: &str,
    ) -> (r: ForgeResult<EnsuredTrigger>) {
        let ghost before = self.service;
        let sent = self.service.ensure_trigger(
            EnsureTriggerRequest {
                repo: Some(repo.clone()),
                url: url.to_owned(),
                events: copy_texts(events),
                secret: secret.to_owned(),
            },
        );
        assert(S::serves(
            before,
            ServiceCall::EnsureTrigger {
                repo: Some(*repo),
                url: url@,
                events: texts(events@),
                secret: secret@,
            },
            ServiceReply::EnsureTrigger(outcome(sent)),
            self.service,
        ));
        match sent {
            Ok(v) => Ok(
                EnsuredTrigger {
                    trigger: match v.trigger { Some(t) => t, None => Trigger::empty() },
                    created: v.created,
                },
            ),
            Err(s) => Err(err(s)),
        }
    }

    /// Ask the remote, because a passthrough must not answer for it.
    fn capabilities(&mut self) -> (r: ForgeResult<ForgeCapabilities>) {
        let mut repo = RepoRef::empty();
        repo.forge = ForgeKind::Geetch.number();
        let ghost asked = repo;
        assert(selector(asked));
        let ghost before = self.service;
        let sent = self.service.get_capabilities(GetCapabilitiesRequest { repo: Some(repo) });
        assert(S::serves(
            before,
            ServiceCall::Capabilities { repo: Some(asked) },
            ServiceReply::Capabilities(outcome(sent)),
            self.service,
        ));
        match sent {
            Ok(v) => match v.capabilities {
                Some(c) => Ok(c),
                None => Ok(ForgeCapabilities::none()),
            },
            Err(s) => if s.code == Code::Unimplemented {
                Ok(ForgeCapabilities::with_triggers())
            } else {
                Err(err(s))
            },
        }
    }

    fn set_check(
        &mut self,
        _repo: &RepoRef,
        _head_sha: &str,
        _name: &str,
        _status: &str,
        _conclusion: &str,
        _details_url: &str,
    ) -> (r: ForgeResult<String>) {
        Err(not_supported_error("set_check"))
    }

    fn comment(&mut self, _repo: &RepoRef, _number: u64, _body: &str) -> (r: ForgeResult<String>) {
        Err(not_supported_error("comment"))
    }

    fn set_deployment(
        &mut self,
        _repo: &RepoRef,
        _head_sha: &str,
        _git_ref: &str,
        _environment: &str,
        _state: &str,
        _url: &str,
        _log_url: &str,
        _description: &str,
    ) -> (r: ForgeResult<String>) {
        Err(not_supported_error("set_deployment"))
    }

    fn list_repos(
        &mut self,
        _owners: &[String],
        _labels: &[String],
    ) -> (r: ForgeResult<Vec<Repository>>) {
        Err(not_supported_error("list_repos"))
    }

    fn list_issues(
        &mut self,
        _owners: &[String],
        _labels: &[String],
        _for_users: &[String],
    ) -> (r: ForgeResult<Vec<Issue>>) {
        Err(not_supported_error("list_issues"))
    }

    fn list_pull_requests(
        &mut self,
        _owners: &[String],
        _labels: &[String],
        _for_users: &[String],
    ) -> (r: ForgeResult<Vec<PullRequest>>) {
        Err(not_supported_error("list_pull_requests"))
    }
}

// ── nothing is lost on the way ──────────────────────────────────────────────

/// A response that was made of a reply unwraps to that reply.
pub proof fn responses_unwrap(call: ForgeCall, reply: ReplyView)
    requires
        request_of(call) is Some,
        fits(call, reply),
    ensures
        unwrapped(response_to(request_of(call)->0, reply)) == Some(reply),
{
    crate::messages::wire_numbers_are_distinct();
    match reply {
        ReplyView::Pipeline(Ok(v)) => {
            assert(v.status.wire() == (v.status.wire() as i32));
            assert(status_of(v.status.wire() as i32) == v.status);
        },
        ReplyView::State(Ok(v)) => {
            assert(v.wire() == (v.wire() as i32));
            assert(state_of(v.wire() as i32) == v);
        },
        _ => {},
    }
}

/// An adapter that is served and driven through geetch answers as it does when it is
/// driven directly: the same call, the same reply, the same state.
pub proof fn served_forge_answers_as_itself<F: Forge>(
    pre: GeetchForge<ServedForge<F>>,
    call: ForgeCall,
    reply: ForgeReply,
    post: GeetchForge<ServedForge<F>>,
)
    requires
        request_of(call) is Some,
        GeetchForge::answers(pre, call, reply, post),
    ensures
        exists|told: ForgeReply| #[trigger]
            F::answers(pre.service.forge, call, told, post.service.forge) && fits(call, told@)
                && told@ == reply@,
{
    let request = request_of(call)->0;
    let sent = choose|sent: ServiceReply| #[trigger]
        ServedForge::serves(pre.service, request, sent, post.service) && replies(request, sent)
            && Some(reply@) == unwrapped(sent);
    assert(crate::wire::call_of(request) == Ok::<ForgeCall, StatusView>(call));
    assert(passes_on(pre.service.forge, request, sent, post.service.forge));
    let told = choose|told: ForgeReply| #[trigger]
        F::answers(pre.service.forge, crate::wire::call_of(request)->Ok_0, told, post.service.forge)
            && fits(crate::wire::call_of(request)->Ok_0, told@) && sent == response_to(
            request,
            told@,
        );
    responses_unwrap(call, told@);
}

/// Asked for its capabilities through geetch, a served adapter answers as it does when
/// it is asked directly.
pub proof fn served_forge_declares_as_itself<F: Forge>(
    pre: GeetchForge<ServedForge<F>>,
    reply: ForgeReply,
    post: GeetchForge<ServedForge<F>>,
)
    requires
        GeetchForge::answers(pre, ForgeCall::Capabilities, reply, post),
    ensures
        exists|told: ForgeReply| #[trigger]
            F::answers(pre.service.forge, ForgeCall::Capabilities, told, post.service.forge)
                && told@ == reply@,
{
    let (repo, sent) = choose|repo: RepoRef, sent: ServiceReply|
        selector(repo) && #[trigger] ServedForge::serves(
            pre.service,
            ServiceCall::Capabilities { repo: Some(repo) },
            sent,
            post.service,
        ) && sent is Capabilities && Some(reply@) == unwrapped(sent);
    let request = ServiceCall::Capabilities { repo: Some(repo) };
    assert(passes_on(pre.service.forge, request, sent, post.service.forge));
    let told = choose|told: ForgeReply| #[trigger]
        F::answers(pre.service.forge, crate::wire::call_of(request)->Ok_0, told, post.service.forge)
            && fits(crate::wire::call_of(request)->Ok_0, told@) && sent == response_to(
            request,
            told@,
        );
    assert(told@ == reply@);
}

} // verus!
