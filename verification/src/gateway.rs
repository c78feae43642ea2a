//! The forge gateway: the forge service over an adapter that is chosen per request.
//!
//! The gateway holds no forge credential of its own. The caller's identity travels in
//! request metadata, so every operation runs as the caller.

use crate::forge::{fits, Forge, ForgeCall, ForgeError, ForgeReply, PipelineStatus, ReplyView};
use crate::messages::{texts, ChangeState, ForgeCapabilities, ForgeKind, RepoRef};
use crate::status::{outcome, Code, Status, StatusView};
use crate::table::{deep, Table};
use crate::wire::{
    call_of, invalid, CommitFileRequest, CommitFileResponse, CommitFileResponseView,
    CreateBranchRequest, CreateBranchResponse, CreateBranchResponseView, EnableAutoMergeRequest,
    EnableAutoMergeResponse, EnableAutoMergeResponseView, EnsureTriggerRequest,
    EnsureTriggerResponse, EnsureTriggerResponseView, ForgeCommentRequest, ForgeService,
    ForgeSetCheckRequest, ForgeSetDeploymentRequest, GetCapabilitiesRequest,
    GetCapabilitiesResponse, GetCapabilitiesResponseView, GetChangeStateRequest,
    GetChangeStateResponse, GetChangeStateResponseView, GetDefaultBranchRequest,
    GetDefaultBranchResponse, GetDefaultBranchResponseView, ListForgeIssuesRequest,
    ListForgePullRequestsRequest, ListForgeReposRequest, ListIssuesResponse, ListIssuesResponseView,
    ListPullRequestsResponse, ListPullRequestsResponseView, ListReposResponse,
    ListReposResponseView, ListTriggersRequest, ListTriggersResponse, ListTriggersResponseView,
    MergeRequest, MergeResponse, MergeResponseView, OpenChangeRequest, OpenChangeResponse,
    OpenChangeResponseView, PipelineStatusRequest, PipelineStatusResponse,
    PipelineStatusResponseView, ReadFileRequest, ReadFileResponse, ReadFileResponseView,
    ServiceCall, ServiceReply, WriteAck, WriteAckView,
};
use vstd::prelude::*;

verus! {

// ── choosing the adapter ────────────────────────────────────────────────────

/// Metadata key carrying the caller's self-hosted GitLab token.
pub const GITLAB_TOKEN_META: &'static str = "x-fastverk-gitlab-token";

/// Metadata key carrying the caller's GitLab instance host (self-hosted, so the host
/// travels with the token). Falls back to `RepoRef.host` when absent.
pub const GITLAB_HOST_META: &'static str = "x-fastverk-gitlab-host";

/// Metadata key carrying the caller's GitHub token.
pub const GITHUB_TOKEN_META: &'static str = "x-fastverk-github-token";

/// The metadata of a request whose values are texts.
pub type Metadata = Table<String, String>;

/// A metadata value, where it is there and not empty.
pub open spec fn meta_value(meta: Map<Seq<char>, Seq<char>>, key: Seq<char>) -> Option<Seq<char>> {
    if meta.contains_key(key) && meta[key].len() > 0 {
        Some(meta[key])
    } else {
        None
    }
}

/// Read a metadata value, if present and non-empty.
pub fn meta_str(meta: &Metadata, key: &str) -> (r: Option<String>)
    ensures
        match r {
            Some(v) => meta_value(deep(meta@), key@) == Some(v@),
            None => meta_value(deep(meta@), key@) is None,
        },
{
    match meta.get(&key.to_owned()) {
        Some(v) => if v.as_str().is_empty() {
            None
        } else {
            Some(v.clone())
        },
        None => None,
    }
}

/// The adapter to build, with the caller's credential.
#[derive(Debug)]
pub enum AdapterPlan {
    Gitlab { host: String, token: String },
    Github { token: String },
}

/// A plan by its characters.
pub enum AdapterPlanView {
    Gitlab { host: Seq<char>, token: Seq<char> },
    Github { token: Seq<char> },
}

impl View for AdapterPlan {
    type V = AdapterPlanView;

    open spec fn view(&self) -> AdapterPlanView {
        match *self {
            AdapterPlan::Gitlab { host, token } => AdapterPlanView::Gitlab {
                host: host@,
                token: token@,
            },
            AdapterPlan::Github { token } => AdapterPlanView::Github { token: token@ },
        }
    }
}

/// The GitLab host: the repository's, else the one in the metadata, else none.
pub open spec fn gitlab_host(host: Seq<char>, meta: Map<Seq<char>, Seq<char>>) -> Seq<char> {
    if host.len() > 0 {
        host
    } else {
        match meta_value(meta, GITLAB_HOST_META@) {
            Some(host) => host,
            None => Seq::empty(),
        }
    }
}

/// The adapter for a repository, from the caller's credentials.
pub open spec fn adapter_plan(
    forge: i32,
    host: Seq<char>,
    meta: Map<Seq<char>, Seq<char>>,
) -> Result<AdapterPlanView, StatusView> {
    if forge == ForgeKind::Gitlab.wire() {
        match meta_value(meta, GITLAB_TOKEN_META@) {
            None => Err(
                StatusView { code: Code::Unauthenticated, message: "missing gitlab token"@ },
            ),
            Some(token) => if gitlab_host(host, meta).len() == 0 {
                Err(invalid("gitlab host required (repo.host or metadata)"@))
            } else {
                Ok(AdapterPlanView::Gitlab { host: gitlab_host(host, meta), token })
            },
        }
    } else if forge == ForgeKind::Github.wire() {
        match meta_value(meta, GITHUB_TOKEN_META@) {
            None => Err(
                StatusView { code: Code::Unauthenticated, message: "missing github token"@ },
            ),
            Some(token) => Ok(AdapterPlanView::Github { token }),
        }
    } else if forge == ForgeKind::Geetch.wire() {
        Err(
            StatusView {
                code: Code::Unimplemented,
                message:
                    "repo.forge = FORGE_GEETCH: the geetch adapter is not wired into forge-gateway yet"@,
            },
        )
    } else {
        Err(invalid("repo.forge must be one of FORGE_GITHUB, FORGE_GITLAB, FORGE_GEETCH"@))
    }
}

/// The gateway, which keeps nothing between requests.
pub struct ForgeGateway {}

impl ForgeGateway {
    /// The per-request adapter for `repo` from the caller's metadata credentials. GitLab
    /// uses `RepoRef.host` (else the metadata host); GitHub needs only the token.
    pub fn adapter(&self, repo: &RepoRef, meta: &Metadata) -> (r: Result<AdapterPlan, Status>)
        ensures
            outcome(r) == adapter_plan(repo.forge, repo@.host, deep(meta@)),
    {
        match ForgeKind::from_number(repo.forge) {
            Some(ForgeKind::Gitlab) => {
                let token = match meta_str(meta, GITLAB_TOKEN_META) {
                    Some(token) => token,
                    None => {
                        return Err(Status::new(Code::Unauthenticated, "missing gitlab token"));
                    },
                };
                let host = if repo.host.as_str().is_empty() {
                    match meta_str(meta, GITLAB_HOST_META) {
                        Some(host) => host,
                        None => String::new(),
                    }
                } else {
                    repo.host.clone()
                };
                if host.as_str().is_empty() {
                    return Err(
                        Status::new(
                            Code::InvalidArgument,
                            "gitlab host required (repo.host or metadata)",
                        ),
                    );
                }
                Ok(AdapterPlan::Gitlab { host, token })
            },
            Some(ForgeKind::Github) => {
                match meta_str(meta, GITHUB_TOKEN_META) {
                    Some(token) => Ok(AdapterPlan::Github { token }),
                    None => Err(Status::new(Code::Unauthenticated, "missing github token")),
                }
            },
            // The contract knows about geetch; this gateway does not serve it yet. Falling
            // through to another adapter would dial the wrong host with the wrong
            // credential and report a plausible failure.
            Some(ForgeKind::Geetch) => Err(
                Status::new(
                    Code::Unimplemented,
                    "repo.forge = FORGE_GEETCH: the geetch adapter is not wired into forge-gateway yet",
                ),
            ),
            _ => Err(
                Status::new(
                    Code::InvalidArgument,
                    "repo.forge must be one of FORGE_GITHUB, FORGE_GITLAB, FORGE_GEETCH",
                ),
            ),
        }
    }

    /// The server of one request: the forge service over the adapter that was built for it.
    pub fn into_server<F: Forge>(self, forge: F) -> (r: ServedForge<F>)
        ensures
            r.forge == forge,
    {
        ServedForge { forge }
    }

    /// The adapter for the repository that a request names.
    pub fn adapter_for(&self, repo: &Option<RepoRef>, meta: &Metadata) -> (r: Result<
        AdapterPlan,
        Status,
    >)
        ensures
            outcome(r) == match repo {
                None => Err(invalid("repo is required"@)),
                Some(repo) => adapter_plan(repo.forge, repo@.host, deep(meta@)),
            },
    {
        match repo {
            None => Err(Status::new(Code::InvalidArgument, "repo is required")),
            Some(repo) => self.adapter(repo, meta),
        }
    }
}

/// The gateway has no credential of its own: the one that an adapter is built with is the
/// caller's, as the metadata carry it.
pub proof fn credential_is_the_callers(
    forge: i32,
    host: Seq<char>,
    meta: Map<Seq<char>, Seq<char>>,
)
    ensures
        match adapter_plan(forge, host, meta) {
            Ok(AdapterPlanView::Gitlab { token, .. }) => token.len() > 0 && meta.contains_pair(
                GITLAB_TOKEN_META@,
                token,
            ),
            Ok(AdapterPlanView::Github { token }) => token.len() > 0 && meta.contains_pair(
                GITHUB_TOKEN_META@,
                token,
            ),
            Err(_) => true,
        },
{
}

// ── serving an adapter ──────────────────────────────────────────────────────

pub open spec fn internal(message: Seq<char>) -> StatusView {
    StatusView { code: Code::Internal, message }
}

/// A forge-op error becomes an internal status (the message is already the adapter's
/// human-readable cause).
pub fn to_status(e: ForgeError) -> (r: Status)
    ensures
        r@ == internal(e@),
{
    Status { code: Code::Internal, message: e.to_string() }
}

/// The response to a call, from what the adapter replied.
pub open spec fn response_to(call: ServiceCall, reply: ReplyView) -> ServiceReply {
    match (call, reply) {
        (ServiceCall::DefaultBranch { .. }, ReplyView::Text(r)) => ServiceReply::DefaultBranch(
            match r {
                Ok(v) => Ok(GetDefaultBranchResponseView { branch: v }),
                Err(e) => Err(internal(e)),
            },
        ),
        (ServiceCall::ReadFile { .. }, ReplyView::File(r)) => ServiceReply::ReadFile(
            match r {
                Ok(v) => Ok(ReadFileResponseView { found: v is Some, blob: v }),
                Err(e) => Err(internal(e)),
            },
        ),
        (ServiceCall::CreateBranch { .. }, ReplyView::Branch(r)) => ServiceReply::CreateBranch(
            match r {
                Ok(v) => Ok(
                    CreateBranchResponseView {
                        created: v.created,
                        already_existed: v.already_existed,
                    },
                ),
                Err(e) => Err(internal(e)),
            },
        ),
        (ServiceCall::CommitFile { .. }, ReplyView::Text(r)) => ServiceReply::CommitFile(
            match r {
                Ok(v) => Ok(CommitFileResponseView { commit_sha: v }),
                Err(e) => Err(internal(e)),
            },
        ),
        (ServiceCall::OpenChange { .. }, ReplyView::Change(r)) => ServiceReply::OpenChange(
            match r {
                Ok(v) => Ok(
                    OpenChangeResponseView {
                        change: Some(v.change),
                        already_existed: v.already_existed,
                    },
                ),
                Err(e) => Err(internal(e)),
            },
        ),
        (ServiceCall::EnableAutoMerge { .. }, ReplyView::Flag(r)) => ServiceReply::EnableAutoMerge(
            match r {
                Ok(v) => Ok(EnableAutoMergeResponseView { enabled: v }),
                Err(e) => Err(internal(e)),
            },
        ),
        (
            ServiceCall::PipelineStatus { .. },
            ReplyView::Pipeline(r),
        ) => ServiceReply::PipelineStatus(
            match r {
                Ok(v) => Ok(
                    PipelineStatusResponseView {
                        status: v.status.wire() as i32,
                        pipeline_id: v.pipeline_id,
                        pipeline_url: v.url,
                    },
                ),
                Err(e) => Err(internal(e)),
            },
        ),
        (ServiceCall::Merge { .. }, ReplyView::Text(r)) => ServiceReply::Merge(
            match r {
                Ok(v) => Ok(MergeResponseView { merge_commit_sha: v }),
                Err(e) => Err(internal(e)),
            },
        ),
        (ServiceCall::ChangeState { .. }, ReplyView::State(r)) => ServiceReply::ChangeState(
            match r {
                Ok(v) => Ok(
                    GetChangeStateResponseView {
                        state: v.wire() as i32,
                        merge_commit_sha: Seq::empty(),
                    },
                ),
                Err(e) => Err(internal(e)),
            },
        ),
        (ServiceCall::ListTriggers { .. }, ReplyView::Triggers(r)) => ServiceReply::ListTriggers(
            match r {
                Ok(v) => Ok(ListTriggersResponseView { triggers: v }),
                Err(e) => Err(internal(e)),
            },
        ),
        (ServiceCall::EnsureTrigger { .. }, ReplyView::Ensured(r)) => ServiceReply::EnsureTrigger(
            match r {
                Ok(v) => Ok(
                    EnsureTriggerResponseView { trigger: Some(v.trigger), created: v.created },
                ),
                Err(e) => Err(internal(e)),
            },
        ),
        (
            ServiceCall::Capabilities { .. },
            ReplyView::Capabilities(r),
        ) => ServiceReply::Capabilities(
            match r {
                Ok(v) => Ok(GetCapabilitiesResponseView { capabilities: Some(v) }),
                Err(e) => Err(internal(e)),
            },
        ),
        (ServiceCall::SetCheck { .. }, ReplyView::Text(r)) => ServiceReply::SetCheck(
            match r {
                Ok(v) => Ok(WriteAckView { ok: true, detail: v }),
                Err(e) => Err(internal(e)),
            },
        ),
        (ServiceCall::Comment { .. }, ReplyView::Text(r)) => ServiceReply::Comment(
            match r {
                Ok(v) => Ok(WriteAckView { ok: true, detail: v }),
                Err(e) => Err(internal(e)),
            },
        ),
        (ServiceCall::SetDeployment { .. }, ReplyView::Text(r)) => ServiceReply::SetDeployment(
            match r {
                Ok(v) => Ok(WriteAckView { ok: true, detail: v }),
                Err(e) => Err(internal(e)),
            },
        ),
        (ServiceCall::ListRepos { .. }, ReplyView::Repos(r)) => ServiceReply::ListRepos(
            match r {
                Ok(v) => Ok(ListReposResponseView { repos: v }),
                Err(e) => Err(internal(e)),
            },
        ),
        (ServiceCall::ListIssues { .. }, ReplyView::Issues(r)) => ServiceReply::ListIssues(
            match r {
                Ok(v) => Ok(ListIssuesResponseView { issues: v }),
                Err(e) => Err(internal(e)),
            },
        ),
        (
            ServiceCall::ListPullRequests { .. },
            ReplyView::PullRequests(r),
        ) => ServiceReply::ListPullRequests(
            match r {
                Ok(v) => Ok(ListPullRequestsResponseView { prs: v }),
                Err(e) => Err(internal(e)),
            },
        ),
        _ => arbitrary(),
    }
}

/// The failure of a call, as its response.
pub open spec fn failure_of(call: ServiceCall, status: StatusView) -> ServiceReply {
    match call {
        ServiceCall::DefaultBranch { .. } => ServiceReply::DefaultBranch(Err(status)),
        ServiceCall::ReadFile { .. } => ServiceReply::ReadFile(Err(status)),
        ServiceCall::CreateBranch { .. } => ServiceReply::CreateBranch(Err(status)),
        ServiceCall::CommitFile { .. } => ServiceReply::CommitFile(Err(status)),
        ServiceCall::OpenChange { .. } => ServiceReply::OpenChange(Err(status)),
        ServiceCall::EnableAutoMerge { .. } => ServiceReply::EnableAutoMerge(Err(status)),
        ServiceCall::PipelineStatus { .. } => ServiceReply::PipelineStatus(Err(status)),
        ServiceCall::Merge { .. } => ServiceReply::Merge(Err(status)),
        ServiceCall::ChangeState { .. } => ServiceReply::ChangeState(Err(status)),
        ServiceCall::ListTriggers { .. } => ServiceReply::ListTriggers(Err(status)),
        ServiceCall::EnsureTrigger { .. } => ServiceReply::EnsureTrigger(Err(status)),
        ServiceCall::Capabilities { .. } => ServiceReply::Capabilities(Err(status)),
        ServiceCall::SetCheck { .. } => ServiceReply::SetCheck(Err(status)),
        ServiceCall::Comment { .. } => ServiceReply::Comment(Err(status)),
        ServiceCall::SetDeployment { .. } => ServiceReply::SetDeployment(Err(status)),
        ServiceCall::ListRepos { .. } => ServiceReply::ListRepos(Err(status)),
        ServiceCall::ListIssues { .. } => ServiceReply::ListIssues(Err(status)),
        ServiceCall::ListPullRequests { .. } => ServiceReply::ListPullRequests(Err(status)),
    }
}

/// The rejection of an optional surface that the adapter does not declare.
pub open spec fn lacking(kind: ForgeKind, name: Seq<char>) -> StatusView {
    StatusView {
        code: Code::FailedPrecondition,
        message: kind.title() + " does not provide `"@ + name + "` (ForgeCapabilities."@ + name
            + " = false); call GetCapabilities before this RPC"@,
    }
}

/// Reject an optional surface the adapter does not declare, before attempting it.
///
/// The code says that the RPC exists and is served: it is the forge behind it that has
/// no such surface.
pub fn require_capability(kind: ForgeKind, name: &str, declared: bool) -> (r: Result<(), Status>)
    ensures
        match r {
            Ok(()) => declared,
            Err(status) => !declared && status@ == lacking(kind, name@),
        },
{
    if declared {
        return Ok(());
    }
    Err(
        Status {
            code: Code::FailedPrecondition,
            message: kind.name().to_owned().concat(" does not provide `").concat(name).concat(
                "` (ForgeCapabilities.",
            ).concat(name).concat(" = false); call GetCapabilities before this RPC"),
        },
    )
}

/// The forge service over one adapter.
pub struct ServedForge<F> {
    pub forge: F,
}

/// The adapter is asked what the request asks for, and its reply is sent.
pub open spec fn passes_on<F: Forge>(
    pre: F,
    call: ServiceCall,
    reply: ServiceReply,
    post: F,
) -> bool {
    exists|told: ForgeReply| #[trigger]
        F::answers(pre, call_of(call)->Ok_0, told, post) && fits(call_of(call)->Ok_0, told@)
            && reply == response_to(call, told@)
}

/// The optional surface that a discovery call is about, by the name of its flag.
pub open spec fn surface(call: ServiceCall) -> Option<Seq<char>> {
    match call {
        ServiceCall::ListRepos { .. } => Some("repos"@),
        ServiceCall::ListIssues { .. } => Some("issues"@),
        ServiceCall::ListPullRequests { .. } => Some("pull_requests"@),
        _ => None,
    }
}

/// The adapter declares the surface that the call is about.
pub open spec fn declares(c: ForgeCapabilities, call: ServiceCall) -> bool {
    match call {
        ServiceCall::ListRepos { .. } => c.repos,
        ServiceCall::ListIssues { .. } => c.issues,
        ServiceCall::ListPullRequests { .. } => c.pull_requests,
        _ => true,
    }
}

/// The adapter is asked for its capabilities first. What it does not declare is not
/// attempted, and is answered as lacking.
pub open spec fn asks_where_declared<F: Forge>(
    pre: F,
    call: ServiceCall,
    reply: ServiceReply,
    post: F,
) -> bool {
    exists|told: ForgeReply, asked: F| #[trigger]
        F::answers(pre, ForgeCall::Capabilities, told, asked) && match told@ {
            ReplyView::Capabilities(Err(e)) => post == asked && reply == failure_of(
                call,
                internal(e),
            ),
            ReplyView::Capabilities(Ok(c)) => if declares(c, call) {
                passes_on(asked, call, reply, post)
            } else {
                post == asked && reply == failure_of(
                    call,
                    lacking(asked.target(), surface(call)->0),
                )
            },
            _ => false,
        }
}

impl<F: Forge> ForgeService for ServedForge<F> {
    open spec fn wf(&self) -> bool {
        self.forge.wf()
    }

    open spec fn serves(pre: Self, call: ServiceCall, reply: ServiceReply, post: Self) -> bool {
        match call_of(call) {
            Err(status) => post == pre && reply == failure_of(call, status),
            Ok(_) => if surface(call) is Some {
                asks_where_declared(pre.forge, call, reply, post.forge)
            } else {
                passes_on(pre.forge, call, reply, post.forge)
            },
        }
    }

    fn get_default_branch(
        &mut self,
        request: GetDefaultBranchRequest,
    ) -> (r: Result<GetDefaultBranchResponse, Status>) {
        let repo = match request.repo {
            Some(repo) => repo,
            None => {
                return Err(Status::new(Code::InvalidArgument, "repo is required"));
            },
        };
        let ghost before = self.forge;
        let told = self.forge.default_branch(&repo);
        let ghost call = ServiceCall::DefaultBranch { repo: request.repo };
        assert(F::answers(before, call_of(call)->Ok_0, ForgeReply::Text(told), self.forge));
        match told {
            Ok(v) => Ok(GetDefaultBranchResponse { branch: v }),
            Err(e) => Err(to_status(e)),
        }
    }

    fn read_file(&mut self, request: ReadFileRequest) -> (r: Result<ReadFileResponse, Status>) {
        let repo = match request.repo {
            Some(repo) => repo,
            None => {
                return Err(Status::new(Code::InvalidArgument, "repo is required"));
            },
        };
        let ghost before = self.forge;
        let told = self.forge.read_file(&repo, request.path.as_str(), request.at.as_str());
        let ghost call = ServiceCall::ReadFile {
            repo: request.repo,
            path: request.path@,
            at: request.at@,
        };
        assert(F::answers(before, call_of(call)->Ok_0, ForgeReply::File(told), self.forge));
        match told {
            Ok(v) => Ok(ReadFileResponse { found: v.is_some(), blob: v }),
            Err(e) => Err(to_status(e)),
        }
    }

    fn create_branch(
        &mut self,
        request: CreateBranchRequest,
    ) -> (r: Result<CreateBranchResponse, Status>) {
        let repo = match request.repo {
            Some(repo) => repo,
            None => {
                return Err(Status::new(Code::InvalidArgument, "repo is required"));
            },
        };
        let ghost before = self.forge;
        let told = self.forge.create_branch(
            &repo,
            request.name.as_str(),
            request.from_sha.as_str(),
        );
        let ghost call = ServiceCall::CreateBranch {
            repo: request.repo,
            name: request.name@,
            from_sha: request.from_sha@,
        };
        assert(F::answers(before, call_of(call)->Ok_0, ForgeReply::Branch(told), self.forge));
        match told {
            Ok(v) => Ok(
                CreateBranchResponse { created: v.created, already_existed: v.already_existed },
            ),
            Err(e) => Err(to_status(e)),
        }
    }

    fn commit_file(
        &mut self,
        request: CommitFileRequest,
    ) -> (r: Result<CommitFileResponse, Status>) {
        let repo = match request.repo {
            Some(repo) => repo,
            None => {
                return Err(Status::new(Code::InvalidArgument, "repo is required"));
            },
        };
        let ghost before = self.forge;
        let told = self.forge.commit_file(
            &repo,
            request.branch.as_str(),
            request.path.as_str(),
            request.content.as_str(),
            request.blob_sha.as_str(),
            request.message.as_str(),
        );
        let ghost call = ServiceCall::CommitFile {
            repo: request.repo,
            branch: request.branch@,
            path: request.path@,
            content: request.content@,
            blob_sha: request.blob_sha@,
            message: request.message@,
        };
        assert(F::answers(before, call_of(call)->Ok_0, ForgeReply::Text(told), self.forge));
        match told {
            Ok(v) => Ok(CommitFileResponse { commit_sha: v }),
            Err(e) => Err(to_status(e)),
        }
    }

    fn open_change(
        &mut self,
        request: OpenChangeRequest,
    ) -> (r: Result<OpenChangeResponse, Status>) {
        let repo = match request.repo {
            Some(repo) => repo,
            None => {
                return Err(Status::new(Code::InvalidArgument, "repo is required"));
            },
        };
        let ghost before = self.forge;
        let told = self.forge.open_change(
            &repo,
            request.head.as_str(),
            request.base.as_str(),
            request.title.as_str(),
            request.body.as_str(),
            request.remove_source_branch,
        );
        let ghost call = ServiceCall::OpenChange {
            repo: request.repo,
            head: request.head@,
            base: request.base@,
            title: request.title@,
            body: request.body@,
            remove_source_branch: request.remove_source_branch,
        };
        assert(F::answers(before, call_of(call)->Ok_0, ForgeReply::Change(told), self.forge));
        match told {
            Ok(v) => Ok(
                OpenChangeResponse { change: Some(v.change), already_existed: v.already_existed },
            ),
            Err(e) => Err(to_status(e)),
        }
    }

    fn enable_auto_merge(
        &mut self,
        request: EnableAutoMergeRequest,
    ) -> (r: Result<EnableAutoMergeResponse, Status>) {
        let repo = match request.repo {
            Some(repo) => repo,
            None => {
                return Err(Status::new(Code::InvalidArgument, "repo is required"));
            },
        };
        let change = match request.change {
            Some(change) => change,
            None => {
                return Err(Status::new(Code::InvalidArgument, "change is required"));
            },
        };
        let ghost before = self.forge;
        let told = self.forge.enable_auto_merge(&repo, &change);
        let ghost call = ServiceCall::EnableAutoMerge {
            repo: request.repo,
            change: request.change,
        };
        assert(F::answers(before, call_of(call)->Ok_0, ForgeReply::Flag(told), self.forge));
        match told {
            Ok(v) => Ok(EnableAutoMergeResponse { enabled: v }),
            Err(e) => Err(to_status(e)),
        }
    }

    fn pipeline_status(
        &mut self,
        request: PipelineStatusRequest,
    ) -> (r: Result<PipelineStatusResponse, Status>) {
        let repo = match request.repo {
            Some(repo) => repo,
            None => {
                return Err(Status::new(Code::InvalidArgument, "repo is required"));
            },
        };
        let change = match request.change {
            Some(change) => change,
            None => {
                return Err(Status::new(Code::InvalidArgument, "change is required"));
            },
        };
        let ghost before = self.forge;
        let told = self.forge.pipeline_status(&repo, &change);
        let ghost call = ServiceCall::PipelineStatus { repo: request.repo, change: request.change };
        assert(F::answers(before, call_of(call)->Ok_0, ForgeReply::Pipeline(told), self.forge));
        match told {
            Ok(v) => Ok(
                PipelineStatusResponse {
                    status: v.status.number(),
                    pipeline_id: v.pipeline_id,
                    pipeline_url: v.url,
                },
            ),
            Err(e) => Err(to_status(e)),
        }
    }

    fn merge(&mut self, request: MergeRequest) -> (r: Result<MergeResponse, Status>) {
        let repo = match request.repo {
            Some(repo) => repo,
            None => {
                return Err(Status::new(Code::InvalidArgument, "repo is required"));
            },
        };
        let change = match request.change {
            Some(change) => change,
            None => {
                return Err(Status::new(Code::InvalidArgument, "change is required"));
            },
        };
        let ghost before = self.forge;
        let told = self.forge.merge(&repo, &change);
        let ghost call = ServiceCall::Merge { repo: request.repo, change: request.change };
        assert(F::answers(before, call_of(call)->Ok_0, ForgeReply::Text(told), self.forge));
        match told {
            Ok(v) => Ok(MergeResponse { merge_commit_sha: v }),
            Err(e) => Err(to_status(e)),
        }
    }

    fn get_change_state(
        &mut self,
        request: GetChangeStateRequest,
    ) -> (r: Result<GetChangeStateResponse, Status>) {
        let repo = match request.repo {
            Some(repo) => repo,
            None => {
                return Err(Status::new(Code::InvalidArgument, "repo is required"));
            },
        };
        let change = match request.change {
            Some(change) => change,
            None => {
                return Err(Status::new(Code::InvalidArgument, "change is required"));
            },
        };
        let ghost before = self.forge;
        let told = self.forge.change_state(&repo, &change);
        let ghost call = ServiceCall::ChangeState { repo: request.repo, change: request.change };
        assert(F::answers(before, call_of(call)->Ok_0, ForgeReply::State(told), self.forge));
        match told {
            Ok(v) => Ok(
                GetChangeStateResponse { state: v.number(), merge_commit_sha: String::new() },
            ),
            Err(e) => Err(to_status(e)),
        }
    }

    fn list_triggers(
        &mut self,
        request: ListTriggersRequest,
    ) -> (r: Result<ListTriggersResponse, Status>) {
        let repo = match request.repo {
            Some(repo) => repo,
            None => {
                return Err(Status::new(Code::InvalidArgument, "repo is required"));
            },
        };
        let ghost before = self.forge;
        let told = self.forge.list_triggers(&repo);
        let ghost call = ServiceCall::ListTriggers { repo: request.repo };
        assert(F::answers(before, call_of(call)->Ok_0, ForgeReply::Triggers(told), self.forge));
        match told {
            Ok(v) => Ok(ListTriggersResponse { triggers: v }),
            Err(e) => Err(to_status(e)),
        }
    }

    fn ensure_trigger(
        &mut self,
        request: EnsureTriggerRequest,
    ) -> (r: Result<EnsureTriggerResponse, Status>) {
        let repo = match request.repo {
            Some(repo) => repo,
            None => {
                return Err(Status::new(Code::InvalidArgument, "repo is required"));
            },
        };
        let ghost before = self.forge;
        let told = self.forge.ensure_trigger(
            &repo,
            request.url.as_str(),
            request.events.as_slice(),
            request.secret.as_str(),
        );
        let ghost call = ServiceCall::EnsureTrigger {
            repo: request.repo,
            url: request.url@,
            events: texts(request.events@),
            secret: request.secret@,
        };
        assert(F::answers(before, call_of(call)->Ok_0, ForgeReply::Ensured(told), self.forge));
        match told {
            Ok(v) => Ok(EnsureTriggerResponse { trigger: Some(v.trigger), created: v.created }),
            Err(e) => Err(to_status(e)),
        }
    }

    fn get_capabilities(
        &mut self,
        request: GetCapabilitiesRequest,
    ) -> (r: Result<GetCapabilitiesResponse, Status>) {
        let _repo = match request.repo {
            Some(repo) => repo,
            None => {
                return Err(Status::new(Code::InvalidArgument, "repo is required"));
            },
        };
        let ghost before = self.forge;
        let told = self.forge.capabilities();
        let ghost call = ServiceCall::Capabilities { repo: request.repo };
        assert(F::answers(before, call_of(call)->Ok_0, ForgeReply::Capabilities(told), self.forge));
        match told {
            Ok(v) => Ok(GetCapabilitiesResponse { capabilities: Some(v) }),
            Err(e) => Err(to_status(e)),
        }
    }

    fn set_check(&mut self, request: ForgeSetCheckRequest) -> (r: Result<WriteAck, Status>) {
        let repo = match request.repo {
            Some(repo) => repo,
            None => {
                return Err(Status::new(Code::InvalidArgument, "repo is required"));
            },
        };
        let ghost before = self.forge;
        let told = self.forge.set_check(
            &repo,
            request.head_sha.as_str(),
            request.name.as_str(),
            request.status.as_str(),
            request.conclusion.as_str(),
            request.details_url.as_str(),
        );
        let ghost call = ServiceCall::SetCheck {
            repo: request.repo,
            head_sha: request.head_sha@,
            name: request.name@,
            status: request.status@,
            conclusion: request.conclusion@,
            details_url: request.details_url@,
        };
        assert(F::answers(before, call_of(call)->Ok_0, ForgeReply::Text(told), self.forge));
        match told {
            Ok(v) => Ok(WriteAck { ok: true, detail: v }),
            Err(e) => Err(to_status(e)),
        }
    }

    fn comment(&mut self, request: ForgeCommentRequest) -> (r: Result<WriteAck, Status>) {
        let repo = match request.repo {
            Some(repo) => repo,
            None => {
                return Err(Status::new(Code::InvalidArgument, "repo is required"));
            },
        };
        let ghost before = self.forge;
        let told = self.forge.comment(&repo, request.number, request.body.as_str());
        let ghost call = ServiceCall::Comment {
            repo: request.repo,
            number: request.number,
            body: request.body@,
        };
        assert(F::answers(before, call_of(call)->Ok_0, ForgeReply::Text(told), self.forge));
        match told {
            Ok(v) => Ok(WriteAck { ok: true, detail: v }),
            Err(e) => Err(to_status(e)),
        }
    }

    fn set_deployment(
        &mut self,
        request: ForgeSetDeploymentRequest,
    ) -> (r: Result<WriteAck, Status>) {
        let repo = match request.repo {
            Some(repo) => repo,
            None => {
                return Err(Status::new(Code::InvalidArgument, "repo is required"));
            },
        };
        let ghost before = self.forge;
        let told = self.forge.set_deployment(
            &repo,
            request.head_sha.as_str(),
            request.git_ref.as_str(),
            request.environment.as_str(),
            request.state.as_str(),
            request.url.as_str(),
            request.log_url.as_str(),
            request.description.as_str(),
        );
        let ghost call = ServiceCall::SetDeployment {
            repo: request.repo,
            head_sha: request.head_sha@,
            git_ref: request.git_ref@,
            environment: request.environment@,
            state: request.state@,
            url: request.url@,
            log_url: request.log_url@,
            description: request.description@,
        };
        assert(F::answers(before, call_of(call)->Ok_0, ForgeReply::Text(told), self.forge));
        match told {
            Ok(v) => Ok(WriteAck { ok: true, detail: v }),
            Err(e) => Err(to_status(e)),
        }
    }

    fn list_repos(
        &mut self,
        request: ListForgeReposRequest,
    ) -> (r: Result<ListReposResponse, Status>) {
        let _repo = match request.repo {
            Some(repo) => repo,
            None => {
                return Err(Status::new(Code::InvalidArgument, "repo is required"));
            },
        };
        let ghost before = self.forge;
        let capabilities = self.forge.capabilities();
        let ghost asked = self.forge;
        assert(F::answers(
            before,
            ForgeCall::Capabilities,
            ForgeReply::Capabilities(capabilities),
            asked,
        ));
        let declared = match capabilities {
            Ok(c) => c.repos,
            Err(e) => {
                return Err(to_status(e));
            },
        };
        if let Err(status) = require_capability(self.forge.kind(), "repos", declared) {
            return Err(status);
        }
        let told = self.forge.list_repos(request.owners.as_slice(), request.labels.as_slice());
        let ghost call = ServiceCall::ListRepos {
            repo: request.repo,
            owners: texts(request.owners@),
            labels: texts(request.labels@),
        };
        assert(F::answers(asked, call_of(call)->Ok_0, ForgeReply::Repos(told), self.forge));
        match told {
            Ok(v) => Ok(ListReposResponse { repos: v }),
            Err(e) => Err(to_status(e)),
        }
    }

    fn list_issues(
        &mut self,
        request: ListForgeIssuesRequest,
    ) -> (r: Result<ListIssuesResponse, Status>) {
        let _repo = match request.repo {
            Some(repo) => repo,
            None => {
                return Err(Status::new(Code::InvalidArgument, "repo is required"));
            },
        };
        let ghost before = self.forge;
        let capabilities = self.forge.capabilities();
        let ghost asked = self.forge;
        assert(F::answers(
            before,
            ForgeCall::Capabilities,
            ForgeReply::Capabilities(capabilities),
            asked,
        ));
        let declared = match capabilities {
            Ok(c) => c.issues,
            Err(e) => {
                return Err(to_status(e));
            },
        };
        if let Err(status) = require_capability(self.forge.kind(), "issues", declared) {
            return Err(status);
        }
        let told = self.forge.list_issues(
            request.owners.as_slice(),
            request.labels.as_slice(),
            request.for_users.as_slice(),
        );
        let ghost call = ServiceCall::ListIssues {
            repo: request.repo,
            owners: texts(request.owners@),
            labels: texts(request.labels@),
            for_users: texts(request.for_users@),
        };
        assert(F::answers(asked, call_of(call)->Ok_0, ForgeReply::Issues(told), self.forge));
        match told {
            Ok(v) => Ok(ListIssuesResponse { issues: v }),
            Err(e) => Err(to_status(e)),
        }
    }

    fn list_pull_requests(
        &mut self,
        request: ListForgePullRequestsRequest,
    ) -> (r: Result<ListPullRequestsResponse, Status>) {
        let _repo = match request.repo {
            Some(repo) => repo,
            None => {
                return Err(Status::new(Code::InvalidArgument, "repo is required"));
            },
        };
        let ghost before = self.forge;
        let capabilities = self.forge.capabilities();
        let ghost asked = self.forge;
        assert(F::answers(
            before,
            ForgeCall::Capabilities,
            ForgeReply::Capabilities(capabilities),
            asked,
        ));
        let declared = match capabilities {
            Ok(c) => c.pull_requests,
            Err(e) => {
                return Err(to_status(e));
            },
        };
        if let Err(status) = require_capability(self.forge.kind(), "pull_requests", declared) {
            return Err(status);
        }
        let told = self.forge.list_pull_requests(
            request.owners.as_slice(),
            request.labels.as_slice(),
            request.for_users.as_slice(),
        );
        let ghost call = ServiceCall::ListPullRequests {
            repo: request.repo,
            owners: texts(request.owners@),
            labels: texts(request.labels@),
            for_users: texts(request.for_users@),
        };
        assert(F::answers(asked, call_of(call)->Ok_0, ForgeReply::PullRequests(told), self.forge));
        match told {
            Ok(v) => Ok(ListPullRequestsResponse { prs: v }),
            Err(e) => Err(to_status(e)),
        }
    }
}

/// A discovery call whose surface the adapter does not declare is answered as lacking it,
/// a failed precondition, and the adapter was asked for its capabilities alone.
pub proof fn an_undeclared_surface_is_not_attempted<F: Forge>(
    pre: ServedForge<F>,
    call: ServiceCall,
    reply: ServiceReply,
    post: ServedForge<F>,
)
    requires
        ServedForge::<F>::serves(pre, call, reply, post),
        call_of(call) is Ok,
        surface(call) is Some,
        forall|told: ForgeReply, asked: F| #[trigger]
            F::answers(pre.forge, ForgeCall::Capabilities, told, asked) ==> (
            told@ matches ReplyView::Capabilities(Ok(c)) && !declares(c, call)),
    ensures
        exists|told: ForgeReply| #[trigger]
            F::answers(pre.forge, ForgeCall::Capabilities, told, post.forge),
        reply == failure_of(call, lacking(post.forge.target(), surface(call)->0)),
        lacking(post.forge.target(), surface(call)->0).code == Code::FailedPrecondition,
{
}

} // verus!
