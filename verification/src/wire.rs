//! The forge service: the forge contract as requests and responses.

use crate::forge::ForgeCall;
use crate::messages::{
    seen, texts, trigger_views, ChangeRef, ChangeRefView, FileBlob, FileBlobView, ForgeCapabilities,
    Issue, PullRequest, RepoRef, Repository, Trigger, TriggerView,
};
use crate::status::{outcome, Code, Status, StatusView};
use vstd::prelude::*;

verus! {

/// Asks for `get_default_branch`.
pub struct GetDefaultBranchRequest {
    pub repo: Option<RepoRef>,
}

/// Asks for `read_file`.
pub struct ReadFileRequest {
    pub repo: Option<RepoRef>,
    pub path: String,
    pub at: String,
}

/// Asks for `create_branch`.
pub struct CreateBranchRequest {
    pub repo: Option<RepoRef>,
    pub name: String,
    pub from_sha: String,
}

/// Asks for `commit_file`.
pub struct CommitFileRequest {
    pub repo: Option<RepoRef>,
    pub branch: String,
    pub path: String,
    pub content: String,
    pub blob_sha: String,
    pub message: String,
}

/// Asks for `open_change`.
pub struct OpenChangeRequest {
    pub repo: Option<RepoRef>,
    pub head: String,
    pub base: String,
    pub title: String,
    pub body: String,
    pub remove_source_branch: bool,
}

/// Asks for `enable_auto_merge`.
pub struct EnableAutoMergeRequest {
    pub repo: Option<RepoRef>,
    pub change: Option<ChangeRef>,
}

/// Asks for `pipeline_status`.
pub struct PipelineStatusRequest {
    pub repo: Option<RepoRef>,
    pub change: Option<ChangeRef>,
}

/// Asks for `merge`.
pub struct MergeRequest {
    pub repo: Option<RepoRef>,
    pub change: Option<ChangeRef>,
}

/// Asks for `get_change_state`.
pub struct GetChangeStateRequest {
    pub repo: Option<RepoRef>,
    pub change: Option<ChangeRef>,
}

/// Asks for `list_triggers`.
pub struct ListTriggersRequest {
    pub repo: Option<RepoRef>,
}

/// Asks for `ensure_trigger`.
pub struct EnsureTriggerRequest {
    pub repo: Option<RepoRef>,
    pub url: String,
    pub events: Vec<String>,
    pub secret: String,
}

/// Asks for `get_capabilities`.
pub struct GetCapabilitiesRequest {
    pub repo: Option<RepoRef>,
}

/// Asks for `set_check`.
pub struct ForgeSetCheckRequest {
    pub repo: Option<RepoRef>,
    pub head_sha: String,
    pub name: String,
    pub status: String,
    pub conclusion: String,
    pub details_url: String,
}

/// Asks for `comment`.
pub struct ForgeCommentRequest {
    pub repo: Option<RepoRef>,
    pub number: u64,
    pub body: String,
}

/// Asks for `set_deployment`.
pub struct ForgeSetDeploymentRequest {
    pub repo: Option<RepoRef>,
    pub head_sha: String,
    pub git_ref: String,
    pub environment: String,
    pub state: String,
    pub url: String,
    pub log_url: String,
    pub description: String,
}

/// Asks for `list_repos`.
pub struct ListForgeReposRequest {
    pub repo: Option<RepoRef>,
    pub owners: Vec<String>,
    pub labels: Vec<String>,
}

/// Asks for `list_issues`.
pub struct ListForgeIssuesRequest {
    pub repo: Option<RepoRef>,
    pub owners: Vec<String>,
    pub labels: Vec<String>,
    pub for_users: Vec<String>,
}

/// Asks for `list_pull_requests`.
pub struct ListForgePullRequestsRequest {
    pub repo: Option<RepoRef>,
    pub owners: Vec<String>,
    pub labels: Vec<String>,
    pub for_users: Vec<String>,
}

/// Answers `get_default_branch`.
pub struct GetDefaultBranchResponse {
    pub branch: String,
}

/// [`GetDefaultBranchResponse`] by its characters.
pub struct GetDefaultBranchResponseView {
    pub branch: Seq<char>,
}

impl View for GetDefaultBranchResponse {
    type V = GetDefaultBranchResponseView;

    open spec fn view(&self) -> GetDefaultBranchResponseView {
        GetDefaultBranchResponseView {
            branch: self.branch@,
        }
    }
}

/// Answers `read_file`.
pub struct ReadFileResponse {
    pub found: bool,
    pub blob: Option<FileBlob>,
}

/// [`ReadFileResponse`] by its characters.
pub struct ReadFileResponseView {
    pub found: bool,
    pub blob: Option<FileBlobView>,
}

impl View for ReadFileResponse {
    type V = ReadFileResponseView;

    open spec fn view(&self) -> ReadFileResponseView {
        ReadFileResponseView {
            found: self.found,
            blob: seen(self.blob),
        }
    }
}

/// Answers `create_branch`.
pub struct CreateBranchResponse {
    pub created: bool,
    pub already_existed: bool,
}

/// [`CreateBranchResponse`] by its characters.
pub struct CreateBranchResponseView {
    pub created: bool,
    pub already_existed: bool,
}

impl View for CreateBranchResponse {
    type V = CreateBranchResponseView;

    open spec fn view(&self) -> CreateBranchResponseView {
        CreateBranchResponseView {
            created: self.created,
            already_existed: self.already_existed,
        }
    }
}

/// Answers `commit_file`.
pub struct CommitFileResponse {
    pub commit_sha: String,
}

/// [`CommitFileResponse`] by its characters.
pub struct CommitFileResponseView {
    pub commit_sha: Seq<char>,
}

impl View for CommitFileResponse {
    type V = CommitFileResponseView;

    open spec fn view(&self) -> CommitFileResponseView {
        CommitFileResponseView {
            commit_sha: self.commit_sha@,
        }
    }
}

/// Answers `open_change`.
pub struct OpenChangeResponse {
    pub change: Option<ChangeRef>,
    pub already_existed: bool,
}

/// [`OpenChangeResponse`] by its characters.
pub struct OpenChangeResponseView {
    pub change: Option<ChangeRefView>,
    pub already_existed: bool,
}

impl View for OpenChangeResponse {
    type V = OpenChangeResponseView;

    open spec fn view(&self) -> OpenChangeResponseView {
        OpenChangeResponseView {
            change: seen(self.change),
            already_existed: self.already_existed,
        }
    }
}

/// Answers `enable_auto_merge`.
pub struct EnableAutoMergeResponse {
    pub enabled: bool,
}

/// [`EnableAutoMergeResponse`] by its characters.
pub struct EnableAutoMergeResponseView {
    pub enabled: bool,
}

impl View for EnableAutoMergeResponse {
    type V = EnableAutoMergeResponseView;

    open spec fn view(&self) -> EnableAutoMergeResponseView {
        EnableAutoMergeResponseView {
            enabled: self.enabled,
        }
    }
}

/// Answers `pipeline_status`.
pub struct PipelineStatusResponse {
    pub status: i32,
    pub pipeline_id: String,
    pub pipeline_url: String,
}

/// [`PipelineStatusResponse`] by its characters.
pub struct PipelineStatusResponseView {
    pub status: i32,
    pub pipeline_id: Seq<char>,
    pub pipeline_url: Seq<char>,
}

impl View for PipelineStatusResponse {
    type V = PipelineStatusResponseView;

    open spec fn view(&self) -> PipelineStatusResponseView {
        PipelineStatusResponseView {
            status: self.status,
            pipeline_id: self.pipeline_id@,
            pipeline_url: self.pipeline_url@,
        }
    }
}

/// Answers `merge`.
pub struct MergeResponse {
    pub merge_commit_sha: String,
}

/// [`MergeResponse`] by its characters.
pub struct MergeResponseView {
    pub merge_commit_sha: Seq<char>,
}

impl View for MergeResponse {
    type V = MergeResponseView;

    open spec fn view(&self) -> MergeResponseView {
        MergeResponseView {
            merge_commit_sha: self.merge_commit_sha@,
        }
    }
}

/// Answers `get_change_state`.
pub struct GetChangeStateResponse {
    pub state: i32,
    pub merge_commit_sha: String,
}

/// [`GetChangeStateResponse`] by its characters.
pub struct GetChangeStateResponseView {
    pub state: i32,
    pub merge_commit_sha: Seq<char>,
}

impl View for GetChangeStateResponse {
    type V = GetChangeStateResponseView;

    open spec fn view(&self) -> GetChangeStateResponseView {
        GetChangeStateResponseView {
            state: self.state,
            merge_commit_sha: self.merge_commit_sha@,
        }
    }
}

/// Answers `list_triggers`.
pub struct ListTriggersResponse {
    pub triggers: Vec<Trigger>,
}

/// [`ListTriggersResponse`] by its characters.
pub struct ListTriggersResponseView {
    pub triggers: Seq<TriggerView>,
}

impl View for ListTriggersResponse {
    type V = ListTriggersResponseView;

    open spec fn view(&self) -> ListTriggersResponseView {
        ListTriggersResponseView {
            triggers: trigger_views(self.triggers@),
        }
    }
}

/// Answers `ensure_trigger`.
pub struct EnsureTriggerResponse {
    pub trigger: Option<Trigger>,
    pub created: bool,
}

/// [`EnsureTriggerResponse`] by its characters.
pub struct EnsureTriggerResponseView {
    pub trigger: Option<TriggerView>,
    pub created: bool,
}

impl View for EnsureTriggerResponse {
    type V = EnsureTriggerResponseView;

    open spec fn view(&self) -> EnsureTriggerResponseView {
        EnsureTriggerResponseView {
            trigger: seen(self.trigger),
            created: self.created,
        }
    }
}

/// Answers `get_capabilities`.
pub struct GetCapabilitiesResponse {
    pub capabilities: Option<ForgeCapabilities>,
}

/// [`GetCapabilitiesResponse`] by its characters.
pub struct GetCapabilitiesResponseView {
    pub capabilities: Option<ForgeCapabilities>,
}

impl View for GetCapabilitiesResponse {
    type V = GetCapabilitiesResponseView;

    open spec fn view(&self) -> GetCapabilitiesResponseView {
        GetCapabilitiesResponseView {
            capabilities: seen(self.capabilities),
        }
    }
}

/// Answers `list_repos`.
pub struct ListReposResponse {
    pub repos: Vec<Repository>,
}

/// [`ListReposResponse`] by its characters.
pub struct ListReposResponseView {
    pub repos: Seq<Repository>,
}

impl View for ListReposResponse {
    type V = ListReposResponseView;

    open spec fn view(&self) -> ListReposResponseView {
        ListReposResponseView {
            repos: self.repos@,
        }
    }
}

/// Answers `list_issues`.
pub struct ListIssuesResponse {
    pub issues: Vec<Issue>,
}

/// [`ListIssuesResponse`] by its characters.
pub struct ListIssuesResponseView {
    pub issues: Seq<Issue>,
}

impl View for ListIssuesResponse {
    type V = ListIssuesResponseView;

    open spec fn view(&self) -> ListIssuesResponseView {
        ListIssuesResponseView {
            issues: self.issues@,
        }
    }
}

/// Answers `list_pull_requests`.
pub struct ListPullRequestsResponse {
    pub prs: Vec<PullRequest>,
}

/// [`ListPullRequestsResponse`] by its characters.
pub struct ListPullRequestsResponseView {
    pub prs: Seq<PullRequest>,
}

impl View for ListPullRequestsResponse {
    type V = ListPullRequestsResponseView;

    open spec fn view(&self) -> ListPullRequestsResponseView {
        ListPullRequestsResponseView {
            prs: self.prs@,
        }
    }
}

/// Answers a write-back.
pub struct WriteAck {
    pub ok: bool,
    pub detail: String,
}

/// [`WriteAck`] by its characters.
pub struct WriteAckView {
    pub ok: bool,
    pub detail: Seq<char>,
}

impl View for WriteAck {
    type V = WriteAckView;

    open spec fn view(&self) -> WriteAckView {
        WriteAckView {
            ok: self.ok,
            detail: self.detail@,
        }
    }
}

/// A call on a forge service, with what the request holds.
pub enum ServiceCall {
    DefaultBranch { repo: Option<RepoRef> },
    ReadFile { repo: Option<RepoRef>, path: Seq<char>, at: Seq<char> },
    CreateBranch { repo: Option<RepoRef>, name: Seq<char>, from_sha: Seq<char> },
    CommitFile {
        repo: Option<RepoRef>,
        branch: Seq<char>,
        path: Seq<char>,
        content: Seq<char>,
        blob_sha: Seq<char>,
        message: Seq<char>,
    },
    OpenChange {
        repo: Option<RepoRef>,
        head: Seq<char>,
        base: Seq<char>,
        title: Seq<char>,
        body: Seq<char>,
        remove_source_branch: bool,
    },
    EnableAutoMerge { repo: Option<RepoRef>, change: Option<ChangeRef> },
    PipelineStatus { repo: Option<RepoRef>, change: Option<ChangeRef> },
    Merge { repo: Option<RepoRef>, change: Option<ChangeRef> },
    ChangeState { repo: Option<RepoRef>, change: Option<ChangeRef> },
    ListTriggers { repo: Option<RepoRef> },
    EnsureTrigger {
        repo: Option<RepoRef>,
        url: Seq<char>,
        events: Seq<Seq<char>>,
        secret: Seq<char>,
    },
    Capabilities { repo: Option<RepoRef> },
    SetCheck {
        repo: Option<RepoRef>,
        head_sha: Seq<char>,
        name: Seq<char>,
        status: Seq<char>,
        conclusion: Seq<char>,
        details_url: Seq<char>,
    },
    Comment { repo: Option<RepoRef>, number: u64, body: Seq<char> },
    SetDeployment {
        repo: Option<RepoRef>,
        head_sha: Seq<char>,
        git_ref: Seq<char>,
        environment: Seq<char>,
        state: Seq<char>,
        url: Seq<char>,
        log_url: Seq<char>,
        description: Seq<char>,
    },
    ListRepos { repo: Option<RepoRef>, owners: Seq<Seq<char>>, labels: Seq<Seq<char>> },
    ListIssues {
        repo: Option<RepoRef>,
        owners: Seq<Seq<char>>,
        labels: Seq<Seq<char>>,
        for_users: Seq<Seq<char>>,
    },
    ListPullRequests {
        repo: Option<RepoRef>,
        owners: Seq<Seq<char>>,
        labels: Seq<Seq<char>>,
        for_users: Seq<Seq<char>>,
    },
}

/// What a forge service replied.
pub enum ServiceReply {
    DefaultBranch(Result<GetDefaultBranchResponseView, StatusView>),
    ReadFile(Result<ReadFileResponseView, StatusView>),
    CreateBranch(Result<CreateBranchResponseView, StatusView>),
    CommitFile(Result<CommitFileResponseView, StatusView>),
    OpenChange(Result<OpenChangeResponseView, StatusView>),
    EnableAutoMerge(Result<EnableAutoMergeResponseView, StatusView>),
    PipelineStatus(Result<PipelineStatusResponseView, StatusView>),
    Merge(Result<MergeResponseView, StatusView>),
    ChangeState(Result<GetChangeStateResponseView, StatusView>),
    ListTriggers(Result<ListTriggersResponseView, StatusView>),
    EnsureTrigger(Result<EnsureTriggerResponseView, StatusView>),
    Capabilities(Result<GetCapabilitiesResponseView, StatusView>),
    SetCheck(Result<WriteAckView, StatusView>),
    Comment(Result<WriteAckView, StatusView>),
    SetDeployment(Result<WriteAckView, StatusView>),
    ListRepos(Result<ListReposResponseView, StatusView>),
    ListIssues(Result<ListIssuesResponseView, StatusView>),
    ListPullRequests(Result<ListPullRequestsResponseView, StatusView>),
}

/// The reply is of the kind that the call has.
pub open spec fn replies(call: ServiceCall, reply: ServiceReply) -> bool {
    match call {
        ServiceCall::DefaultBranch { .. } => reply is DefaultBranch,
        ServiceCall::ReadFile { .. } => reply is ReadFile,
        ServiceCall::CreateBranch { .. } => reply is CreateBranch,
        ServiceCall::CommitFile { .. } => reply is CommitFile,
        ServiceCall::OpenChange { .. } => reply is OpenChange,
        ServiceCall::EnableAutoMerge { .. } => reply is EnableAutoMerge,
        ServiceCall::PipelineStatus { .. } => reply is PipelineStatus,
        ServiceCall::Merge { .. } => reply is Merge,
        ServiceCall::ChangeState { .. } => reply is ChangeState,
        ServiceCall::ListTriggers { .. } => reply is ListTriggers,
        ServiceCall::EnsureTrigger { .. } => reply is EnsureTrigger,
        ServiceCall::Capabilities { .. } => reply is Capabilities,
        ServiceCall::SetCheck { .. } => reply is SetCheck,
        ServiceCall::Comment { .. } => reply is Comment,
        ServiceCall::SetDeployment { .. } => reply is SetDeployment,
        ServiceCall::ListRepos { .. } => reply is ListRepos,
        ServiceCall::ListIssues { .. } => reply is ListIssues,
        ServiceCall::ListPullRequests { .. } => reply is ListPullRequests,
    }
}

pub open spec fn invalid(message: Seq<char>) -> StatusView {
    StatusView { code: Code::InvalidArgument, message }
}

/// The call on a forge that a request asks for; a request without its repository or its
/// change asks for none.
pub open spec fn call_of(call: ServiceCall) -> Result<ForgeCall, StatusView> {
    match call {
        ServiceCall::DefaultBranch { repo } => match repo {
            None => Err(invalid("repo is required"@)),
            Some(repo) => Ok(ForgeCall::DefaultBranch { repo }),
        },
        ServiceCall::ReadFile { repo, path, at } => match repo {
            None => Err(invalid("repo is required"@)),
            Some(repo) => Ok(ForgeCall::ReadFile { repo, path, at }),
        },
        ServiceCall::CreateBranch { repo, name, from_sha } => match repo {
            None => Err(invalid("repo is required"@)),
            Some(repo) => Ok(ForgeCall::CreateBranch { repo, name, from_ref: from_sha }),
        },
        ServiceCall::CommitFile { repo, branch, path, content, blob_sha, message } => match repo {
            None => Err(invalid("repo is required"@)),
            Some(repo) => Ok(
                ForgeCall::CommitFile { repo, branch, path, content, blob_sha, message },
            ),
        },
        ServiceCall::OpenChange {
            repo,
            head,
            base,
            title,
            body,
            remove_source_branch,
        } => match repo {
            None => Err(invalid("repo is required"@)),
            Some(repo) => Ok(
                ForgeCall::OpenChange { repo, head, base, title, body, remove_source_branch },
            ),
        },
        ServiceCall::EnableAutoMerge { repo, change } => match (repo, change) {
            (None, _) => Err(invalid("repo is required"@)),
            (_, None) => Err(invalid("change is required"@)),
            (Some(repo), Some(change)) => Ok(ForgeCall::EnableAutoMerge { repo, change }),
        },
        ServiceCall::PipelineStatus { repo, change } => match (repo, change) {
            (None, _) => Err(invalid("repo is required"@)),
            (_, None) => Err(invalid("change is required"@)),
            (Some(repo), Some(change)) => Ok(ForgeCall::PipelineStatus { repo, change }),
        },
        ServiceCall::Merge { repo, change } => match (repo, change) {
            (None, _) => Err(invalid("repo is required"@)),
            (_, None) => Err(invalid("change is required"@)),
            (Some(repo), Some(change)) => Ok(ForgeCall::Merge { repo, change }),
        },
        ServiceCall::ChangeState { repo, change } => match (repo, change) {
            (None, _) => Err(invalid("repo is required"@)),
            (_, None) => Err(invalid("change is required"@)),
            (Some(repo), Some(change)) => Ok(ForgeCall::ChangeState { repo, change }),
        },
        ServiceCall::ListTriggers { repo } => match repo {
            None => Err(invalid("repo is required"@)),
            Some(repo) => Ok(ForgeCall::ListTriggers { repo }),
        },
        ServiceCall::EnsureTrigger { repo, url, events, secret } => match repo {
            None => Err(invalid("repo is required"@)),
            Some(repo) => Ok(ForgeCall::EnsureTrigger { repo, url, events, secret }),
        },
        ServiceCall::Capabilities { repo } => match repo {
            None => Err(invalid("repo is required"@)),
            Some(_) => Ok(ForgeCall::Capabilities),
        },
        ServiceCall::SetCheck {
            repo,
            head_sha,
            name,
            status,
            conclusion,
            details_url,
        } => match repo {
            None => Err(invalid("repo is required"@)),
            Some(repo) => Ok(
                ForgeCall::SetCheck { repo, head_sha, name, status, conclusion, details_url },
            ),
        },
        ServiceCall::Comment { repo, number, body } => match repo {
            None => Err(invalid("repo is required"@)),
            Some(repo) => Ok(ForgeCall::Comment { repo, number, body }),
        },
        ServiceCall::SetDeployment {
            repo,
            head_sha,
            git_ref,
            environment,
            state,
            url,
            log_url,
            description,
        } => match repo {
            None => Err(invalid("repo is required"@)),
            Some(repo) => Ok(
                ForgeCall::SetDeployment {
                    repo,
                    head_sha,
                    git_ref,
                    environment,
                    state,
                    url,
                    log_url,
                    description,
                },
            ),
        },
        ServiceCall::ListRepos { repo, owners, labels } => match repo {
            None => Err(invalid("repo is required"@)),
            Some(_) => Ok(ForgeCall::ListRepos { owners, labels }),
        },
        ServiceCall::ListIssues { repo, owners, labels, for_users } => match repo {
            None => Err(invalid("repo is required"@)),
            Some(_) => Ok(ForgeCall::ListIssues { owners, labels, for_users }),
        },
        ServiceCall::ListPullRequests { repo, owners, labels, for_users } => match repo {
            None => Err(invalid("repo is required"@)),
            Some(_) => Ok(ForgeCall::ListPullRequests { owners, labels, for_users }),
        },
    }
}

/// A server of the forge contract.
pub trait ForgeService: Sized {
    /// What the server keeps true of itself between calls.
    spec fn wf(&self) -> bool;

    /// The server may reply to the call in this way, and is then in this state.
    spec fn serves(pre: Self, call: ServiceCall, reply: ServiceReply, post: Self) -> bool;

    fn get_default_branch(
        &mut self,
        request: GetDefaultBranchRequest,
    ) -> (r: Result<GetDefaultBranchResponse, Status>)
        requires
            old(self).wf(),
        ensures
            final(self).wf(),
            Self::serves(
                *old(self),
                ServiceCall::DefaultBranch { repo: request.repo },
                ServiceReply::DefaultBranch(outcome(r)),
                *final(self),
            ),
    ;

    fn read_file(&mut self, request: ReadFileRequest) -> (r: Result<ReadFileResponse, Status>)
        requires
            old(self).wf(),
        ensures
            final(self).wf(),
            Self::serves(
                *old(self),
                ServiceCall::ReadFile { repo: request.repo, path: request.path@, at: request.at@ },
                ServiceReply::ReadFile(outcome(r)),
                *final(self),
            ),
    ;

    fn create_branch(
        &mut self,
        request: CreateBranchRequest,
    ) -> (r: Result<CreateBranchResponse, Status>)
        requires
            old(self).wf(),
        ensures
            final(self).wf(),
            Self::serves(
                *old(self),
                ServiceCall::CreateBranch {
                    repo: request.repo,
                    name: request.name@,
                    from_sha: request.from_sha@,
                },
                ServiceReply::CreateBranch(outcome(r)),
                *final(self),
            ),
    ;

    fn commit_file(&mut self, request: CommitFileRequest) -> (r: Result<CommitFileResponse, Status>)
        requires
            old(self).wf(),
        ensures
            final(self).wf(),
            Self::serves(
                *old(self),
                ServiceCall::CommitFile {
                    repo: request.repo,
                    branch: request.branch@,
                    path: request.path@,
                    content: request.content@,
                    blob_sha: request.blob_sha@,
                    message: request.message@,
                },
                ServiceReply::CommitFile(outcome(r)),
                *final(self),
            ),
    ;

    fn open_change(&mut self, request: OpenChangeRequest) -> (r: Result<OpenChangeResponse, Status>)
        requires
            old(self).wf(),
        ensures
            final(self).wf(),
            Self::serves(
                *old(self),
                ServiceCall::OpenChange {
                    repo: request.repo,
                    head: request.head@,
                    base: request.base@,
                    title: request.title@,
                    body: request.body@,
                    remove_source_branch: request.remove_source_branch,
                },
                ServiceReply::OpenChange(outcome(r)),
                *final(self),
            ),
    ;

    fn enable_auto_merge(
        &mut self,
        request: EnableAutoMergeRequest,
    ) -> (r: Result<EnableAutoMergeResponse, Status>)
        requires
            old(self).wf(),
        ensures
            final(self).wf(),
            Self::serves(
                *old(self),
                ServiceCall::EnableAutoMerge { repo: request.repo, change: request.change },
                ServiceReply::EnableAutoMerge(outcome(r)),
                *final(self),
            ),
    ;

    fn pipeline_status(
        &mut self,
        request: PipelineStatusRequest,
    ) -> (r: Result<PipelineStatusResponse, Status>)
        requires
            old(self).wf(),
        ensures
            final(self).wf(),
            Self::serves(
                *old(self),
                ServiceCall::PipelineStatus { repo: request.repo, change: request.change },
                ServiceReply::PipelineStatus(outcome(r)),
                *final(self),
            ),
    ;

    fn merge(&mut self, request: MergeRequest) -> (r: Result<MergeResponse, Status>)
        requires
            old(self).wf(),
        ensures
            final(self).wf(),
            Self::serves(
                *old(self),
                ServiceCall::Merge { repo: request.repo, change: request.change },
                ServiceReply::Merge(outcome(r)),
                *final(self),
            ),
    ;

    fn get_change_state(
        &mut self,
        request: GetChangeStateRequest,
    ) -> (r: Result<GetChangeStateResponse, Status>)
        requires
            old(self).wf(),
        ensures
            final(self).wf(),
            Self::serves(
                *old(self),
                ServiceCall::ChangeState { repo: request.repo, change: request.change },
                ServiceReply::ChangeState(outcome(r)),
                *final(self),
            ),
    ;

    fn list_triggers(
        &mut self,
        request: ListTriggersRequest,
    ) -> (r: Result<ListTriggersResponse, Status>)
        requires
            old(self).wf(),
        ensures
            final(self).wf(),
            Self::serves(
                *old(self),
                ServiceCall::ListTriggers { repo: request.repo },
                ServiceReply::ListTriggers(outcome(r)),
                *final(self),
            ),
    ;

    fn ensure_trigger(
        &mut self,
        request: EnsureTriggerRequest,
    ) -> (r: Result<EnsureTriggerResponse, Status>)
        requires
            old(self).wf(),
        ensures
            final(self).wf(),
            Self::serves(
                *old(self),
                ServiceCall::EnsureTrigger {
                    repo: request.repo,
                    url: request.url@,
                    events: texts(request.events@),
                    secret: request.secret@,
                },
                ServiceReply::EnsureTrigger(outcome(r)),
                *final(self),
            ),
    ;

    fn get_capabilities(
        &mut self,
        request: GetCapabilitiesRequest,
    ) -> (r: Result<GetCapabilitiesResponse, Status>)
        requires
            old(self).wf(),
        ensures
            final(self).wf(),
            Self::serves(
                *old(self),
                ServiceCall::Capabilities { repo: request.repo },
                ServiceReply::Capabilities(outcome(r)),
                *final(self),
            ),
    ;

    fn set_check(&mut self, request: ForgeSetCheckRequest) -> (r: Result<WriteAck, Status>)
        requires
            old(self).wf(),
        ensures
            final(self).wf(),
            Self::serves(
                *old(self),
                ServiceCall::SetCheck {
                    repo: request.repo,
                    head_sha: request.head_sha@,
                    name: request.name@,
                    status: request.status@,
                    conclusion: request.conclusion@,
                    details_url: request.details_url@,
                },
                ServiceReply::SetCheck(outcome(r)),
                *final(self),
            ),
    ;

    fn comment(&mut self, request: ForgeCommentRequest) -> (r: Result<WriteAck, Status>)
        requires
            old(self).wf(),
        ensures
            final(self).wf(),
            Self::serves(
                *old(self),
                ServiceCall::Comment {
                    repo: request.repo,
                    number: request.number,
                    body: request.body@,
                },
                ServiceReply::Comment(outcome(r)),
                *final(self),
            ),
    ;

    fn set_deployment(
        &mut self,
        request: ForgeSetDeploymentRequest,
    ) -> (r: Result<WriteAck, Status>)
        requires
            old(self).wf(),
        ensures
            final(self).wf(),
            Self::serves(
                *old(self),
                ServiceCall::SetDeployment {
                    repo: request.repo,
                    head_sha: request.head_sha@,
                    git_ref: request.git_ref@,
                    environment: request.environment@,
                    state: request.state@,
                    url: request.url@,
                    log_url: request.log_url@,
                    description: request.description@,
                },
                ServiceReply::SetDeployment(outcome(r)),
                *final(self),
            ),
    ;

    fn list_repos(
        &mut self,
        request: ListForgeReposRequest,
    ) -> (r: Result<ListReposResponse, Status>)
        requires
            old(self).wf(),
        ensures
            final(self).wf(),
            Self::serves(
                *old(self),
                ServiceCall::ListRepos {
                    repo: request.repo,
                    owners: texts(request.owners@),
                    labels: texts(request.labels@),
                },
                ServiceReply::ListRepos(outcome(r)),
                *final(self),
            ),
    ;

    fn list_issues(
        &mut self,
        request: ListForgeIssuesRequest,
    ) -> (r: Result<ListIssuesResponse, Status>)
        requires
            old(self).wf(),
        ensures
            final(self).wf(),
            Self::serves(
                *old(self),
                ServiceCall::ListIssues {
                    repo: request.repo,
                    owners: texts(request.owners@),
                    labels: texts(request.labels@),
                    for_users: texts(request.for_users@),
                },
                ServiceReply::ListIssues(outcome(r)),
                *final(self),
            ),
    ;

    fn list_pull_requests(
        &mut self,
        request: ListForgePullRequestsRequest,
    ) -> (r: Result<ListPullRequestsResponse, Status>)
        requires
            old(self).wf(),
        ensures
            final(self).wf(),
            Self::serves(
                *old(self),
                ServiceCall::ListPullRequests {
                    repo: request.repo,
                    owners: texts(request.owners@),
                    labels: texts(request.labels@),
                    for_users: texts(request.for_users@),
                },
                ServiceReply::ListPullRequests(outcome(r)),
                *final(self),
            ),
    ;
}

} // verus!
