//! The generic forge contract: the operations that a cross-repo cascade needs from a
//! code host.
//!
//! An adapter says what it does through [`Forge::answers`]: which replies a call may
//! have, and in which state it leaves the adapter. Code that drives an adapter is
//! verified against that relation, whatever it is.

use crate::messages::{
    texts, trigger_views, ChangeRef, ChangeRefView, ChangeState, CiStatus, FileBlob, FileBlobView,
    ForgeCapabilities, ForgeKind, Issue, PullRequest, RepoRef, RepoRefView, Repository, Trigger,
    TriggerView,
};
use vstd::prelude::*;

verus! {

/// A forge operation error: a message for humans.
#[derive(Debug)]
pub struct ForgeError {
    message: String,
}

impl View for ForgeError {
    type V = Seq<char>;

    closed spec fn view(&self) -> Seq<char> {
        self.message@
    }
}

impl ForgeError {
    /// An error with the given message.
    pub fn msg(m: &str) -> (r: Self)
        ensures
            r@ == m@,
    {
        ForgeError { message: m.to_owned() }
    }

    /// An error with the message that a caller built.
    pub fn from_text(m: String) -> (r: Self)
        ensures
            r@ == m@,
    {
        ForgeError { message: m }
    }

    /// An error whose cause is told after what was being done: `context: cause`.
    pub fn in_context(context: &str, cause: &str) -> (r: Self)
        ensures
            r@ == in_context(context@, cause@),
    {
        ForgeError { message: context.to_owned().concat(": ").concat(cause) }
    }

    /// The message.
    pub fn to_string(&self) -> (r: String)
        ensures
            r@ == self@,
    {
        self.message.clone()
    }
}

impl Clone for ForgeError {
    fn clone(&self) -> (r: Self)
        ensures
            r@ == self@,
            r == *self,
    {
        ForgeError { message: self.message.clone() }
    }
}

/// `context: cause`.
pub open spec fn in_context(context: Seq<char>, cause: Seq<char>) -> Seq<char> {
    context + ": "@ + cause
}

/// `Result` for [`Forge`] operations.
pub type ForgeResult<T> = Result<T, ForgeError>;

/// Outcome of [`Forge::create_branch`]: idempotent over an existing branch.
#[derive(Debug, Clone, Copy, PartialEq, Eq, Structural)]
pub struct BranchOutcome {
    pub created: bool,
    pub already_existed: bool,
}

impl View for BranchOutcome {
    type V = BranchOutcome;

    open spec fn view(&self) -> BranchOutcome {
        *self
    }
}

/// Outcome of [`Forge::open_change`]: idempotent over an existing open change.
#[derive(Debug)]
pub struct OpenedChange {
    pub change: ChangeRef,
    pub already_existed: bool,
}

/// An opened change by its characters.
pub struct OpenedChangeView {
    pub change: ChangeRefView,
    pub already_existed: bool,
}

impl View for OpenedChange {
    type V = OpenedChangeView;

    open spec fn view(&self) -> OpenedChangeView {
        OpenedChangeView { change: self.change@, already_existed: self.already_existed }
    }
}

/// A change's pipeline status and identity.
#[derive(Debug)]
pub struct PipelineStatus {
    pub status: CiStatus,
    pub pipeline_id: String,
    pub url: String,
}

/// A pipeline status by its characters.
pub struct PipelineStatusView {
    pub status: CiStatus,
    pub pipeline_id: Seq<char>,
    pub url: Seq<char>,
}

impl View for PipelineStatus {
    type V = PipelineStatusView;

    open spec fn view(&self) -> PipelineStatusView {
        PipelineStatusView {
            status: self.status,
            pipeline_id: self.pipeline_id@,
            url: self.url@,
        }
    }
}

/// Outcome of [`Forge::ensure_trigger`]: idempotent over an existing hook.
#[derive(Debug)]
pub struct EnsuredTrigger {
    pub trigger: Trigger,
    /// True if this call created the hook; false if it already existed.
    pub created: bool,
}

/// An ensured trigger by its characters.
pub struct EnsuredTriggerView {
    pub trigger: TriggerView,
    pub created: bool,
}

impl View for EnsuredTrigger {
    type V = EnsuredTriggerView;

    open spec fn view(&self) -> EnsuredTriggerView {
        EnsuredTriggerView { trigger: self.trigger@, created: self.created }
    }
}

/// `push` and `pull_request`.
pub open spec fn default_events() -> Seq<Seq<char>> {
    seq!["push"@, "pull_request"@]
}

/// The default inbound events a build trigger subscribes to.
#[must_use]
pub fn default_trigger_events() -> (r: Vec<String>)
    ensures
        texts(r@) == default_events(),
{
    let mut r: Vec<String> = Vec::new();
    r.push("push".to_owned());
    r.push("pull_request".to_owned());
    assert(texts(r@) =~= default_events());
    r
}

/// `owner/name`, or the bare name of a repository without an owner.
pub open spec fn slug(repo: RepoRefView) -> Seq<char> {
    if repo.owner.len() == 0 {
        repo.name
    } else {
        repo.owner + "/"@ + repo.name
    }
}

/// `owner/name` for a repo (owner may be a nested group path).
#[must_use]
pub fn repo_slug(repo: &RepoRef) -> (r: String)
    ensures
        r@ == slug(repo@),
{
    if repo.owner.as_str().is_empty() {
        repo.name.clone()
    } else {
        repo.owner.clone().concat("/").concat(repo.name.as_str())
    }
}

/// A call on a forge, with what was handed to it.
pub enum ForgeCall {
    DefaultBranch { repo: RepoRef },
    ReadFile { repo: RepoRef, path: Seq<char>, at: Seq<char> },
    CreateBranch { repo: RepoRef, name: Seq<char>, from_ref: Seq<char> },
    CommitFile {
        repo: RepoRef,
        branch: Seq<char>,
        path: Seq<char>,
        content: Seq<char>,
        blob_sha: Seq<char>,
        message: Seq<char>,
    },
    OpenChange {
        repo: RepoRef,
        head: Seq<char>,
        base: Seq<char>,
        title: Seq<char>,
        body: Seq<char>,
        remove_source_branch: bool,
    },
    EnableAutoMerge { repo: RepoRef, change: ChangeRef },
    PipelineStatus { repo: RepoRef, change: ChangeRef },
    Merge { repo: RepoRef, change: ChangeRef },
    ChangeState { repo: RepoRef, change: ChangeRef },
    ListTriggers { repo: RepoRef },
    EnsureTrigger { repo: RepoRef, url: Seq<char>, events: Seq<Seq<char>>, secret: Seq<char> },
    Capabilities,
    SetCheck {
        repo: RepoRef,
        head_sha: Seq<char>,
        name: Seq<char>,
        status: Seq<char>,
        conclusion: Seq<char>,
        details_url: Seq<char>,
    },
    Comment { repo: RepoRef, number: u64, body: Seq<char> },
    SetDeployment {
        repo: RepoRef,
        head_sha: Seq<char>,
        git_ref: Seq<char>,
        environment: Seq<char>,
        state: Seq<char>,
        url: Seq<char>,
        log_url: Seq<char>,
        description: Seq<char>,
    },
    ListRepos { owners: Seq<Seq<char>>, labels: Seq<Seq<char>> },
    ListIssues { owners: Seq<Seq<char>>, labels: Seq<Seq<char>>, for_users: Seq<Seq<char>> },
    ListPullRequests { owners: Seq<Seq<char>>, labels: Seq<Seq<char>>, for_users: Seq<Seq<char>> },
}

/// What a forge replied.
pub enum ForgeReply {
    Text(ForgeResult<String>),
    File(ForgeResult<Option<FileBlob>>),
    Branch(ForgeResult<BranchOutcome>),
    Change(ForgeResult<OpenedChange>),
    Flag(ForgeResult<bool>),
    Pipeline(ForgeResult<PipelineStatus>),
    State(ForgeResult<ChangeState>),
    Triggers(ForgeResult<Vec<Trigger>>),
    Ensured(ForgeResult<EnsuredTrigger>),
    Capabilities(ForgeResult<ForgeCapabilities>),
    Repos(ForgeResult<Vec<Repository>>),
    Issues(ForgeResult<Vec<Issue>>),
    PullRequests(ForgeResult<Vec<PullRequest>>),
}

/// What a forge replied, by its characters; an error is its message.
pub enum ReplyView {
    Text(Result<Seq<char>, Seq<char>>),
    File(Result<Option<FileBlobView>, Seq<char>>),
    Branch(Result<BranchOutcome, Seq<char>>),
    Change(Result<OpenedChangeView, Seq<char>>),
    Flag(Result<bool, Seq<char>>),
    Pipeline(Result<PipelineStatusView, Seq<char>>),
    State(Result<ChangeState, Seq<char>>),
    Triggers(Result<Seq<TriggerView>, Seq<char>>),
    Ensured(Result<EnsuredTriggerView, Seq<char>>),
    Capabilities(Result<ForgeCapabilities, Seq<char>>),
    Repos(Result<Seq<Repository>, Seq<char>>),
    Issues(Result<Seq<Issue>, Seq<char>>),
    PullRequests(Result<Seq<PullRequest>, Seq<char>>),
}

impl View for ForgeReply {
    type V = ReplyView;

    open spec fn view(&self) -> ReplyView {
        match *self {
            ForgeReply::Text(r) => ReplyView::Text(match r { Ok(v) => Ok(v@), Err(e) => Err(e@) }),
            ForgeReply::File(r) => ReplyView::File(
                match r {
                    Ok(v) => Ok(match v { Some(f) => Some(f@), None => None }),
                    Err(e) => Err(e@),
                },
            ),
            ForgeReply::Branch(r) => ReplyView::Branch(
                match r { Ok(v) => Ok(v@), Err(e) => Err(e@) },
            ),
            ForgeReply::Change(r) => ReplyView::Change(
                match r { Ok(v) => Ok(v@), Err(e) => Err(e@) },
            ),
            ForgeReply::Flag(r) => ReplyView::Flag(match r { Ok(v) => Ok(v), Err(e) => Err(e@) }),
            ForgeReply::Pipeline(r) => ReplyView::Pipeline(
                match r { Ok(v) => Ok(v@), Err(e) => Err(e@) },
            ),
            ForgeReply::State(r) => ReplyView::State(match r { Ok(v) => Ok(v), Err(e) => Err(e@) }),
            ForgeReply::Triggers(r) => ReplyView::Triggers(
                match r { Ok(v) => Ok(trigger_views(v@)), Err(e) => Err(e@) },
            ),
            ForgeReply::Ensured(r) => ReplyView::Ensured(
                match r { Ok(v) => Ok(v@), Err(e) => Err(e@) },
            ),
            ForgeReply::Capabilities(r) => ReplyView::Capabilities(
                match r { Ok(v) => Ok(v), Err(e) => Err(e@) },
            ),
            ForgeReply::Repos(r) => ReplyView::Repos(
                match r { Ok(v) => Ok(v@), Err(e) => Err(e@) },
            ),
            ForgeReply::Issues(r) => ReplyView::Issues(
                match r { Ok(v) => Ok(v@), Err(e) => Err(e@) },
            ),
            ForgeReply::PullRequests(r) => ReplyView::PullRequests(
                match r { Ok(v) => Ok(v@), Err(e) => Err(e@) },
            ),
        }
    }
}

/// The reply is of the kind that the call has.
pub open spec fn fits(call: ForgeCall, reply: ReplyView) -> bool {
    match call {
        ForgeCall::DefaultBranch { .. } => reply is Text,
        ForgeCall::ReadFile { .. } => reply is File,
        ForgeCall::CreateBranch { .. } => reply is Branch,
        ForgeCall::CommitFile { .. } => reply is Text,
        ForgeCall::OpenChange { .. } => reply is Change,
        ForgeCall::EnableAutoMerge { .. } => reply is Flag,
        ForgeCall::PipelineStatus { .. } => reply is Pipeline,
        ForgeCall::Merge { .. } => reply is Text,
        ForgeCall::ChangeState { .. } => reply is State,
        ForgeCall::ListTriggers { .. } => reply is Triggers,
        ForgeCall::EnsureTrigger { .. } => reply is Ensured,
        ForgeCall::Capabilities => reply is Capabilities,
        ForgeCall::SetCheck { .. } => reply is Text,
        ForgeCall::Comment { .. } => reply is Text,
        ForgeCall::SetDeployment { .. } => reply is Text,
        ForgeCall::ListRepos { .. } => reply is Repos,
        ForgeCall::ListIssues { .. } => reply is Issues,
        ForgeCall::ListPullRequests { .. } => reply is PullRequests,
    }
}

/// The message of a surface that an adapter does not serve.
pub open spec fn not_supported(op: Seq<char>) -> Seq<char> {
    op + " not supported by this forge adapter"@
}

/// The error of a surface that an adapter does not serve.
pub fn not_supported_error(op: &str) -> (r: ForgeError)
    ensures
        r@ == not_supported(op@),
{
    ForgeError::from_text(op.to_owned().concat(" not supported by this forge adapter"))
}

/// What an adapter replies to an optional call that it does not serve: an explicit
/// refusal that names the operation, and no optional capability declared. `None` for a
/// call that every adapter serves.
pub open spec fn default_reply(call: ForgeCall) -> Option<ReplyView> {
    match call {
        ForgeCall::ListTriggers { .. } => Some(
            ReplyView::Triggers(Err(not_supported("list_triggers"@))),
        ),
        ForgeCall::EnsureTrigger { .. } => Some(
            ReplyView::Ensured(Err(not_supported("ensure_trigger"@))),
        ),
        ForgeCall::Capabilities => Some(ReplyView::Capabilities(Ok(ForgeCapabilities::nothing()))),
        ForgeCall::SetCheck { .. } => Some(ReplyView::Text(Err(not_supported("set_check"@)))),
        ForgeCall::Comment { .. } => Some(ReplyView::Text(Err(not_supported("comment"@)))),
        ForgeCall::SetDeployment { .. } => Some(
            ReplyView::Text(Err(not_supported("set_deployment"@))),
        ),
        ForgeCall::ListRepos { .. } => Some(ReplyView::Repos(Err(not_supported("list_repos"@)))),
        ForgeCall::ListIssues { .. } => Some(ReplyView::Issues(Err(not_supported("list_issues"@)))),
        ForgeCall::ListPullRequests { .. } => Some(
            ReplyView::PullRequests(Err(not_supported("list_pull_requests"@))),
        ),
        _ => None,
    }
}

/// The operations a forge (GitHub, GitLab, ...) provides to a cascade. All methods are
/// idempotent where noted, so a resuming reconcile loop can call them repeatedly
/// without creating duplicates.
pub trait Forge: Sized {
    /// What the adapter keeps true of itself between calls.
    spec fn wf(&self) -> bool;

    /// The adapter may reply to the call in this way, and is then in this state.
    spec fn answers(pre: Self, call: ForgeCall, reply: ForgeReply, post: Self) -> bool;

    /// The forge that the adapter targets.
    spec fn target(&self) -> ForgeKind;

    /// Which forge this adapter targets.
    fn kind(&self) -> (r: ForgeKind)
        ensures
            r == self.target(),
    ;

    /// The repo's default branch (e.g. "main").
    fn default_branch(&mut self, repo: &RepoRef) -> (r: ForgeResult<String>)
        requires
            old(self).wf(),
        ensures
            final(self).wf(),
            final(self).target() == old(self).target(),
            Self::answers(
                *old(self),
                ForgeCall::DefaultBranch { repo: *repo },
                ForgeReply::Text(r),
                *final(self),
            ),
    ;

    /// Read a file at `at` (empty = default branch). `Ok(None)` = absent.
    fn read_file(
        &mut self,
        repo: &RepoRef,
        path: &str,
        at: &str,
    ) -> (r: ForgeResult<Option<FileBlob>>)
        requires
            old(self).wf(),
        ensures
            final(self).wf(),
            final(self).target() == old(self).target(),
            Self::answers(
                *old(self),
                ForgeCall::ReadFile { repo: *repo, path: path@, at: at@ },
                ForgeReply::File(r),
                *final(self),
            ),
    ;

    /// Create branch `name` from `from_ref` (a branch name or sha). Idempotent: an
    /// existing branch returns `already_existed = true`, not an error.
    fn create_branch(
        &mut self,
        repo: &RepoRef,
        name: &str,
        from_ref: &str,
    ) -> (r: ForgeResult<BranchOutcome>)
        requires
            old(self).wf(),
        ensures
            final(self).wf(),
            final(self).target() == old(self).target(),
            Self::answers(
                *old(self),
                ForgeCall::CreateBranch { repo: *repo, name: name@, from_ref: from_ref@ },
                ForgeReply::Branch(r),
                *final(self),
            ),
    ;

    /// Commit `content` to `path` on `branch`. `blob_sha` is the opaque id from
    /// [`Forge::read_file`], required to update an existing file. Returns the commit
    /// sha when the forge reports it (may be empty otherwise).
    fn commit_file(
        &mut self,
        repo: &RepoRef,
        branch: &str,
        path: &str,
        content: &str,
        blob_sha: &str,
        message: &str,
    ) -> (r: ForgeResult<String>)
        requires
            old(self).wf(),
        ensures
            final(self).wf(),
            final(self).target() == old(self).target(),
            Self::answers(
                *old(self),
                ForgeCall::CommitFile {
                    repo: *repo,
                    branch: branch@,
                    path: path@,
                    content: content@,
                    blob_sha: blob_sha@,
                    message: message@,
                },
                ForgeReply::Text(r),
                *final(self),
            ),
    ;

    /// Open a change from `head` into `base`. Idempotent: an existing open change for
    /// `head` is returned with `already_existed = true`.
    fn open_change(
        &mut self,
        repo: &RepoRef,
        head: &str,
        base: &str,
        title: &str,
        body: &str,
        remove_source_branch: bool,
    ) -> (r: ForgeResult<OpenedChange>)
        requires
            old(self).wf(),
        ensures
            final(self).wf(),
            final(self).target() == old(self).target(),
            Self::answers(
                *old(self),
                ForgeCall::OpenChange {
                    repo: *repo,
                    head: head@,
                    base: base@,
                    title: title@,
                    body: body@,
                    remove_source_branch,
                },
                ForgeReply::Change(r),
                *final(self),
            ),
    ;

    /// Enable auto-merge. Returns whether it was enabled (false if the forge merged
    /// immediately or it's unavailable).
    fn enable_auto_merge(&mut self, repo: &RepoRef, change: &ChangeRef) -> (r: ForgeResult<bool>)
        requires
            old(self).wf(),
        ensures
            final(self).wf(),
            final(self).target() == old(self).target(),
            Self::answers(
                *old(self),
                ForgeCall::EnableAutoMerge { repo: *repo, change: *change },
                ForgeReply::Flag(r),
                *final(self),
            ),
    ;

    /// The pipeline status for the change's head.
    fn pipeline_status(
        &mut self,
        repo: &RepoRef,
        change: &ChangeRef,
    ) -> (r: ForgeResult<PipelineStatus>)
        requires
            old(self).wf(),
        ensures
            final(self).wf(),
            final(self).target() == old(self).target(),
            Self::answers(
                *old(self),
                ForgeCall::PipelineStatus { repo: *repo, change: *change },
                ForgeReply::Pipeline(r),
                *final(self),
            ),
    ;

    /// Merge the change now. Returns the merge commit sha.
    fn merge(&mut self, repo: &RepoRef, change: &ChangeRef) -> (r: ForgeResult<String>)
        requires
            old(self).wf(),
        ensures
            final(self).wf(),
            final(self).target() == old(self).target(),
            Self::answers(
                *old(self),
                ForgeCall::Merge { repo: *repo, change: *change },
                ForgeReply::Text(r),
                *final(self),
            ),
    ;

    /// The change's open/merged/closed state.
    fn change_state(&mut self, repo: &RepoRef, change: &ChangeRef) -> (r: ForgeResult<ChangeState>)
        requires
            old(self).wf(),
        ensures
            final(self).wf(),
            final(self).target() == old(self).target(),
            Self::answers(
                *old(self),
                ForgeCall::ChangeState { repo: *repo, change: *change },
                ForgeReply::State(r),
                *final(self),
            ),
    ;

    /// The repo's configured inbound triggers.
    /// [`default_reply`] where the forge has no such surface.
    fn list_triggers(&mut self, repo: &RepoRef) -> (r: ForgeResult<Vec<Trigger>>)
        requires
            old(self).wf(),
        ensures
            final(self).wf(),
            final(self).target() == old(self).target(),
            Self::answers(
                *old(self),
                ForgeCall::ListTriggers { repo: *repo },
                ForgeReply::Triggers(r),
                *final(self),
            ),
    ;

    /// Idempotently ensure an inbound trigger at `url` subscribed to `events` (empty =
    /// [`default_trigger_events`]) with `secret` as its verification secret (empty =
    /// leave unset).
    /// [`default_reply`] where the forge has no such surface.
    fn ensure_trigger(
        &mut self,
        repo: &RepoRef,
        url: &str,
        events: &[String],
        secret: &str,
    ) -> (r: ForgeResult<EnsuredTrigger>)
        requires
            old(self).wf(),
        ensures
            final(self).wf(),
            final(self).target() == old(self).target(),
            Self::answers(
                *old(self),
                ForgeCall::EnsureTrigger {
                    repo: *repo,
                    url: url@,
                    events: texts(events@),
                    secret: secret@,
                },
                ForgeReply::Ensured(r),
                *final(self),
            ),
    ;

    /// Which optional surfaces this adapter will serve: ask before attempting one,
    /// instead of calling and interpreting the error.
    /// `Err` means "could not ask", which is not the same as "has nothing".
    fn capabilities(&mut self) -> (r: ForgeResult<ForgeCapabilities>)
        requires
            old(self).wf(),
        ensures
            final(self).wf(),
            final(self).target() == old(self).target(),
            Self::answers(
                *old(self),
                ForgeCall::Capabilities,
                ForgeReply::Capabilities(r),
                *final(self),
            ),
    ;

    /// Post a commit check or status.
    /// [`default_reply`] where the forge has no such surface.
    fn set_check(
        &mut self,
        repo: &RepoRef,
        head_sha: &str,
        name: &str,
        status: &str,
        conclusion: &str,
        details_url: &str,
    ) -> (r: ForgeResult<String>)
        requires
            old(self).wf(),
        ensures
            final(self).wf(),
            final(self).target() == old(self).target(),
            Self::answers(
                *old(self),
                ForgeCall::SetCheck {
                    repo: *repo,
                    head_sha: head_sha@,
                    name: name@,
                    status: status@,
                    conclusion: conclusion@,
                    details_url: details_url@,
                },
                ForgeReply::Text(r),
                *final(self),
            ),
    ;

    /// Comment on change or issue `number` in `repo`.
    /// [`default_reply`] where the forge has no such surface.
    fn comment(&mut self, repo: &RepoRef, number: u64, body: &str) -> (r: ForgeResult<String>)
        requires
            old(self).wf(),
        ensures
            final(self).wf(),
            final(self).target() == old(self).target(),
            Self::answers(
                *old(self),
                ForgeCall::Comment { repo: *repo, number, body: body@ },
                ForgeReply::Text(r),
                *final(self),
            ),
    ;

    /// Record a deployment or environment status.
    /// [`default_reply`] where the forge has no such surface.
    fn set_deployment(
        &mut self,
        repo: &RepoRef,
        head_sha: &str,
        git_ref: &str,
        environment: &str,
        state: &str,
        url: &str,
        log_url: &str,
        description: &str,
    ) -> (r: ForgeResult<String>)
        requires
            old(self).wf(),
        ensures
            final(self).wf(),
            final(self).target() == old(self).target(),
            Self::answers(
                *old(self),
                ForgeCall::SetDeployment {
                    repo: *repo,
                    head_sha: head_sha@,
                    git_ref: git_ref@,
                    environment: environment@,
                    state: state@,
                    url: url@,
                    log_url: log_url@,
                    description: description@,
                },
                ForgeReply::Text(r),
                *final(self),
            ),
    ;

    /// Repositories visible to this adapter under `owners` (empty = its default).
    ///
    /// [`default_reply`] where the forge has no such surface.
    fn list_repos(
        &mut self,
        owners: &[String],
        labels: &[String],
    ) -> (r: ForgeResult<Vec<Repository>>)
        requires
            old(self).wf(),
        ensures
            final(self).wf(),
            final(self).target() == old(self).target(),
            Self::answers(
                *old(self),
                ForgeCall::ListRepos { owners: texts(owners@), labels: texts(labels@) },
                ForgeReply::Repos(r),
                *final(self),
            ),
    ;

    /// Open issues.
    /// [`default_reply`] where the forge has no such surface.
    fn list_issues(
        &mut self,
        owners: &[String],
        labels: &[String],
        for_users: &[String],
    ) -> (r: ForgeResult<Vec<Issue>>)
        requires
            old(self).wf(),
        ensures
            final(self).wf(),
            final(self).target() == old(self).target(),
            Self::answers(
                *old(self),
                ForgeCall::ListIssues {
                    owners: texts(owners@),
                    labels: texts(labels@),
                    for_users: texts(for_users@),
                },
                ForgeReply::Issues(r),
                *final(self),
            ),
    ;

    /// Open pull or merge requests.
    /// [`default_reply`] where the forge has no such surface.
    fn list_pull_requests(
        &mut self,
        owners: &[String],
        labels: &[String],
        for_users: &[String],
    ) -> (r: ForgeResult<Vec<PullRequest>>)
        requires
            old(self).wf(),
        ensures
            final(self).wf(),
            final(self).target() == old(self).target(),
            Self::answers(
                *old(self),
                ForgeCall::ListPullRequests {
                    owners: texts(owners@),
                    labels: texts(labels@),
                    for_users: texts(for_users@),
                },
                ForgeReply::PullRequests(r),
                *final(self),
            ),
    ;
}

} // verus!
