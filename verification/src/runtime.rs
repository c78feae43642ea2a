//! Pinning: an adapter whose calls run on a runtime of its own.
//!
//! An adapter's transport needs the reactor that it was built against, so its calls are
//! handed to a runtime that its own side owns, and the caller waits for the outcome,
//! which needs no reactor. That runtime belongs to the program, which says through
//! [`Handed`] what became of a call that was handed over: the adapter's own reply, or the
//! cause for which there is none. [`Pinned`] hands every call over and tells the outcome,
//! and so never leaves its caller waiting for a task that is gone. An adapter that several
//! holders drive is [`Shared`]: what one of them does to it, the others find.

use crate::forge::{
    fits, BranchOutcome, EnsuredTrigger, Forge, ForgeCall, ForgeError, ForgeReply, ForgeResult,
    OpenedChange, PipelineStatus, ReplyView,
};
use crate::messages::{
    texts, ChangeRef, ChangeState, FileBlob, ForgeCapabilities, ForgeKind, Issue, PullRequest,
    RepoRef, Repository, Trigger,
};
use std::sync::Arc;
use vstd::prelude::*;
use vstd::rwlock::{RwLock, RwLockPredicate, WriteHandle};

verus! {

/// What a caller is told of a call whose task panicked or was cancelled.
pub open spec fn join_failure(cause: Seq<char>) -> Seq<char> {
    "forge call failed to join: "@ + cause
}

/// The outcome of a call that was handed to another runtime: the call's own, or the
/// error that the task panicked or was cancelled. Telling it keeps a panic inside an
/// adapter from becoming a silent hang.
pub fn joined<T>(outcome: Result<ForgeResult<T>, String>) -> (r: ForgeResult<T>)
    ensures
        match outcome {
            Ok(own) => r == own,
            Err(cause) => r matches Err(e) && e@ == join_failure(cause@),
        },
{
    match outcome {
        Ok(own) => own,
        Err(cause) => Err(
            ForgeError::from_text(
                "forge call failed to join: ".to_owned().concat(cause.as_str()),
            ),
        ),
    }
}

/// What became of a call that was handed over.
pub enum Outcome {
    /// It ran to its end, with this reply.
    Ran(ForgeReply),
    /// It did not: its task panicked or was cancelled, for this cause.
    Lost(String),
}

/// The error that a reply is, if it is one.
pub open spec fn failure(reply: ReplyView) -> Option<Seq<char>> {
    match reply {
        ReplyView::Text(Err(e)) => Some(e),
        ReplyView::File(Err(e)) => Some(e),
        ReplyView::Branch(Err(e)) => Some(e),
        ReplyView::Change(Err(e)) => Some(e),
        ReplyView::Flag(Err(e)) => Some(e),
        ReplyView::Pipeline(Err(e)) => Some(e),
        ReplyView::State(Err(e)) => Some(e),
        ReplyView::Triggers(Err(e)) => Some(e),
        ReplyView::Ensured(Err(e)) => Some(e),
        ReplyView::Capabilities(Err(e)) => Some(e),
        ReplyView::Repos(Err(e)) => Some(e),
        ReplyView::Issues(Err(e)) => Some(e),
        ReplyView::PullRequests(Err(e)) => Some(e),
        _ => None,
    }
}

/// What a caller is told of a call with this outcome.
pub open spec fn told(call: ForgeCall, outcome: Outcome, reply: ForgeReply) -> bool {
    match outcome {
        Outcome::Ran(own) => reply == own,
        Outcome::Lost(cause) => fits(call, reply@) && failure(reply@) == Some(
            join_failure(cause@),
        ),
    }
}

/// An adapter whose calls are handed to a runtime of its own: the operations of a forge,
/// each with what became of it.
pub trait Handed: Sized {
    /// What the adapter keeps true of itself between calls.
    spec fn wf(&self) -> bool;

    /// The call may have this outcome, which leaves the adapter in this state.
    spec fn outcomes(pre: Self, call: ForgeCall, outcome: Outcome, post: Self) -> bool;

    /// The forge that the adapter targets.
    spec fn target(&self) -> ForgeKind;

    /// Which forge the adapter targets: asked without handing anything over.
    fn kind(&self) -> (r: ForgeKind)
        ensures
            r == self.target(),
    ;

    /// `default_branch`, handed over.
    fn default_branch(&mut self, repo: &RepoRef) -> (r: Result<ForgeResult<String>, String>)
        requires
            old(self).wf(),
        ensures
            final(self).wf(),
            final(self).target() == old(self).target(),
            Self::outcomes(
                *old(self),
                ForgeCall::DefaultBranch { repo: *repo },
                match r {
                    Ok(own) => Outcome::Ran(ForgeReply::Text(own)),
                    Err(cause) => Outcome::Lost(cause),
                },
                *final(self),
            ),
    ;

    /// `read_file`, handed over.
    fn read_file(
        &mut self,
        repo: &RepoRef,
        path: &str,
        at: &str,
    ) -> (r: Result<ForgeResult<Option<FileBlob>>, String>)
        requires
            old(self).wf(),
        ensures
            final(self).wf(),
            final(self).target() == old(self).target(),
            Self::outcomes(
                *old(self),
                ForgeCall::ReadFile { repo: *repo, path: path@, at: at@ },
                match r {
                    Ok(own) => Outcome::Ran(ForgeReply::File(own)),
                    Err(cause) => Outcome::Lost(cause),
                },
                *final(self),
            ),
    ;

    /// `create_branch`, handed over.
    fn create_branch(
        &mut self,
        repo: &RepoRef,
        name: &str,
        from_ref: &str,
    ) -> (r: Result<ForgeResult<BranchOutcome>, String>)
        requires
            old(self).wf(),
        ensures
            final(self).wf(),
            final(self).target() == old(self).target(),
            Self::outcomes(
                *old(self),
                ForgeCall::CreateBranch { repo: *repo, name: name@, from_ref: from_ref@ },
                match r {
                    Ok(own) => Outcome::Ran(ForgeReply::Branch(own)),
                    Err(cause) => Outcome::Lost(cause),
                },
                *final(self),
            ),
    ;

    /// `commit_file`, handed over.
    fn commit_file(
        &mut self,
        repo: &RepoRef,
        branch: &str,
        path: &str,
        content: &str,
        blob_sha: &str,
        message: &str,
    ) -> (r: Result<ForgeResult<String>, String>)
        requires
            old(self).wf(),
        ensures
            final(self).wf(),
            final(self).target() == old(self).target(),
            Self::outcomes(
                *old(self),
                ForgeCall::CommitFile {
                    repo: *repo,
                    branch: branch@,
                    path: path@,
                    content: content@,
                    blob_sha: blob_sha@,
                    message: message@,
                },
                match r {
                    Ok(own) => Outcome::Ran(ForgeReply::Text(own)),
                    Err(cause) => Outcome::Lost(cause),
                },
                *final(self),
            ),
    ;

    /// `open_change`, handed over.
    fn open_change(
        &mut self,
        repo: &RepoRef,
        head: &str,
        base: &str,
        title: &str,
        body: &str,
        remove_source_branch: bool,
    ) -> (r: Result<ForgeResult<OpenedChange>, String>)
        requires
            old(self).wf(),
        ensures
            final(self).wf(),
            final(self).target() == old(self).target(),
            Self::outcomes(
                *old(self),
                ForgeCall::OpenChange {
                    repo: *repo,
                    head: head@,
                    base: base@,
                    title: title@,
                    body: body@,
                    remove_source_branch,
                },
                match r {
                    Ok(own) => Outcome::Ran(ForgeReply::Change(own)),
                    Err(cause) => Outcome::Lost(cause),
                },
                *final(self),
            ),
    ;

    /// `enable_auto_merge`, handed over.
    fn enable_auto_merge(
        &mut self,
        repo: &RepoRef,
        change: &ChangeRef,
    ) -> (r: Result<ForgeResult<bool>, String>)
        requires
            old(self).wf(),
        ensures
            final(self).wf(),
            final(self).target() == old(self).target(),
            Self::outcomes(
                *old(self),
                ForgeCall::EnableAutoMerge { repo: *repo, change: *change },
                match r {
                    Ok(own) => Outcome::Ran(ForgeReply::Flag(own)),
                    Err(cause) => Outcome::Lost(cause),
                },
                *final(self),
            ),
    ;

    /// `pipeline_status`, handed over.
    fn pipeline_status(
        &mut self,
        repo: &RepoRef,
        change: &ChangeRef,
    ) -> (r: Result<ForgeResult<PipelineStatus>, String>)
        requires
            old(self).wf(),
        ensures
            final(self).wf(),
            final(self).target() == old(self).target(),
            Self::outcomes(
                *old(self),
                ForgeCall::PipelineStatus { repo: *repo, change: *change },
                match r {
                    Ok(own) => Outcome::Ran(ForgeReply::Pipeline(own)),
                    Err(cause) => Outcome::Lost(cause),
                },
                *final(self),
            ),
    ;

    /// `merge`, handed over.
    fn merge(
        &mut self,
        repo: &RepoRef,
        change: &ChangeRef,
    ) -> (r: Result<ForgeResult<String>, String>)
        requires
            old(self).wf(),
        ensures
            final(self).wf(),
            final(self).target() == old(self).target(),
            Self::outcomes(
                *old(self),
                ForgeCall::Merge { repo: *repo, change: *change },
                match r {
                    Ok(own) => Outcome::Ran(ForgeReply::Text(own)),
                    Err(cause) => Outcome::Lost(cause),
                },
                *final(self),
            ),
    ;

    /// `change_state`, handed over.
    fn change_state(
        &mut self,
        repo: &RepoRef,
        change: &ChangeRef,
    ) -> (r: Result<ForgeResult<ChangeState>, String>)
        requires
            old(self).wf(),
        ensures
            final(self).wf(),
            final(self).target() == old(self).target(),
            Self::outcomes(
                *old(self),
                ForgeCall::ChangeState { repo: *repo, change: *change },
                match r {
                    Ok(own) => Outcome::Ran(ForgeReply::State(own)),
                    Err(cause) => Outcome::Lost(cause),
                },
                *final(self),
            ),
    ;

    /// `list_triggers`, handed over.
    fn list_triggers(&mut self, repo: &RepoRef) -> (r: Result<ForgeResult<Vec<Trigger>>, String>)
        requires
            old(self).wf(),
        ensures
            final(self).wf(),
            final(self).target() == old(self).target(),
            Self::outcomes(
                *old(self),
                ForgeCall::ListTriggers { repo: *repo },
                match r {
                    Ok(own) => Outcome::Ran(ForgeReply::Triggers(own)),
                    Err(cause) => Outcome::Lost(cause),
                },
                *final(self),
            ),
    ;

    /// `ensure_trigger`, handed over.
    fn ensure_trigger(
        &mut self,
        repo: &RepoRef,
        url: &str,
        events: &[String],
        secret: &str,
    ) -> (r: Result<ForgeResult<EnsuredTrigger>, String>)
        requires
            old(self).wf(),
        ensures
            final(self).wf(),
            final(self).target() == old(self).target(),
            Self::outcomes(
                *old(self),
                ForgeCall::EnsureTrigger {
                    repo: *repo,
                    url: url@,
                    events: texts(events@),
                    secret: secret@,
                },
                match r {
                    Ok(own) => Outcome::Ran(ForgeReply::Ensured(own)),
                    Err(cause) => Outcome::Lost(cause),
                },
                *final(self),
            ),
    ;

    /// `capabilities`, handed over.
    fn capabilities(&mut self) -> (r: Result<ForgeResult<ForgeCapabilities>, String>)
        requires
            old(self).wf(),
        ensures
            final(self).wf(),
            final(self).target() == old(self).target(),
            Self::outcomes(
                *old(self),
                ForgeCall::Capabilities,
                match r {
                    Ok(own) => Outcome::Ran(ForgeReply::Capabilities(own)),
                    Err(cause) => Outcome::Lost(cause),
                },
                *final(self),
            ),
    ;

    /// `set_check`, handed over.
    fn set_check(
        &mut self,
        repo: &RepoRef,
        head_sha: &str,
        name: &str,
        status: &str,
        conclusion: &str,
        details_url: &str,
    ) -> (r: Result<ForgeResult<String>, String>)
        requires
            old(self).wf(),
        ensures
            final(self).wf(),
            final(self).target() == old(self).target(),
            Self::outcomes(
                *old(self),
                ForgeCall::SetCheck {
                    repo: *repo,
                    head_sha: head_sha@,
                    name: name@,
                    status: status@,
                    conclusion: conclusion@,
                    details_url: details_url@,
                },
                match r {
                    Ok(own) => Outcome::Ran(ForgeReply::Text(own)),
                    Err(cause) => Outcome::Lost(cause),
                },
                *final(self),
            ),
    ;

    /// `comment`, handed over.
    fn comment(
        &mut self,
        repo: &RepoRef,
        number: u64,
        body: &str,
    ) -> (r: Result<ForgeResult<String>, String>)
        requires
            old(self).wf(),
        ensures
            final(self).wf(),
            final(self).target() == old(self).target(),
            Self::outcomes(
                *old(self),
                ForgeCall::Comment { repo: *repo, number, body: body@ },
                match r {
                    Ok(own) => Outcome::Ran(ForgeReply::Text(own)),
                    Err(cause) => Outcome::Lost(cause),
                },
                *final(self),
            ),
    ;

    /// `set_deployment`, handed over.
    fn set_deployment(
        &mut self,
        repo: &RepoRef,
        head_sha: &str,
        git_ref: &str,
        environment: &str,
        state: &str,
        url: &str,
        log_url: &str,
        description: &str,
    ) -> (r: Result<ForgeResult<String>, String>)
        requires
            old(self).wf(),
        ensures
            final(self).wf(),
            final(self).target() == old(self).target(),
            Self::outcomes(
                *old(self),
                ForgeCall::SetDeployment {
                    repo: *repo,
                    head_sha: head_sha@,
                    git_ref: git_ref@,
                    environment: environment@,
                    state: state@,
                    url: url@,
                    log_url: log_url@,
                    description: description@,
                },
                match r {
                    Ok(own) => Outcome::Ran(ForgeReply::Text(own)),
                    Err(cause) => Outcome::Lost(cause),
                },
                *final(self),
            ),
    ;

    /// `list_repos`, handed over.
    fn list_repos(
        &mut self,
        owners: &[String],
        labels: &[String],
    ) -> (r: Result<ForgeResult<Vec<Repository>>, String>)
        requires
            old(self).wf(),
        ensures
            final(self).wf(),
            final(self).target() == old(self).target(),
            Self::outcomes(
                *old(self),
                ForgeCall::ListRepos { owners: texts(owners@), labels: texts(labels@) },
                match r {
                    Ok(own) => Outcome::Ran(ForgeReply::Repos(own)),
                    Err(cause) => Outcome::Lost(cause),
                },
                *final(self),
            ),
    ;

    /// `list_issues`, handed over.
    fn list_issues(
        &mut self,
        owners: &[String],
        labels: &[String],
        for_users: &[String],
    ) -> (r: Result<ForgeResult<Vec<Issue>>, String>)
        requires
            old(self).wf(),
        ensures
            final(self).wf(),
            final(self).target() == old(self).target(),
            Self::outcomes(
                *old(self),
                ForgeCall::ListIssues {
                    owners: texts(owners@),
                    labels: texts(labels@),
                    for_users: texts(for_users@),
                },
                match r {
                    Ok(own) => Outcome::Ran(ForgeReply::Issues(own)),
                    Err(cause) => Outcome::Lost(cause),
                },
                *final(self),
            ),
    ;

    /// `list_pull_requests`, handed over.
    fn list_pull_requests(
        &mut self,
        owners: &[String],
        labels: &[String],
        for_users: &[String],
    ) -> (r: Result<ForgeResult<Vec<PullRequest>>, String>)
        requires
            old(self).wf(),
        ensures
            final(self).wf(),
            final(self).target() == old(self).target(),
            Self::outcomes(
                *old(self),
                ForgeCall::ListPullRequests {
                    owners: texts(owners@),
                    labels: texts(labels@),
                    for_users: texts(for_users@),
                },
                match r {
                    Ok(own) => Outcome::Ran(ForgeReply::PullRequests(own)),
                    Err(cause) => Outcome::Lost(cause),
                },
                *final(self),
            ),
    ;
}

/// An adapter that needs no other runtime: its calls run where they are made, so none is
/// lost.
pub struct InPlace<F> {
    pub forge: F,
}

impl<F: Forge> Handed for InPlace<F> {
    open spec fn wf(&self) -> bool {
        self.forge.wf()
    }

    open spec fn outcomes(pre: Self, call: ForgeCall, outcome: Outcome, post: Self) -> bool {
        outcome matches Outcome::Ran(reply) && F::answers(pre.forge, call, reply, post.forge)
    }

    open spec fn target(&self) -> ForgeKind {
        self.forge.target()
    }

    fn kind(&self) -> (r: ForgeKind) {
        self.forge.kind()
    }

    fn default_branch(&mut self, repo: &RepoRef) -> (r: Result<ForgeResult<String>, String>) {
        Ok(self.forge.default_branch(repo))
    }

    fn read_file(
        &mut self,
        repo: &RepoRef,
        path: &str,
        at: &str,
    ) -> (r: Result<ForgeResult<Option<FileBlob>>, String>) {
        Ok(self.forge.read_file(repo, path, at))
    }

    fn create_branch(
        &mut self,
        repo: &RepoRef,
        name: &str,
        from_ref: &str,
    ) -> (r: Result<ForgeResult<BranchOutcome>, String>) {
        Ok(self.forge.create_branch(repo, name, from_ref))
    }

    fn commit_file(
        &mut self,
        repo: &RepoRef,
        branch: &str,
        path: &str,
        content: &str,
        blob_sha: &str,
        message: &str,
    ) -> (r: Result<ForgeResult<String>, String>) {
        Ok(self.forge.commit_file(repo, branch, path, content, blob_sha, message))
    }

    fn open_change(
        &mut self,
        repo: &RepoRef,
        head: &str,
        base: &str,
        title: &str,
        body: &str,
        remove_source_branch: bool,
    ) -> (r: Result<ForgeResult<OpenedChange>, String>) {
        Ok(self.forge.open_change(repo, head, base, title, body, remove_source_branch))
    }

    fn enable_auto_merge(
        &mut self,
        repo: &RepoRef,
        change: &ChangeRef,
    ) -> (r: Result<ForgeResult<bool>, String>) {
        Ok(self.forge.enable_auto_merge(repo, change))
    }

    fn pipeline_status(
        &mut self,
        repo: &RepoRef,
        change: &ChangeRef,
    ) -> (r: Result<ForgeResult<PipelineStatus>, String>) {
        Ok(self.forge.pipeline_status(repo, change))
    }

    fn merge(
        &mut self,
        repo: &RepoRef,
        change: &ChangeRef,
    ) -> (r: Result<ForgeResult<String>, String>) {
        Ok(self.forge.merge(repo, change))
    }

    fn change_state(
        &mut self,
        repo: &RepoRef,
        change: &ChangeRef,
    ) -> (r: Result<ForgeResult<ChangeState>, String>) {
        Ok(self.forge.change_state(repo, change))
    }

    fn list_triggers(&mut self, repo: &RepoRef) -> (r: Result<ForgeResult<Vec<Trigger>>, String>) {
        Ok(self.forge.list_triggers(repo))
    }

    fn ensure_trigger(
        &mut self,
        repo: &RepoRef,
        url: &str,
        events: &[String],
        secret: &str,
    ) -> (r: Result<ForgeResult<EnsuredTrigger>, String>) {
        Ok(self.forge.ensure_trigger(repo, url, events, secret))
    }

    fn capabilities(&mut self) -> (r: Result<ForgeResult<ForgeCapabilities>, String>) {
        Ok(self.forge.capabilities())
    }

    fn set_check(
        &mut self,
        repo: &RepoRef,
        head_sha: &str,
        name: &str,
        status: &str,
        conclusion: &str,
        details_url: &str,
    ) -> (r: Result<ForgeResult<String>, String>) {
        Ok(self.forge.set_check(repo, head_sha, name, status, conclusion, details_url))
    }

    fn comment(
        &mut self,
        repo: &RepoRef,
        number: u64,
        body: &str,
    ) -> (r: Result<ForgeResult<String>, String>) {
        Ok(self.forge.comment(repo, number, body))
    }

    fn set_deployment(
        &mut self,
        repo: &RepoRef,
        head_sha: &str,
        git_ref: &str,
        environment: &str,
        state: &str,
        url: &str,
        log_url: &str,
        description: &str,
    ) -> (r: Result<ForgeResult<String>, String>) {
        Ok(
            self.forge.set_deployment(
                repo,
                head_sha,
                git_ref,
                environment,
                state,
                url,
                log_url,
                description,
            ),
        )
    }

    fn list_repos(
        &mut self,
        owners: &[String],
        labels: &[String],
    ) -> (r: Result<ForgeResult<Vec<Repository>>, String>) {
        Ok(self.forge.list_repos(owners, labels))
    }

    fn list_issues(
        &mut self,
        owners: &[String],
        labels: &[String],
        for_users: &[String],
    ) -> (r: Result<ForgeResult<Vec<Issue>>, String>) {
        Ok(self.forge.list_issues(owners, labels, for_users))
    }

    fn list_pull_requests(
        &mut self,
        owners: &[String],
        labels: &[String],
        for_users: &[String],
    ) -> (r: Result<ForgeResult<Vec<PullRequest>>, String>) {
        Ok(self.forge.list_pull_requests(owners, labels, for_users))
    }
}

// ── a shared adapter ────────────────────────────────────────────────────────

/// What holds of a shared adapter whenever nobody drives it.
pub struct Kept {
    pub kind: ForgeKind,
}

impl<H: Handed> RwLockPredicate<H> for Kept {
    open spec fn inv(self, v: H) -> bool {
        v.wf() && v.target() == self.kind
    }
}

/// An adapter that several holders drive, one call at a time. Two values are equal where
/// they are the same adapter; in which state the holders have left it, no one of them can
/// know beforehand.
pub struct Shared<H: Handed> {
    lock: RwLock<H, Kept>,
    kind: ForgeKind,
}

impl<H: Handed> Shared<H> {
    pub closed spec fn wf(&self) -> bool {
        self.lock.pred() == (Kept { kind: self.kind })
    }

    /// The forge that the adapter targets.
    pub closed spec fn target(&self) -> ForgeKind {
        self.kind
    }

    pub fn new(adapter: H) -> (r: Self)
        requires
            adapter.wf(),
        ensures
            r.wf(),
            r.target() == adapter.target(),
    {
        let kind = adapter.kind();
        Shared { lock: RwLock::new(adapter, Ghost(Kept { kind })), kind }
    }

    /// The adapter, in the state that the last holder left it in. Every other holder waits
    /// until it is put back.
    pub fn lease(&self) -> (r: (H, Lease<'_, H>))
        requires
            self.wf(),
        ensures
            r.0.wf(),
            r.0.target() == self.target(),
            r.1.wf(),
            r.1.of() == *self,
    {
        let (adapter, handle) = self.lock.acquire_write();
        (adapter, Lease { handle, shared: self })
    }
}

/// The right, and the duty, to put an adapter back.
pub struct Lease<'a, H: Handed> {
    handle: WriteHandle<'a, H, Kept>,
    shared: &'a Shared<H>,
}

impl<'a, H: Handed> Lease<'a, H> {
    pub closed spec fn wf(&self) -> bool {
        self.handle.rwlock() == self.shared.lock && self.shared.wf()
    }

    /// Where the adapter came from.
    pub closed spec fn of(&self) -> Shared<H> {
        *self.shared
    }

    /// Put the adapter back: the next holder finds it as it is now.
    pub fn put_back(self, adapter: H)
        requires
            self.wf(),
            adapter.wf(),
            adapter.target() == self.of().target(),
    {
        self.handle.release_write(adapter);
    }
}

/// The call reached the adapter, in a state that it can be in, with this outcome.
pub open spec fn reached<H: Handed>(shared: Shared<H>, call: ForgeCall, outcome: Outcome) -> bool {
    exists|before: H, after: H|
        {
            &&& #[trigger] H::outcomes(before, call, outcome, after)
            &&& before.wf()
            &&& before.target() == shared.target()
            &&& after.wf()
            &&& after.target() == shared.target()
        }
}

/// One holder of a shared adapter.
pub struct Holder<H: Handed> {
    shared: Arc<Shared<H>>,
}

impl<H: Handed> Holder<H> {
    /// The adapter that is shared.
    pub closed spec fn of(&self) -> Shared<H> {
        *self.shared
    }

    fn lease(&self) -> (r: (H, Lease<'_, H>))
        requires
            self.of().wf(),
        ensures
            r.0.wf(),
            r.0.target() == self.of().target(),
            r.1.wf(),
            r.1.of() == self.of(),
    {
        (*self.shared).lease()
    }
}

impl<H: Handed> Handed for Holder<H> {
    open spec fn wf(&self) -> bool {
        self.of().wf()
    }

    /// Exactly one call is made, on the adapter that is shared.
    open spec fn outcomes(pre: Self, call: ForgeCall, outcome: Outcome, post: Self) -> bool {
        post.of() == pre.of() && reached(pre.of(), call, outcome)
    }

    open spec fn target(&self) -> ForgeKind {
        self.of().target()
    }

    fn kind(&self) -> (r: ForgeKind) {
        let shared: &Shared<H> = &*self.shared;
        shared.kind
    }

    fn default_branch(&mut self, repo: &RepoRef) -> (r: Result<ForgeResult<String>, String>) {
        let (mut adapter, lease) = self.lease();
        let ghost before = adapter;
        let outcome = adapter.default_branch(repo);
        let ghost what = if outcome is Ok {
            Outcome::Ran(ForgeReply::Text(outcome->Ok_0))
        } else {
            Outcome::Lost(outcome->Err_0)
        };
        let ghost call = ForgeCall::DefaultBranch { repo: *repo };
        assert(reached(self.of(), call, what)) by {
            assert(H::outcomes(before, call, what, adapter));
        }
        lease.put_back(adapter);
        outcome
    }

    fn read_file(
        &mut self,
        repo: &RepoRef,
        path: &str,
        at: &str,
    ) -> (r: Result<ForgeResult<Option<FileBlob>>, String>) {
        let (mut adapter, lease) = self.lease();
        let ghost before = adapter;
        let outcome = adapter.read_file(repo, path, at);
        let ghost what = if outcome is Ok {
            Outcome::Ran(ForgeReply::File(outcome->Ok_0))
        } else {
            Outcome::Lost(outcome->Err_0)
        };
        let ghost call = ForgeCall::ReadFile { repo: *repo, path: path@, at: at@ };
        assert(reached(self.of(), call, what)) by {
            assert(H::outcomes(before, call, what, adapter));
        }
        lease.put_back(adapter);
        outcome
    }

    fn create_branch(
        &mut self,
        repo: &RepoRef,
        name: &str,
        from_ref: &str,
    ) -> (r: Result<ForgeResult<BranchOutcome>, String>) {
        let (mut adapter, lease) = self.lease();
        let ghost before = adapter;
        let outcome = adapter.create_branch(repo, name, from_ref);
        let ghost what = if outcome is Ok {
            Outcome::Ran(ForgeReply::Branch(outcome->Ok_0))
        } else {
            Outcome::Lost(outcome->Err_0)
        };
        let ghost call = ForgeCall::CreateBranch { repo: *repo, name: name@, from_ref: from_ref@ };
        assert(reached(self.of(), call, what)) by {
            assert(H::outcomes(before, call, what, adapter));
        }
        lease.put_back(adapter);
        outcome
    }

    fn commit_file(
        &mut self,
        repo: &RepoRef,
        branch: &str,
        path: &str,
        content: &str,
        blob_sha: &str,
        message: &str,
    ) -> (r: Result<ForgeResult<String>, String>) {
        let (mut adapter, lease) = self.lease();
        let ghost before = adapter;
        let outcome = adapter.commit_file(repo, branch, path, content, blob_sha, message);
        let ghost what = if outcome is Ok {
            Outcome::Ran(ForgeReply::Text(outcome->Ok_0))
        } else {
            Outcome::Lost(outcome->Err_0)
        };
        let ghost call = ForgeCall::CommitFile {
            repo: *repo,
            branch: branch@,
            path: path@,
            content: content@,
            blob_sha: blob_sha@,
            message: message@,
        };
        assert(reached(self.of(), call, what)) by {
            assert(H::outcomes(before, call, what, adapter));
        }
        lease.put_back(adapter);
        outcome
    }

    fn open_change(
        &mut self,
        repo: &RepoRef,
        head: &str,
        base: &str,
        title: &str,
        body: &str,
        remove_source_branch: bool,
    ) -> (r: Result<ForgeResult<OpenedChange>, String>) {
        let (mut adapter, lease) = self.lease();
        let ghost before = adapter;
        let outcome = adapter.open_change(repo, head, base, title, body, remove_source_branch);
        let ghost what = if outcome is Ok {
            Outcome::Ran(ForgeReply::Change(outcome->Ok_0))
        } else {
            Outcome::Lost(outcome->Err_0)
        };
        let ghost call = ForgeCall::OpenChange {
            repo: *repo,
            head: head@,
            base: base@,
            title: title@,
            body: body@,
            remove_source_branch,
        };
        assert(reached(self.of(), call, what)) by {
            assert(H::outcomes(before, call, what, adapter));
        }
        lease.put_back(adapter);
        outcome
    }

    fn enable_auto_merge(
        &mut self,
        repo: &RepoRef,
        change: &ChangeRef,
    ) -> (r: Result<ForgeResult<bool>, String>) {
        let (mut adapter, lease) = self.lease();
        let ghost before = adapter;
        let outcome = adapter.enable_auto_merge(repo, change);
        let ghost what = if outcome is Ok {
            Outcome::Ran(ForgeReply::Flag(outcome->Ok_0))
        } else {
            Outcome::Lost(outcome->Err_0)
        };
        let ghost call = ForgeCall::EnableAutoMerge { repo: *repo, change: *change };
        assert(reached(self.of(), call, what)) by {
            assert(H::outcomes(before, call, what, adapter));
        }
        lease.put_back(adapter);
        outcome
    }

    fn pipeline_status(
        &mut self,
        repo: &RepoRef,
        change: &ChangeRef,
    ) -> (r: Result<ForgeResult<PipelineStatus>, String>) {
        let (mut adapter, lease) = self.lease();
        let ghost before = adapter;
        let outcome = adapter.pipeline_status(repo, change);
        let ghost what = if outcome is Ok {
            Outcome::Ran(ForgeReply::Pipeline(outcome->Ok_0))
        } else {
            Outcome::Lost(outcome->Err_0)
        };
        let ghost call = ForgeCall::PipelineStatus { repo: *repo, change: *change };
        assert(reached(self.of(), call, what)) by {
            assert(H::outcomes(before, call, what, adapter));
        }
        lease.put_back(adapter);
        outcome
    }

    fn merge(
        &mut self,
        repo: &RepoRef,
        change: &ChangeRef,
    ) -> (r: Result<ForgeResult<String>, String>) {
        let (mut adapter, lease) = self.lease();
        let ghost before = adapter;
        let outcome = adapter.merge(repo, change);
        let ghost what = if outcome is Ok {
            Outcome::Ran(ForgeReply::Text(outcome->Ok_0))
        } else {
            Outcome::Lost(outcome->Err_0)
        };
        let ghost call = ForgeCall::Merge { repo: *repo, change: *change };
        assert(reached(self.of(), call, what)) by {
            assert(H::outcomes(before, call, what, adapter));
        }
        lease.put_back(adapter);
        outcome
    }

    fn change_state(
        &mut self,
        repo: &RepoRef,
        change: &ChangeRef,
    ) -> (r: Result<ForgeResult<ChangeState>, String>) {
        let (mut adapter, lease) = self.lease();
        let ghost before = adapter;
        let outcome = adapter.change_state(repo, change);
        let ghost what = if outcome is Ok {
            Outcome::Ran(ForgeReply::State(outcome->Ok_0))
        } else {
            Outcome::Lost(outcome->Err_0)
        };
        let ghost call = ForgeCall::ChangeState { repo: *repo, change: *change };
        assert(reached(self.of(), call, what)) by {
            assert(H::outcomes(before, call, what, adapter));
        }
        lease.put_back(adapter);
        outcome
    }

    fn list_triggers(&mut self, repo: &RepoRef) -> (r: Result<ForgeResult<Vec<Trigger>>, String>) {
        let (mut adapter, lease) = self.lease();
        let ghost before = adapter;
        let outcome = adapter.list_triggers(repo);
        let ghost what = if outcome is Ok {
            Outcome::Ran(ForgeReply::Triggers(outcome->Ok_0))
        } else {
            Outcome::Lost(outcome->Err_0)
        };
        let ghost call = ForgeCall::ListTriggers { repo: *repo };
        assert(reached(self.of(), call, what)) by {
            assert(H::outcomes(before, call, what, adapter));
        }
        lease.put_back(adapter);
        outcome
    }

    fn ensure_trigger(
        &mut self,
        repo: &RepoRef,
        url: &str,
        events: &[String],
        secret: &str,
    ) -> (r: Result<ForgeResult<EnsuredTrigger>, String>) {
        let (mut adapter, lease) = self.lease();
        let ghost before = adapter;
        let outcome = adapter.ensure_trigger(repo, url, events, secret);
        let ghost what = if outcome is Ok {
            Outcome::Ran(ForgeReply::Ensured(outcome->Ok_0))
        } else {
            Outcome::Lost(outcome->Err_0)
        };
        let ghost call = ForgeCall::EnsureTrigger {
            repo: *repo,
            url: url@,
            events: texts(events@),
            secret: secret@,
        };
        assert(reached(self.of(), call, what)) by {
            assert(H::outcomes(before, call, what, adapter));
        }
        lease.put_back(adapter);
        outcome
    }

    fn capabilities(&mut self) -> (r: Result<ForgeResult<ForgeCapabilities>, String>) {
        let (mut adapter, lease) = self.lease();
        let ghost before = adapter;
        let outcome = adapter.capabilities();
        let ghost what = if outcome is Ok {
            Outcome::Ran(ForgeReply::Capabilities(outcome->Ok_0))
        } else {
            Outcome::Lost(outcome->Err_0)
        };
        let ghost call = ForgeCall::Capabilities;
        assert(reached(self.of(), call, what)) by {
            assert(H::outcomes(before, call, what, adapter));
        }
        lease.put_back(adapter);
        outcome
    }

    fn set_check(
        &mut self,
        repo: &RepoRef,
        head_sha: &str,
        name: &str,
        status: &str,
        conclusion: &str,
        details_url: &str,
    ) -> (r: Result<ForgeResult<String>, String>) {
        let (mut adapter, lease) = self.lease();
        let ghost before = adapter;
        let outcome = adapter.set_check(repo, head_sha, name, status, conclusion, details_url);
        let ghost what = if outcome is Ok {
            Outcome::Ran(ForgeReply::Text(outcome->Ok_0))
        } else {
            Outcome::Lost(outcome->Err_0)
        };
        let ghost call = ForgeCall::SetCheck {
            repo: *repo,
            head_sha: head_sha@,
            name: name@,
            status: status@,
            conclusion: conclusion@,
            details_url: details_url@,
        };
        assert(reached(self.of(), call, what)) by {
            assert(H::outcomes(before, call, what, adapter));
        }
        lease.put_back(adapter);
        outcome
    }

    fn comment(
        &mut self,
        repo: &RepoRef,
        number: u64,
        body: &str,
    ) -> (r: Result<ForgeResult<String>, String>) {
        let (mut adapter, lease) = self.lease();
        let ghost before = adapter;
        let outcome = adapter.comment(repo, number, body);
        let ghost what = if outcome is Ok {
            Outcome::Ran(ForgeReply::Text(outcome->Ok_0))
        } else {
            Outcome::Lost(outcome->Err_0)
        };
        let ghost call = ForgeCall::Comment { repo: *repo, number, body: body@ };
        assert(reached(self.of(), call, what)) by {
            assert(H::outcomes(before, call, what, adapter));
        }
        lease.put_back(adapter);
        outcome
    }

    fn set_deployment(
        &mut self,
        repo: &RepoRef,
        head_sha: &str,
        git_ref: &str,
        environment: &str,
        state: &str,
        url: &str,
        log_url: &str,
        description: &str,
    ) -> (r: Result<ForgeResult<String>, String>) {
        let (mut adapter, lease) = self.lease();
        let ghost before = adapter;
        let outcome = adapter.set_deployment(
            repo,
            head_sha,
            git_ref,
            environment,
            state,
            url,
            log_url,
            description,
        );
        let ghost what = if outcome is Ok {
            Outcome::Ran(ForgeReply::Text(outcome->Ok_0))
        } else {
            Outcome::Lost(outcome->Err_0)
        };
        let ghost call = ForgeCall::SetDeployment {
            repo: *repo,
            head_sha: head_sha@,
            git_ref: git_ref@,
            environment: environment@,
            state: state@,
            url: url@,
            log_url: log_url@,
            description: description@,
        };
        assert(reached(self.of(), call, what)) by {
            assert(H::outcomes(before, call, what, adapter));
        }
        lease.put_back(adapter);
        outcome
    }

    fn list_repos(
        &mut self,
        owners: &[String],
        labels: &[String],
    ) -> (r: Result<ForgeResult<Vec<Repository>>, String>) {
        let (mut adapter, lease) = self.lease();
        let ghost before = adapter;
        let outcome = adapter.list_repos(owners, labels);
        let ghost what = if outcome is Ok {
            Outcome::Ran(ForgeReply::Repos(outcome->Ok_0))
        } else {
            Outcome::Lost(outcome->Err_0)
        };
        let ghost call = ForgeCall::ListRepos { owners: texts(owners@), labels: texts(labels@) };
        assert(reached(self.of(), call, what)) by {
            assert(H::outcomes(before, call, what, adapter));
        }
        lease.put_back(adapter);
        outcome
    }

    fn list_issues(
        &mut self,
        owners: &[String],
        labels: &[String],
        for_users: &[String],
    ) -> (r: Result<ForgeResult<Vec<Issue>>, String>) {
        let (mut adapter, lease) = self.lease();
        let ghost before = adapter;
        let outcome = adapter.list_issues(owners, labels, for_users);
        let ghost what = if outcome is Ok {
            Outcome::Ran(ForgeReply::Issues(outcome->Ok_0))
        } else {
            Outcome::Lost(outcome->Err_0)
        };
        let ghost call = ForgeCall::ListIssues {
            owners: texts(owners@),
            labels: texts(labels@),
            for_users: texts(for_users@),
        };
        assert(reached(self.of(), call, what)) by {
            assert(H::outcomes(before, call, what, adapter));
        }
        lease.put_back(adapter);
        outcome
    }

    fn list_pull_requests(
        &mut self,
        owners: &[String],
        labels: &[String],
        for_users: &[String],
    ) -> (r: Result<ForgeResult<Vec<PullRequest>>, String>) {
        let (mut adapter, lease) = self.lease();
        let ghost before = adapter;
        let outcome = adapter.list_pull_requests(owners, labels, for_users);
        let ghost what = if outcome is Ok {
            Outcome::Ran(ForgeReply::PullRequests(outcome->Ok_0))
        } else {
            Outcome::Lost(outcome->Err_0)
        };
        let ghost call = ForgeCall::ListPullRequests {
            owners: texts(owners@),
            labels: texts(labels@),
            for_users: texts(for_users@),
        };
        assert(reached(self.of(), call, what)) by {
            assert(H::outcomes(before, call, what, adapter));
        }
        lease.put_back(adapter);
        outcome
    }
}

// ── pinning ─────────────────────────────────────────────────────────────────

/// A forge whose every call is handed over, argument by argument.
pub struct Pinned<H> {
    inner: H,
}

impl<H> Pinned<H> {
    /// The adapter that is pinned.
    pub closed spec fn adapter(&self) -> H {
        self.inner
    }

    /// Wrap an adapter whose calls are handed over already.
    pub fn new(inner: H) -> (r: Self)
        ensures
            r.adapter() == inner,
    {
        Pinned { inner }
    }

    /// The adapter itself, for a caller that needs more of it than the contract.
    pub fn inner_mut(&mut self) -> (r: &mut H)
        ensures
            *r == old(self).adapter(),
            final(self).adapter() == *final(r),
    {
        &mut self.inner
    }
}

/// Wrap `inner`.
pub fn pin<F: Forge>(inner: F) -> (r: Pinned<InPlace<F>>)
    ensures
        r.adapter() == (InPlace { forge: inner }),
{
    Pinned { inner: InPlace { forge: inner } }
}

/// Wrap an already-boxed adapter, the shape a factory returns.
pub fn pin_boxed<F: Forge>(inner: Box<F>) -> (r: Pinned<InPlace<F>>)
    ensures
        r.adapter() == (InPlace { forge: *inner }),
{
    Pinned { inner: InPlace { forge: *inner } }
}

/// Wrap a shared adapter; the caller keeps its handle to it. What is done at the handle,
/// such as a failure that is injected there, reaches the wrapper's calls, and theirs reach
/// the handle: it is one adapter.
pub fn pin_arc<H: Handed>(inner: Arc<Shared<H>>) -> (r: Pinned<Holder<H>>)
    ensures
        r.adapter().of() == *inner,
{
    Pinned { inner: Holder { shared: inner } }
}

impl<H: Handed> Forge for Pinned<H> {
    open spec fn wf(&self) -> bool {
        self.adapter().wf()
    }

    /// The adapter's own reply, or the error that tells why there is none.
    open spec fn answers(pre: Self, call: ForgeCall, reply: ForgeReply, post: Self) -> bool {
        exists|outcome: Outcome|
            {
                &&& #[trigger] H::outcomes(pre.adapter(), call, outcome, post.adapter())
                &&& told(call, outcome, reply)
            }
    }

    open spec fn target(&self) -> ForgeKind {
        self.adapter().target()
    }

    fn kind(&self) -> (r: ForgeKind) {
        self.inner.kind()
    }

    fn default_branch(&mut self, repo: &RepoRef) -> (r: ForgeResult<String>) {
        let outcome = self.inner.default_branch(repo);
        let ghost what = if outcome is Ok {
            Outcome::Ran(ForgeReply::Text(outcome->Ok_0))
        } else {
            Outcome::Lost(outcome->Err_0)
        };
        let ghost call = ForgeCall::DefaultBranch { repo: *repo };
        assert(H::outcomes(old(self).adapter(), call, what, self.adapter()));
        joined(outcome)
    }

    fn read_file(
        &mut self,
        repo: &RepoRef,
        path: &str,
        at: &str,
    ) -> (r: ForgeResult<Option<FileBlob>>) {
        let outcome = self.inner.read_file(repo, path, at);
        let ghost what = if outcome is Ok {
            Outcome::Ran(ForgeReply::File(outcome->Ok_0))
        } else {
            Outcome::Lost(outcome->Err_0)
        };
        let ghost call = ForgeCall::ReadFile { repo: *repo, path: path@, at: at@ };
        assert(H::outcomes(old(self).adapter(), call, what, self.adapter()));
        joined(outcome)
    }

    fn create_branch(
        &mut self,
        repo: &RepoRef,
        name: &str,
        from_ref: &str,
    ) -> (r: ForgeResult<BranchOutcome>) {
        let outcome = self.inner.create_branch(repo, name, from_ref);
        let ghost what = if outcome is Ok {
            Outcome::Ran(ForgeReply::Branch(outcome->Ok_0))
        } else {
            Outcome::Lost(outcome->Err_0)
        };
        let ghost call = ForgeCall::CreateBranch { repo: *repo, name: name@, from_ref: from_ref@ };
        assert(H::outcomes(old(self).adapter(), call, what, self.adapter()));
        joined(outcome)
    }

    fn commit_file(
        &mut self,
        repo: &RepoRef,
        branch: &str,
        path: &str,
        content: &str,
        blob_sha: &str,
        message: &str,
    ) -> (r: ForgeResult<String>) {
        let outcome = self.inner.commit_file(repo, branch, path, content, blob_sha, message);
        let ghost what = if outcome is Ok {
            Outcome::Ran(ForgeReply::Text(outcome->Ok_0))
        } else {
            Outcome::Lost(outcome->Err_0)
        };
        let ghost call = ForgeCall::CommitFile {
            repo: *repo,
            branch: branch@,
            path: path@,
            content: content@,
            blob_sha: blob_sha@,
            message: message@,
        };
        assert(H::outcomes(old(self).adapter(), call, what, self.adapter()));
        joined(outcome)
    }

    fn open_change(
        &mut self,
        repo: &RepoRef,
        head: &str,
        base: &str,
        title: &str,
        body: &str,
        remove_source_branch: bool,
    ) -> (r: ForgeResult<OpenedChange>) {
        let outcome = self.inner.open_change(repo, head, base, title, body, remove_source_branch);
        let ghost what = if outcome is Ok {
            Outcome::Ran(ForgeReply::Change(outcome->Ok_0))
        } else {
            Outcome::Lost(outcome->Err_0)
        };
        let ghost call = ForgeCall::OpenChange {
            repo: *repo,
            head: head@,
            base: base@,
            title: title@,
            body: body@,
            remove_source_branch,
        };
        assert(H::outcomes(old(self).adapter(), call, what, self.adapter()));
        joined(outcome)
    }

    fn enable_auto_merge(&mut self, repo: &RepoRef, change: &ChangeRef) -> (r: ForgeResult<bool>) {
        let outcome = self.inner.enable_auto_merge(repo, change);
        let ghost what = if outcome is Ok {
            Outcome::Ran(ForgeReply::Flag(outcome->Ok_0))
        } else {
            Outcome::Lost(outcome->Err_0)
        };
        let ghost call = ForgeCall::EnableAutoMerge { repo: *repo, change: *change };
        assert(H::outcomes(old(self).adapter(), call, what, self.adapter()));
        joined(outcome)
    }

    fn pipeline_status(
        &mut self,
        repo: &RepoRef,
        change: &ChangeRef,
    ) -> (r: ForgeResult<PipelineStatus>) {
        let outcome = self.inner.pipeline_status(repo, change);
        let ghost what = if outcome is Ok {
            Outcome::Ran(ForgeReply::Pipeline(outcome->Ok_0))
        } else {
            Outcome::Lost(outcome->Err_0)
        };
        let ghost call = ForgeCall::PipelineStatus { repo: *repo, change: *change };
        assert(H::outcomes(old(self).adapter(), call, what, self.adapter()));
        joined(outcome)
    }

    fn merge(&mut self, repo: &RepoRef, change: &ChangeRef) -> (r: ForgeResult<String>) {
        let outcome = self.inner.merge(repo, change);
        let ghost what = if outcome is Ok {
            Outcome::Ran(ForgeReply::Text(outcome->Ok_0))
        } else {
            Outcome::Lost(outcome->Err_0)
        };
        let ghost call = ForgeCall::Merge { repo: *repo, change: *change };
        assert(H::outcomes(old(self).adapter(), call, what, self.adapter()));
        joined(outcome)
    }

    fn change_state(
        &mut self,
        repo: &RepoRef,
        change: &ChangeRef,
    ) -> (r: ForgeResult<ChangeState>) {
        let outcome = self.inner.change_state(repo, change);
        let ghost what = if outcome is Ok {
            Outcome::Ran(ForgeReply::State(outcome->Ok_0))
        } else {
            Outcome::Lost(outcome->Err_0)
        };
        let ghost call = ForgeCall::ChangeState { repo: *repo, change: *change };
        assert(H::outcomes(old(self).adapter(), call, what, self.adapter()));
        joined(outcome)
    }

    fn list_triggers(&mut self, repo: &RepoRef) -> (r: ForgeResult<Vec<Trigger>>) {
        let outcome = self.inner.list_triggers(repo);
        let ghost what = if outcome is Ok {
            Outcome::Ran(ForgeReply::Triggers(outcome->Ok_0))
        } else {
            Outcome::Lost(outcome->Err_0)
        };
        let ghost call = ForgeCall::ListTriggers { repo: *repo };
        assert(H::outcomes(old(self).adapter(), call, what, self.adapter()));
        joined(outcome)
    }

    fn ensure_trigger(
        &mut self,
        repo: &RepoRef,
        url: &str,
        events: &[String],
        secret: &str,
    ) -> (r: ForgeResult<EnsuredTrigger>) {
        let outcome = self.inner.ensure_trigger(repo, url, events, secret);
        let ghost what = if outcome is Ok {
            Outcome::Ran(ForgeReply::Ensured(outcome->Ok_0))
        } else {
            Outcome::Lost(outcome->Err_0)
        };
        let ghost call = ForgeCall::EnsureTrigger {
            repo: *repo,
            url: url@,
            events: texts(events@),
            secret: secret@,
        };
        assert(H::outcomes(old(self).adapter(), call, what, self.adapter()));
        joined(outcome)
    }

    fn capabilities(&mut self) -> (r: ForgeResult<ForgeCapabilities>) {
        let outcome = self.inner.capabilities();
        let ghost what = if outcome is Ok {
            Outcome::Ran(ForgeReply::Capabilities(outcome->Ok_0))
        } else {
            Outcome::Lost(outcome->Err_0)
        };
        let ghost call = ForgeCall::Capabilities;
        assert(H::outcomes(old(self).adapter(), call, what, self.adapter()));
        joined(outcome)
    }

    fn set_check(
        &mut self,
        repo: &RepoRef,
        head_sha: &str,
        name: &str,
        status: &str,
        conclusion: &str,
        details_url: &str,
    ) -> (r: ForgeResult<String>) {
        let outcome = self.inner.set_check(repo, head_sha, name, status, conclusion, details_url);
        let ghost what = if outcome is Ok {
            Outcome::Ran(ForgeReply::Text(outcome->Ok_0))
        } else {
            Outcome::Lost(outcome->Err_0)
        };
        let ghost call = ForgeCall::SetCheck {
            repo: *repo,
            head_sha: head_sha@,
            name: name@,
            status: status@,
            conclusion: conclusion@,
            details_url: details_url@,
        };
        assert(H::outcomes(old(self).adapter(), call, what, self.adapter()));
        joined(outcome)
    }

    fn comment(&mut self, repo: &RepoRef, number: u64, body: &str) -> (r: ForgeResult<String>) {
        let outcome = self.inner.comment(repo, number, body);
        let ghost what = if outcome is Ok {
            Outcome::Ran(ForgeReply::Text(outcome->Ok_0))
        } else {
            Outcome::Lost(outcome->Err_0)
        };
        let ghost call = ForgeCall::Comment { repo: *repo, number, body: body@ };
        assert(H::outcomes(old(self).adapter(), call, what, self.adapter()));
        joined(outcome)
    }

    fn set_deployment(
        &mut self,
        repo: &RepoRef,
        head_sha: &str,
        git_ref: &str,
        environment: &str,
        state: &str,
        url: &str,
        log_url: &str,
        description: &str,
    ) -> (r: ForgeResult<String>) {
        let outcome = self.inner.set_deployment(
            repo,
            head_sha,
            git_ref,
            environment,
            state,
            url,
            log_url,
            description,
        );
        let ghost what = if outcome is Ok {
            Outcome::Ran(ForgeReply::Text(outcome->Ok_0))
        } else {
            Outcome::Lost(outcome->Err_0)
        };
        let ghost call = ForgeCall::SetDeployment {
            repo: *repo,
            head_sha: head_sha@,
            git_ref: git_ref@,
            environment: environment@,
            state: state@,
            url: url@,
            log_url: log_url@,
            description: description@,
        };
        assert(H::outcomes(old(self).adapter(), call, what, self.adapter()));
        joined(outcome)
    }

    fn list_repos(
        &mut self,
        owners: &[String],
        labels: &[String],
    ) -> (r: ForgeResult<Vec<Repository>>) {
        let outcome = self.inner.list_repos(owners, labels);
        let ghost what = if outcome is Ok {
            Outcome::Ran(ForgeReply::Repos(outcome->Ok_0))
        } else {
            Outcome::Lost(outcome->Err_0)
        };
        let ghost call = ForgeCall::ListRepos { owners: texts(owners@), labels: texts(labels@) };
        assert(H::outcomes(old(self).adapter(), call, what, self.adapter()));
        joined(outcome)
    }

    fn list_issues(
        &mut self,
        owners: &[String],
        labels: &[String],
        for_users: &[String],
    ) -> (r: ForgeResult<Vec<Issue>>) {
        let outcome = self.inner.list_issues(owners, labels, for_users);
        let ghost what = if outcome is Ok {
            Outcome::Ran(ForgeReply::Issues(outcome->Ok_0))
        } else {
            Outcome::Lost(outcome->Err_0)
        };
        let ghost call = ForgeCall::ListIssues {
            owners: texts(owners@),
            labels: texts(labels@),
            for_users: texts(for_users@),
        };
        assert(H::outcomes(old(self).adapter(), call, what, self.adapter()));
        joined(outcome)
    }

    fn list_pull_requests(
        &mut self,
        owners: &[String],
        labels: &[String],
        for_users: &[String],
    ) -> (r: ForgeResult<Vec<PullRequest>>) {
        let outcome = self.inner.list_pull_requests(owners, labels, for_users);
        let ghost what = if outcome is Ok {
            Outcome::Ran(ForgeReply::PullRequests(outcome->Ok_0))
        } else {
            Outcome::Lost(outcome->Err_0)
        };
        let ghost call = ForgeCall::ListPullRequests {
            owners: texts(owners@),
            labels: texts(labels@),
            for_users: texts(for_users@),
        };
        assert(H::outcomes(old(self).adapter(), call, what, self.adapter()));
        joined(outcome)
    }
}

/// A pinned adapter that runs its calls in place answers every call, `set_deployment` and
/// its seven texts among them, as the adapter does.
pub proof fn pinned_answers_as_the_adapter<F: Forge>(
    pre: Pinned<InPlace<F>>,
    call: ForgeCall,
    reply: ForgeReply,
    post: Pinned<InPlace<F>>,
)
    ensures
        Pinned::<InPlace<F>>::answers(pre, call, reply, post) == F::answers(
            pre.adapter().forge,
            call,
            reply,
            post.adapter().forge,
        ),
{
    if F::answers(pre.adapter().forge, call, reply, post.adapter().forge) {
        assert(InPlace::<F>::outcomes(
            pre.adapter(),
            call,
            Outcome::Ran(reply),
            post.adapter(),
        ));
    }
}

/// A pinned adapter that is shared answers every call by one call on the adapter that the
/// caller's handle holds: the reply is the adapter's own, from a state that it can be in,
/// and the wrapper goes on with that adapter.
pub proof fn pinned_answers_by_the_shared_adapter<F: Forge>(
    pre: Pinned<Holder<InPlace<F>>>,
    call: ForgeCall,
    reply: ForgeReply,
    post: Pinned<Holder<InPlace<F>>>,
)
    requires
        Pinned::<Holder<InPlace<F>>>::answers(pre, call, reply, post),
    ensures
        post.adapter().of() == pre.adapter().of(),
        exists|before: F, after: F|
            {
                &&& #[trigger] F::answers(before, call, reply, after)
                &&& before.wf()
                &&& after.wf()
            },
{
    let outcome = choose|outcome: Outcome|
        {
            &&& #[trigger] Holder::<InPlace<F>>::outcomes(
                pre.adapter(),
                call,
                outcome,
                post.adapter(),
            )
            &&& told(call, outcome, reply)
        };
    assert(reached(pre.adapter().of(), call, outcome));
    let (before, after) = choose|before: InPlace<F>, after: InPlace<F>|
        {
            &&& #[trigger] InPlace::<F>::outcomes(before, call, outcome, after)
            &&& before.wf()
            &&& before.target() == pre.adapter().of().target()
            &&& after.wf()
            &&& after.target() == pre.adapter().of().target()
        };
    assert(F::answers(before.forge, call, reply, after.forge));
}

/// A call that is lost, whatever the call and the adapter, is answered by an error that
/// tells the cause: a caller is never left without an answer, and never with a success.
pub proof fn a_lost_call_is_an_error<H: Handed>(
    pre: Pinned<H>,
    call: ForgeCall,
    reply: ForgeReply,
    post: Pinned<H>,
)
    requires
        Pinned::<H>::answers(pre, call, reply, post),
        forall|own: ForgeReply|
            !#[trigger] H::outcomes(pre.adapter(), call, Outcome::Ran(own), post.adapter()),
    ensures
        exists|cause: String|
            failure(reply@) == Some(join_failure(#[trigger] cause@)) && H::outcomes(
                pre.adapter(),
                call,
                Outcome::Lost(cause),
                post.adapter(),
            ),
{
    let outcome = choose|outcome: Outcome|
        {
            &&& #[trigger] H::outcomes(pre.adapter(), call, outcome, post.adapter())
            &&& told(call, outcome, reply)
        };
    assert(H::outcomes(pre.adapter(), call, outcome, post.adapter()));
    let cause = outcome->Lost_0;
    assert(failure(reply@) == Some(join_failure(cause@)));
}

} // verus!
