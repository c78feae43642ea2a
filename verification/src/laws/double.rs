//! What the test double does, call by call.

use crate::forge::{Forge, ForgeCall, ForgeReply, ReplyView};
use crate::messages::{texts, ChangeRef, ChangeState, CiStatus, ForgeKind, RepoRef, TriggerView};
use crate::search::{first_index_at, first_index_facts, first_index_none};
use crate::testing::{ChangeModel, FakeFixture, FakeForge, ForgeModel, RepoModel};
use crate::text::{decimal, padded};
use vstd::prelude::*;

verus! {

// ── every call ──────────────────────────────────────────────────────────────

/// Two maps say the same of every key but one.
pub open spec fn elsewhere<K, V>(s: Map<K, V>, r: Map<K, V>, key: K) -> bool {
    forall|other: K|
        #![trigger s.contains_key(other)] other != key ==>
        s.contains_key(other) == r.contains_key(other)
        && (r.contains_key(other) ==> s[other] == r[other])
}

/// The name under which a call is recorded.
pub open spec fn recorded_as(call: ForgeCall) -> Seq<char> {
    match call {
        ForgeCall::DefaultBranch { .. } => "default_branch"@,
        ForgeCall::ReadFile { .. } => "read_file"@,
        ForgeCall::CreateBranch { .. } => "create_branch"@,
        ForgeCall::CommitFile { .. } => "commit_file"@,
        ForgeCall::OpenChange { .. } => "open_change"@,
        ForgeCall::EnableAutoMerge { .. } => "enable_auto_merge"@,
        ForgeCall::PipelineStatus { .. } => "pipeline_status"@,
        ForgeCall::Merge { .. } => "merge"@,
        ForgeCall::ChangeState { .. } => "change_state"@,
        ForgeCall::ListTriggers { .. } => "list_triggers"@,
        ForgeCall::EnsureTrigger { .. } => "ensure_trigger"@,
        ForgeCall::Capabilities => "capabilities"@,
        ForgeCall::SetCheck { .. } => "set_check"@,
        ForgeCall::Comment { .. } => "comment"@,
        ForgeCall::SetDeployment { .. } => "set_deployment"@,
        ForgeCall::ListRepos { .. } => "list_repos"@,
        ForgeCall::ListIssues { .. } => "list_issues"@,
        ForgeCall::ListPullRequests { .. } => "list_pull_requests"@,
    }
}

/// The reply is the error with the message.
pub open spec fn fails_with(reply: ReplyView, message: Seq<char>) -> bool {
    match reply {
        ReplyView::Text(r) => r matches Err(e) && e == message,
        ReplyView::File(r) => r matches Err(e) && e == message,
        ReplyView::Branch(r) => r matches Err(e) && e == message,
        ReplyView::Change(r) => r matches Err(e) && e == message,
        ReplyView::Flag(r) => r matches Err(e) && e == message,
        ReplyView::Pipeline(r) => r matches Err(e) && e == message,
        ReplyView::State(r) => r matches Err(e) && e == message,
        ReplyView::Triggers(r) => r matches Err(e) && e == message,
        ReplyView::Ensured(r) => r matches Err(e) && e == message,
        ReplyView::Capabilities(r) => r matches Err(e) && e == message,
        ReplyView::Repos(r) => r matches Err(e) && e == message,
        ReplyView::Issues(r) => r matches Err(e) && e == message,
        ReplyView::PullRequests(r) => r matches Err(e) && e == message,
    }
}

/// The failure that is waiting is for the call.
pub open spec fn struck(m: ForgeModel, call: ForgeCall) -> bool {
    m.pending matches Some(waiting) && waiting.0 == recorded_as(call)
}

/// `owner/name`, or the bare name of a repository without an owner.
pub open spec fn key_of(repo: RepoRef) -> Seq<char> {
    if repo.owner@.len() == 0 {
        repo.name@
    } else {
        repo.owner@ + "/"@ + repo.name@
    }
}

/// The repository that a call is about, where it is about one.
pub open spec fn about(call: ForgeCall) -> Option<RepoRef> {
    match call {
        ForgeCall::DefaultBranch { repo, .. } => Some(repo),
        ForgeCall::ReadFile { repo, .. } => Some(repo),
        ForgeCall::CreateBranch { repo, .. } => Some(repo),
        ForgeCall::CommitFile { repo, .. } => Some(repo),
        ForgeCall::OpenChange { repo, .. } => Some(repo),
        ForgeCall::EnableAutoMerge { repo, .. } => Some(repo),
        ForgeCall::PipelineStatus { repo, .. } => Some(repo),
        ForgeCall::Merge { repo, .. } => Some(repo),
        ForgeCall::ChangeState { repo, .. } => Some(repo),
        ForgeCall::ListTriggers { repo, .. } => Some(repo),
        ForgeCall::EnsureTrigger { repo, .. } => Some(repo),
        _ => None,
    }
}

/// The adapter answers as the double's model says, and with nothing else.
pub proof fn the_double_answers_as_its_model(
    pre: FakeForge,
    call: ForgeCall,
    reply: ForgeReply,
    post: FakeForge,
)
    requires
        FakeForge::answers(pre, call, reply, post),
    ensures
        post@ == pre@.step(call).0,
        reply@ == pre@.step(call).1,
{
}

/// Every call is recorded by its name, whatever comes of it, and no call changes what the
/// double is.
pub proof fn every_call_is_recorded(m: ForgeModel, call: ForgeCall)
    ensures
        m.step(call).0.calls == m.calls.push(recorded_as(call)),
        m.step(call).0.kind == m.kind,
{
}

/// A failure that waits for the call is what the call comes to: nothing is done, and the
/// failure waits no longer. One that waits for another call stays.
pub open spec fn strikes_once(m: ForgeModel, call: ForgeCall) -> bool {
    let (n, reply) = m.step(call);
    if struck(m, call) {
        fails_with(reply, (m.pending->0).1) && n.repos == m.repos && n.pending is None
    } else {
        n.pending == m.pending
    }
}

/// A call touches the repository that it is about and no other.
pub open spec fn touches_its_own(m: ForgeModel, call: ForgeCall) -> bool {
    match about(call) {
        Some(repo) => elsewhere(m.step(call).0.repos, m.repos, key_of(repo)),
        None => m.step(call).0.repos == m.repos,
    }
}

proof fn default_branch_is_entered(m: ForgeModel, call: ForgeCall)
    requires
        call is DefaultBranch,
    ensures
        strikes_once(m, call),
        touches_its_own(m, call),
{
}

proof fn read_file_is_entered(m: ForgeModel, call: ForgeCall)
    requires
        call is ReadFile,
    ensures
        strikes_once(m, call),
        touches_its_own(m, call),
{
}

proof fn create_branch_is_entered(m: ForgeModel, call: ForgeCall)
    requires
        call is CreateBranch,
    ensures
        strikes_once(m, call),
        touches_its_own(m, call),
{
}

proof fn commit_file_is_entered(m: ForgeModel, call: ForgeCall)
    requires
        call is CommitFile,
    ensures
        strikes_once(m, call),
        touches_its_own(m, call),
{
}

proof fn open_change_is_entered(m: ForgeModel, call: ForgeCall)
    requires
        call is OpenChange,
    ensures
        strikes_once(m, call),
        touches_its_own(m, call),
{
}

proof fn enable_auto_merge_is_entered(m: ForgeModel, call: ForgeCall)
    requires
        call is EnableAutoMerge,
    ensures
        strikes_once(m, call),
        touches_its_own(m, call),
{
}

proof fn pipeline_status_is_entered(m: ForgeModel, call: ForgeCall)
    requires
        call is PipelineStatus,
    ensures
        strikes_once(m, call),
        touches_its_own(m, call),
{
}

proof fn merge_is_entered(m: ForgeModel, call: ForgeCall)
    requires
        call is Merge,
    ensures
        strikes_once(m, call),
        touches_its_own(m, call),
{
}

proof fn change_state_is_entered(m: ForgeModel, call: ForgeCall)
    requires
        call is ChangeState,
    ensures
        strikes_once(m, call),
        touches_its_own(m, call),
{
}

proof fn list_triggers_is_entered(m: ForgeModel, call: ForgeCall)
    requires
        call is ListTriggers,
    ensures
        strikes_once(m, call),
        touches_its_own(m, call),
{
}

proof fn ensure_trigger_is_entered(m: ForgeModel, call: ForgeCall)
    requires
        call is EnsureTrigger,
    ensures
        strikes_once(m, call),
        touches_its_own(m, call),
{
}

proof fn capabilities_is_entered(m: ForgeModel, call: ForgeCall)
    requires
        call is Capabilities,
    ensures
        strikes_once(m, call),
        touches_its_own(m, call),
{
}

proof fn set_check_is_entered(m: ForgeModel, call: ForgeCall)
    requires
        call is SetCheck,
    ensures
        strikes_once(m, call),
        touches_its_own(m, call),
{
}

proof fn comment_is_entered(m: ForgeModel, call: ForgeCall)
    requires
        call is Comment,
    ensures
        strikes_once(m, call),
        touches_its_own(m, call),
{
}

proof fn set_deployment_is_entered(m: ForgeModel, call: ForgeCall)
    requires
        call is SetDeployment,
    ensures
        strikes_once(m, call),
        touches_its_own(m, call),
{
}

proof fn list_repos_is_entered(m: ForgeModel, call: ForgeCall)
    requires
        call is ListRepos,
    ensures
        strikes_once(m, call),
        touches_its_own(m, call),
{
}

proof fn list_issues_is_entered(m: ForgeModel, call: ForgeCall)
    requires
        call is ListIssues,
    ensures
        strikes_once(m, call),
        touches_its_own(m, call),
{
}

proof fn list_pull_requests_is_entered(m: ForgeModel, call: ForgeCall)
    requires
        call is ListPullRequests,
    ensures
        strikes_once(m, call),
        touches_its_own(m, call),
{
}

/// A failure that waits for a call strikes that call, once.
pub proof fn a_waiting_failure_strikes_once(m: ForgeModel, call: ForgeCall)
    ensures
        strikes_once(m, call),
{
    match call {
        ForgeCall::DefaultBranch { .. } => default_branch_is_entered(m, call),
        ForgeCall::ReadFile { .. } => read_file_is_entered(m, call),
        ForgeCall::CreateBranch { .. } => create_branch_is_entered(m, call),
        ForgeCall::CommitFile { .. } => commit_file_is_entered(m, call),
        ForgeCall::OpenChange { .. } => open_change_is_entered(m, call),
        ForgeCall::EnableAutoMerge { .. } => enable_auto_merge_is_entered(m, call),
        ForgeCall::PipelineStatus { .. } => pipeline_status_is_entered(m, call),
        ForgeCall::Merge { .. } => merge_is_entered(m, call),
        ForgeCall::ChangeState { .. } => change_state_is_entered(m, call),
        ForgeCall::ListTriggers { .. } => list_triggers_is_entered(m, call),
        ForgeCall::EnsureTrigger { .. } => ensure_trigger_is_entered(m, call),
        ForgeCall::Capabilities => capabilities_is_entered(m, call),
        ForgeCall::SetCheck { .. } => set_check_is_entered(m, call),
        ForgeCall::Comment { .. } => comment_is_entered(m, call),
        ForgeCall::SetDeployment { .. } => set_deployment_is_entered(m, call),
        ForgeCall::ListRepos { .. } => list_repos_is_entered(m, call),
        ForgeCall::ListIssues { .. } => list_issues_is_entered(m, call),
        ForgeCall::ListPullRequests { .. } => list_pull_requests_is_entered(m, call),
    }
}

/// No call touches a repository that it is not about.
pub proof fn other_repositories_stay(m: ForgeModel, call: ForgeCall)
    ensures
        touches_its_own(m, call),
{
    match call {
        ForgeCall::DefaultBranch { .. } => default_branch_is_entered(m, call),
        ForgeCall::ReadFile { .. } => read_file_is_entered(m, call),
        ForgeCall::CreateBranch { .. } => create_branch_is_entered(m, call),
        ForgeCall::CommitFile { .. } => commit_file_is_entered(m, call),
        ForgeCall::OpenChange { .. } => open_change_is_entered(m, call),
        ForgeCall::EnableAutoMerge { .. } => enable_auto_merge_is_entered(m, call),
        ForgeCall::PipelineStatus { .. } => pipeline_status_is_entered(m, call),
        ForgeCall::Merge { .. } => merge_is_entered(m, call),
        ForgeCall::ChangeState { .. } => change_state_is_entered(m, call),
        ForgeCall::ListTriggers { .. } => list_triggers_is_entered(m, call),
        ForgeCall::EnsureTrigger { .. } => ensure_trigger_is_entered(m, call),
        ForgeCall::Capabilities => capabilities_is_entered(m, call),
        ForgeCall::SetCheck { .. } => set_check_is_entered(m, call),
        ForgeCall::Comment { .. } => comment_is_entered(m, call),
        ForgeCall::SetDeployment { .. } => set_deployment_is_entered(m, call),
        ForgeCall::ListRepos { .. } => list_repos_is_entered(m, call),
        ForgeCall::ListIssues { .. } => list_issues_is_entered(m, call),
        ForgeCall::ListPullRequests { .. } => list_pull_requests_is_entered(m, call),
    }
}

/// A call on a repository that is not there does nothing, and says which.
pub proof fn a_missing_repository_is_named(m: ForgeModel, call: ForgeCall)
    requires
        !struck(m, call),
        about(call) matches Some(repo) && !m.repos.contains_key(key_of(repo)),
    ensures
        fails_with(m.step(call).1, "no such repo: "@ + key_of(about(call)->0)),
        m.step(call).0.repos == m.repos,
{
}

/// The double has triggers and no other optional surface: what it lacks is refused by name.
pub proof fn the_double_has_triggers_alone(m: ForgeModel, call: ForgeCall)
    requires
        !struck(m, call),
        about(call) is None,
    ensures
        m.step(call).0.repos == m.repos,
        call is Capabilities ==>
            (
                m.step(call).1 matches ReplyView::Capabilities(Ok(c)) && c.triggers && !c.issues
                    && !c.checks && !c.comments && !c.deployments && !c.repos && !c.pull_requests
            ),
        !(call is Capabilities) ==>
            fails_with(m.step(call).1, recorded_as(call) + " not supported by this forge adapter"@),
{
}

// ── what a call does to its repository ──────────────────────────────────────

/// The call is served by a repository: no failure strikes it, and the repository is there.
pub open spec fn served(m: ForgeModel, call: ForgeCall) -> bool {
    !struck(m, call) && (about(call) matches Some(repo) && m.repos.contains_key(key_of(repo)))
}

/// The repository of a call, before it.
pub open spec fn before(m: ForgeModel, call: ForgeCall) -> RepoModel {
    m.repos[key_of(about(call)->0)]
}

/// The repository of a call, after it.
pub open spec fn after(m: ForgeModel, call: ForgeCall) -> RepoModel {
    m.step(call).0.repos[key_of(about(call)->0)]
}

/// The change at `i` is the first with the number.
pub open spec fn change_at(r: RepoModel, number: nat, i: int) -> bool {
    &&& 0 <= i < r.changes.len()
    &&& r.changes[i].number == number
    &&& forall|j: int| 0 <= j < i ==> (#[trigger] r.changes[j]).number != number
}

/// No change has the number.
pub open spec fn no_change(r: RepoModel, number: nat) -> bool {
    forall|j: int| 0 <= j < r.changes.len() ==> (#[trigger] r.changes[j]).number != number
}

/// What is found under a number.
proof fn numbered_is(r: RepoModel, number: nat)
    ensures
        forall|i: int| #[trigger] change_at(r, number, i) ==> r.numbered(number) == Some(i),
        no_change(r, number) ==> r.numbered(number) is None,
{
    let p = |c: ChangeModel| c.number == number;
    assert forall|i: int| #[trigger]
        change_at(r, number, i) implies r.numbered(number) == Some(i) by {
        first_index_at(r.changes, p, i);
    }
    if no_change(r, number) {
        first_index_none(r.changes, p);
    }
}

/// Asking for the default branch, for a file, for a change's state or pipeline, or for the
/// triggers leaves the repository as it was.
pub proof fn reading_changes_nothing(m: ForgeModel, call: ForgeCall)
    requires
        served(m, call),
        call is DefaultBranch || call is ReadFile || call is ChangeState || call is PipelineStatus
            || call is ListTriggers,
    ensures
        after(m, call) == before(m, call),
{
}

/// The default branch and the triggers are those of the repository.
pub proof fn the_repository_s_own_are_told(m: ForgeModel, repo: RepoRef)
    ensures
        served(m, ForgeCall::DefaultBranch { repo }) ==>
            m.step(ForgeCall::DefaultBranch { repo }).1 == ReplyView::Text(
                Ok(m.repos[key_of(repo)].default_branch),
            ),
        served(m, ForgeCall::ListTriggers { repo }) ==>
            m.step(ForgeCall::ListTriggers { repo }).1 == ReplyView::Triggers(
                Ok(m.repos[key_of(repo)].triggers),
            ),
{
}

/// A file is read at the branch that is named, else at the default branch; a file that is
/// not there is none, and no error.
pub proof fn a_file_is_read_where_it_is(
    m: ForgeModel,
    repo: RepoRef,
    path: Seq<char>,
    at: Seq<char>,
    branch: Seq<char>,
)
    requires
        served(m, ForgeCall::ReadFile { repo, path, at }),
        at.len() > 0 ==> branch == at,
        at.len() == 0 ==> branch == m.repos[key_of(repo)].default_branch,
    ensures
        m.step(ForgeCall::ReadFile { repo, path, at }).1 matches ReplyView::File(Ok(found))
            && match found {
            Some(blob) => m.repos[key_of(repo)].files.contains_key((branch, path))
                && blob.path == path
                && m.repos[key_of(repo)].files[(branch, path)] == (blob.content, blob.blob_sha),
            None => !m.repos[key_of(repo)].files.contains_key((branch, path)),
        },
{
}

/// A branch that is there is left as it is; a new one starts where the branch that is named
/// stands, else at the sha that is named, else where the default branch stands.
pub proof fn a_branch_starts_where_it_is_told(
    m: ForgeModel,
    repo: RepoRef,
    name: Seq<char>,
    from_ref: Seq<char>,
    from: Seq<char>,
)
    requires
        served(m, ForgeCall::CreateBranch { repo, name, from_ref }),
        from_ref.len() > 0 ==> from == from_ref,
        from_ref.len() == 0 ==> from == m.repos[key_of(repo)].default_branch,
    ensures
        ({
            let call = ForgeCall::CreateBranch { repo, name, from_ref };
            let r = before(m, call);
            let s = after(m, call);
            let there = r.branches.contains_key(name);
            &&& (
                m.step(call).1 matches ReplyView::Branch(Ok(made)) && made.created == !there
                    && made.already_existed == there
            )
            &&& there ==> s == r
            &&& !there ==> s.branches.contains_key(name)
                && s.branches[name] == if r.branches.contains_key(from) {
                    r.branches[from]
                } else { from }
            &&& elsewhere(s.branches, r.branches, name)
            &&& s.default_branch == r.default_branch && s.files == r.files && s.changes == r.changes
                && s.triggers == r.triggers && s.seq == r.seq
        }),
{
}

/// A commit needs its branch.
pub proof fn a_commit_needs_its_branch(
    m: ForgeModel,
    repo: RepoRef,
    branch: Seq<char>,
    path: Seq<char>,
    content: Seq<char>,
    blob_sha: Seq<char>,
    message: Seq<char>,
)
    requires
        served(m, ForgeCall::CommitFile { repo, branch, path, content, blob_sha, message }),
        !m.repos[key_of(repo)].branches.contains_key(branch),
    ensures
        ({
            let call = ForgeCall::CommitFile { repo, branch, path, content, blob_sha, message };
            fails_with(m.step(call).1, "no such branch: "@ + branch)
                && after(m, call) == before(m, call)
        }),
{
}

/// A commit of what the branch holds changes nothing and tells where the branch stands; any
/// other commit puts the content on the branch, alone, under a new id, and moves the branch to
/// a commit that was not there.
pub proof fn a_commit_puts_its_content_on_the_branch(
    m: ForgeModel,
    repo: RepoRef,
    branch: Seq<char>,
    path: Seq<char>,
    content: Seq<char>,
    blob_sha: Seq<char>,
    message: Seq<char>,
)
    requires
        served(m, ForgeCall::CommitFile { repo, branch, path, content, blob_sha, message }),
        m.repos[key_of(repo)].branches.contains_key(branch),
    ensures
        ({
            let call = ForgeCall::CommitFile { repo, branch, path, content, blob_sha, message };
            let r = before(m, call);
            let s = after(m, call);
            let held = r.files.contains_key((branch, path)) && r.files[(branch, path)].0 == content;
            &&& (m.step(call).1 matches ReplyView::Text(Ok(sha)) && sha == s.branches[branch])
            &&& held ==> s == r
            &&& !held ==> s.seq == r.seq + 1
                && s.branches[branch] == "commit"@ + padded(r.seq + 1, 10)
                && s.files.contains_key((branch, path))
                && s.files[(branch, path)] == (content, "blob"@ + padded(r.seq + 1, 12))
            &&& s.branches.contains_key(branch) && elsewhere(s.branches, r.branches, branch)
            &&& elsewhere(s.files, r.files, (branch, path))
            &&& s.default_branch == r.default_branch && s.changes == r.changes
                && s.triggers == r.triggers
        }),
{
}

/// The open change at `i` is the first from the head.
pub open spec fn open_at(r: RepoModel, head: Seq<char>, i: int) -> bool {
    &&& 0 <= i < r.changes.len()
    &&& r.changes[i].head == head && r.changes[i].state is Open
    &&& forall|j: int|
        0 <= j < i ==> !((#[trigger] r.changes[j]).head == head && r.changes[j].state is Open)
}

/// No change from the head is open.
pub open spec fn none_open(r: RepoModel, head: Seq<char>) -> bool {
    forall|j: int|
        0 <= j < r.changes.len() ==>
        !((#[trigger] r.changes[j]).head == head && r.changes[j].state is Open)
}

/// What is found from a head.
proof fn open_from_is(r: RepoModel, head: Seq<char>)
    ensures
        forall|i: int| #[trigger] open_at(r, head, i) ==> r.open_from(head) == Some(i),
        none_open(r, head) ==> r.open_from(head) is None,
        match r.open_from(head) {
            Some(i) => open_at(r, head, i),
            None => none_open(r, head),
        },
{
    let p = |c: ChangeModel| c.head == head && c.state == ChangeState::Open;
    first_index_facts(r.changes, p);
    assert forall|i: int| #[trigger] open_at(r, head, i) implies r.open_from(head) == Some(i) by {
        first_index_at(r.changes, p, i);
    }
    if none_open(r, head) {
        first_index_none(r.changes, p);
    }
    if let Some(i) = r.open_from(head) {
        assert(p(r.changes[i]));
        assert forall|j: int|
            0 <= j < i implies !(
                (#[trigger] r.changes[j]).head == head && r.changes[j].state is Open
            ) by {
            assert(!p(r.changes[j]));
        }
    }
}

/// An open change from the head is adopted.
pub proof fn an_open_change_is_adopted(
    m: ForgeModel,
    repo: RepoRef,
    head: Seq<char>,
    base: Seq<char>,
    title: Seq<char>,
    body: Seq<char>,
    remove_source_branch: bool,
    i: int,
)
    requires
        served(m, ForgeCall::OpenChange { repo, head, base, title, body, remove_source_branch }),
        open_at(m.repos[key_of(repo)], head, i),
    ensures
        ({
            let call = ForgeCall::OpenChange {
                repo,
                head,
                base,
                title,
                body,
                remove_source_branch,
            };
            let number = before(m, call).changes[i].number;
            &&& after(m, call) == before(m, call)
            &&& (
                m.step(call).1 matches ReplyView::Change(Ok(told)) && told.already_existed
                    && told.change.number == number && told.change.branch == head
                    && told.change.id.len() == 0
                    && told.change.url == "https://fake/"@ + key_of(repo) + "/changes/"@ + decimal(
                        number,
                    )
            )
        }),
{
    open_from_is(m.repos[key_of(repo)], head);
}

/// Without one, a change is opened under the next number: open, not armed, without a
/// pipeline.
pub proof fn a_change_is_opened_anew(
    m: ForgeModel,
    repo: RepoRef,
    head: Seq<char>,
    base: Seq<char>,
    title: Seq<char>,
    body: Seq<char>,
    remove_source_branch: bool,
)
    requires
        served(m, ForgeCall::OpenChange { repo, head, base, title, body, remove_source_branch }),
        none_open(m.repos[key_of(repo)], head),
    ensures
        ({
            let call = ForgeCall::OpenChange {
                repo,
                head,
                base,
                title,
                body,
                remove_source_branch,
            };
            let r = before(m, call);
            let s = after(m, call);
            let opened = s.changes.last();
            &&& s.seq == r.seq + 1 && s.changes.len() == r.changes.len() + 1
                && s.changes.drop_last() =~= r.changes
            &&& opened.number == r.seq + 1 && opened.head == head && opened.base == base
                && opened.state is Open && !opened.auto_merge && opened.ci is Absent
                && opened.merge_sha.len() == 0
            &&& s.default_branch == r.default_branch && s.branches == r.branches
                && s.files == r.files && s.triggers == r.triggers
            &&& (
                m.step(call).1 matches ReplyView::Change(Ok(told)) && !told.already_existed
                    && told.change.number == r.seq + 1 && told.change.branch == head
                    && told.change.id.len() == 0
                    && told.change.url == "https://fake/"@ + key_of(repo) + "/changes/"@ + decimal(
                        (r.seq + 1) as nat,
                    )
            )
        }),
{
    open_from_is(m.repos[key_of(repo)], head);
}

/// The change that a call is about, where it is about one.
pub open spec fn change_of(call: ForgeCall) -> Option<ChangeRef> {
    match call {
        ForgeCall::EnableAutoMerge { change, .. } => Some(change),
        ForgeCall::PipelineStatus { change, .. } => Some(change),
        ForgeCall::Merge { change, .. } => Some(change),
        ForgeCall::ChangeState { change, .. } => Some(change),
        _ => None,
    }
}

/// A call about a change that is not there names its number; only a merge counts on.
pub proof fn a_missing_change_is_named(m: ForgeModel, call: ForgeCall)
    requires
        served(m, call),
        change_of(call) matches Some(change) && no_change(before(m, call), change.number as nat),
    ensures
        fails_with(m.step(call).1, "no such change: "@ + decimal(change_of(call)->0.number as nat)),
        !(call is Merge) ==> after(m, call) == before(m, call),
        call is Merge ==>
            after(m, call) == (RepoModel { seq: before(m, call).seq + 1, ..before(m, call) }),
{
    numbered_is(before(m, call), change_of(call)->0.number as nat);
}

/// The call leaves every other change as it was, and all of the repository but its changes.
pub open spec fn only_change(r: RepoModel, s: RepoModel, i: int) -> bool {
    &&& s.changes.len() == r.changes.len()
    &&& forall|j: int|
        0 <= j < r.changes.len() && j != i ==> #[trigger] s.changes[j] == r.changes[j]
    &&& s.default_branch == r.default_branch && s.files == r.files && s.triggers == r.triggers
}

/// Arming a change arms that change, and nothing else of it changes.
pub proof fn auto_merge_is_armed(m: ForgeModel, repo: RepoRef, change: ChangeRef, i: int)
    requires
        served(m, ForgeCall::EnableAutoMerge { repo, change }),
        change_at(m.repos[key_of(repo)], change.number as nat, i),
    ensures
        ({
            let call = ForgeCall::EnableAutoMerge { repo, change };
            let r = before(m, call);
            let s = after(m, call);
            &&& m.step(call).1 == ReplyView::Flag(Ok(true))
            &&& only_change(r, s, i) && s.branches == r.branches && s.seq == r.seq
            &&& s.changes[i].auto_merge && s.changes[i].state == r.changes[i].state
                && s.changes[i].number == r.changes[i].number
                && s.changes[i].head == r.changes[i].head && s.changes[i].base == r.changes[i].base
                && s.changes[i].ci == r.changes[i].ci
                && s.changes[i].merge_sha == r.changes[i].merge_sha
        }),
{
    numbered_is(m.repos[key_of(repo)], change.number as nat);
}

/// A change's pipeline and state are the change's own.
pub proof fn a_change_is_told_as_it_is(m: ForgeModel, repo: RepoRef, change: ChangeRef, i: int)
    requires
        change_at(m.repos[key_of(repo)], change.number as nat, i),
    ensures
        served(m, ForgeCall::PipelineStatus { repo, change }) ==> ({
            let reply = m.step(ForgeCall::PipelineStatus { repo, change }).1;
            reply matches ReplyView::Pipeline(Ok(told))
                && told.status == m.repos[key_of(repo)].changes[i].ci
                && told.pipeline_id == "pipe-"@ + decimal(change.number as nat)
                && told.url == "https://fake/"@ + key_of(repo) + "/pipelines/"@ + decimal(
                    change.number as nat,
                )
        }),
        served(m, ForgeCall::ChangeState { repo, change }) ==>
            m.step(ForgeCall::ChangeState { repo, change }).1 == ReplyView::State(
                Ok(m.repos[key_of(repo)].changes[i].state),
            ),
{
    numbered_is(m.repos[key_of(repo)], change.number as nat);
}

/// The name of a change's state.
pub open spec fn state_name(s: ChangeState) -> Seq<char> {
    match s {
        ChangeState::Unspecified => "Unspecified"@,
        ChangeState::Open => "Open"@,
        ChangeState::Merged => "Merged"@,
        ChangeState::Closed => "Closed"@,
    }
}

/// An open change is merged: its state says so, it is armed no longer, and its base stands at
/// the merge. One that is not open is not merged, and the message says what it is.
pub proof fn only_an_open_change_is_merged(m: ForgeModel, repo: RepoRef, change: ChangeRef, i: int)
    requires
        served(m, ForgeCall::Merge { repo, change }),
        change_at(m.repos[key_of(repo)], change.number as nat, i),
    ensures
        ({
            let call = ForgeCall::Merge { repo, change };
            let r = before(m, call);
            let s = after(m, call);
            let was = r.changes[i];
            let not_open = "change "@ + decimal(change.number as nat) + " is not open (state "@
                + state_name(was.state) + ")"@;
            let sha = "merge"@ + padded(r.seq + 1, 11);
            &&& s.seq == r.seq + 1 && only_change(r, s, i)
            &&& was.state is Open ==> m.step(call).1 == ReplyView::Text(Ok(sha))
                && s.changes[i].state is Merged && !s.changes[i].auto_merge
                && s.changes[i].merge_sha == sha && s.changes[i].number == was.number
                && s.changes[i].head == was.head && s.changes[i].base == was.base
                && s.changes[i].ci == was.ci && s.branches.contains_key(was.base)
                && s.branches[was.base] == sha
            &&& was.state is Open ==> elsewhere(s.branches, r.branches, was.base)
            &&& !(was.state is Open) ==> s.changes == r.changes && s.branches == r.branches
                && fails_with(m.step(call).1, not_open)
        }),
{
    numbered_is(m.repos[key_of(repo)], change.number as nat);
}

/// The trigger at `i` is the first at the url.
pub open spec fn trigger_at(r: RepoModel, url: Seq<char>, i: int) -> bool {
    &&& 0 <= i < r.triggers.len()
    &&& r.triggers[i].url == url
    &&& forall|j: int| 0 <= j < i ==> (#[trigger] r.triggers[j]).url != url
}

/// No trigger delivers to the url.
pub open spec fn no_trigger(r: RepoModel, url: Seq<char>) -> bool {
    forall|j: int| 0 <= j < r.triggers.len() ==> (#[trigger] r.triggers[j]).url != url
}

/// A trigger that is there is told as it is, and none is made.
pub proof fn a_trigger_is_made_once(
    m: ForgeModel,
    repo: RepoRef,
    url: Seq<char>,
    events: Seq<Seq<char>>,
    secret: Seq<char>,
    i: int,
)
    requires
        served(m, ForgeCall::EnsureTrigger { repo, url, events, secret }),
        trigger_at(m.repos[key_of(repo)], url, i),
    ensures
        ({
            let call = ForgeCall::EnsureTrigger { repo, url, events, secret };
            let r = before(m, call);
            after(m, call) == r
                && (
                    m.step(call).1 matches ReplyView::Ensured(Ok(told)) && !told.created
                        && told.trigger == r.triggers[i]
                )
        }),
{
    first_index_at(m.repos[key_of(repo)].triggers, |t: TriggerView| t.url == url, i);
}

/// Without one, an active trigger is made for the events that are asked for, else for pushes
/// and pull requests, and is listed last.
pub proof fn a_trigger_is_made_for_its_events(
    m: ForgeModel,
    repo: RepoRef,
    url: Seq<char>,
    events: Seq<Seq<char>>,
    secret: Seq<char>,
)
    requires
        served(m, ForgeCall::EnsureTrigger { repo, url, events, secret }),
        no_trigger(m.repos[key_of(repo)], url),
    ensures
        ({
            let call = ForgeCall::EnsureTrigger { repo, url, events, secret };
            let r = before(m, call);
            let s = after(m, call);
            &&& (
                m.step(call).1 matches ReplyView::Ensured(Ok(told)) && told.created
                    && told.trigger == s.triggers.last()
            )
            &&& s.seq == r.seq + 1 && s.triggers.len() == r.triggers.len() + 1
                && s.triggers.drop_last() =~= r.triggers
            &&& s.triggers.last().url == url && s.triggers.last().active
                && s.triggers.last().target.len() == 0
                && s.triggers.last().id == "hook-"@ + decimal((r.seq + 1) as nat)
            &&& events.len() > 0 ==> s.triggers.last().events == events
            &&& events.len() == 0 ==> s.triggers.last().events == seq!["push"@, "pull_request"@]
            &&& s.default_branch == r.default_branch && s.branches == r.branches
                && s.files == r.files && s.changes == r.changes
        }),
{
    first_index_none(m.repos[key_of(repo)].triggers, |t: TriggerView| t.url == url);
}

// ── setting the double up ───────────────────────────────────────────────────

/// A new double has nothing, and nothing waits to fail.
pub proof fn a_new_double_is_empty(kind: ForgeKind, r: FakeForge)
    requires
        call_ensures(FakeForge::new, (kind,), r),
    ensures
        r@.kind == kind,
        r@.calls.len() == 0,
        r@.pending is None,
        forall|key: Seq<char>| !#[trigger] r@.repos.contains_key(key),
{
}

/// Seeding puts the default branch of the repository at the seed commit and keeps what else
/// the repository holds; no other repository changes.
pub proof fn a_seeded_repository_stands_at_its_seed(
    m: ForgeModel,
    slug: Seq<char>,
    default_branch: Seq<char>,
)
    ensures
        ({
            let n = m.seeded_with(slug, default_branch);
            let s = n.repos[slug];
            &&& n.repos.contains_key(slug) && s.default_branch == default_branch
            &&& s.branches.contains_key(default_branch)
                && s.branches[default_branch] == "seed000000000000"@
            &&& n.kind == m.kind && n.calls == m.calls && n.pending == m.pending
            &&& elsewhere(n.repos, m.repos, slug)
            &&& m.repos.contains_key(slug) ==> s.files == m.repos[slug].files
                && s.changes == m.repos[slug].changes && s.triggers == m.repos[slug].triggers
                && s.seq == m.repos[slug].seq
            &&& m.repos.contains_key(slug) ==>
                elsewhere(s.branches, m.repos[slug].branches, default_branch)
            &&& !m.repos.contains_key(slug) ==> s.changes.len() == 0 && s.triggers.len() == 0
                && s.seq == 0
                && (forall|key: (Seq<char>, Seq<char>)| !#[trigger] s.files.contains_key(key))
                && (
                    forall|other: Seq<char>| #[trigger]
                        s.branches.contains_key(other) ==> other == default_branch
                )
        }),
{
}

/// Setting a pipeline's status sets it on that change, and changes nothing else.
pub proof fn a_pipeline_status_is_set(
    m: ForgeModel,
    slug: Seq<char>,
    number: nat,
    status: CiStatus,
    i: int,
)
    requires
        m.repos.contains_key(slug),
        change_at(m.repos[slug], number, i),
    ensures
        ({
            let n = m.with_ci(slug, number, status);
            let r = m.repos[slug];
            let s = n.repos[slug];
            &&& n.kind == m.kind && n.calls == m.calls && n.pending == m.pending
                && n.repos.contains_key(slug)
            &&& only_change(r, s, i) && s.branches == r.branches && s.seq == r.seq
            &&& s.changes[i].ci == status && s.changes[i].state == r.changes[i].state
                && s.changes[i].auto_merge == r.changes[i].auto_merge
                && s.changes[i].number == number && s.changes[i].head == r.changes[i].head
                && s.changes[i].base == r.changes[i].base
                && s.changes[i].merge_sha == r.changes[i].merge_sha
            &&& elsewhere(n.repos, m.repos, slug)
        }),
{
    numbered_is(m.repos[slug], number);
}

/// Setting the status of a change that is not there does nothing.
pub proof fn a_missing_pipeline_is_not_set(
    m: ForgeModel,
    slug: Seq<char>,
    number: nat,
    status: CiStatus,
)
    requires
        !m.repos.contains_key(slug) || no_change(m.repos[slug], number),
    ensures
        m.with_ci(slug, number, status) == m,
{
    if m.repos.contains_key(slug) {
        numbered_is(m.repos[slug], number);
        assert(m.repos.insert(slug, m.repos[slug]) =~= m.repos);
    }
}

/// A change is armed where it says so, and one that is not there is not.
pub proof fn armed_is_what_the_change_says(
    f: &FakeForge,
    repo: &RepoRef,
    number: u64,
    r: bool,
    i: int,
)
    requires
        call_ensures(FakeForge::auto_merge_armed, (f, repo, number), r),
    ensures
        !f@.repos.contains_key(key_of(*repo)) ==> !r,
        f@.repos.contains_key(key_of(*repo))
            && no_change(f@.repos[key_of(*repo)], number as nat) ==> !r,
        f@.repos.contains_key(key_of(*repo))
            && change_at(f@.repos[key_of(*repo)], number as nat, i) ==>
            r == f@.repos[key_of(*repo)].changes[i].auto_merge,
{
    if f@.repos.contains_key(key_of(*repo)) {
        numbered_is(f@.repos[key_of(*repo)], number as nat);
    }
}

/// The calls are told in the order in which they came.
pub proof fn calls_are_told_in_order(f: &FakeForge, r: Vec<String>)
    requires
        call_ensures(FakeForge::calls, (f,), r),
    ensures
        r@.len() == f@.calls.len(),
        forall|i: int| 0 <= i < r@.len() ==> (#[trigger] r@[i])@ == f@.calls[i],
{
    assert(texts(r@).len() == r@.len());
    assert forall|i: int| 0 <= i < r@.len() implies (#[trigger] r@[i])@ == f@.calls[i] by {
        assert(texts(r@)[i] == r@[i]@);
    }
}

/// A fixture begins with its repository, seeded on `main`, and nothing else in it.
pub proof fn a_fixture_is_seeded(kind: ForgeKind, repo: RepoRef, r: FakeFixture)
    requires
        call_ensures(FakeFixture::new, (kind, repo), r),
    ensures
        r.repo == repo,
        r.forge@.kind == kind,
        r.forge@.pending is None,
        r.forge@.repos.contains_key(key_of(repo)),
        ({
            let s = r.forge@.repos[key_of(repo)];
            &&& s.default_branch == "main"@ && s.branches.contains_key("main"@)
                && s.branches["main"@] == "seed000000000000"@
            &&& s.changes.len() == 0 && s.triggers.len() == 0 && s.seq == 0
            &&& forall|key: (Seq<char>, Seq<char>)| !#[trigger] s.files.contains_key(key)
            &&& forall|other: Seq<char>| #[trigger]
                s.branches.contains_key(other) ==> other == "main"@
        }),
{
}

} // verus!
