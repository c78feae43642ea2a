//! What travels between a caller, the gateway and a forge.

use crate::forge::{
    self, fits, BranchOutcome, EnsuredTrigger, Forge, ForgeCall, ForgeError, ForgeReply,
    ForgeResult, OpenedChange, PipelineStatus, ReplyView,
};
use crate::forge_factory;
use crate::gateway::{
    self, declares, failure_of, internal, lacking, passes_on, response_to, surface, AdapterPlan,
    ForgeGateway, Metadata, ServedForge,
};
use crate::geetch::{self, state_of, status_of, unwrapped, GeetchForge};
use crate::messages::{
    self, texts, trigger_views, ChangeRef, ChangeState, CiStatus, FileBlob, ForgeCapabilities,
    ForgeKind, Issue, PullRequest, RepoRef, Repository, Trigger,
};
use crate::search::first_index_facts;
use crate::status::{Code, Status, StatusView};
use crate::text::debug_text;
use crate::wire::{
    call_of, replies, CommitFileResponseView, CreateBranchResponseView, EnableAutoMergeResponseView,
    EnsureTriggerResponseView, ForgeService, GetCapabilitiesResponseView,
    GetChangeStateResponseView, GetDefaultBranchResponseView, ListIssuesResponseView,
    ListPullRequestsResponseView, ListReposResponseView, ListTriggersResponseView,
    MergeResponseView, OpenChangeResponseView, PipelineStatusResponseView, ReadFileResponseView,
    ServiceCall, ServiceReply, WriteAckView,
};
use vstd::prelude::*;

verus! {

// ── numbers and names ───────────────────────────────────────────────────────

/// The number of a pipeline status.
pub open spec fn ci_number(s: CiStatus) -> int {
    match s {
        CiStatus::Unspecified => 0,
        CiStatus::Absent => 1,
        CiStatus::Pending => 2,
        CiStatus::Running => 3,
        CiStatus::Success => 4,
        CiStatus::Failed => 5,
        CiStatus::Canceled => 6,
    }
}

/// The number of a change's state.
pub open spec fn state_number(s: ChangeState) -> int {
    match s {
        ChangeState::Unspecified => 0,
        ChangeState::Open => 1,
        ChangeState::Merged => 2,
        ChangeState::Closed => 3,
    }
}

/// The number of a code host.
pub open spec fn kind_number(k: ForgeKind) -> int {
    match k {
        ForgeKind::Unspecified => 0,
        ForgeKind::Github => 1,
        ForgeKind::Gitlab => 2,
        ForgeKind::Geetch => 3,
    }
}

/// The name of a code host.
pub open spec fn kind_name(k: ForgeKind) -> Seq<char> {
    match k {
        ForgeKind::Unspecified => "Unspecified"@,
        ForgeKind::Github => "Github"@,
        ForgeKind::Gitlab => "Gitlab"@,
        ForgeKind::Geetch => "Geetch"@,
    }
}

/// Each code host, pipeline status and change state is written as its number.
pub proof fn numbers_are_written(k: ForgeKind, c: CiStatus, s: ChangeState, r: (i32, i32, i32))
    requires
        call_ensures(ForgeKind::number, (k,), r.0),
        call_ensures(CiStatus::number, (c,), r.1),
        call_ensures(ChangeState::number, (s,), r.2),
    ensures
        r.0 == kind_number(k),
        r.1 == ci_number(c),
        r.2 == state_number(s),
{
}

/// A number is read as what is written as it, and any other number as nothing.
pub proof fn numbers_are_read(
    n: i32,
    k: Option<ForgeKind>,
    c: Option<CiStatus>,
    s: Option<ChangeState>,
)
    requires
        call_ensures(ForgeKind::from_number, (n,), k),
        call_ensures(CiStatus::from_number, (n,), c),
        call_ensures(ChangeState::from_number, (n,), s),
    ensures
        k is Some <==> 0 <= n <= 3,
        k matches Some(kind) ==> kind_number(kind) == n,
        c is Some <==> 0 <= n <= 6,
        c matches Some(status) ==> ci_number(status) == n,
        s is Some <==> 0 <= n <= 3,
        s matches Some(state) ==> state_number(state) == n,
{
    assert(ForgeKind::Unspecified.wire() == 0 && ForgeKind::Github.wire() == 1);
    assert(ForgeKind::Gitlab.wire() == 2 && ForgeKind::Geetch.wire() == 3);
    assert(CiStatus::Unspecified.wire() == 0 && CiStatus::Absent.wire() == 1);
    assert(CiStatus::Pending.wire() == 2 && CiStatus::Running.wire() == 3);
    assert(CiStatus::Success.wire() == 4 && CiStatus::Failed.wire() == 5);
    assert(CiStatus::Canceled.wire() == 6);
    assert(ChangeState::Unspecified.wire() == 0 && ChangeState::Open.wire() == 1);
    assert(ChangeState::Merged.wire() == 2 && ChangeState::Closed.wire() == 3);
}

/// Each code host and change state is shown by its name.
pub proof fn names_are_shown(k: ForgeKind, s: ChangeState, r: (&'static str, &'static str))
    requires
        call_ensures(ForgeKind::name, (k,), r.0),
        call_ensures(ChangeState::name, (s,), r.1),
    ensures
        r.0@ == kind_name(k),
        r.1@ == match s {
            ChangeState::Unspecified => "Unspecified"@,
            ChangeState::Open => "Open"@,
            ChangeState::Merged => "Merged"@,
            ChangeState::Closed => "Closed"@,
        },
{
}

/// The status that a number stands for has that number.
proof fn numbers_stand_for_statuses(n: i32)
    ensures
        0 <= n <= 6 ==> ci_number(status_of(n)) == n,
        !(0 <= n <= 6) ==> status_of(n) is Unspecified,
{
    assert(CiStatus::Unspecified.wire() == 0 && CiStatus::Absent.wire() == 1);
    assert(CiStatus::Pending.wire() == 2 && CiStatus::Running.wire() == 3);
    assert(CiStatus::Success.wire() == 4 && CiStatus::Failed.wire() == 5);
    assert(CiStatus::Canceled.wire() == 6);
}

/// The state that a number stands for has that number.
proof fn numbers_stand_for_states(n: i32)
    ensures
        0 <= n <= 3 ==> state_number(state_of(n)) == n,
        !(0 <= n <= 3) ==> state_of(n) is Unspecified,
{
    assert(ChangeState::Unspecified.wire() == 0 && ChangeState::Open.wire() == 1);
    assert(ChangeState::Merged.wire() == 2 && ChangeState::Closed.wire() == 3);
}

/// A capability set is empty, or declares triggers and nothing more.
pub proof fn capabilities_are_none_or_triggers(r: (ForgeCapabilities, ForgeCapabilities))
    requires
        call_ensures(ForgeCapabilities::none, (), r.0),
        call_ensures(ForgeCapabilities::with_triggers, (), r.1),
    ensures
        !r.0.triggers && r.1.triggers,
        !r.0.issues && !r.1.issues,
        !r.0.checks && !r.1.checks,
        !r.0.comments && !r.1.comments,
        !r.0.deployments && !r.1.deployments,
        !r.0.repos && !r.1.repos,
        !r.0.pull_requests && !r.1.pull_requests,
{
}

/// The trigger that is found is the first that delivers to the url; none is found where
/// none does.
pub proof fn the_first_trigger_at_a_url_is_found(listed: &Vec<Trigger>, url: &str, r: Option<usize>)
    requires
        call_ensures(messages::find_at, (listed, url), r),
    ensures
        match r {
            Some(i) => i < listed@.len() && listed@[i as int].url@ == url@ && forall|j: int|
                0 <= j < i ==> (#[trigger] listed@[j]).url@ != url@,
            None => forall|j: int| 0 <= j < listed@.len() ==> (#[trigger] listed@[j]).url@ != url@,
        },
{
    let views = trigger_views(listed@);
    let p = |t: crate::messages::TriggerView| t.url == url@;
    first_index_facts(views, p);
    assert forall|j: int|
        0 <= j < listed@.len() implies (p(views[j]) <==> (#[trigger] listed@[j]).url@ == url@) by {}
    assert(forall|j: int| 0 <= j < listed@.len() ==> #[trigger] listed@[j]@ == views[j]);
}

/// A repository is written as its owner, a slash and its name; without an owner, as its name.
pub proof fn a_repository_is_written_with_its_owner(repo: &RepoRef, r: String)
    requires
        call_ensures(forge::repo_slug, (repo,), r),
    ensures
        repo.owner@.len() == 0 ==> r@ == repo.name@,
        repo.owner@.len() > 0 ==> r@ == repo.owner@ + "/"@ + repo.name@,
{
}

/// A build trigger subscribes to pushes and pull requests.
pub proof fn triggers_are_for_pushes_and_pull_requests(r: Vec<String>)
    requires
        call_ensures(forge::default_trigger_events, (), r),
    ensures
        r@.len() == 2,
        r@[0]@ == "push"@,
        r@[1]@ == "pull_request"@,
{
    assert(texts(r@).len() == r@.len());
    assert(texts(r@)[0] == r@[0]@ && texts(r@)[1] == r@[1]@);
}

/// An error is told by its message, after what was being done where that is given.
pub proof fn errors_tell_their_message(
    m: &str,
    context: &str,
    e: ForgeError,
    f: ForgeError,
    op: ForgeError,
    told: String,
)
    requires
        call_ensures(ForgeError::msg, (m,), e),
        call_ensures(ForgeError::in_context, (context, m), f),
        call_ensures(forge::not_supported_error, (m,), op),
        call_ensures(ForgeError::to_string, (&f,), told),
    ensures
        e@ == m@,
        f@ == context@ + ": "@ + m@,
        told@ == context@ + ": "@ + m@,
        op@ == m@ + " not supported by this forge adapter"@,
{
}

// ── choosing the adapter ────────────────────────────────────────────────────

/// The metadata hold a value, which is not empty, under the key.
pub open spec fn carries(meta: &Metadata, key: Seq<char>, value: Seq<char>) -> bool {
    value.len() > 0 && meta@.contains_key(key) && meta@[key]@ == value
}

/// The metadata hold no value under the key, or an empty one.
pub open spec fn lacks(meta: &Metadata, key: Seq<char>) -> bool {
    meta@.contains_key(key) ==> meta@[key]@.len() == 0
}

/// The call failed with the code and the message.
pub open spec fn failed<T>(r: Result<T, StatusView>, code: Code, message: Seq<char>) -> bool {
    r matches Err(s) && s.code == code && s.message == message
}

/// The call failed with the code and the message.
pub open spec fn refused<T>(r: Result<T, Status>, code: Code, message: Seq<char>) -> bool {
    r matches Err(s) && s.code == code && s.message@ == message
}

/// What a metadata value is read as.
pub proof fn a_metadata_value_is_read(meta: &Metadata, key: &str, r: Option<String>)
    requires
        call_ensures(gateway::meta_str, (meta, key), r),
    ensures
        match r {
            Some(v) => carries(meta, key@, v@),
            None => lacks(meta, key@),
        },
{
}

/// A GitLab repository is reached at its own host, else at the caller's, with the caller's
/// token; without a token or a host it is not.
pub proof fn gitlab_is_reached_with_the_caller_s_token(
    gateway: &ForgeGateway,
    repo: &RepoRef,
    meta: &Metadata,
    r: Result<AdapterPlan, Status>,
)
    requires
        call_ensures(ForgeGateway::adapter, (gateway, repo, meta), r),
        repo.forge == 2,
    ensures
        lacks(meta, "x-fastverk-gitlab-token"@) ==>
            refused(r, Code::Unauthenticated, "missing gitlab token"@),
        !lacks(meta, "x-fastverk-gitlab-token"@) && repo.host@.len() == 0
            && lacks(meta, "x-fastverk-gitlab-host"@) ==>
            refused(r, Code::InvalidArgument, "gitlab host required (repo.host or metadata)"@),
        !lacks(meta, "x-fastverk-gitlab-token"@) && repo.host@.len() > 0 ==>
            (
                r matches Ok(AdapterPlan::Gitlab { host, token }) && host@ == repo.host@
                    && carries(meta, "x-fastverk-gitlab-token"@, token@)
            ),
        !lacks(meta, "x-fastverk-gitlab-token"@) && repo.host@.len() == 0
            && !lacks(meta, "x-fastverk-gitlab-host"@) ==>
            (
                r matches Ok(AdapterPlan::Gitlab { host, token })
                    && carries(meta, "x-fastverk-gitlab-host"@, host@)
                    && carries(meta, "x-fastverk-gitlab-token"@, token@)
            ),
{
}

/// GitHub is reached with the caller's token, and not without one.
pub proof fn github_is_reached_with_the_caller_s_token(
    gateway: &ForgeGateway,
    repo: &RepoRef,
    meta: &Metadata,
    r: Result<AdapterPlan, Status>,
)
    requires
        call_ensures(ForgeGateway::adapter, (gateway, repo, meta), r),
        repo.forge == 1,
    ensures
        lacks(meta, "x-fastverk-github-token"@) ==>
            refused(r, Code::Unauthenticated, "missing github token"@),
        !lacks(meta, "x-fastverk-github-token"@) ==>
            (
                r matches Ok(AdapterPlan::Github { token })
                    && carries(meta, "x-fastverk-github-token"@, token@)
            ),
{
}

/// geetch is known and not served; no other number is a code host.
pub proof fn other_hosts_are_refused(
    gateway: &ForgeGateway,
    repo: &RepoRef,
    meta: &Metadata,
    r: Result<AdapterPlan, Status>,
)
    requires
        call_ensures(ForgeGateway::adapter, (gateway, repo, meta), r),
    ensures
        repo.forge == 3 ==>
            refused(
                r,
                Code::Unimplemented,
                "repo.forge = FORGE_GEETCH: the geetch adapter is not wired into forge-gateway yet"@,
            ),
        !(1 <= repo.forge <= 3) ==>
            refused(
                r,
                Code::InvalidArgument,
                "repo.forge must be one of FORGE_GITHUB, FORGE_GITLAB, FORGE_GEETCH"@,
            ),
{
}

/// A request needs its repository, and is for the adapter of that repository.
pub proof fn a_request_is_for_its_repository(
    gateway: &ForgeGateway,
    repo: &Option<RepoRef>,
    meta: &Metadata,
    r: Result<AdapterPlan, Status>,
    named: Result<AdapterPlan, Status>,
)
    requires
        call_ensures(ForgeGateway::adapter_for, (gateway, repo, meta), r),
        repo matches Some(repo) ==>
            call_ensures(ForgeGateway::adapter, (gateway, &repo, meta), named),
    ensures
        repo is None ==> refused(r, Code::InvalidArgument, "repo is required"@),
        repo is Some ==> match (r, named) {
            (
                Ok(AdapterPlan::Gitlab { host, token }),
                Ok(AdapterPlan::Gitlab { host: h, token: t })
            ) => host@ == h@
                && token@ == t@,
            (
                Ok(AdapterPlan::Github { token }),
                Ok(AdapterPlan::Github { token: t })
            ) => token@ == t@,
            (Err(s), Err(t)) => s.code == t.code && s.message@ == t.message@,
            _ => false,
        },
{
    if let Some(repo) = repo {
        let a = crate::status::outcome(r);
        let b = crate::status::outcome(named);
        assert(a == b);
        if r is Ok {
            assert(r->Ok_0@ == named->Ok_0@);
        } else {
            assert(r->Err_0@ == named->Err_0@);
        }
    }
}

/// An undeclared surface is refused by name; a declared one is not.
pub proof fn only_a_declared_surface_is_attempted(
    kind: ForgeKind,
    name: &str,
    declared: bool,
    r: Result<(), Status>,
)
    requires
        call_ensures(gateway::require_capability, (kind, name, declared), r),
    ensures
        declared <==> r is Ok,
        !declared ==>
            refused(
                r,
                Code::FailedPrecondition,
                kind_name(
                    kind,
                ) + " does not provide `"@ + name@ + "` (ForgeCapabilities."@ + name@
                    + " = false); call GetCapabilities before this RPC"@,
            ),
{
}

/// An adapter's failure is the server's own, with the adapter's message.
pub proof fn a_forge_error_is_internal(e: ForgeError, r: Status)
    requires
        call_ensures(gateway::to_status, (e,), r),
    ensures
        r.code == Code::Internal,
        r.message@ == e@,
{
}

// ── building an adapter ─────────────────────────────────────────────────────

/// `github` and `gitlab` are the names of code hosts, and nothing else is.
pub proof fn code_hosts_are_named(s: &str, r: Result<ForgeKind, String>)
    requires
        call_ensures(forge_factory::parse_forge_kind, (s,), r),
    ensures
        r matches Ok(kind) ==>
            (kind is Github && s@ == "github"@ || kind is Gitlab && s@ == "gitlab"@),
        r matches Err(message) ==> s@ != "github"@ && s@ != "gitlab"@
            && message@ == "unknown forge "@ + s@ + " (use github|gitlab)"@,
{
}

/// A host that is given counts; GitHub's own stands in for GitHub, and GitLab's for the rest.
pub proof fn a_host_has_a_default(kind: ForgeKind, host: &str, r: String)
    requires
        call_ensures(forge_factory::effective_host, (kind, host), r),
    ensures
        r@.len() > 0,
        host@.len() > 0 ==> r@ == host@,
        host@.len() == 0 && kind is Github ==> r@ == "github.com"@,
        host@.len() == 0 && !(kind is Github) ==> r@ == "gitlab.com"@,
{
    reveal_strlit("github.com");
    reveal_strlit("gitlab.com");
}

/// A code host's own variable is asked for the token first, then the common one.
pub proof fn a_token_has_its_variables(kind: ForgeKind, r: Vec<String>)
    requires
        call_ensures(forge_factory::token_variables, (kind,), r),
    ensures
        r@.len() > 0,
        r@.last()@ == "FORGE_TOKEN"@,
        kind is Gitlab ==> r@.len() == 2 && r@[0]@ == "GITLAB_TOKEN"@,
        kind is Github ==> r@.len() == 2 && r@[0]@ == "GITHUB_TOKEN"@,
        !(kind is Gitlab) && !(kind is Github) ==> r@.len() == 1,
{
    assert(texts(r@).len() == r@.len());
    assert forall|i: int| 0 <= i < r@.len() implies texts(r@)[i] == (#[trigger] r@[i])@ by {}
}

/// The token is the first value that is there and not empty; without one there is none, and
/// the message names the variable to set.
pub proof fn the_first_token_counts(
    kind: ForgeKind,
    values: &Vec<Option<String>>,
    r: Result<String, String>,
)
    requires
        call_ensures(forge_factory::token_for, (kind, values), r),
    ensures
        match r {
            Ok(token) => token@.len() > 0 && exists|i: int|
                0 <= i < values@.len() && (#[trigger] values@[i]) is Some && values@[i]->0@ == token@ && forall|
                    j: int,
                | 0 <= j < i ==> ((#[trigger] values@[j]) is None || values@[j]->0@.len() == 0),
            Err(message) => (
                forall|j: int|
                    0 <= j < values@.len() ==>
                    ((#[trigger] values@[j]) is None || values@[j]->0@.len() == 0)
            )
                && message@ == "no token in env — set "@ + match kind {
                ForgeKind::Gitlab => "GITLAB_TOKEN"@,
                ForgeKind::Github => "GITHUB_TOKEN"@,
                _ => "FORGE_TOKEN"@,
            } + " (or FORGE_TOKEN)"@,
        },
{
    let all = forge_factory::values_of(values@);
    let p = |v: Option<Seq<char>>| forge_factory::usable(v);
    first_index_facts(all, p);
    assert forall|j: int|
        0 <= j < values@.len() implies all[j] == messages::seen(#[trigger] values@[j]) by {}
    if let Some(i) = crate::search::first_index(all, p) {
        assert(all[i] == messages::seen(values@[i]));
        assert(p(all[i]));
    }
}

/// An adapter is built for GitHub and for GitLab, with the token and the host that are given.
pub proof fn an_adapter_is_built_as_asked(
    kind: ForgeKind,
    host: &str,
    token: &str,
    r: Result<AdapterPlan, String>,
)
    requires
        call_ensures(forge_factory::build_forge, (kind, host, token), r),
    ensures
        kind is Github ==> (r matches Ok(AdapterPlan::Github { token: t }) && t@ == token@),
        kind is Gitlab ==>
            (
                r matches Ok(AdapterPlan::Gitlab { host: h, token: t }) && h@ == host@
                    && t@ == token@
            ),
        !(kind is Github) && !(kind is Gitlab) ==>
            (r matches Err(message) && message@ == "unsupported forge kind: "@ + kind_name(kind)),
{
}

// ── the forge service ───────────────────────────────────────────────────────

/// The adapter is asked what the request asks, and what it tells is sent; a request
/// that does not say where is refused, and asks nothing.
pub proof fn a_default_branch_is_served<F: Forge>(
    pre: ServedForge<F>,
    repo: Option<RepoRef>,
    r: Result<GetDefaultBranchResponseView, StatusView>,
    post: ServedForge<F>,
)
    requires
        ServedForge::<F>::serves(
            pre,
            ServiceCall::DefaultBranch { repo },
            ServiceReply::DefaultBranch(r),
            post,
        ),
    ensures
        (repo is None ==> post == pre && failed(r, Code::InvalidArgument, "repo is required"@)),
        (repo matches Some(repo) ==> (
            exists|told: ForgeResult<String>| #[trigger]
                F::answers(
                    pre.forge,
                    ForgeCall::DefaultBranch { repo },
                    ForgeReply::Text(told),
                    post.forge,
                )
                && match told {
                    Ok(v) => r matches Ok(sent) && sent.branch == v@,
                    Err(e) => failed(r, Code::Internal, e@),
                }
        )),
{
    let call = ServiceCall::DefaultBranch { repo };
    let reply = ServiceReply::DefaultBranch(r);
    if repo is Some {
        let told = choose|told: ForgeReply| #[trigger] F::answers(
            pre.forge,
            call_of(call)->Ok_0,
            told,
            post.forge,
        ) && fits(call_of(call)->Ok_0, told@) && reply == response_to(call, told@);
        if let ForgeReply::Text(t) = told {
            assert(F::answers(pre.forge, call_of(call)->Ok_0, ForgeReply::Text(t), post.forge));
        }
    }
}

/// The adapter is asked what the request asks, and what it tells is sent; a request
/// that does not say where is refused, and asks nothing.
pub proof fn a_file_is_served<F: Forge>(
    pre: ServedForge<F>,
    repo: Option<RepoRef>,
    path: Seq<char>,
    at: Seq<char>,
    r: Result<ReadFileResponseView, StatusView>,
    post: ServedForge<F>,
)
    requires
        ServedForge::<F>::serves(
            pre,
            ServiceCall::ReadFile { repo, path, at },
            ServiceReply::ReadFile(r),
            post,
        ),
    ensures
        (repo is None ==> post == pre && failed(r, Code::InvalidArgument, "repo is required"@)),
        (repo matches Some(repo) ==> (
            exists|told: ForgeResult<Option<FileBlob>>| #[trigger]
                F::answers(
                    pre.forge,
                    ForgeCall::ReadFile { repo, path, at },
                    ForgeReply::File(told),
                    post.forge,
                )
                && match told {
                    Ok(v) => r matches Ok(sent) && sent.found == (v is Some)
                        && (
                            match v {
                                Some(f) => sent.blob == Some(f@),
                                None => sent.blob is None,
                            }
                        ),
                    Err(e) => failed(r, Code::Internal, e@),
                }
        )),
{
    let call = ServiceCall::ReadFile { repo, path, at };
    let reply = ServiceReply::ReadFile(r);
    if repo is Some {
        let told = choose|told: ForgeReply| #[trigger] F::answers(
            pre.forge,
            call_of(call)->Ok_0,
            told,
            post.forge,
        ) && fits(call_of(call)->Ok_0, told@) && reply == response_to(call, told@);
        if let ForgeReply::File(t) = told {
            assert(F::answers(pre.forge, call_of(call)->Ok_0, ForgeReply::File(t), post.forge));
        }
    }
}

/// The adapter is asked what the request asks, and what it tells is sent; a request
/// that does not say where is refused, and asks nothing.
pub proof fn a_branch_is_served<F: Forge>(
    pre: ServedForge<F>,
    repo: Option<RepoRef>,
    name: Seq<char>,
    from_sha: Seq<char>,
    r: Result<CreateBranchResponseView, StatusView>,
    post: ServedForge<F>,
)
    requires
        ServedForge::<F>::serves(
            pre,
            ServiceCall::CreateBranch { repo, name, from_sha },
            ServiceReply::CreateBranch(r),
            post,
        ),
    ensures
        (repo is None ==> post == pre && failed(r, Code::InvalidArgument, "repo is required"@)),
        (repo matches Some(repo) ==> (
            exists|told: ForgeResult<BranchOutcome>| #[trigger]
                F::answers(
                    pre.forge,
                    ForgeCall::CreateBranch { repo, name, from_ref: from_sha },
                    ForgeReply::Branch(told),
                    post.forge,
                )
                && match told {
                    Ok(v) => r matches Ok(sent) && sent.created == v.created
                        && sent.already_existed == v.already_existed,
                    Err(e) => failed(r, Code::Internal, e@),
                }
        )),
{
    let call = ServiceCall::CreateBranch { repo, name, from_sha };
    let reply = ServiceReply::CreateBranch(r);
    if repo is Some {
        let told = choose|told: ForgeReply| #[trigger] F::answers(
            pre.forge,
            call_of(call)->Ok_0,
            told,
            post.forge,
        ) && fits(call_of(call)->Ok_0, told@) && reply == response_to(call, told@);
        if let ForgeReply::Branch(t) = told {
            assert(F::answers(pre.forge, call_of(call)->Ok_0, ForgeReply::Branch(t), post.forge));
        }
    }
}

/// The adapter is asked what the request asks, and what it tells is sent; a request
/// that does not say where is refused, and asks nothing.
pub proof fn a_commit_is_served<F: Forge>(
    pre: ServedForge<F>,
    repo: Option<RepoRef>,
    branch: Seq<char>,
    path: Seq<char>,
    content: Seq<char>,
    blob_sha: Seq<char>,
    message: Seq<char>,
    r: Result<CommitFileResponseView, StatusView>,
    post: ServedForge<F>,
)
    requires
        ServedForge::<F>::serves(
            pre,
            ServiceCall::CommitFile { repo, branch, path, content, blob_sha, message },
            ServiceReply::CommitFile(r),
            post,
        ),
    ensures
        (repo is None ==> post == pre && failed(r, Code::InvalidArgument, "repo is required"@)),
        (repo matches Some(repo) ==> (
            exists|told: ForgeResult<String>| #[trigger]
                F::answers(
                    pre.forge,
                    ForgeCall::CommitFile { repo, branch, path, content, blob_sha, message },
                    ForgeReply::Text(told),
                    post.forge,
                )
                && match told {
                    Ok(v) => r matches Ok(sent) && sent.commit_sha == v@,
                    Err(e) => failed(r, Code::Internal, e@),
                }
        )),
{
    let call = ServiceCall::CommitFile { repo, branch, path, content, blob_sha, message };
    let reply = ServiceReply::CommitFile(r);
    if repo is Some {
        let told = choose|told: ForgeReply| #[trigger] F::answers(
            pre.forge,
            call_of(call)->Ok_0,
            told,
            post.forge,
        ) && fits(call_of(call)->Ok_0, told@) && reply == response_to(call, told@);
        if let ForgeReply::Text(t) = told {
            assert(F::answers(pre.forge, call_of(call)->Ok_0, ForgeReply::Text(t), post.forge));
        }
    }
}

/// The adapter is asked what the request asks, and what it tells is sent; a request
/// that does not say where is refused, and asks nothing.
pub proof fn a_change_is_served<F: Forge>(
    pre: ServedForge<F>,
    repo: Option<RepoRef>,
    head: Seq<char>,
    base: Seq<char>,
    title: Seq<char>,
    body: Seq<char>,
    remove_source_branch: bool,
    r: Result<OpenChangeResponseView, StatusView>,
    post: ServedForge<F>,
)
    requires
        ServedForge::<F>::serves(
            pre,
            ServiceCall::OpenChange { repo, head, base, title, body, remove_source_branch },
            ServiceReply::OpenChange(r),
            post,
        ),
    ensures
        (repo is None ==> post == pre && failed(r, Code::InvalidArgument, "repo is required"@)),
        (repo matches Some(repo) ==> (
            exists|told: ForgeResult<OpenedChange>| #[trigger]
                F::answers(
                    pre.forge,
                    ForgeCall::OpenChange { repo, head, base, title, body, remove_source_branch },
                    ForgeReply::Change(told),
                    post.forge,
                )
                && match told {
                    Ok(v) => r matches Ok(sent) && sent.change == Some(v.change@)
                        && sent.already_existed == v.already_existed,
                    Err(e) => failed(r, Code::Internal, e@),
                }
        )),
{
    let call = ServiceCall::OpenChange { repo, head, base, title, body, remove_source_branch };
    let reply = ServiceReply::OpenChange(r);
    if repo is Some {
        let told = choose|told: ForgeReply| #[trigger] F::answers(
            pre.forge,
            call_of(call)->Ok_0,
            told,
            post.forge,
        ) && fits(call_of(call)->Ok_0, told@) && reply == response_to(call, told@);
        if let ForgeReply::Change(t) = told {
            assert(F::answers(pre.forge, call_of(call)->Ok_0, ForgeReply::Change(t), post.forge));
        }
    }
}

/// The adapter is asked what the request asks, and what it tells is sent; a request
/// that does not say where is refused, and asks nothing.
pub proof fn an_auto_merge_is_served<F: Forge>(
    pre: ServedForge<F>,
    repo: Option<RepoRef>,
    change: Option<ChangeRef>,
    r: Result<EnableAutoMergeResponseView, StatusView>,
    post: ServedForge<F>,
)
    requires
        ServedForge::<F>::serves(
            pre,
            ServiceCall::EnableAutoMerge { repo, change },
            ServiceReply::EnableAutoMerge(r),
            post,
        ),
    ensures
        (repo is None ==> post == pre && failed(r, Code::InvalidArgument, "repo is required"@)),
        (
            repo is Some && change is None ==> post == pre
                && failed(r, Code::InvalidArgument, "change is required"@)
        ),
        (repo matches Some(repo) ==> (change matches Some(change) ==> (
            exists|told: ForgeResult<bool>| #[trigger]
                F::answers(
                    pre.forge,
                    ForgeCall::EnableAutoMerge { repo, change },
                    ForgeReply::Flag(told),
                    post.forge,
                )
                && match told {
                    Ok(v) => r matches Ok(sent) && sent.enabled == v,
                    Err(e) => failed(r, Code::Internal, e@),
                }
        ))),
{
    let call = ServiceCall::EnableAutoMerge { repo, change };
    let reply = ServiceReply::EnableAutoMerge(r);
    if repo is Some && change is Some {
        let told = choose|told: ForgeReply| #[trigger] F::answers(
            pre.forge,
            call_of(call)->Ok_0,
            told,
            post.forge,
        ) && fits(call_of(call)->Ok_0, told@) && reply == response_to(call, told@);
        if let ForgeReply::Flag(t) = told {
            assert(F::answers(pre.forge, call_of(call)->Ok_0, ForgeReply::Flag(t), post.forge));
        }
    }
}

/// The adapter is asked what the request asks, and what it tells is sent; a request
/// that does not say where is refused, and asks nothing.
pub proof fn a_pipeline_is_served<F: Forge>(
    pre: ServedForge<F>,
    repo: Option<RepoRef>,
    change: Option<ChangeRef>,
    r: Result<PipelineStatusResponseView, StatusView>,
    post: ServedForge<F>,
)
    requires
        ServedForge::<F>::serves(
            pre,
            ServiceCall::PipelineStatus { repo, change },
            ServiceReply::PipelineStatus(r),
            post,
        ),
    ensures
        (repo is None ==> post == pre && failed(r, Code::InvalidArgument, "repo is required"@)),
        (
            repo is Some && change is None ==> post == pre
                && failed(r, Code::InvalidArgument, "change is required"@)
        ),
        (repo matches Some(repo) ==> (change matches Some(change) ==> (
            exists|told: ForgeResult<PipelineStatus>| #[trigger]
                F::answers(
                    pre.forge,
                    ForgeCall::PipelineStatus { repo, change },
                    ForgeReply::Pipeline(told),
                    post.forge,
                )
                && match told {
                    Ok(v) => r matches Ok(sent) && sent.status == ci_number(v.status)
                        && sent.pipeline_id == v.pipeline_id@ && sent.pipeline_url == v.url@,
                    Err(e) => failed(r, Code::Internal, e@),
                }
        ))),
{
    let call = ServiceCall::PipelineStatus { repo, change };
    let reply = ServiceReply::PipelineStatus(r);
    if repo is Some && change is Some {
        let told = choose|told: ForgeReply| #[trigger] F::answers(
            pre.forge,
            call_of(call)->Ok_0,
            told,
            post.forge,
        ) && fits(call_of(call)->Ok_0, told@) && reply == response_to(call, told@);
        if let ForgeReply::Pipeline(t) = told {
            assert(F::answers(pre.forge, call_of(call)->Ok_0, ForgeReply::Pipeline(t), post.forge));
        }
    }
}

/// The adapter is asked what the request asks, and what it tells is sent; a request
/// that does not say where is refused, and asks nothing.
pub proof fn a_merge_is_served<F: Forge>(
    pre: ServedForge<F>,
    repo: Option<RepoRef>,
    change: Option<ChangeRef>,
    r: Result<MergeResponseView, StatusView>,
    post: ServedForge<F>,
)
    requires
        ServedForge::<F>::serves(
            pre,
            ServiceCall::Merge { repo, change },
            ServiceReply::Merge(r),
            post,
        ),
    ensures
        (repo is None ==> post == pre && failed(r, Code::InvalidArgument, "repo is required"@)),
        (
            repo is Some && change is None ==> post == pre
                && failed(r, Code::InvalidArgument, "change is required"@)
        ),
        (repo matches Some(repo) ==> (change matches Some(change) ==> (
            exists|told: ForgeResult<String>| #[trigger]
                F::answers(
                    pre.forge,
                    ForgeCall::Merge { repo, change },
                    ForgeReply::Text(told),
                    post.forge,
                )
                && match told {
                    Ok(v) => r matches Ok(sent) && sent.merge_commit_sha == v@,
                    Err(e) => failed(r, Code::Internal, e@),
                }
        ))),
{
    let call = ServiceCall::Merge { repo, change };
    let reply = ServiceReply::Merge(r);
    if repo is Some && change is Some {
        let told = choose|told: ForgeReply| #[trigger] F::answers(
            pre.forge,
            call_of(call)->Ok_0,
            told,
            post.forge,
        ) && fits(call_of(call)->Ok_0, told@) && reply == response_to(call, told@);
        if let ForgeReply::Text(t) = told {
            assert(F::answers(pre.forge, call_of(call)->Ok_0, ForgeReply::Text(t), post.forge));
        }
    }
}

/// The adapter is asked what the request asks, and what it tells is sent; a request
/// that does not say where is refused, and asks nothing.
pub proof fn a_change_state_is_served<F: Forge>(
    pre: ServedForge<F>,
    repo: Option<RepoRef>,
    change: Option<ChangeRef>,
    r: Result<GetChangeStateResponseView, StatusView>,
    post: ServedForge<F>,
)
    requires
        ServedForge::<F>::serves(
            pre,
            ServiceCall::ChangeState { repo, change },
            ServiceReply::ChangeState(r),
            post,
        ),
    ensures
        (repo is None ==> post == pre && failed(r, Code::InvalidArgument, "repo is required"@)),
        (
            repo is Some && change is None ==> post == pre
                && failed(r, Code::InvalidArgument, "change is required"@)
        ),
        (repo matches Some(repo) ==> (change matches Some(change) ==> (
            exists|told: ForgeResult<ChangeState>| #[trigger]
                F::answers(
                    pre.forge,
                    ForgeCall::ChangeState { repo, change },
                    ForgeReply::State(told),
                    post.forge,
                )
                && match told {
                    Ok(v) => r matches Ok(sent) && sent.state == state_number(v)
                        && sent.merge_commit_sha.len() == 0,
                    Err(e) => failed(r, Code::Internal, e@),
                }
        ))),
{
    let call = ServiceCall::ChangeState { repo, change };
    let reply = ServiceReply::ChangeState(r);
    if repo is Some && change is Some {
        let told = choose|told: ForgeReply| #[trigger] F::answers(
            pre.forge,
            call_of(call)->Ok_0,
            told,
            post.forge,
        ) && fits(call_of(call)->Ok_0, told@) && reply == response_to(call, told@);
        if let ForgeReply::State(t) = told {
            assert(F::answers(pre.forge, call_of(call)->Ok_0, ForgeReply::State(t), post.forge));
        }
    }
}

/// The adapter is asked what the request asks, and what it tells is sent; a request
/// that does not say where is refused, and asks nothing.
pub proof fn a_list_of_triggers_is_served<F: Forge>(
    pre: ServedForge<F>,
    repo: Option<RepoRef>,
    r: Result<ListTriggersResponseView, StatusView>,
    post: ServedForge<F>,
)
    requires
        ServedForge::<F>::serves(
            pre,
            ServiceCall::ListTriggers { repo },
            ServiceReply::ListTriggers(r),
            post,
        ),
    ensures
        (repo is None ==> post == pre && failed(r, Code::InvalidArgument, "repo is required"@)),
        (repo matches Some(repo) ==> (
            exists|told: ForgeResult<Vec<Trigger>>| #[trigger]
                F::answers(
                    pre.forge,
                    ForgeCall::ListTriggers { repo },
                    ForgeReply::Triggers(told),
                    post.forge,
                )
                && match told {
                    Ok(v) => r matches Ok(sent) && sent.triggers.len() == v@.len()
                        && (
                            forall|i: int|
                                0 <= i < v@.len() ==> #[trigger] sent.triggers[i] == v@[i]@
                        ),
                    Err(e) => failed(r, Code::Internal, e@),
                }
        )),
{
    let call = ServiceCall::ListTriggers { repo };
    let reply = ServiceReply::ListTriggers(r);
    if repo is Some {
        let told = choose|told: ForgeReply| #[trigger] F::answers(
            pre.forge,
            call_of(call)->Ok_0,
            told,
            post.forge,
        ) && fits(call_of(call)->Ok_0, told@) && reply == response_to(call, told@);
        if let ForgeReply::Triggers(t) = told {
            assert(F::answers(pre.forge, call_of(call)->Ok_0, ForgeReply::Triggers(t), post.forge));
        }
    }
}

/// The adapter is asked what the request asks, and what it tells is sent; a request
/// that does not say where is refused, and asks nothing.
pub proof fn a_trigger_is_served<F: Forge>(
    pre: ServedForge<F>,
    repo: Option<RepoRef>,
    url: Seq<char>,
    events: Seq<Seq<char>>,
    secret: Seq<char>,
    r: Result<EnsureTriggerResponseView, StatusView>,
    post: ServedForge<F>,
)
    requires
        ServedForge::<F>::serves(
            pre,
            ServiceCall::EnsureTrigger { repo, url, events, secret },
            ServiceReply::EnsureTrigger(r),
            post,
        ),
    ensures
        (repo is None ==> post == pre && failed(r, Code::InvalidArgument, "repo is required"@)),
        (repo matches Some(repo) ==> (
            exists|told: ForgeResult<EnsuredTrigger>| #[trigger]
                F::answers(
                    pre.forge,
                    ForgeCall::EnsureTrigger { repo, url, events, secret },
                    ForgeReply::Ensured(told),
                    post.forge,
                )
                && match told {
                    Ok(v) => r matches Ok(sent) && sent.trigger == Some(v.trigger@)
                        && sent.created == v.created,
                    Err(e) => failed(r, Code::Internal, e@),
                }
        )),
{
    let call = ServiceCall::EnsureTrigger { repo, url, events, secret };
    let reply = ServiceReply::EnsureTrigger(r);
    if repo is Some {
        let told = choose|told: ForgeReply| #[trigger] F::answers(
            pre.forge,
            call_of(call)->Ok_0,
            told,
            post.forge,
        ) && fits(call_of(call)->Ok_0, told@) && reply == response_to(call, told@);
        if let ForgeReply::Ensured(t) = told {
            assert(F::answers(pre.forge, call_of(call)->Ok_0, ForgeReply::Ensured(t), post.forge));
        }
    }
}

/// The adapter is asked what the request asks, and what it tells is sent; a request
/// that does not say where is refused, and asks nothing.
pub proof fn a_capabilities_is_served<F: Forge>(
    pre: ServedForge<F>,
    repo: Option<RepoRef>,
    r: Result<GetCapabilitiesResponseView, StatusView>,
    post: ServedForge<F>,
)
    requires
        ServedForge::<F>::serves(
            pre,
            ServiceCall::Capabilities { repo },
            ServiceReply::Capabilities(r),
            post,
        ),
    ensures
        (repo is None ==> post == pre && failed(r, Code::InvalidArgument, "repo is required"@)),
        (repo matches Some(_) ==> (
            exists|told: ForgeResult<ForgeCapabilities>| #[trigger]
                F::answers(
                    pre.forge,
                    ForgeCall::Capabilities,
                    ForgeReply::Capabilities(told),
                    post.forge,
                )
                && match told {
                    Ok(v) => r matches Ok(sent) && sent.capabilities == Some(v),
                    Err(e) => failed(r, Code::Internal, e@),
                }
        )),
{
    let call = ServiceCall::Capabilities { repo };
    let reply = ServiceReply::Capabilities(r);
    if repo is Some {
        let told = choose|told: ForgeReply| #[trigger] F::answers(
            pre.forge,
            call_of(call)->Ok_0,
            told,
            post.forge,
        ) && fits(call_of(call)->Ok_0, told@) && reply == response_to(call, told@);
        if let ForgeReply::Capabilities(t) = told {
            assert(
                F::answers(pre.forge, call_of(call)->Ok_0, ForgeReply::Capabilities(t), post.forge)
            );
        }
    }
}

/// The adapter is asked what the request asks, and what it tells is sent; a request
/// that does not say where is refused, and asks nothing.
pub proof fn a_check_is_served<F: Forge>(
    pre: ServedForge<F>,
    repo: Option<RepoRef>,
    head_sha: Seq<char>,
    name: Seq<char>,
    status: Seq<char>,
    conclusion: Seq<char>,
    details_url: Seq<char>,
    r: Result<WriteAckView, StatusView>,
    post: ServedForge<F>,
)
    requires
        ServedForge::<F>::serves(
            pre,
            ServiceCall::SetCheck { repo, head_sha, name, status, conclusion, details_url },
            ServiceReply::SetCheck(r),
            post,
        ),
    ensures
        (repo is None ==> post == pre && failed(r, Code::InvalidArgument, "repo is required"@)),
        (repo matches Some(repo) ==> (
            exists|told: ForgeResult<String>| #[trigger]
                F::answers(
                    pre.forge,
                    ForgeCall::SetCheck { repo, head_sha, name, status, conclusion, details_url },
                    ForgeReply::Text(told),
                    post.forge,
                )
                && match told {
                    Ok(v) => r matches Ok(sent) && sent.ok && sent.detail == v@,
                    Err(e) => failed(r, Code::Internal, e@),
                }
        )),
{
    let call = ServiceCall::SetCheck { repo, head_sha, name, status, conclusion, details_url };
    let reply = ServiceReply::SetCheck(r);
    if repo is Some {
        let told = choose|told: ForgeReply| #[trigger] F::answers(
            pre.forge,
            call_of(call)->Ok_0,
            told,
            post.forge,
        ) && fits(call_of(call)->Ok_0, told@) && reply == response_to(call, told@);
        if let ForgeReply::Text(t) = told {
            assert(F::answers(pre.forge, call_of(call)->Ok_0, ForgeReply::Text(t), post.forge));
        }
    }
}

/// The adapter is asked what the request asks, and what it tells is sent; a request
/// that does not say where is refused, and asks nothing.
pub proof fn a_comment_is_served<F: Forge>(
    pre: ServedForge<F>,
    repo: Option<RepoRef>,
    number: u64,
    body: Seq<char>,
    r: Result<WriteAckView, StatusView>,
    post: ServedForge<F>,
)
    requires
        ServedForge::<F>::serves(
            pre,
            ServiceCall::Comment { repo, number, body },
            ServiceReply::Comment(r),
            post,
        ),
    ensures
        (repo is None ==> post == pre && failed(r, Code::InvalidArgument, "repo is required"@)),
        (repo matches Some(repo) ==> (
            exists|told: ForgeResult<String>| #[trigger]
                F::answers(
                    pre.forge,
                    ForgeCall::Comment { repo, number, body },
                    ForgeReply::Text(told),
                    post.forge,
                )
                && match told {
                    Ok(v) => r matches Ok(sent) && sent.ok && sent.detail == v@,
                    Err(e) => failed(r, Code::Internal, e@),
                }
        )),
{
    let call = ServiceCall::Comment { repo, number, body };
    let reply = ServiceReply::Comment(r);
    if repo is Some {
        let told = choose|told: ForgeReply| #[trigger] F::answers(
            pre.forge,
            call_of(call)->Ok_0,
            told,
            post.forge,
        ) && fits(call_of(call)->Ok_0, told@) && reply == response_to(call, told@);
        if let ForgeReply::Text(t) = told {
            assert(F::answers(pre.forge, call_of(call)->Ok_0, ForgeReply::Text(t), post.forge));
        }
    }
}

/// The adapter is asked what the request asks, and what it tells is sent; a request
/// that does not say where is refused, and asks nothing.
pub proof fn a_deployment_is_served<F: Forge>(
    pre: ServedForge<F>,
    repo: Option<RepoRef>,
    head_sha: Seq<char>,
    git_ref: Seq<char>,
    environment: Seq<char>,
    state: Seq<char>,
    url: Seq<char>,
    log_url: Seq<char>,
    description: Seq<char>,
    r: Result<WriteAckView, StatusView>,
    post: ServedForge<F>,
)
    requires
        ServedForge::<F>::serves(
            pre,
            ServiceCall::SetDeployment {
                repo,
                head_sha,
                git_ref,
                environment,
                state,
                url,
                log_url,
                description,
            },
            ServiceReply::SetDeployment(r),
            post,
        ),
    ensures
        (repo is None ==> post == pre && failed(r, Code::InvalidArgument, "repo is required"@)),
        (repo matches Some(repo) ==> (
            exists|told: ForgeResult<String>| #[trigger]
                F::answers(
                    pre.forge,
                    ForgeCall::SetDeployment {
                        repo,
                        head_sha,
                        git_ref,
                        environment,
                        state,
                        url,
                        log_url,
                        description,
                    },
                    ForgeReply::Text(told),
                    post.forge,
                )
                && match told {
                    Ok(v) => r matches Ok(sent) && sent.ok && sent.detail == v@,
                    Err(e) => failed(r, Code::Internal, e@),
                }
        )),
{
    let call = ServiceCall::SetDeployment {
        repo,
        head_sha,
        git_ref,
        environment,
        state,
        url,
        log_url,
        description,
    };
    let reply = ServiceReply::SetDeployment(r);
    if repo is Some {
        let told = choose|told: ForgeReply| #[trigger] F::answers(
            pre.forge,
            call_of(call)->Ok_0,
            told,
            post.forge,
        ) && fits(call_of(call)->Ok_0, told@) && reply == response_to(call, told@);
        if let ForgeReply::Text(t) = told {
            assert(F::answers(pre.forge, call_of(call)->Ok_0, ForgeReply::Text(t), post.forge));
        }
    }
}

/// The adapter is asked for what it has, and what it tells is sent.
pub open spec fn lists_repos<F: Forge>(
    asked: F,
    owners: Seq<Seq<char>>,
    labels: Seq<Seq<char>>,
    r: Result<ListReposResponseView, StatusView>,
    post: ServedForge<F>,
) -> bool {
    exists|told: ForgeResult<Vec<Repository>>| #[trigger]
                F::answers(
                    asked,
                    ForgeCall::ListRepos { owners, labels },
                    ForgeReply::Repos(told),
                    post.forge,
                )
                && match told {
                    Ok(v) => r matches Ok(sent) && sent.repos == v@,
                    Err(e) => failed(r, Code::Internal, e@),
                }
}

/// Repositories are listed where the adapter declares them; a request
/// that does not say where is refused, and asks nothing.
pub proof fn a_list_of_repositories_is_served<F: Forge>(
    pre: ServedForge<F>,
    repo: Option<RepoRef>,
    owners: Seq<Seq<char>>,
    labels: Seq<Seq<char>>,
    r: Result<ListReposResponseView, StatusView>,
    post: ServedForge<F>,
)
    requires
        ServedForge::<F>::serves(
            pre,
            ServiceCall::ListRepos { repo, owners, labels },
            ServiceReply::ListRepos(r),
            post,
        ),
    ensures
        (repo is None ==> post == pre && failed(r, Code::InvalidArgument, "repo is required"@)),
        (repo matches Some(_) ==> (
            exists|told: ForgeResult<ForgeCapabilities>, asked: F| #[trigger]
                F::answers(
                    pre.forge,
                    ForgeCall::Capabilities,
                    ForgeReply::Capabilities(told),
                    asked,
                )
                && match told {
            Err(e) => post.forge == asked && failed(r, Code::Internal, e@),
            Ok(c) => if c.repos {
                lists_repos(asked, owners, labels, r, post)
            } else {
                post.forge == asked
                    && failed(
                        r,
                        Code::FailedPrecondition,
                        kind_name(
                            asked.target(),
                        ) + " does not provide `repos` (ForgeCapabilities.repos = false); call GetCapabilities before this RPC"@,
                    )
            },
        }
        )),
{
    let call = ServiceCall::ListRepos { repo, owners, labels };
    let reply = ServiceReply::ListRepos(r);
    if repo is Some {
        let (first, asked) = choose|told: ForgeReply, asked: F| #[trigger] F::answers(
            pre.forge,
            ForgeCall::Capabilities,
            told,
            asked,
        ) && match told@ {
            ReplyView::Capabilities(Err(e)) => post.forge == asked
                && reply == failure_of(call, internal(e)),
            ReplyView::Capabilities(Ok(c)) => if declares(c, call) {
                passes_on(asked, call, reply, post.forge)
            } else {
                post.forge == asked
                    && reply == failure_of(call, lacking(asked.target(), surface(call)->0))
            },
            _ => false,
        };
        if let ForgeReply::Capabilities(c) = first {
            if c is Ok && c->Ok_0.repos {
            let told = choose|told: ForgeReply| #[trigger] F::answers(
                asked,
                call_of(call)->Ok_0,
                told,
                post.forge,
            ) && fits(call_of(call)->Ok_0, told@) && reply == response_to(call, told@);
        if let ForgeReply::Repos(t) = told {
            assert(F::answers(asked, call_of(call)->Ok_0, ForgeReply::Repos(t), post.forge));
        }
            assert(lists_repos(asked, owners, labels, r, post));
            }
            assert(
                F::answers(pre.forge, ForgeCall::Capabilities, ForgeReply::Capabilities(c), asked)
            );
            if c is Ok && !c->Ok_0.repos {
                let name = kind_name(asked.target());
                assert(
                    lacking(
                        asked.target(),
                        "repos"@,
                    ).message =~= name + " does not provide `repos` (ForgeCapabilities.repos = false); call GetCapabilities before this RPC"@
                ) by {
                    reveal_strlit(" does not provide `");
                    reveal_strlit("repos");
                    reveal_strlit("` (ForgeCapabilities.");
                    reveal_strlit(" = false); call GetCapabilities before this RPC");
                    reveal_strlit(
                        " does not provide `repos` (ForgeCapabilities.repos = false); call GetCapabilities before this RPC",
                    );
                }
            }
        }
    }
}

/// The adapter is asked for what it has, and what it tells is sent.
pub open spec fn lists_issues<F: Forge>(
    asked: F,
    owners: Seq<Seq<char>>,
    labels: Seq<Seq<char>>,
    for_users: Seq<Seq<char>>,
    r: Result<ListIssuesResponseView, StatusView>,
    post: ServedForge<F>,
) -> bool {
    exists|told: ForgeResult<Vec<Issue>>| #[trigger]
                F::answers(
                    asked,
                    ForgeCall::ListIssues { owners, labels, for_users },
                    ForgeReply::Issues(told),
                    post.forge,
                )
                && match told {
                    Ok(v) => r matches Ok(sent) && sent.issues == v@,
                    Err(e) => failed(r, Code::Internal, e@),
                }
}

/// Issues are listed where the adapter declares them; a request
/// that does not say where is refused, and asks nothing.
pub proof fn a_list_of_issues_is_served<F: Forge>(
    pre: ServedForge<F>,
    repo: Option<RepoRef>,
    owners: Seq<Seq<char>>,
    labels: Seq<Seq<char>>,
    for_users: Seq<Seq<char>>,
    r: Result<ListIssuesResponseView, StatusView>,
    post: ServedForge<F>,
)
    requires
        ServedForge::<F>::serves(
            pre,
            ServiceCall::ListIssues { repo, owners, labels, for_users },
            ServiceReply::ListIssues(r),
            post,
        ),
    ensures
        (repo is None ==> post == pre && failed(r, Code::InvalidArgument, "repo is required"@)),
        (repo matches Some(_) ==> (
            exists|told: ForgeResult<ForgeCapabilities>, asked: F| #[trigger]
                F::answers(
                    pre.forge,
                    ForgeCall::Capabilities,
                    ForgeReply::Capabilities(told),
                    asked,
                )
                && match told {
            Err(e) => post.forge == asked && failed(r, Code::Internal, e@),
            Ok(c) => if c.issues {
                lists_issues(asked, owners, labels, for_users, r, post)
            } else {
                post.forge == asked
                    && failed(
                        r,
                        Code::FailedPrecondition,
                        kind_name(
                            asked.target(),
                        ) + " does not provide `issues` (ForgeCapabilities.issues = false); call GetCapabilities before this RPC"@,
                    )
            },
        }
        )),
{
    let call = ServiceCall::ListIssues { repo, owners, labels, for_users };
    let reply = ServiceReply::ListIssues(r);
    if repo is Some {
        let (first, asked) = choose|told: ForgeReply, asked: F| #[trigger] F::answers(
            pre.forge,
            ForgeCall::Capabilities,
            told,
            asked,
        ) && match told@ {
            ReplyView::Capabilities(Err(e)) => post.forge == asked
                && reply == failure_of(call, internal(e)),
            ReplyView::Capabilities(Ok(c)) => if declares(c, call) {
                passes_on(asked, call, reply, post.forge)
            } else {
                post.forge == asked
                    && reply == failure_of(call, lacking(asked.target(), surface(call)->0))
            },
            _ => false,
        };
        if let ForgeReply::Capabilities(c) = first {
            if c is Ok && c->Ok_0.issues {
            let told = choose|told: ForgeReply| #[trigger] F::answers(
                asked,
                call_of(call)->Ok_0,
                told,
                post.forge,
            ) && fits(call_of(call)->Ok_0, told@) && reply == response_to(call, told@);
        if let ForgeReply::Issues(t) = told {
            assert(F::answers(asked, call_of(call)->Ok_0, ForgeReply::Issues(t), post.forge));
        }
            assert(lists_issues(asked, owners, labels, for_users, r, post));
            }
            assert(
                F::answers(pre.forge, ForgeCall::Capabilities, ForgeReply::Capabilities(c), asked)
            );
            if c is Ok && !c->Ok_0.issues {
                let name = kind_name(asked.target());
                assert(
                    lacking(
                        asked.target(),
                        "issues"@,
                    ).message =~= name + " does not provide `issues` (ForgeCapabilities.issues = false); call GetCapabilities before this RPC"@
                ) by {
                    reveal_strlit(" does not provide `");
                    reveal_strlit("issues");
                    reveal_strlit("` (ForgeCapabilities.");
                    reveal_strlit(" = false); call GetCapabilities before this RPC");
                    reveal_strlit(
                        " does not provide `issues` (ForgeCapabilities.issues = false); call GetCapabilities before this RPC",
                    );
                }
            }
        }
    }
}

/// The adapter is asked for what it has, and what it tells is sent.
pub open spec fn lists_pull_requests<F: Forge>(
    asked: F,
    owners: Seq<Seq<char>>,
    labels: Seq<Seq<char>>,
    for_users: Seq<Seq<char>>,
    r: Result<ListPullRequestsResponseView, StatusView>,
    post: ServedForge<F>,
) -> bool {
    exists|told: ForgeResult<Vec<PullRequest>>| #[trigger]
                F::answers(
                    asked,
                    ForgeCall::ListPullRequests { owners, labels, for_users },
                    ForgeReply::PullRequests(told),
                    post.forge,
                )
                && match told {
                    Ok(v) => r matches Ok(sent) && sent.prs == v@,
                    Err(e) => failed(r, Code::Internal, e@),
                }
}

/// Pull requests are listed where the adapter declares them; a request
/// that does not say where is refused, and asks nothing.
pub proof fn a_list_of_pull_requests_is_served<F: Forge>(
    pre: ServedForge<F>,
    repo: Option<RepoRef>,
    owners: Seq<Seq<char>>,
    labels: Seq<Seq<char>>,
    for_users: Seq<Seq<char>>,
    r: Result<ListPullRequestsResponseView, StatusView>,
    post: ServedForge<F>,
)
    requires
        ServedForge::<F>::serves(
            pre,
            ServiceCall::ListPullRequests { repo, owners, labels, for_users },
            ServiceReply::ListPullRequests(r),
            post,
        ),
    ensures
        (repo is None ==> post == pre && failed(r, Code::InvalidArgument, "repo is required"@)),
        (repo matches Some(_) ==> (
            exists|told: ForgeResult<ForgeCapabilities>, asked: F| #[trigger]
                F::answers(
                    pre.forge,
                    ForgeCall::Capabilities,
                    ForgeReply::Capabilities(told),
                    asked,
                )
                && match told {
            Err(e) => post.forge == asked && failed(r, Code::Internal, e@),
            Ok(c) => if c.pull_requests {
                lists_pull_requests(asked, owners, labels, for_users, r, post)
            } else {
                post.forge == asked
                    && failed(
                        r,
                        Code::FailedPrecondition,
                        kind_name(
                            asked.target(),
                        ) + " does not provide `pull_requests` (ForgeCapabilities.pull_requests = false); call GetCapabilities before this RPC"@,
                    )
            },
        }
        )),
{
    let call = ServiceCall::ListPullRequests { repo, owners, labels, for_users };
    let reply = ServiceReply::ListPullRequests(r);
    if repo is Some {
        let (first, asked) = choose|told: ForgeReply, asked: F| #[trigger] F::answers(
            pre.forge,
            ForgeCall::Capabilities,
            told,
            asked,
        ) && match told@ {
            ReplyView::Capabilities(Err(e)) => post.forge == asked
                && reply == failure_of(call, internal(e)),
            ReplyView::Capabilities(Ok(c)) => if declares(c, call) {
                passes_on(asked, call, reply, post.forge)
            } else {
                post.forge == asked
                    && reply == failure_of(call, lacking(asked.target(), surface(call)->0))
            },
            _ => false,
        };
        if let ForgeReply::Capabilities(c) = first {
            if c is Ok && c->Ok_0.pull_requests {
            let told = choose|told: ForgeReply| #[trigger] F::answers(
                asked,
                call_of(call)->Ok_0,
                told,
                post.forge,
            ) && fits(call_of(call)->Ok_0, told@) && reply == response_to(call, told@);
        if let ForgeReply::PullRequests(t) = told {
            assert(F::answers(asked, call_of(call)->Ok_0, ForgeReply::PullRequests(t), post.forge));
        }
            assert(lists_pull_requests(asked, owners, labels, for_users, r, post));
            }
            assert(
                F::answers(pre.forge, ForgeCall::Capabilities, ForgeReply::Capabilities(c), asked)
            );
            if c is Ok && !c->Ok_0.pull_requests {
                let name = kind_name(asked.target());
                assert(
                    lacking(
                        asked.target(),
                        "pull_requests"@,
                    ).message =~= name + " does not provide `pull_requests` (ForgeCapabilities.pull_requests = false); call GetCapabilities before this RPC"@
                ) by {
                    reveal_strlit(" does not provide `");
                    reveal_strlit("pull_requests");
                    reveal_strlit("` (ForgeCapabilities.");
                    reveal_strlit(" = false); call GetCapabilities before this RPC");
                    reveal_strlit(
                        " does not provide `pull_requests` (ForgeCapabilities.pull_requests = false); call GetCapabilities before this RPC",
                    );
                }
            }
        }
    }
}

// ── geetch ──────────────────────────────────────────────────────────────────

/// An address with a scheme is its own endpoint; a bare one is reached over `http`.
pub proof fn a_bare_address_is_reached_over_http(addr: &str, r: String)
    requires
        call_ensures(geetch::endpoint_url, (addr,), r),
    ensures
        "http://"@.is_prefix_of(r@) || "https://"@.is_prefix_of(r@),
        r@ == addr@ || r@ == "http://"@ + addr@,
        r@ != addr@ ==> !"http://"@.is_prefix_of(addr@) && !"https://"@.is_prefix_of(addr@),
{
    assert(("http://"@ + addr@).take("http://"@.len() as int) =~= "http://"@);
}

/// What was wrong with an address, and with which.
pub proof fn addresses_are_told(
    addr: &str,
    cause: &str,
    url: String,
    bad: ForgeError,
    deaf: ForgeError,
    s: Status,
    e: ForgeError,
)
    requires
        call_ensures(geetch::endpoint_url, (addr,), url),
        call_ensures(geetch::invalid_address, (addr, cause), bad),
        call_ensures(geetch::unreachable_address, (addr, cause), deaf),
        call_ensures(geetch::err, (s,), e),
    ensures
        bad@ == "invalid geetch address "@ + debug_text(addr@) + ": "@ + cause@,
        deaf@ == "could not reach geetch at "@ + url@ + ": "@ + cause@,
        e@ == s.message@,
{
}

/// The service is asked for its capabilities with nothing but the forge named. What it
/// declares is what is declared, nothing where it names none; only a service that does not
/// know the question is taken to have triggers.
pub proof fn capabilities_are_geetch_s<S: ForgeService>(
    pre: GeetchForge<S>,
    r: ForgeResult<ForgeCapabilities>,
    post: GeetchForge<S>,
)
    requires
        GeetchForge::<S>::answers(pre, ForgeCall::Capabilities, ForgeReply::Capabilities(r), post),
    ensures
        exists|repo: RepoRef, sent: Result<GetCapabilitiesResponseView, StatusView>| #[trigger]
            S::serves(
                pre.service,
                ServiceCall::Capabilities { repo: Some(repo) },
                ServiceReply::Capabilities(sent),
                post.service,
            )
            && repo.forge == 3 && repo.host@.len() == 0 && repo.owner@.len() == 0
            && repo.name@.len() == 0 && match sent {
            Ok(v) => r matches Ok(told) && match v.capabilities {
                Some(c) => told == c,
                None => !told.triggers && !told.issues && !told.checks && !told.comments
                    && !told.deployments && !told.repos && !told.pull_requests,
            },
            Err(s) => if s.code == Code::Unimplemented {
                r matches Ok(told) && told.triggers && !told.issues && !told.checks
                    && !told.comments && !told.deployments && !told.repos && !told.pull_requests
            } else {
                r matches Err(e) && e@ == s.message
            },
        },
{
    let (repo, reply) = choose|repo: RepoRef, sent: ServiceReply|
        geetch::selector(repo) && #[trigger] S::serves(
        pre.service,
        ServiceCall::Capabilities { repo: Some(repo) },
        sent,
        post.service,
    ) && sent is Capabilities && Some(ForgeReply::Capabilities(r)@) == unwrapped(sent);
    let sent = reply->Capabilities_0;
    assert(
        S::serves(
            pre.service,
            ServiceCall::Capabilities { repo: Some(repo) },
            ServiceReply::Capabilities(sent),
            post.service,
        )
    );
}

/// geetch is asked for what the caller asks, and what it sends is what the caller gets.
pub proof fn a_default_branch_is_geetch_s<S: ForgeService>(
    pre: GeetchForge<S>,
    repo: RepoRef,
    r: ForgeResult<String>,
    post: GeetchForge<S>,
)
    requires
        GeetchForge::<S>::answers(
            pre,
            ForgeCall::DefaultBranch { repo },
            ForgeReply::Text(r),
            post,
        ),
    ensures
        exists|sent: Result<GetDefaultBranchResponseView, StatusView>| #[trigger]
            S::serves(
                pre.service,
                ServiceCall::DefaultBranch { repo: Some(repo) },
                ServiceReply::DefaultBranch(sent),
                post.service,
            )
            && match sent {
            Ok(v) => r matches Ok(told) && told@ == v.branch,
            Err(s) => r matches Err(e) && e@ == s.message,
        },
{
    let request = ServiceCall::DefaultBranch { repo: Some(repo) };
    let reply = choose|sent: ServiceReply| #[trigger] S::serves(
        pre.service,
        request,
        sent,
        post.service,
    ) && replies(request, sent) && Some(ForgeReply::Text(r)@) == unwrapped(sent);
    let sent = reply->DefaultBranch_0;
    assert(S::serves(pre.service, request, ServiceReply::DefaultBranch(sent), post.service));
}

/// geetch is asked for what the caller asks, and what it sends is what the caller gets.
pub proof fn a_file_is_geetch_s<S: ForgeService>(
    pre: GeetchForge<S>,
    repo: RepoRef,
    path: Seq<char>,
    at: Seq<char>,
    r: ForgeResult<Option<FileBlob>>,
    post: GeetchForge<S>,
)
    requires
        GeetchForge::<S>::answers(
            pre,
            ForgeCall::ReadFile { repo, path, at },
            ForgeReply::File(r),
            post,
        ),
    ensures
        exists|sent: Result<ReadFileResponseView, StatusView>| #[trigger]
            S::serves(
                pre.service,
                ServiceCall::ReadFile { repo: Some(repo), path, at },
                ServiceReply::ReadFile(sent),
                post.service,
            )
            && match sent {
            Ok(v) => r matches Ok(told)
                && (
                    match v.blob {
                        Some(f) => told matches Some(t) && t@ == f,
                        None => told is None,
                    }
                ),
            Err(s) => r matches Err(e) && e@ == s.message,
        },
{
    let request = ServiceCall::ReadFile { repo: Some(repo), path, at };
    let reply = choose|sent: ServiceReply| #[trigger] S::serves(
        pre.service,
        request,
        sent,
        post.service,
    ) && replies(request, sent) && Some(ForgeReply::File(r)@) == unwrapped(sent);
    let sent = reply->ReadFile_0;
    assert(S::serves(pre.service, request, ServiceReply::ReadFile(sent), post.service));
}

/// geetch is asked for what the caller asks, and what it sends is what the caller gets.
pub proof fn a_branch_is_geetch_s<S: ForgeService>(
    pre: GeetchForge<S>,
    repo: RepoRef,
    name: Seq<char>,
    from_ref: Seq<char>,
    r: ForgeResult<BranchOutcome>,
    post: GeetchForge<S>,
)
    requires
        GeetchForge::<S>::answers(
            pre,
            ForgeCall::CreateBranch { repo, name, from_ref },
            ForgeReply::Branch(r),
            post,
        ),
    ensures
        exists|sent: Result<CreateBranchResponseView, StatusView>| #[trigger]
            S::serves(
                pre.service,
                ServiceCall::CreateBranch { repo: Some(repo), name, from_sha: from_ref },
                ServiceReply::CreateBranch(sent),
                post.service,
            )
            && match sent {
            Ok(v) => r matches Ok(told) && told.created == v.created
                && told.already_existed == v.already_existed,
            Err(s) => r matches Err(e) && e@ == s.message,
        },
{
    let request = ServiceCall::CreateBranch { repo: Some(repo), name, from_sha: from_ref };
    let reply = choose|sent: ServiceReply| #[trigger] S::serves(
        pre.service,
        request,
        sent,
        post.service,
    ) && replies(request, sent) && Some(ForgeReply::Branch(r)@) == unwrapped(sent);
    let sent = reply->CreateBranch_0;
    assert(S::serves(pre.service, request, ServiceReply::CreateBranch(sent), post.service));
}

/// geetch is asked for what the caller asks, and what it sends is what the caller gets.
pub proof fn a_commit_is_geetch_s<S: ForgeService>(
    pre: GeetchForge<S>,
    repo: RepoRef,
    branch: Seq<char>,
    path: Seq<char>,
    content: Seq<char>,
    blob_sha: Seq<char>,
    message: Seq<char>,
    r: ForgeResult<String>,
    post: GeetchForge<S>,
)
    requires
        GeetchForge::<S>::answers(
            pre,
            ForgeCall::CommitFile { repo, branch, path, content, blob_sha, message },
            ForgeReply::Text(r),
            post,
        ),
    ensures
        exists|sent: Result<CommitFileResponseView, StatusView>| #[trigger]
            S::serves(
                pre.service,
                ServiceCall::CommitFile {
                    repo: Some(repo),
                    branch,
                    path,
                    content,
                    blob_sha,
                    message,
                },
                ServiceReply::CommitFile(sent),
                post.service,
            )
            && match sent {
            Ok(v) => r matches Ok(told) && told@ == v.commit_sha,
            Err(s) => r matches Err(e) && e@ == s.message,
        },
{
    let request = ServiceCall::CommitFile {
        repo: Some(repo),
        branch,
        path,
        content,
        blob_sha,
        message,
    };
    let reply = choose|sent: ServiceReply| #[trigger] S::serves(
        pre.service,
        request,
        sent,
        post.service,
    ) && replies(request, sent) && Some(ForgeReply::Text(r)@) == unwrapped(sent);
    let sent = reply->CommitFile_0;
    assert(S::serves(pre.service, request, ServiceReply::CommitFile(sent), post.service));
}

/// geetch is asked for what the caller asks, and what it sends is what the caller gets.
pub proof fn a_change_is_geetch_s<S: ForgeService>(
    pre: GeetchForge<S>,
    repo: RepoRef,
    head: Seq<char>,
    base: Seq<char>,
    title: Seq<char>,
    body: Seq<char>,
    remove_source_branch: bool,
    r: ForgeResult<OpenedChange>,
    post: GeetchForge<S>,
)
    requires
        GeetchForge::<S>::answers(
            pre,
            ForgeCall::OpenChange { repo, head, base, title, body, remove_source_branch },
            ForgeReply::Change(r),
            post,
        ),
    ensures
        exists|sent: Result<OpenChangeResponseView, StatusView>| #[trigger]
            S::serves(
                pre.service,
                ServiceCall::OpenChange {
                    repo: Some(repo),
                    head,
                    base,
                    title,
                    body,
                    remove_source_branch,
                },
                ServiceReply::OpenChange(sent),
                post.service,
            )
            && match sent {
            Ok(v) => r matches Ok(told)
                && (
                    match v.change {
                        Some(c) => told.change@ == c,
                        None => told.change.number == 0 && told.change.url@.len() == 0
                            && told.change.branch@.len() == 0 && told.change.id@.len() == 0,
                    }
                )
                && told.already_existed == v.already_existed,
            Err(s) => r matches Err(e) && e@ == s.message,
        },
{
    let request = ServiceCall::OpenChange {
        repo: Some(repo),
        head,
        base,
        title,
        body,
        remove_source_branch,
    };
    let reply = choose|sent: ServiceReply| #[trigger] S::serves(
        pre.service,
        request,
        sent,
        post.service,
    ) && replies(request, sent) && Some(ForgeReply::Change(r)@) == unwrapped(sent);
    let sent = reply->OpenChange_0;
    assert(S::serves(pre.service, request, ServiceReply::OpenChange(sent), post.service));
}

/// geetch is asked for what the caller asks, and what it sends is what the caller gets.
pub proof fn an_auto_merge_is_geetch_s<S: ForgeService>(
    pre: GeetchForge<S>,
    repo: RepoRef,
    change: ChangeRef,
    r: ForgeResult<bool>,
    post: GeetchForge<S>,
)
    requires
        GeetchForge::<S>::answers(
            pre,
            ForgeCall::EnableAutoMerge { repo, change },
            ForgeReply::Flag(r),
            post,
        ),
    ensures
        exists|sent: Result<EnableAutoMergeResponseView, StatusView>| #[trigger]
            S::serves(
                pre.service,
                ServiceCall::EnableAutoMerge { repo: Some(repo), change: Some(change) },
                ServiceReply::EnableAutoMerge(sent),
                post.service,
            )
            && match sent {
            Ok(v) => r matches Ok(told) && told == v.enabled,
            Err(s) => r matches Err(e) && e@ == s.message,
        },
{
    let request = ServiceCall::EnableAutoMerge { repo: Some(repo), change: Some(change) };
    let reply = choose|sent: ServiceReply| #[trigger] S::serves(
        pre.service,
        request,
        sent,
        post.service,
    ) && replies(request, sent) && Some(ForgeReply::Flag(r)@) == unwrapped(sent);
    let sent = reply->EnableAutoMerge_0;
    assert(S::serves(pre.service, request, ServiceReply::EnableAutoMerge(sent), post.service));
}

/// geetch is asked for what the caller asks, and what it sends is what the caller gets.
pub proof fn a_pipeline_is_geetch_s<S: ForgeService>(
    pre: GeetchForge<S>,
    repo: RepoRef,
    change: ChangeRef,
    r: ForgeResult<PipelineStatus>,
    post: GeetchForge<S>,
)
    requires
        GeetchForge::<S>::answers(
            pre,
            ForgeCall::PipelineStatus { repo, change },
            ForgeReply::Pipeline(r),
            post,
        ),
    ensures
        exists|sent: Result<PipelineStatusResponseView, StatusView>| #[trigger]
            S::serves(
                pre.service,
                ServiceCall::PipelineStatus { repo: Some(repo), change: Some(change) },
                ServiceReply::PipelineStatus(sent),
                post.service,
            )
            && match sent {
            Ok(v) => r matches Ok(told) && told.pipeline_id@ == v.pipeline_id
                && told.url@ == v.pipeline_url
                && (0 <= v.status <= 6 ==> ci_number(told.status) == v.status)
                && (!(0 <= v.status <= 6) ==> told.status is Unspecified),
            Err(s) => r matches Err(e) && e@ == s.message,
        },
{
    let request = ServiceCall::PipelineStatus { repo: Some(repo), change: Some(change) };
    let reply = choose|sent: ServiceReply| #[trigger] S::serves(
        pre.service,
        request,
        sent,
        post.service,
    ) && replies(request, sent) && Some(ForgeReply::Pipeline(r)@) == unwrapped(sent);
    let sent = reply->PipelineStatus_0;
    assert(S::serves(pre.service, request, ServiceReply::PipelineStatus(sent), post.service));
    if let Ok(v) = sent {
        numbers_stand_for_statuses(v.status);
    }
}

/// geetch is asked for what the caller asks, and what it sends is what the caller gets.
pub proof fn a_merge_is_geetch_s<S: ForgeService>(
    pre: GeetchForge<S>,
    repo: RepoRef,
    change: ChangeRef,
    r: ForgeResult<String>,
    post: GeetchForge<S>,
)
    requires
        GeetchForge::<S>::answers(
            pre,
            ForgeCall::Merge { repo, change },
            ForgeReply::Text(r),
            post,
        ),
    ensures
        exists|sent: Result<MergeResponseView, StatusView>| #[trigger]
            S::serves(
                pre.service,
                ServiceCall::Merge { repo: Some(repo), change: Some(change) },
                ServiceReply::Merge(sent),
                post.service,
            )
            && match sent {
            Ok(v) => r matches Ok(told) && told@ == v.merge_commit_sha,
            Err(s) => r matches Err(e) && e@ == s.message,
        },
{
    let request = ServiceCall::Merge { repo: Some(repo), change: Some(change) };
    let reply = choose|sent: ServiceReply| #[trigger] S::serves(
        pre.service,
        request,
        sent,
        post.service,
    ) && replies(request, sent) && Some(ForgeReply::Text(r)@) == unwrapped(sent);
    let sent = reply->Merge_0;
    assert(S::serves(pre.service, request, ServiceReply::Merge(sent), post.service));
}

/// geetch is asked for what the caller asks, and what it sends is what the caller gets.
pub proof fn a_change_state_is_geetch_s<S: ForgeService>(
    pre: GeetchForge<S>,
    repo: RepoRef,
    change: ChangeRef,
    r: ForgeResult<ChangeState>,
    post: GeetchForge<S>,
)
    requires
        GeetchForge::<S>::answers(
            pre,
            ForgeCall::ChangeState { repo, change },
            ForgeReply::State(r),
            post,
        ),
    ensures
        exists|sent: Result<GetChangeStateResponseView, StatusView>| #[trigger]
            S::serves(
                pre.service,
                ServiceCall::ChangeState { repo: Some(repo), change: Some(change) },
                ServiceReply::ChangeState(sent),
                post.service,
            )
            && match sent {
            Ok(v) => r matches Ok(told) && (0 <= v.state <= 3 ==> state_number(told) == v.state)
                && (!(0 <= v.state <= 3) ==> told is Unspecified),
            Err(s) => r matches Err(e) && e@ == s.message,
        },
{
    let request = ServiceCall::ChangeState { repo: Some(repo), change: Some(change) };
    let reply = choose|sent: ServiceReply| #[trigger] S::serves(
        pre.service,
        request,
        sent,
        post.service,
    ) && replies(request, sent) && Some(ForgeReply::State(r)@) == unwrapped(sent);
    let sent = reply->ChangeState_0;
    assert(S::serves(pre.service, request, ServiceReply::ChangeState(sent), post.service));
    if let Ok(v) = sent {
        numbers_stand_for_states(v.state);
    }
}

/// geetch is asked for what the caller asks, and what it sends is what the caller gets.
pub proof fn a_list_of_triggers_is_geetch_s<S: ForgeService>(
    pre: GeetchForge<S>,
    repo: RepoRef,
    r: ForgeResult<Vec<Trigger>>,
    post: GeetchForge<S>,
)
    requires
        GeetchForge::<S>::answers(
            pre,
            ForgeCall::ListTriggers { repo },
            ForgeReply::Triggers(r),
            post,
        ),
    ensures
        exists|sent: Result<ListTriggersResponseView, StatusView>| #[trigger]
            S::serves(
                pre.service,
                ServiceCall::ListTriggers { repo: Some(repo) },
                ServiceReply::ListTriggers(sent),
                post.service,
            )
            && match sent {
            Ok(v) => r matches Ok(told) && told@.len() == v.triggers.len()
                && (
                    forall|i: int| 0 <= i < told@.len() ==> (#[trigger] told@[i])@ == v.triggers[i]
                ),
            Err(s) => r matches Err(e) && e@ == s.message,
        },
{
    let request = ServiceCall::ListTriggers { repo: Some(repo) };
    let reply = choose|sent: ServiceReply| #[trigger] S::serves(
        pre.service,
        request,
        sent,
        post.service,
    ) && replies(request, sent) && Some(ForgeReply::Triggers(r)@) == unwrapped(sent);
    let sent = reply->ListTriggers_0;
    assert(S::serves(pre.service, request, ServiceReply::ListTriggers(sent), post.service));
    if let (Ok(v), Ok(told)) = (sent, r) {
        assert(v.triggers == trigger_views(told@));
    }
}

/// geetch is asked for what the caller asks, and what it sends is what the caller gets.
pub proof fn a_trigger_is_geetch_s<S: ForgeService>(
    pre: GeetchForge<S>,
    repo: RepoRef,
    url: Seq<char>,
    events: Seq<Seq<char>>,
    secret: Seq<char>,
    r: ForgeResult<EnsuredTrigger>,
    post: GeetchForge<S>,
)
    requires
        GeetchForge::<S>::answers(
            pre,
            ForgeCall::EnsureTrigger { repo, url, events, secret },
            ForgeReply::Ensured(r),
            post,
        ),
    ensures
        exists|sent: Result<EnsureTriggerResponseView, StatusView>| #[trigger]
            S::serves(
                pre.service,
                ServiceCall::EnsureTrigger { repo: Some(repo), url, events, secret },
                ServiceReply::EnsureTrigger(sent),
                post.service,
            )
            && match sent {
            Ok(v) => r matches Ok(told)
                && (
                    match v.trigger {
                        Some(t) => told.trigger@ == t,
                        None => told.trigger.id@.len() == 0 && told.trigger.url@.len() == 0
                            && told.trigger.events@.len() == 0 && !told.trigger.active
                            && told.trigger.target@.len() == 0,
                    }
                )
                && told.created == v.created,
            Err(s) => r matches Err(e) && e@ == s.message,
        },
{
    let request = ServiceCall::EnsureTrigger { repo: Some(repo), url, events, secret };
    let reply = choose|sent: ServiceReply| #[trigger] S::serves(
        pre.service,
        request,
        sent,
        post.service,
    ) && replies(request, sent) && Some(ForgeReply::Ensured(r)@) == unwrapped(sent);
    let sent = reply->EnsureTrigger_0;
    assert(S::serves(pre.service, request, ServiceReply::EnsureTrigger(sent), post.service));
    if let (Ok(v), Ok(told)) = (sent, r) {
        if v.trigger is None {
            assert(texts(told.trigger.events@).len() == 0);
        }
    }
}

/// geetch does not serve `set_check`: the service is not asked, and the refusal names it.
pub proof fn a_check_is_refused_by_geetch<S: ForgeService>(
    pre: GeetchForge<S>,
    repo: RepoRef,
    head_sha: Seq<char>,
    name: Seq<char>,
    status: Seq<char>,
    conclusion: Seq<char>,
    details_url: Seq<char>,
    r: ForgeResult<String>,
    post: GeetchForge<S>,
)
    requires
        GeetchForge::<S>::answers(
            pre,
            ForgeCall::SetCheck { repo, head_sha, name, status, conclusion, details_url },
            ForgeReply::Text(r),
            post,
        ),
    ensures
        post == pre,
        r matches Err(e) && e@ == "set_check not supported by this forge adapter"@,
{
    reveal_strlit("set_check");
    reveal_strlit(" not supported by this forge adapter");
    reveal_strlit("set_check not supported by this forge adapter");
    assert("set_check"@ + " not supported by this forge adapter"@
        =~= "set_check not supported by this forge adapter"@);
}

/// geetch does not serve `comment`: the service is not asked, and the refusal names it.
pub proof fn a_comment_is_refused_by_geetch<S: ForgeService>(
    pre: GeetchForge<S>,
    repo: RepoRef,
    number: u64,
    body: Seq<char>,
    r: ForgeResult<String>,
    post: GeetchForge<S>,
)
    requires
        GeetchForge::<S>::answers(
            pre,
            ForgeCall::Comment { repo, number, body },
            ForgeReply::Text(r),
            post,
        ),
    ensures
        post == pre,
        r matches Err(e) && e@ == "comment not supported by this forge adapter"@,
{
    reveal_strlit("comment");
    reveal_strlit(" not supported by this forge adapter");
    reveal_strlit("comment not supported by this forge adapter");
    assert("comment"@ + " not supported by this forge adapter"@
        =~= "comment not supported by this forge adapter"@);
}

/// geetch does not serve `set_deployment`: the service is not asked, and the refusal names it.
pub proof fn a_deployment_is_refused_by_geetch<S: ForgeService>(
    pre: GeetchForge<S>,
    repo: RepoRef,
    head_sha: Seq<char>,
    git_ref: Seq<char>,
    environment: Seq<char>,
    state: Seq<char>,
    url: Seq<char>,
    log_url: Seq<char>,
    description: Seq<char>,
    r: ForgeResult<String>,
    post: GeetchForge<S>,
)
    requires
        GeetchForge::<S>::answers(
            pre,
            ForgeCall::SetDeployment {
                repo,
                head_sha,
                git_ref,
                environment,
                state,
                url,
                log_url,
                description,
            },
            ForgeReply::Text(r),
            post,
        ),
    ensures
        post == pre,
        r matches Err(e) && e@ == "set_deployment not supported by this forge adapter"@,
{
    reveal_strlit("set_deployment");
    reveal_strlit(" not supported by this forge adapter");
    reveal_strlit("set_deployment not supported by this forge adapter");
    assert("set_deployment"@ + " not supported by this forge adapter"@
        =~= "set_deployment not supported by this forge adapter"@);
}

/// geetch does not serve `list_repos`: the service is not asked, and the refusal names it.
pub proof fn a_list_of_repositories_is_refused_by_geetch<S: ForgeService>(
    pre: GeetchForge<S>,
    owners: Seq<Seq<char>>,
    labels: Seq<Seq<char>>,
    r: ForgeResult<Vec<Repository>>,
    post: GeetchForge<S>,
)
    requires
        GeetchForge::<S>::answers(
            pre,
            ForgeCall::ListRepos { owners, labels },
            ForgeReply::Repos(r),
            post,
        ),
    ensures
        post == pre,
        r matches Err(e) && e@ == "list_repos not supported by this forge adapter"@,
{
    reveal_strlit("list_repos");
    reveal_strlit(" not supported by this forge adapter");
    reveal_strlit("list_repos not supported by this forge adapter");
    assert("list_repos"@ + " not supported by this forge adapter"@
        =~= "list_repos not supported by this forge adapter"@);
}

/// geetch does not serve `list_issues`: the service is not asked, and the refusal names it.
pub proof fn a_list_of_issues_is_refused_by_geetch<S: ForgeService>(
    pre: GeetchForge<S>,
    owners: Seq<Seq<char>>,
    labels: Seq<Seq<char>>,
    for_users: Seq<Seq<char>>,
    r: ForgeResult<Vec<Issue>>,
    post: GeetchForge<S>,
)
    requires
        GeetchForge::<S>::answers(
            pre,
            ForgeCall::ListIssues { owners, labels, for_users },
            ForgeReply::Issues(r),
            post,
        ),
    ensures
        post == pre,
        r matches Err(e) && e@ == "list_issues not supported by this forge adapter"@,
{
    reveal_strlit("list_issues");
    reveal_strlit(" not supported by this forge adapter");
    reveal_strlit("list_issues not supported by this forge adapter");
    assert("list_issues"@ + " not supported by this forge adapter"@
        =~= "list_issues not supported by this forge adapter"@);
}

/// geetch does not serve `list_pull_requests`: the service is not asked, and the refusal names it.
pub proof fn a_list_of_pull_requests_is_refused_by_geetch<S: ForgeService>(
    pre: GeetchForge<S>,
    owners: Seq<Seq<char>>,
    labels: Seq<Seq<char>>,
    for_users: Seq<Seq<char>>,
    r: ForgeResult<Vec<PullRequest>>,
    post: GeetchForge<S>,
)
    requires
        GeetchForge::<S>::answers(
            pre,
            ForgeCall::ListPullRequests { owners, labels, for_users },
            ForgeReply::PullRequests(r),
            post,
        ),
    ensures
        post == pre,
        r matches Err(e) && e@ == "list_pull_requests not supported by this forge adapter"@,
{
    reveal_strlit("list_pull_requests");
    reveal_strlit(" not supported by this forge adapter");
    reveal_strlit("list_pull_requests not supported by this forge adapter");
    assert("list_pull_requests"@ + " not supported by this forge adapter"@
        =~= "list_pull_requests not supported by this forge adapter"@);
}

} // verus!
