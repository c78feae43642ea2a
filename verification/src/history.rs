//! What holds of the double over a history of calls.

use crate::forge::{slug, ForgeCall, ReplyView};
use crate::messages::{ChangeState, CiStatus};
use crate::search::{first_index_at, first_index_facts, first_index_none};
use crate::testing::{ChangeModel, ForgeModel, RepoModel};
use vstd::prelude::*;

verus! {

/// What can happen to the double.
pub enum Event {
    Call(ForgeCall),
    Seeded { slug: Seq<char>, default_branch: Seq<char> },
    Failing { method: Seq<char>, msg: Seq<char> },
    CiSet { slug: Seq<char>, number: nat, status: CiStatus },
}

/// What a call does to the double and what it replies: its step.
#[verifier::opaque]
pub open spec fn stepped(m: ForgeModel, call: ForgeCall) -> (ForgeModel, ReplyView) {
    m.step(call)
}

/// The double after an event.
pub open spec fn after(m: ForgeModel, event: Event) -> ForgeModel {
    match event {
        Event::Call(call) => stepped(m, call).0,
        Event::Seeded { slug, default_branch } => m.seeded_with(slug, default_branch),
        Event::Failing { method, msg } => ForgeModel { pending: Some((method, msg)), ..m },
        Event::CiSet { slug, number, status } => m.with_ci(slug, number, status),
    }
}

/// The double after all of them.
pub open spec fn replay(m: ForgeModel, events: Seq<Event>) -> ForgeModel
    decreases events.len(),
{
    if events.len() == 0 {
        m
    } else {
        after(replay(m, events.drop_last()), events.last())
    }
}

// ── one step ────────────────────────────────────────────────────────────────

/// The repository that a call is about.
pub open spec fn subject(call: ForgeCall) -> Option<Seq<char>> {
    match call {
        ForgeCall::DefaultBranch { repo } => Some(slug(repo@)),
        ForgeCall::ReadFile { repo, .. } => Some(slug(repo@)),
        ForgeCall::CreateBranch { repo, .. } => Some(slug(repo@)),
        ForgeCall::CommitFile { repo, .. } => Some(slug(repo@)),
        ForgeCall::OpenChange { repo, .. } => Some(slug(repo@)),
        ForgeCall::EnableAutoMerge { repo, .. } => Some(slug(repo@)),
        ForgeCall::PipelineStatus { repo, .. } => Some(slug(repo@)),
        ForgeCall::Merge { repo, .. } => Some(slug(repo@)),
        ForgeCall::ChangeState { repo, .. } => Some(slug(repo@)),
        ForgeCall::ListTriggers { repo } => Some(slug(repo@)),
        ForgeCall::EnsureTrigger { repo, .. } => Some(slug(repo@)),
        _ => None,
    }
}

/// The repository after a call on it.
pub open spec fn repo_after(call: ForgeCall, r: RepoModel) -> RepoModel {
    match call {
        ForgeCall::CreateBranch { name, from_ref, .. } => r.create_branch(name, from_ref).0,
        ForgeCall::CommitFile { branch, path, content, .. } => r.commit_file(
            branch,
            path,
            content,
        ).0,
        ForgeCall::OpenChange { repo, head, base, .. } => r.open_change(
            slug(repo@),
            head,
            base,
        ).0,
        ForgeCall::EnableAutoMerge { change, .. } => r.enable_auto_merge(change.number as nat).0,
        ForgeCall::Merge { change, .. } => r.merge(change.number as nat).0,
        ForgeCall::EnsureTrigger { url, events, .. } => r.ensure_trigger(url, events).0,
        _ => r,
    }
}

/// A call changes the repository that it is about, or none; and it is one more call.
#[verifier::rlimit(50)]
#[verifier::spinoff_prover]
proof fn step_is_local(m: ForgeModel, call: ForgeCall) -> (acted: bool)
    ensures
        acted ==> subject(call) is Some && m.repos.contains_key(subject(call)->0),
        stepped(m, call).0.repos == if acted {
            m.repos.insert(subject(call)->0, repo_after(call, m.repos[subject(call)->0]))
        } else {
            m.repos
        },
        stepped(m, call).0.calls.len() == m.calls.len() + 1,
        call matches ForgeCall::EnableAutoMerge { change, .. } ==> ((stepped(
            m,
            call,
        ).1 matches ReplyView::Flag(Ok(_))) <==> acted && m.repos[subject(call)->0].numbered(
            change.number as nat,
        ) is Some),
        call matches ForgeCall::Merge { change, .. } ==> ((stepped(
            m,
            call,
        ).1 matches ReplyView::Text(Ok(_))) <==> acted && m.repos[subject(
            call,
        )->0].change_state(change.number as nat) == Ok::<ChangeState, Seq<char>>(
            ChangeState::Open,
        )),
{
    reveal(stepped);
    let n = m.step(call).0;
    let entered = subject(call) is Some && m.repos.contains_key(subject(call)->0) && match call {
        ForgeCall::DefaultBranch { .. } => m.enter("default_branch"@).1 is Ok,
        ForgeCall::ReadFile { .. } => m.enter("read_file"@).1 is Ok,
        ForgeCall::CreateBranch { .. } => m.enter("create_branch"@).1 is Ok,
        ForgeCall::CommitFile { .. } => m.enter("commit_file"@).1 is Ok,
        ForgeCall::OpenChange { .. } => m.enter("open_change"@).1 is Ok,
        ForgeCall::EnableAutoMerge { .. } => m.enter("enable_auto_merge"@).1 is Ok,
        ForgeCall::PipelineStatus { .. } => m.enter("pipeline_status"@).1 is Ok,
        ForgeCall::Merge { .. } => m.enter("merge"@).1 is Ok,
        ForgeCall::ChangeState { .. } => m.enter("change_state"@).1 is Ok,
        ForgeCall::ListTriggers { .. } => m.enter("list_triggers"@).1 is Ok,
        ForgeCall::EnsureTrigger { .. } => m.enter("ensure_trigger"@).1 is Ok,
        _ => false,
    };
    entered
}

// ── validity ────────────────────────────────────────────────────────────────

/// A changed change keeps its number, so every number stays where it is.
proof fn numbers_stay(r: RepoModel, i: int, change: ChangeModel, number: nat)
    requires
        0 <= i < r.changes.len(),
        change.number == r.changes[i].number,
    ensures
        r.with_change(i, change).numbered(number) == r.numbered(number),
{
    let p = |c: ChangeModel| c.number == number;
    let w = r.with_change(i, change);
    first_index_facts(r.changes, p);
    match r.numbered(number) {
        Some(k) => {
            assert forall|j: int| 0 <= j < k implies !p(#[trigger] w.changes[j]) by {
                assert(!p(r.changes[j]));
            }
            first_index_at(w.changes, p, k);
        },
        None => {
            assert forall|j: int| 0 <= j < w.changes.len() implies !p(#[trigger] w.changes[j]) by {
                assert(!p(r.changes[j]));
            }
            first_index_none(w.changes, p);
        },
    }
}

/// A change that is opened is found by its number where no other was.
proof fn opened_is_last(
    r: RepoModel,
    slug: Seq<char>,
    head: Seq<char>,
    base: Seq<char>,
    number: nat,
)
    ensures
        ({
            let w = r.open_change(slug, head, base).0;
            r.numbered(number) is Some ==> w.numbered(number) == r.numbered(number) && w.changes[
                r.numbered(number)->0
            ] == r.changes[r.numbered(number)->0]
        }),
        ({
            let w = r.open_change(slug, head, base).0;
            r.numbered(number) is None ==> match w.numbered(number) {
                Some(k) => !w.changes[k].auto_merge,
                None => true,
            }
        }),
{
    let p = |c: ChangeModel| c.number == number;
    let w = r.open_change(slug, head, base).0;
    first_index_facts(r.changes, p);
    first_index_facts(w.changes, p);
    if r.open_from(head) is None {
        match r.numbered(number) {
            Some(k) => {
                assert forall|j: int| 0 <= j < k implies !p(#[trigger] w.changes[j]) by {
                    assert(!p(r.changes[j]));
                }
                assert(w.changes[k] == r.changes[k]);
                first_index_at(w.changes, p, k);
            },
            None => {
                if let Some(k) = w.numbered(number) {
                    if k < r.changes.len() {
                        assert(w.changes[k] == r.changes[k]);
                        assert(!p(r.changes[k]));
                    }
                }
            },
        }
    }
}

/// What a call does to a repository keeps it in order, and counts up by one at most.
proof fn repos_stay_in_order(call: ForgeCall, r: RepoModel)
    requires
        r.kept(),
    ensures
        repo_after(call, r).kept(),
        repo_after(call, r).seq <= r.seq + 1,
{
    reveal_strlit("blob");
    match call {
        ForgeCall::EnableAutoMerge { change, .. } => {
            first_index_facts(r.changes, |c: ChangeModel| c.number == change.number as nat);
        },
        ForgeCall::Merge { change, .. } => {
            first_index_facts(r.changes, |c: ChangeModel| c.number == change.number as nat);
        },
        _ => {},
    }
}

/// Every call keeps the double valid.
pub proof fn calls_keep_it_valid(m: ForgeModel, call: ForgeCall)
    requires
        m.wf(),
    ensures
        stepped(m, call).0.wf(),
{
    let acted = step_is_local(m, call);
    if acted {
        repos_stay_in_order(call, m.repos[subject(call)->0]);
    }
}

/// Every event keeps the double valid.
pub proof fn events_keep_it_valid(m: ForgeModel, event: Event)
    requires
        m.wf(),
    ensures
        after(m, event).wf(),
{
    match event {
        Event::Call(call) => {
            calls_keep_it_valid(m, call);
        },
        Event::CiSet { slug, number, status } => {
            if m.repos.contains_key(slug) {
                let r = m.repos[slug];
                first_index_facts(r.changes, |c: ChangeModel| c.number == number);
                assert(r.set_ci(number, status).kept());
            }
        },
        _ => {},
    }
}

// ── what stays readable ─────────────────────────────────────────────────────

/// The event commits to the file.
pub open spec fn commits_to(
    event: Event,
    key: Seq<char>,
    branch: Seq<char>,
    path: Seq<char>,
) -> bool {
    event matches Event::Call(ForgeCall::CommitFile { repo, branch: b, path: p, .. }) && slug(repo@)
        == key && b == branch && p == path
}

/// Only a commit to a file changes what is read of it.
pub proof fn only_commits_change_files(
    m: ForgeModel,
    event: Event,
    key: Seq<char>,
    branch: Seq<char>,
    path: Seq<char>,
)
    requires
        m.repos.contains_key(key),
        branch.len() > 0,
        !commits_to(event, key, branch, path),
    ensures
        after(m, event).repos.contains_key(key),
        after(m, event).repos[key].read_file(path, branch) == m.repos[key].read_file(path, branch),
{
    if let Event::Call(call) = event {
        let acted = step_is_local(m, call);
        if let ForgeCall::CommitFile { repo, branch: b, path: p, .. } = call {
            assert((b, p).0 != branch || (b, p).1 != path || slug(repo@) != key);
        }
    }
}

/// What is read of a file stays, whatever happens, until it is committed to again.
pub proof fn files_stay(
    m: ForgeModel,
    events: Seq<Event>,
    key: Seq<char>,
    branch: Seq<char>,
    path: Seq<char>,
)
    requires
        m.repos.contains_key(key),
        branch.len() > 0,
        forall|i: int|
            0 <= i < events.len() ==> !commits_to(#[trigger] events[i], key, branch, path),
    ensures
        replay(m, events).repos.contains_key(key),
        replay(m, events).repos[key].read_file(path, branch) == m.repos[key].read_file(
            path,
            branch,
        ),
    decreases events.len(),
{
    if events.len() > 0 {
        let before = events.drop_last();
        assert forall|i: int| 0 <= i < before.len() implies !commits_to(
            #[trigger] before[i],
            key,
            branch,
            path,
        ) by {
            assert(before[i] == events[i]);
        }
        files_stay(m, before, key, branch, path);
        assert(!commits_to(events[events.len() - 1], key, branch, path));
        only_commits_change_files(replay(m, before), events.last(), key, branch, path);
    }
}

// ── arming ──────────────────────────────────────────────────────────────────

/// The event enables auto-merge on the change.
pub open spec fn enables(m: ForgeModel, event: Event, key: Seq<char>, number: nat) -> bool {
    &&& event matches Event::Call(call)
    &&& call matches ForgeCall::EnableAutoMerge { repo, change }
    &&& slug(repo@) == key
    &&& change.number == number
    &&& stepped(m, call).1 matches ReplyView::Flag(Ok(_))
}

/// The event merges the change.
pub open spec fn merges(m: ForgeModel, event: Event, key: Seq<char>, number: nat) -> bool {
    &&& event matches Event::Call(call)
    &&& call matches ForgeCall::Merge { repo, change }
    &&& slug(repo@) == key
    &&& change.number == number
    &&& stepped(m, call).1 matches ReplyView::Text(Ok(_))
}

/// What a call does to the arming of a change of its repository.
proof fn call_arms(call: ForgeCall, r: RepoModel, number: nat)
    ensures
        repo_after(call, r).armed(number) == if call matches ForgeCall::EnableAutoMerge {
            change,
            ..
        } && change.number == number && r.numbered(number) is Some {
            true
        } else if call matches ForgeCall::Merge { change, .. } && change.number == number
            && r.change_state(number) == Ok::<ChangeState, Seq<char>>(ChangeState::Open) {
            false
        } else {
            r.armed(number)
        },
{
    first_index_facts(r.changes, |c: ChangeModel| c.number == number);
    match call {
        ForgeCall::OpenChange { repo, head, base, .. } => {
            opened_is_last(r, slug(repo@), head, base, number);
        },
        ForgeCall::EnableAutoMerge { change, .. } => {
            let n = change.number as nat;
            first_index_facts(r.changes, |c: ChangeModel| c.number == n);
            if let Some(i) = r.numbered(n) {
                numbers_stay(r, i, ChangeModel { auto_merge: true, ..r.changes[i] }, number);
            }
        },
        ForgeCall::Merge { change, .. } => {
            let n = change.number as nat;
            let counted = RepoModel { seq: r.seq + 1, ..r };
            first_index_facts(r.changes, |c: ChangeModel| c.number == n);
            if let Some(i) = r.numbered(n) {
                numbers_stay(counted, i, r.merge(n).0.changes[i], number);
            }
        },
        _ => {},
    }
}

/// One event arms a change, disarms it, or leaves it as it was.
pub proof fn event_arms(m: ForgeModel, event: Event, key: Seq<char>, number: nat)
    ensures
        after(m, event).armed(key, number) == if enables(m, event, key, number) {
            true
        } else if merges(m, event, key, number) {
            false
        } else {
            m.armed(key, number)
        },
{
    match event {
        Event::Call(call) => {
            let acted = step_is_local(m, call);
            if acted && subject(call) == Some(key) {
                call_arms(call, m.repos[key], number);
            }
        },
        Event::CiSet { slug, number: n, status } => {
            let w = m.repos[slug];
            first_index_facts(w.changes, |c: ChangeModel| c.number == number);
            first_index_facts(w.changes, |c: ChangeModel| c.number == n);
            if let Some(i) = w.numbered(n) {
                numbers_stay(w, i, ChangeModel { ci: status, ..w.changes[i] }, number);
            }
        },
        Event::Seeded { slug, default_branch } => {
            first_index_none(
                RepoModel::fresh().changes,
                |c: ChangeModel| c.number == number,
            );
        },
        _ => {},
    }
}

/// The event at `i` enables auto-merge on the change, and no later one merges it.
pub open spec fn armed_since(
    m: ForgeModel,
    events: Seq<Event>,
    i: int,
    key: Seq<char>,
    number: nat,
) -> bool {
    &&& 0 <= i < events.len()
    &&& enables(replay(m, events.take(i)), events[i], key, number)
    &&& forall|j: int|
        i < j < events.len() ==> !merges(
            #[trigger] replay(m, events.take(j)),
            events[j],
            key,
            number,
        )
}

/// Auto-merge is armed on a change exactly where it was enabled and the change was not
/// merged since.
pub proof fn armed_where_enabled_and_not_merged(
    m: ForgeModel,
    events: Seq<Event>,
    key: Seq<char>,
    number: nat,
)
    requires
        !m.armed(key, number),
    ensures
        replay(m, events).armed(key, number) <==> exists|i: int| #[trigger]
            armed_since(m, events, i, key, number),
    decreases events.len(),
{
    if events.len() > 0 {
        let before = events.drop_last();
        let n = before.len() as int;
        armed_where_enabled_and_not_merged(m, before, key, number);
        event_arms(replay(m, before), events.last(), key, number);
        assert(events.take(n) =~= before);
        assert forall|i: int| 0 <= i <= n implies events.take(i) =~= #[trigger] before.take(i) by {}
        if replay(m, events).armed(key, number) {
            if enables(replay(m, before), events.last(), key, number) {
                assert(armed_since(m, events, n, key, number));
            } else {
                let i = choose|i: int| #[trigger] armed_since(m, before, i, key, number);
                assert(events.take(i) =~= before.take(i));
                assert forall|j: int| i < j < events.len() implies !merges(
                    #[trigger] replay(m, events.take(j)),
                    events[j],
                    key,
                    number,
                ) by {
                    assert(events.take(j) =~= before.take(j));
                    if j < n {
                        assert(!merges(replay(m, before.take(j)), before[j], key, number));
                    }
                }
                assert(armed_since(m, events, i, key, number));
            }
        }
        if exists|i: int| #[trigger] armed_since(m, events, i, key, number) {
            let i = choose|i: int| #[trigger] armed_since(m, events, i, key, number);
            assert(events.take(i) =~= before.take(i));
            if i < n {
                assert(!merges(replay(m, events.take(n)), events[n], key, number));
                assert forall|j: int| i < j < before.len() implies !merges(
                    #[trigger] replay(m, before.take(j)),
                    before[j],
                    key,
                    number,
                ) by {
                    assert(events.take(j) =~= before.take(j));
                    assert(!merges(replay(m, events.take(j)), events[j], key, number));
                }
                assert(armed_since(m, before, i, key, number));
            }
        }
    }
}

} // verus!
