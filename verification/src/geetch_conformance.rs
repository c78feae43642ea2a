//! The double, served and driven through geetch, passes the conformance suite: every
//! request survives the way and every response is unwrapped to what was sent.

use crate::conformance::{
    commit_identical_content_is_noop_success_course, create_branch_is_idempotent_course,
    declared_capabilities_are_served_course, ensure_trigger_is_idempotent_by_url_course,
    merged_change_is_merged_not_closed_course, open_change_adopts_existing_course,
    read_file_roundtrips_and_absent_is_none_course, transient_failure_is_recoverable_course,
    unsupported_is_explicit_course, End, Fixture,
};
use crate::forge::{slug, Forge, ForgeCall, ForgeReply};
use crate::messages::{ForgeKind, RepoRef, TriggerView};
use crate::search::count_that;
use crate::gateway::ServedForge;
use crate::geetch::{
    request_of, served_forge_answers_as_itself, served_forge_declares_as_itself, GeetchForge,
};
use crate::testing::{
    commit_is_read_back, ensure_trigger_twice, seeded, FakeFixture, FakeForge, ForgeModel,
};
use vstd::prelude::*;

verus! {

/// The double, served and driven through geetch, and the repository on it.
pub struct ServedFixture {
    pub forge: GeetchForge<ServedForge<FakeForge>>,
    pub repo: RepoRef,
}

impl ServedFixture {
    /// The repository starts at a seed commit on `main`.
    pub fn new(kind: ForgeKind, repo: RepoRef) -> (r: Self)
        ensures
            r.forge.wf(),
            r.repo == repo,
            seeded(r.forge.service.forge@, repo),
    {
        let fake = FakeFixture::new(kind, repo);
        ServedFixture {
            forge: GeetchForge::new(ServedForge { forge: fake.forge }),
            repo: fake.repo,
        }
    }
}

impl Fixture for ServedFixture {
    type Adapter = GeetchForge<ServedForge<FakeForge>>;

    open spec fn adapter(&self) -> GeetchForge<ServedForge<FakeForge>> {
        self.forge
    }

    open spec fn subject(&self) -> RepoRef {
        self.repo
    }

    open spec fn injects(
        pre: Self,
        method: Seq<char>,
        msg: Seq<char>,
        done: bool,
        post: Self,
    ) -> bool {
        &&& done
        &&& post.repo == pre.repo
        &&& post.forge.service.forge@ == (ForgeModel {
            pending: Some((method, msg)),
            ..pre.forge.service.forge@
        })
    }

    fn forge(&mut self) -> (r: &mut GeetchForge<ServedForge<FakeForge>>) {
        &mut self.forge
    }

    fn repo(&self) -> RepoRef {
        self.repo.clone()
    }

    /// The failure is always injected: the double's next call to `method` fails with `msg`.
    fn inject_failure(&mut self, method: &str, msg: &str) -> (r: bool)
        ensures
            r,
            final(self).repo == old(self).repo,
            final(self).forge.service.forge@ == (ForgeModel {
                pending: Some((method@, msg@)),
                ..old(self).forge.service.forge@
            }),
    {
        self.forge.service.forge.fail_next(method, msg);
        true
    }
}

/// Through geetch the double does what it does by itself.
proof fn geetch_steps()
    ensures
        forall|
            pre: GeetchForge<ServedForge<FakeForge>>,
            call: ForgeCall,
            reply: ForgeReply,
            post: GeetchForge<ServedForge<FakeForge>>,
        | #[trigger]
            GeetchForge::answers(pre, call, reply, post) && (request_of(call) is Some
                || call is Capabilities) ==> (post.service.forge@, reply@)
                == pre.service.forge@.step(call),
{
    assert forall|
        pre: GeetchForge<ServedForge<FakeForge>>,
        call: ForgeCall,
        reply: ForgeReply,
        post: GeetchForge<ServedForge<FakeForge>>,
    | #[trigger]
        GeetchForge::answers(pre, call, reply, post) && (request_of(call) is Some
            || call is Capabilities) implies (post.service.forge@, reply@)
        == pre.service.forge@.step(call) by {
        if call is Capabilities {
            served_forge_declares_as_itself(pre, reply, post);
        } else {
            served_forge_answers_as_itself(pre, call, reply, post);
        }
    }
}

/// It passes `create_branch_is_idempotent`.
#[verifier::rlimit(80)]
pub proof fn passes_create_branch_is_idempotent(
    f: GeetchForge<ServedForge<FakeForge>>,
    repo: RepoRef,
    end: End<GeetchForge<ServedForge<FakeForge>>>,
)
    requires
        seeded(f.service.forge@, repo),
        create_branch_is_idempotent_course(f, repo, end),
    ensures
        end.verdict is Pass,
{
    geetch_steps();
    reveal_strlit("main");
    reveal_strlit("feat/x");
}

/// It passes `open_change_adopts_existing`.
#[verifier::rlimit(80)]
pub proof fn passes_open_change_adopts_existing(
    f: GeetchForge<ServedForge<FakeForge>>,
    repo: RepoRef,
    end: End<GeetchForge<ServedForge<FakeForge>>>,
)
    requires
        seeded(f.service.forge@, repo),
        open_change_adopts_existing_course(f, repo, end),
    ensures
        end.verdict is Pass,
{
    geetch_steps();
    reveal_strlit("main");
    reveal_strlit("feat/adopt");
}

/// It passes `commit_identical_content_is_noop_success`.
#[verifier::rlimit(80)]
pub proof fn passes_commit_identical_content_is_noop_success(
    f: GeetchForge<ServedForge<FakeForge>>,
    repo: RepoRef,
    end: End<GeetchForge<ServedForge<FakeForge>>>,
)
    requires
        seeded(f.service.forge@, repo),
        commit_identical_content_is_noop_success_course(f, repo, end),
    ensures
        end.verdict is Pass,
{
    geetch_steps();
    reveal_strlit("main");
    reveal_strlit("feat/noop");
    reveal_strlit("commit");
}

/// It passes `read_file_roundtrips_and_absent_is_none`.
#[verifier::rlimit(80)]
pub proof fn passes_read_file_roundtrips_and_absent_is_none(
    f: GeetchForge<ServedForge<FakeForge>>,
    repo: RepoRef,
    end: End<GeetchForge<ServedForge<FakeForge>>>,
)
    requires
        seeded(f.service.forge@, repo),
        read_file_roundtrips_and_absent_is_none_course(f, repo, end),
    ensures
        end.verdict is Pass,
{
    geetch_steps();
    reveal_strlit("main");
    reveal_strlit("feat/read");
    reveal_strlit("b.txt");
    reveal_strlit("nope.txt");
    reveal_strlit("blob");
    let r = f.service.forge@.repos[slug(repo@)].create_branch("feat/read"@, "main"@).0;
    commit_is_read_back(r, "feat/read"@, "b.txt"@, "content"@);
    assert(r.read_file("nope.txt"@, "feat/read"@) is None);
    assert("b.txt"@.len() != "nope.txt"@.len());
}

/// It passes `merged_change_is_merged_not_closed`.
#[verifier::rlimit(80)]
pub proof fn passes_merged_change_is_merged_not_closed(
    f: GeetchForge<ServedForge<FakeForge>>,
    repo: RepoRef,
    end: End<GeetchForge<ServedForge<FakeForge>>>,
)
    requires
        seeded(f.service.forge@, repo),
        merged_change_is_merged_not_closed_course(f, repo, end),
    ensures
        end.verdict is Pass,
{
    geetch_steps();
    reveal_strlit("main");
    reveal_strlit("feat/merge");
    reveal_strlit("merge");
}

/// It passes `ensure_trigger_is_idempotent_by_url`.
#[verifier::rlimit(80)]
pub proof fn passes_ensure_trigger_is_idempotent_by_url(
    f: GeetchForge<ServedForge<FakeForge>>,
    repo: RepoRef,
    end: End<GeetchForge<ServedForge<FakeForge>>>,
)
    requires
        seeded(f.service.forge@, repo),
        ensure_trigger_is_idempotent_by_url_course(f, repo, end),
    ensures
        end.verdict is Pass,
{
    geetch_steps();
    let url = "https://hooks.example/webhook"@;
    let r = f.service.forge@.repos[slug(repo@)];
    ensure_trigger_twice(r, url, Seq::empty());
    let after = r.ensure_trigger(url, Seq::empty()).0;
    let p = |t: TriggerView| t.url == url;
    assert(after.triggers.drop_last() =~= Seq::<TriggerView>::empty());
    assert(count_that(after.triggers.drop_last(), p) == 0);
    assert(count_that(after.triggers, p) == 1);
}

/// It passes `unsupported_is_explicit`.
#[verifier::rlimit(80)]
pub proof fn passes_unsupported_is_explicit(
    f: GeetchForge<ServedForge<FakeForge>>,
    repo: RepoRef,
    end: End<GeetchForge<ServedForge<FakeForge>>>,
)
    requires
        seeded(f.service.forge@, repo),
        unsupported_is_explicit_course(f, repo, end),
    ensures
        end.verdict is Pass,
{
    geetch_steps();
    reveal_strlit("main");
    reveal_strlit("feat/unsup");
}

/// It passes `declared_capabilities_are_served`.
#[verifier::rlimit(80)]
pub proof fn passes_declared_capabilities_are_served(
    f: GeetchForge<ServedForge<FakeForge>>,
    repo: RepoRef,
    end: End<GeetchForge<ServedForge<FakeForge>>>,
)
    requires
        seeded(f.service.forge@, repo),
        declared_capabilities_are_served_course(f, repo, end),
    ensures
        end.verdict is Pass,
{
    geetch_steps();
}

/// It passes `transient_failure_is_recoverable`.
#[verifier::rlimit(80)]
pub proof fn passes_transient_failure_is_recoverable(
    fx: ServedFixture,
    end: End<GeetchForge<ServedForge<FakeForge>>>,
)
    requires
        seeded(fx.forge.service.forge@, fx.repo),
        transient_failure_is_recoverable_course(fx, end),
    ensures
        end.verdict is Pass,
{
    geetch_steps();
    reveal_strlit("main");
    reveal_strlit("feat/retry");
}

} // verus!
