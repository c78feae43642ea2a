//! A pinned double passes the conformance suite: pinning changes nothing that a caller
//! can see.

use crate::conformance::{
    commit_identical_content_is_noop_success_course, create_branch_is_idempotent_course,
    declared_capabilities_are_served_course, ensure_trigger_is_idempotent_by_url_course,
    merged_change_is_merged_not_closed_course, open_change_adopts_existing_course,
    read_file_roundtrips_and_absent_is_none_course, transient_failure_is_recoverable_course,
    unsupported_is_explicit_course, End, Fixture,
};
use crate::forge::{slug, Forge};
use crate::messages::{ForgeKind, RepoRef, TriggerView};
use crate::search::count_that;
use crate::runtime::{pin, InPlace, Pinned};
use crate::testing::{
    commit_is_read_back, ensure_trigger_twice, seeded, FakeFixture, FakeForge, ForgeModel,
};
use vstd::prelude::*;

verus! {

/// A pinned double and the repository on it.
pub struct PinnedFixture {
    pub forge: Pinned<InPlace<FakeForge>>,
    pub repo: RepoRef,
}

impl PinnedFixture {
    /// The repository starts at a seed commit on `main`.
    pub fn new(kind: ForgeKind, repo: RepoRef) -> (r: Self)
        ensures
            r.forge.wf(),
            r.repo == repo,
            seeded(r.forge.adapter().forge@, repo),
    {
        let fake = FakeFixture::new(kind, repo);
        let forge = pin(fake.forge);
        PinnedFixture { forge, repo: fake.repo }
    }
}

impl Fixture for PinnedFixture {
    type Adapter = Pinned<InPlace<FakeForge>>;

    open spec fn adapter(&self) -> Pinned<InPlace<FakeForge>> {
        self.forge
    }

    open spec fn subject(&self) -> RepoRef {
        self.repo
    }

    open spec fn injects(
        pre: Self,
        method: Seq<char>,
        msg: Seq<char>,
        done: bool,
        post: Self,
    ) -> bool {
        &&& done
        &&& post.repo == pre.repo
        &&& post.forge.adapter().forge@ == (ForgeModel {
            pending: Some((method, msg)),
            ..pre.forge.adapter().forge@
        })
    }

    fn forge(&mut self) -> (r: &mut Pinned<InPlace<FakeForge>>) {
        &mut self.forge
    }

    fn repo(&self) -> RepoRef {
        self.repo.clone()
    }

    /// The failure is always injected: the double's next call to `method` fails with `msg`.
    fn inject_failure(&mut self, method: &str, msg: &str) -> (r: bool)
        ensures
            r,
            final(self).repo == old(self).repo,
            final(self).forge.adapter().forge@ == (ForgeModel {
                pending: Some((method@, msg@)),
                ..old(self).forge.adapter().forge@
            }),
    {
        let inner = self.forge.inner_mut();
        inner.forge.fail_next(method, msg);
        true
    }
}

/// It passes `create_branch_is_idempotent`.
#[verifier::rlimit(80)]
pub proof fn passes_create_branch_is_idempotent(
    f: Pinned<InPlace<FakeForge>>,
    repo: RepoRef,
    end: End<Pinned<InPlace<FakeForge>>>,
)
    requires
        seeded(f.adapter().forge@, repo),
        create_branch_is_idempotent_course(f, repo, end),
    ensures
        end.verdict is Pass,
{
    reveal_strlit("main");
    reveal_strlit("feat/x");
}

/// It passes `open_change_adopts_existing`.
#[verifier::rlimit(80)]
pub proof fn passes_open_change_adopts_existing(
    f: Pinned<InPlace<FakeForge>>,
    repo: RepoRef,
    end: End<Pinned<InPlace<FakeForge>>>,
)
    requires
        seeded(f.adapter().forge@, repo),
        open_change_adopts_existing_course(f, repo, end),
    ensures
        end.verdict is Pass,
{
    reveal_strlit("main");
    reveal_strlit("feat/adopt");
}

/// It passes `commit_identical_content_is_noop_success`.
#[verifier::rlimit(80)]
pub proof fn passes_commit_identical_content_is_noop_success(
    f: Pinned<InPlace<FakeForge>>,
    repo: RepoRef,
    end: End<Pinned<InPlace<FakeForge>>>,
)
    requires
        seeded(f.adapter().forge@, repo),
        commit_identical_content_is_noop_success_course(f, repo, end),
    ensures
        end.verdict is Pass,
{
    reveal_strlit("main");
    reveal_strlit("feat/noop");
    reveal_strlit("commit");
}

/// It passes `read_file_roundtrips_and_absent_is_none`.
#[verifier::rlimit(80)]
pub proof fn passes_read_file_roundtrips_and_absent_is_none(
    f: Pinned<InPlace<FakeForge>>,
    repo: RepoRef,
    end: End<Pinned<InPlace<FakeForge>>>,
)
    requires
        seeded(f.adapter().forge@, repo),
        read_file_roundtrips_and_absent_is_none_course(f, repo, end),
    ensures
        end.verdict is Pass,
{
    reveal_strlit("main");
    reveal_strlit("feat/read");
    reveal_strlit("b.txt");
    reveal_strlit("nope.txt");
    reveal_strlit("blob");
    let r = f.adapter().forge@.repos[slug(repo@)].create_branch("feat/read"@, "main"@).0;
    commit_is_read_back(r, "feat/read"@, "b.txt"@, "content"@);
    assert(r.read_file("nope.txt"@, "feat/read"@) is None);
    assert("b.txt"@.len() != "nope.txt"@.len());
}

/// It passes `merged_change_is_merged_not_closed`.
#[verifier::rlimit(80)]
pub proof fn passes_merged_change_is_merged_not_closed(
    f: Pinned<InPlace<FakeForge>>,
    repo: RepoRef,
    end: End<Pinned<InPlace<FakeForge>>>,
)
    requires
        seeded(f.adapter().forge@, repo),
        merged_change_is_merged_not_closed_course(f, repo, end),
    ensures
        end.verdict is Pass,
{
    reveal_strlit("main");
    reveal_strlit("feat/merge");
    reveal_strlit("merge");
}

/// It passes `ensure_trigger_is_idempotent_by_url`.
#[verifier::rlimit(80)]
pub proof fn passes_ensure_trigger_is_idempotent_by_url(
    f: Pinned<InPlace<FakeForge>>,
    repo: RepoRef,
    end: End<Pinned<InPlace<FakeForge>>>,
)
    requires
        seeded(f.adapter().forge@, repo),
        ensure_trigger_is_idempotent_by_url_course(f, repo, end),
    ensures
        end.verdict is Pass,
{
    let url = "https://hooks.example/webhook"@;
    let r = f.adapter().forge@.repos[slug(repo@)];
    ensure_trigger_twice(r, url, Seq::empty());
    let after = r.ensure_trigger(url, Seq::empty()).0;
    let p = |t: TriggerView| t.url == url;
    assert(after.triggers.drop_last() =~= Seq::<TriggerView>::empty());
    assert(count_that(after.triggers.drop_last(), p) == 0);
    assert(count_that(after.triggers, p) == 1);
}

/// It passes `unsupported_is_explicit`.
#[verifier::rlimit(80)]
pub proof fn passes_unsupported_is_explicit(
    f: Pinned<InPlace<FakeForge>>,
    repo: RepoRef,
    end: End<Pinned<InPlace<FakeForge>>>,
)
    requires
        seeded(f.adapter().forge@, repo),
        unsupported_is_explicit_course(f, repo, end),
    ensures
        end.verdict is Pass,
{
    reveal_strlit("main");
    reveal_strlit("feat/unsup");
}

/// It passes `declared_capabilities_are_served`.
#[verifier::rlimit(80)]
pub proof fn passes_declared_capabilities_are_served(
    f: Pinned<InPlace<FakeForge>>,
    repo: RepoRef,
    end: End<Pinned<InPlace<FakeForge>>>,
)
    requires
        seeded(f.adapter().forge@, repo),
        declared_capabilities_are_served_course(f, repo, end),
    ensures
        end.verdict is Pass,
{
}

/// It passes `transient_failure_is_recoverable`.
#[verifier::rlimit(80)]
pub proof fn passes_transient_failure_is_recoverable(
    fx: PinnedFixture,
    end: End<Pinned<InPlace<FakeForge>>>,
)
    requires
        seeded(fx.forge.adapter().forge@, fx.repo),
        transient_failure_is_recoverable_course(fx, end),
    ensures
        end.verdict is Pass,
{
    reveal_strlit("main");
    reveal_strlit("feat/retry");
}

} // verus!
