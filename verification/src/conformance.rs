//! The [`Forge`] conformance suite: the executable statement of the contract.
//!
//! An adapter is correct when it passes. Each case drives an adapter through a fixed
//! course of calls and gives a verdict on the replies. What a case asks, in which
//! order, and what it concludes from each reply is stated by the case's `_course`.

use crate::forge::{
    BranchOutcome, EnsuredTriggerView, Forge, ForgeCall, ForgeError, ForgeReply, OpenedChangeView,
    PipelineStatusView, ReplyView,
};
use crate::messages::{
    texts, trigger_views, ChangeRef, ChangeState, FileBlobView, ForgeCapabilities, RepoRef, Trigger,
    TriggerView,
};
use crate::search::count_that;
use crate::text::{contains_text, has_text, same};
use vstd::prelude::*;

verus! {

/// What a case concludes.
#[derive(Debug)]
pub enum Verdict {
    Pass,
    /// A call that the contract owes an answer failed, as told.
    Refused(String),
    /// The replies break the contract in the way that is told.
    Broken(&'static str),
}

/// A verdict by its characters.
pub enum VerdictView {
    Pass,
    Refused(Seq<char>),
    Broken(Seq<char>),
}

impl View for Verdict {
    type V = VerdictView;

    open spec fn view(&self) -> VerdictView {
        match self {
            Verdict::Pass => VerdictView::Pass,
            Verdict::Refused(e) => VerdictView::Refused(e@),
            Verdict::Broken(claim) => VerdictView::Broken(claim@),
        }
    }
}

impl Verdict {
    pub fn passed(&self) -> (r: bool)
        ensures
            r == (self@ is Pass),
    {
        match self {
            Verdict::Pass => true,
            _ => false,
        }
    }
}

/// A live adapter plus a repo that already exists on it, non-empty.
pub trait Fixture: Sized {
    type Adapter: Forge;

    /// The adapter under test.
    spec fn adapter(&self) -> Self::Adapter;

    /// The repository that the adapter can read and write.
    spec fn subject(&self) -> RepoRef;

    /// The fixture, asked to inject a failure, may say so and be then in this state.
    spec fn injects(
        pre: Self,
        method: Seq<char>,
        msg: Seq<char>,
        done: bool,
        post: Self,
    ) -> bool;

    /// The adapter under test, with `repo()` already existing and non-empty.
    fn forge(&mut self) -> (r: &mut Self::Adapter)
        ensures
            *r == old(self).adapter(),
            final(self).adapter() == *final(r),
            final(self).subject() == old(self).subject(),
    ;

    /// A repository the adapter can read and write.
    fn repo(&self) -> (r: RepoRef)
        ensures
            r == self.subject(),
    ;

    /// Make the next call to `method` fail, if this fixture can inject faults.
    ///
    /// Returns `false` when injection is unsupported, and the cases that need it skip
    /// themselves.
    fn inject_failure(&mut self, method: &str, msg: &str) -> (r: bool)
        requires
            old(self).adapter().wf(),
        ensures
            final(self).adapter().wf(),
            final(self).subject() == old(self).subject(),
            Self::injects(*old(self), method@, msg@, r, *final(self)),
    ;
}

/// The adapter is asked, and what follows holds of its reply and of the state that the
/// call leaves it in.
pub open spec fn asks<F: Forge>(
    pre: F,
    call: ForgeCall,
    next: spec_fn(ReplyView, F) -> bool,
) -> bool {
    exists|reply: ForgeReply, post: F|
        #[trigger] F::answers(pre, call, reply, post) && next(reply@, post)
}

/// How a case ends: the verdict, and the adapter as the last call left it.
pub struct End<F> {
    pub verdict: VerdictView,
    pub adapter: F,
}

impl<F> End<F> {
    pub open spec fn is(self, verdict: VerdictView, adapter: F) -> bool {
        self.verdict == verdict && self.adapter == adapter
    }

    /// The case ends here where the claim does not hold.
    pub open spec fn broken(self, claim: Seq<char>, adapter: F) -> bool {
        self.is(VerdictView::Broken(claim), adapter)
    }

    pub open spec fn refused(self, e: Seq<char>, adapter: F) -> bool {
        self.is(VerdictView::Refused(e), adapter)
    }

    pub open spec fn pass(self, adapter: F) -> bool {
        self.is(VerdictView::Pass, adapter)
    }
}

/// A call that owes a branch: its failure ends the case.
pub open spec fn owes_branch<F: Forge>(
    pre: F,
    call: ForgeCall,
    end: End<F>,
    next: spec_fn(BranchOutcome, F) -> bool,
) -> bool {
    asks(
        pre,
        call,
        |reply: ReplyView, f: F|
            match reply {
                ReplyView::Branch(Ok(v)) => next(v, f),
                ReplyView::Branch(Err(e)) => end.refused(e, f),
                _ => false,
            },
    )
}

/// A call that owes a text: its failure ends the case.
pub open spec fn owes_text<F: Forge>(
    pre: F,
    call: ForgeCall,
    end: End<F>,
    next: spec_fn(Seq<char>, F) -> bool,
) -> bool {
    asks(
        pre,
        call,
        |reply: ReplyView, f: F|
            match reply {
                ReplyView::Text(Ok(v)) => next(v, f),
                ReplyView::Text(Err(e)) => end.refused(e, f),
                _ => false,
            },
    )
}

/// A call that owes a change: its failure ends the case.
pub open spec fn owes_change<F: Forge>(
    pre: F,
    call: ForgeCall,
    end: End<F>,
    next: spec_fn(OpenedChangeView, F) -> bool,
) -> bool {
    asks(
        pre,
        call,
        |reply: ReplyView, f: F|
            match reply {
                ReplyView::Change(Ok(v)) => next(v, f),
                ReplyView::Change(Err(e)) => end.refused(e, f),
                _ => false,
            },
    )
}

/// A call that owes a change's state: its failure ends the case.
pub open spec fn owes_state<F: Forge>(
    pre: F,
    call: ForgeCall,
    end: End<F>,
    next: spec_fn(ChangeState, F) -> bool,
) -> bool {
    asks(
        pre,
        call,
        |reply: ReplyView, f: F|
            match reply {
                ReplyView::State(Ok(v)) => next(v, f),
                ReplyView::State(Err(e)) => end.refused(e, f),
                _ => false,
            },
    )
}

/// A call that owes a file or its absence: its failure ends the case.
pub open spec fn owes_file<F: Forge>(
    pre: F,
    call: ForgeCall,
    end: End<F>,
    next: spec_fn(Option<FileBlobView>, F) -> bool,
) -> bool {
    asks(
        pre,
        call,
        |reply: ReplyView, f: F|
            match reply {
                ReplyView::File(Ok(v)) => next(v, f),
                ReplyView::File(Err(e)) => end.refused(e, f),
                _ => false,
            },
    )
}

/// A call that owes a yes or no: its failure ends the case.
pub open spec fn owes_flag<F: Forge>(
    pre: F,
    call: ForgeCall,
    end: End<F>,
    next: spec_fn(bool, F) -> bool,
) -> bool {
    asks(
        pre,
        call,
        |reply: ReplyView, f: F|
            match reply {
                ReplyView::Flag(Ok(v)) => next(v, f),
                ReplyView::Flag(Err(e)) => end.refused(e, f),
                _ => false,
            },
    )
}

/// A call that owes a pipeline status: its failure ends the case.
pub open spec fn owes_pipeline<F: Forge>(
    pre: F,
    call: ForgeCall,
    end: End<F>,
    next: spec_fn(PipelineStatusView, F) -> bool,
) -> bool {
    asks(
        pre,
        call,
        |reply: ReplyView, f: F|
            match reply {
                ReplyView::Pipeline(Ok(v)) => next(v, f),
                ReplyView::Pipeline(Err(e)) => end.refused(e, f),
                _ => false,
            },
    )
}

/// A call that owes a trigger: its failure ends the case.
pub open spec fn owes_ensured<F: Forge>(
    pre: F,
    call: ForgeCall,
    end: End<F>,
    next: spec_fn(EnsuredTriggerView, F) -> bool,
) -> bool {
    asks(
        pre,
        call,
        |reply: ReplyView, f: F|
            match reply {
                ReplyView::Ensured(Ok(v)) => next(v, f),
                ReplyView::Ensured(Err(e)) => end.refused(e, f),
                _ => false,
            },
    )
}

/// A call that owes the triggers: its failure ends the case.
pub open spec fn owes_triggers<F: Forge>(
    pre: F,
    call: ForgeCall,
    end: End<F>,
    next: spec_fn(Seq<TriggerView>, F) -> bool,
) -> bool {
    asks(
        pre,
        call,
        |reply: ReplyView, f: F|
            match reply {
                ReplyView::Triggers(Ok(v)) => next(v, f),
                ReplyView::Triggers(Err(e)) => end.refused(e, f),
                _ => false,
            },
    )
}

/// The message of an error reply.
pub open spec fn complaint(reply: ReplyView) -> Option<Seq<char>> {
    match reply {
        ReplyView::Text(Err(e)) => Some(e),
        ReplyView::Triggers(Err(e)) => Some(e),
        ReplyView::Issues(Err(e)) => Some(e),
        ReplyView::Repos(Err(e)) => Some(e),
        ReplyView::PullRequests(Err(e)) => Some(e),
        _ => None,
    }
}

/// The error says that the adapter does not have the surface.
pub open spec fn unsupported(e: Seq<char>) -> bool {
    contains_text(e, "not supported by this forge adapter"@)
}

fn is_unsupported(e: &ForgeError) -> (r: bool)
    ensures
        r == unsupported(e@),
{
    has_text(e.to_string().as_str(), "not supported by this forge adapter")
}

/// A declared surface is tried: the case ends where it is reported unsupported.
pub open spec fn tries<F: Forge>(
    declared: bool,
    pre: F,
    call: ForgeCall,
    claim: Seq<char>,
    end: End<F>,
    next: spec_fn(F) -> bool,
) -> bool {
    if !declared {
        next(pre)
    } else {
        asks(
            pre,
            call,
            |reply: ReplyView, f: F|
                match complaint(reply) {
                    Some(e) if unsupported(e) => end.broken(claim, f),
                    _ => next(f),
                },
        )
    }
}

// ── create_branch_is_idempotent ─────────────────────────────────────────────

pub open spec fn create_branch_is_idempotent_course<F: Forge>(
    f: F,
    repo: RepoRef,
    end: End<F>,
) -> bool {
    let call = ForgeCall::CreateBranch { repo, name: "feat/x"@, from_ref: "main"@ };
    owes_branch(
        f,
        call,
        end,
        |first: BranchOutcome, f: F|
            if !first.created {
                end.broken("first create_branch should create"@, f)
            } else if first.already_existed {
                end.broken("first create_branch is not a re-open"@, f)
            } else {
                owes_branch(
                    f,
                    call,
                    end,
                    |second: BranchOutcome, f: F|
                        if !second.already_existed {
                            end.broken(
                                "a second create_branch MUST report already_existed, not error"@,
                                f,
                            )
                        } else if second.created {
                            end.broken("a second create_branch must not claim to create"@, f)
                        } else {
                            end.pass(f)
                        },
                )
            },
    )
}

/// `create_branch` is idempotent: a second call for the same name reports
/// `already_existed`, it does not error.
///
/// This is the single most load-bearing guarantee of the contract. A cascade resumes
/// mid-run and re-drives every step; an adapter that errors here wedges the whole
/// cascade on retry.
pub fn create_branch_is_idempotent<X: Fixture>(fx: &mut X) -> (r: Verdict)
    requires
        old(fx).adapter().wf(),
    ensures
        final(fx).adapter().wf(),
        final(fx).subject() == old(fx).subject(),
        create_branch_is_idempotent_course(
            old(fx).adapter(),
            old(fx).subject(),
            End { verdict: r@, adapter: final(fx).adapter() },
        ),
{
    let repo = fx.repo();
    let f = fx.forge();
    let first = match f.create_branch(&repo, "feat/x", "main") {
        Ok(v) => v,
        Err(e) => {
            return Verdict::Refused(e.to_string());
        },
    };
    if !first.created {
        return Verdict::Broken("first create_branch should create");
    }
    if first.already_existed {
        return Verdict::Broken("first create_branch is not a re-open");
    }
    let second = match f.create_branch(&repo, "feat/x", "main") {
        Ok(v) => v,
        Err(e) => {
            return Verdict::Refused(e.to_string());
        },
    };
    if !second.already_existed {
        return Verdict::Broken("a second create_branch MUST report already_existed, not error");
    }
    if second.created {
        return Verdict::Broken("a second create_branch must not claim to create");
    }
    Verdict::Pass
}

// ── open_change_adopts_existing ─────────────────────────────────────────────

pub open spec fn open_change_adopts_existing_course<F: Forge>(
    f: F,
    repo: RepoRef,
    end: End<F>,
) -> bool {
    let call = ForgeCall::OpenChange {
        repo,
        head: "feat/adopt"@,
        base: "main"@,
        title: "t"@,
        body: "b"@,
        remove_source_branch: false,
    };
    owes_branch(
        f,
        ForgeCall::CreateBranch { repo, name: "feat/adopt"@, from_ref: "main"@ },
        end,
        |_made: BranchOutcome, f: F|
            owes_change(
                f,
                call,
                end,
                |first: OpenedChangeView, f: F|
                    if first.already_existed {
                        end.broken("the first open_change must not adopt"@, f)
                    } else {
                        owes_change(
                            f,
                            call,
                            end,
                            |second: OpenedChangeView, f: F|
                                if !second.already_existed {
                                    end.broken(
                                        "re-opening for the same head MUST adopt the open change"@,
                                        f,
                                    )
                                } else if first.change.number != second.change.number {
                                    end.broken(
                                        "adoption must return the SAME change, not a new one"@,
                                        f,
                                    )
                                } else {
                                    end.pass(f)
                                },
                        )
                    },
            ),
    )
}

/// `open_change` adopts an existing OPEN change for the same head rather than opening a
/// duplicate, and reports that it did so.
pub fn open_change_adopts_existing<X: Fixture>(fx: &mut X) -> (r: Verdict)
    requires
        old(fx).adapter().wf(),
    ensures
        final(fx).adapter().wf(),
        final(fx).subject() == old(fx).subject(),
        open_change_adopts_existing_course(
            old(fx).adapter(),
            old(fx).subject(),
            End { verdict: r@, adapter: final(fx).adapter() },
        ),
{
    let repo = fx.repo();
    let f = fx.forge();
    if let Err(e) = f.create_branch(&repo, "feat/adopt", "main") {
        return Verdict::Refused(e.to_string());
    }
    let first = match f.open_change(&repo, "feat/adopt", "main", "t", "b", false) {
        Ok(v) => v,
        Err(e) => {
            return Verdict::Refused(e.to_string());
        },
    };
    if first.already_existed {
        return Verdict::Broken("the first open_change must not adopt");
    }
    let second = match f.open_change(&repo, "feat/adopt", "main", "t", "b", false) {
        Ok(v) => v,
        Err(e) => {
            return Verdict::Refused(e.to_string());
        },
    };
    if !second.already_existed {
        return Verdict::Broken("re-opening for the same head MUST adopt the open change");
    }
    if first.change.number != second.change.number {
        return Verdict::Broken("adoption must return the SAME change, not a new one");
    }
    Verdict::Pass
}

// ── commit_identical_content_is_noop_success ────────────────────────────────

pub open spec fn commit_identical_content_is_noop_success_course<F: Forge>(
    f: F,
    repo: RepoRef,
    end: End<F>,
) -> bool {
    let call = ForgeCall::CommitFile {
        repo,
        branch: "feat/noop"@,
        path: "a.txt"@,
        content: "hello"@,
        blob_sha: ""@,
        message: "add a"@,
    };
    owes_branch(
        f,
        ForgeCall::CreateBranch { repo, name: "feat/noop"@, from_ref: "main"@ },
        end,
        |_made: BranchOutcome, f: F|
            owes_text(
                f,
                call,
                end,
                |first: Seq<char>, f: F|
                    if first.len() == 0 {
                        end.broken("commit_file should return a sha"@, f)
                    } else {
                        asks(
                            f,
                            call,
                            |second: ReplyView, f: F|
                                match second {
                                    ReplyView::Text(Ok(_)) => end.pass(f),
                                    ReplyView::Text(Err(_)) => end.broken(
                                        "identical content MUST be a no-op success, not an error"@,
                                        f,
                                    ),
                                    _ => false,
                                },
                        )
                    },
            ),
    )
}

/// Committing byte-identical content is a no-op success, not an error.
///
/// Real forges disagree here, so adapters must normalize. A cascade that re-runs over an
/// already applied change must not fail.
pub fn commit_identical_content_is_noop_success<X: Fixture>(fx: &mut X) -> (r: Verdict)
    requires
        old(fx).adapter().wf(),
    ensures
        final(fx).adapter().wf(),
        final(fx).subject() == old(fx).subject(),
        commit_identical_content_is_noop_success_course(
            old(fx).adapter(),
            old(fx).subject(),
            End { verdict: r@, adapter: final(fx).adapter() },
        ),
{
    let repo = fx.repo();
    let f = fx.forge();
    if let Err(e) = f.create_branch(&repo, "feat/noop", "main") {
        return Verdict::Refused(e.to_string());
    }
    let first = match f.commit_file(&repo, "feat/noop", "a.txt", "hello", "", "add a") {
        Ok(v) => v,
        Err(e) => {
            return Verdict::Refused(e.to_string());
        },
    };
    if first.as_str().is_empty() {
        return Verdict::Broken("commit_file should return a sha");
    }
    match f.commit_file(&repo, "feat/noop", "a.txt", "hello", "", "add a") {
        Ok(_) => Verdict::Pass,
        Err(_) => Verdict::Broken("identical content MUST be a no-op success, not an error"),
    }
}

// ── read_file_roundtrips_and_absent_is_none ─────────────────────────────────

pub open spec fn read_file_roundtrips_and_absent_is_none_course<F: Forge>(
    f: F,
    repo: RepoRef,
    end: End<F>,
) -> bool {
    owes_branch(
        f,
        ForgeCall::CreateBranch { repo, name: "feat/read"@, from_ref: "main"@ },
        end,
        |_made: BranchOutcome, f: F|
            owes_text(
                f,
                ForgeCall::CommitFile {
                    repo,
                    branch: "feat/read"@,
                    path: "b.txt"@,
                    content: "content"@,
                    blob_sha: ""@,
                    message: "add b"@,
                },
                end,
                |_sha: Seq<char>, f: F|
                    owes_file(
                        f,
                        ForgeCall::ReadFile { repo, path: "b.txt"@, at: "feat/read"@ },
                        end,
                        |got: Option<FileBlobView>, f: F|
                            match got {
                                None => end.broken("written file must read back"@, f),
                                Some(blob) => if blob.content != "content"@ {
                                    end.broken("the content must read back as written"@, f)
                                } else if blob.blob_sha.len() == 0 {
                                    end.broken("blob_sha must round-trip for updates"@, f)
                                } else {
                                    owes_file(
                                        f,
                                        ForgeCall::ReadFile {
                                            repo,
                                            path: "nope.txt"@,
                                            at: "feat/read"@,
                                        },
                                        end,
                                        |missing: Option<FileBlobView>, f: F|
                                            if missing is Some {
                                                end.broken(
                                                    "an absent path is Ok(None), never an error"@,
                                                    f,
                                                )
                                            } else {
                                                end.pass(f)
                                            },
                                    )
                                },
                            },
                    ),
            ),
    )
}

/// A file written on a branch reads back on that branch, and an absent path is
/// `Ok(None)`, not an error.
///
/// The `Ok(None)` half matters: callers branch on absence, and an adapter that errors
/// instead turns a normal question into a failure.
pub fn read_file_roundtrips_and_absent_is_none<X: Fixture>(fx: &mut X) -> (r: Verdict)
    requires
        old(fx).adapter().wf(),
    ensures
        final(fx).adapter().wf(),
        final(fx).subject() == old(fx).subject(),
        read_file_roundtrips_and_absent_is_none_course(
            old(fx).adapter(),
            old(fx).subject(),
            End { verdict: r@, adapter: final(fx).adapter() },
        ),
{
    let repo = fx.repo();
    let f = fx.forge();
    if let Err(e) = f.create_branch(&repo, "feat/read", "main") {
        return Verdict::Refused(e.to_string());
    }
    if let Err(e) = f.commit_file(&repo, "feat/read", "b.txt", "content", "", "add b") {
        return Verdict::Refused(e.to_string());
    }
    let got = match f.read_file(&repo, "b.txt", "feat/read") {
        Ok(v) => v,
        Err(e) => {
            return Verdict::Refused(e.to_string());
        },
    };
    let blob = match got {
        Some(blob) => blob,
        None => {
            return Verdict::Broken("written file must read back");
        },
    };
    if !same(blob.content.as_str(), "content") {
        return Verdict::Broken("the content must read back as written");
    }
    if blob.blob_sha.as_str().is_empty() {
        return Verdict::Broken("blob_sha must round-trip for updates");
    }
    let missing = match f.read_file(&repo, "nope.txt", "feat/read") {
        Ok(v) => v,
        Err(e) => {
            return Verdict::Refused(e.to_string());
        },
    };
    if missing.is_some() {
        return Verdict::Broken("an absent path is Ok(None), never an error");
    }
    Verdict::Pass
}

// ── merged_change_is_merged_not_closed ──────────────────────────────────────

/// From the opened change on: it is open, it merges, it is merged.
pub open spec fn merges<F: Forge>(
    f: F,
    repo: RepoRef,
    opened: OpenedChangeView,
    end: End<F>,
) -> bool {
    exists|change: ChangeRef| #[trigger]
        change@ == opened.change && owes_state(
            f,
            ForgeCall::ChangeState { repo, change },
            end,
            |before: ChangeState, f: F|
                if before != ChangeState::Open {
                    end.broken("an opened change reports Open"@, f)
                } else {
                    owes_text(
                        f,
                        ForgeCall::Merge { repo, change },
                        end,
                        |sha: Seq<char>, f: F|
                            if sha.len() == 0 {
                                end.broken("merge must return the merge commit sha"@, f)
                            } else {
                                owes_state(
                                    f,
                                    ForgeCall::ChangeState { repo, change },
                                    end,
                                    |after: ChangeState, f: F|
                                        if after != ChangeState::Merged {
                                            end.broken(
                                                "a merged change reports Merged, NOT Closed"@,
                                                f,
                                            )
                                        } else {
                                            end.pass(f)
                                        },
                                )
                            },
                    )
                },
        )
}

pub open spec fn merged_change_is_merged_not_closed_course<F: Forge>(
    f: F,
    repo: RepoRef,
    end: End<F>,
) -> bool {
    owes_branch(
        f,
        ForgeCall::CreateBranch { repo, name: "feat/merge"@, from_ref: "main"@ },
        end,
        |_made: BranchOutcome, f: F|
            owes_text(
                f,
                ForgeCall::CommitFile {
                    repo,
                    branch: "feat/merge"@,
                    path: "c.txt"@,
                    content: "x"@,
                    blob_sha: ""@,
                    message: "add c"@,
                },
                end,
                |_sha: Seq<char>, f: F|
                    asks(
                        f,
                        ForgeCall::OpenChange {
                            repo,
                            head: "feat/merge"@,
                            base: "main"@,
                            title: "t"@,
                            body: "b"@,
                            remove_source_branch: false,
                        },
                        |opened: ReplyView, f: F|
                            match opened {
                                ReplyView::Change(Err(e)) => end.refused(e, f),
                                ReplyView::Change(Ok(opened)) => merges(f, repo, opened, end),
                                _ => false,
                            },
                    ),
            ),
    )
}

/// A merged change reports `Merged`, never `Closed`.
///
/// Collapsing the two makes a cascade believe every merged change was abandoned, so it
/// never advances.
pub fn merged_change_is_merged_not_closed<X: Fixture>(fx: &mut X) -> (r: Verdict)
    requires
        old(fx).adapter().wf(),
    ensures
        final(fx).adapter().wf(),
        final(fx).subject() == old(fx).subject(),
        merged_change_is_merged_not_closed_course(
            old(fx).adapter(),
            old(fx).subject(),
            End { verdict: r@, adapter: final(fx).adapter() },
        ),
{
    let repo = fx.repo();
    let f = fx.forge();
    if let Err(e) = f.create_branch(&repo, "feat/merge", "main") {
        return Verdict::Refused(e.to_string());
    }
    if let Err(e) = f.commit_file(&repo, "feat/merge", "c.txt", "x", "", "add c") {
        return Verdict::Refused(e.to_string());
    }
    let opened = match f.open_change(&repo, "feat/merge", "main", "t", "b", false) {
        Ok(v) => v,
        Err(e) => {
            return Verdict::Refused(e.to_string());
        },
    };
    let before = match f.change_state(&repo, &opened.change) {
        Ok(v) => v,
        Err(e) => {
            return Verdict::Refused(e.to_string());
        },
    };
    if before != ChangeState::Open {
        return Verdict::Broken("an opened change reports Open");
    }
    let sha = match f.merge(&repo, &opened.change) {
        Ok(v) => v,
        Err(e) => {
            return Verdict::Refused(e.to_string());
        },
    };
    if sha.as_str().is_empty() {
        return Verdict::Broken("merge must return the merge commit sha");
    }
    let after = match f.change_state(&repo, &opened.change) {
        Ok(v) => v,
        Err(e) => {
            return Verdict::Refused(e.to_string());
        },
    };
    if after != ChangeState::Merged {
        return Verdict::Broken("a merged change reports Merged, NOT Closed");
    }
    Verdict::Pass
}

// ── ensure_trigger_is_idempotent_by_url ─────────────────────────────────────

/// How many of the triggers deliver to `url`.
fn count_at(listed: &Vec<Trigger>, url: &str) -> (r: usize)
    ensures
        r == count_that(trigger_views(listed@), |t: TriggerView| t.url == url@),
{
    let ghost p = |t: TriggerView| t.url == url@;
    let ghost views = trigger_views(listed@);
    let mut n: usize = 0;
    let mut i: usize = 0;
    while i < listed.len()
        invariant
            i <= listed.len(),
            n <= i,
            views == trigger_views(listed@),
            p == |t: TriggerView| t.url == url@,
            n == count_that(views.take(i as int), p),
        decreases listed.len() - i,
    {
        assert(views.take(i + 1).drop_last() =~= views.take(i as int));
        assert(views[i as int] == listed@[i as int]@);
        if same(listed[i].url.as_str(), url) {
            n = n + 1;
        }
        i = i + 1;
    }
    assert(views.take(i as int) =~= views);
    n
}

pub open spec fn ensure_trigger_is_idempotent_by_url_course<F: Forge>(
    f: F,
    repo: RepoRef,
    end: End<F>,
) -> bool {
    let url = "https://hooks.example/webhook"@;
    let call = ForgeCall::EnsureTrigger {
        repo,
        url,
        events: Seq::empty(),
        secret: "s3cret"@,
    };
    asks(
        f,
        call,
        |first: ReplyView, f: F|
            match first {
                ReplyView::Ensured(Err(_)) => end.pass(f),
                ReplyView::Ensured(Ok(first)) => if !first.created {
                    end.broken("first ensure_trigger should create"@, f)
                } else if first.trigger.url != url {
                    end.broken("the trigger must deliver to the url asked for"@, f)
                } else if first.trigger.events.len() == 0 {
                    end.broken(
                        "an empty `events` request must fall back to the adapter default, not subscribe to nothing"@,
                        f,
                    )
                } else {
                    owes_ensured(
                        f,
                        call,
                        end,
                        |second: EnsuredTriggerView, f: F|
                            if second.created {
                                end.broken(
                                    "a second ensure_trigger at the same URL MUST report created=false"@,
                                    f,
                                )
                            } else {
                                owes_triggers(
                                    f,
                                    ForgeCall::ListTriggers { repo },
                                    end,
                                    |listed: Seq<TriggerView>, f: F|
                                        if count_that(listed, |t: TriggerView| t.url == url)
                                            != 1 {
                                            end.broken(
                                                "ensure_trigger must not stack duplicate hooks for one URL"@,
                                                f,
                                            )
                                        } else {
                                            end.pass(f)
                                        },
                                )
                            },
                    )
                },
                _ => false,
            },
    )
}

/// `ensure_trigger` is idempotent by delivery URL.
///
/// URL is the identity, not the id: the caller does not know the forge-assigned id, and
/// reconciliation is "make sure a hook to *this endpoint* exists". An adapter that cannot
/// install triggers says so, and the case is skipped.
pub fn ensure_trigger_is_idempotent_by_url<X: Fixture>(fx: &mut X) -> (r: Verdict)
    requires
        old(fx).adapter().wf(),
    ensures
        final(fx).adapter().wf(),
        final(fx).subject() == old(fx).subject(),
        ensure_trigger_is_idempotent_by_url_course(
            old(fx).adapter(),
            old(fx).subject(),
            End { verdict: r@, adapter: final(fx).adapter() },
        ),
{
    let repo = fx.repo();
    let f = fx.forge();
    let url = "https://hooks.example/webhook";
    let events: Vec<String> = Vec::new();
    assert(texts(events@) =~= Seq::<Seq<char>>::empty());
    let first = match f.ensure_trigger(&repo, url, events.as_slice(), "s3cret") {
        Ok(first) => first,
        Err(_) => {
            return Verdict::Pass;
        },
    };
    if !first.created {
        return Verdict::Broken("first ensure_trigger should create");
    }
    if !same(first.trigger.url.as_str(), url) {
        return Verdict::Broken("the trigger must deliver to the url asked for");
    }
    if first.trigger.events.len() == 0 {
        return Verdict::Broken(
            "an empty `events` request must fall back to the adapter default, not subscribe to nothing",
        );
    }
    let second = match f.ensure_trigger(&repo, url, events.as_slice(), "s3cret") {
        Ok(v) => v,
        Err(e) => {
            return Verdict::Refused(e.to_string());
        },
    };
    if second.created {
        return Verdict::Broken("a second ensure_trigger at the same URL MUST report created=false");
    }
    let listed = match f.list_triggers(&repo) {
        Ok(v) => v,
        Err(e) => {
            return Verdict::Refused(e.to_string());
        },
    };
    if count_at(&listed, url) != 1 {
        return Verdict::Broken("ensure_trigger must not stack duplicate hooks for one URL");
    }
    Verdict::Pass
}

// ── unsupported_is_explicit ─────────────────────────────────────────────────

/// From the opened change on: either it armed, or its pipeline can be polled.
pub open spec fn arms<F: Forge>(
    f: F,
    repo: RepoRef,
    opened: OpenedChangeView,
    end: End<F>,
) -> bool {
    exists|change: ChangeRef| #[trigger]
        change@ == opened.change && owes_flag(
            f,
            ForgeCall::EnableAutoMerge { repo, change },
            end,
            |armed: bool, f: F|
                if armed {
                    end.pass(f)
                } else {
                    owes_pipeline(
                        f,
                        ForgeCall::PipelineStatus { repo, change },
                        end,
                        |_status: PipelineStatusView, f: F| end.pass(f),
                    )
                },
        )
}

pub open spec fn unsupported_is_explicit_course<F: Forge>(
    f: F,
    repo: RepoRef,
    end: End<F>,
) -> bool {
    owes_branch(
        f,
        ForgeCall::CreateBranch { repo, name: "feat/unsup"@, from_ref: "main"@ },
        end,
        |_made: BranchOutcome, f: F|
            asks(
                f,
                ForgeCall::OpenChange {
                    repo,
                    head: "feat/unsup"@,
                    base: "main"@,
                    title: "t"@,
                    body: "b"@,
                    remove_source_branch: false,
                },
                |opened: ReplyView, f: F|
                    match opened {
                        ReplyView::Change(Err(e)) => end.refused(e, f),
                        ReplyView::Change(Ok(opened)) => arms(f, repo, opened, end),
                        _ => false,
                    },
            ),
    )
}

/// An unsupported capability returns a clear `Err`: it never fabricates a plausible
/// success.
///
/// A forge with no auto-merge must return `Ok(false)` so the caller falls back to
/// poll-then-merge, and the poll must then answer. What it may not do is fail on the
/// question.
pub fn unsupported_is_explicit<X: Fixture>(fx: &mut X) -> (r: Verdict)
    requires
        old(fx).adapter().wf(),
    ensures
        final(fx).adapter().wf(),
        final(fx).subject() == old(fx).subject(),
        unsupported_is_explicit_course(
            old(fx).adapter(),
            old(fx).subject(),
            End { verdict: r@, adapter: final(fx).adapter() },
        ),
{
    let repo = fx.repo();
    let f = fx.forge();
    if let Err(e) = f.create_branch(&repo, "feat/unsup", "main") {
        return Verdict::Refused(e.to_string());
    }
    let opened = match f.open_change(&repo, "feat/unsup", "main", "t", "b", false) {
        Ok(v) => v,
        Err(e) => {
            return Verdict::Refused(e.to_string());
        },
    };
    let armed = match f.enable_auto_merge(&repo, &opened.change) {
        Ok(v) => v,
        Err(e) => {
            return Verdict::Refused(e.to_string());
        },
    };
    if !armed {
        // The documented fallback path must work: poll, then merge.
        if let Err(e) = f.pipeline_status(&repo, &opened.change) {
            return Verdict::Refused(e.to_string());
        }
    }
    Verdict::Pass
}

// ── declared_capabilities_are_served ────────────────────────────────────────

/// Declared triggers are served, and so is what comes after them.
pub open spec fn serves_triggers<F: Forge>(
    f: F,
    repo: RepoRef,
    caps: ForgeCapabilities,
    end: End<F>,
) -> bool {
    tries(
        caps.triggers,
        f,
        ForgeCall::ListTriggers { repo },
        "declared triggers = true but list_triggers reports unsupported"@,
        end,
        |f: F| serves_issues(f, repo, caps, end),
    )
}

/// Declared issues are served, and so is what comes after them.
pub open spec fn serves_issues<F: Forge>(
    f: F,
    repo: RepoRef,
    caps: ForgeCapabilities,
    end: End<F>,
) -> bool {
    tries(
        caps.issues,
        f,
        ForgeCall::ListIssues {
            owners: Seq::empty(),
            labels: Seq::empty(),
            for_users: Seq::empty(),
        },
        "declared issues = true but list_issues reports unsupported"@,
        end,
        |f: F| serves_checks(f, repo, caps, end),
    )
}

/// Declared checks are served, and so is what comes after them.
pub open spec fn serves_checks<F: Forge>(
    f: F,
    repo: RepoRef,
    caps: ForgeCapabilities,
    end: End<F>,
) -> bool {
    tries(
        caps.checks,
        f,
        ForgeCall::SetCheck {
            repo,
            head_sha: "deadbeef"@,
            name: "ci"@,
            status: "completed"@,
            conclusion: "success"@,
            details_url: ""@,
        },
        "declared checks = true but set_check reports unsupported"@,
        end,
        |f: F| serves_comments(f, repo, caps, end),
    )
}

/// Declared comments are served, and so is what comes after them.
pub open spec fn serves_comments<F: Forge>(
    f: F,
    repo: RepoRef,
    caps: ForgeCapabilities,
    end: End<F>,
) -> bool {
    tries(
        caps.comments,
        f,
        ForgeCall::Comment { repo, number: 1, body: "conformance"@ },
        "declared comments = true but comment reports unsupported"@,
        end,
        |f: F| serves_deployments(f, repo, caps, end),
    )
}

/// Declared deployments are served, and so is what comes after them.
pub open spec fn serves_deployments<F: Forge>(
    f: F,
    repo: RepoRef,
    caps: ForgeCapabilities,
    end: End<F>,
) -> bool {
    tries(
        caps.deployments,
        f,
        ForgeCall::SetDeployment {
            repo,
            head_sha: "deadbeef"@,
            git_ref: "refs/heads/main"@,
            environment: "prod"@,
            state: "success"@,
            url: ""@,
            log_url: ""@,
            description: ""@,
        },
        "declared deployments = true but set_deployment reports unsupported"@,
        end,
        |f: F| serves_repos(f, caps, end),
    )
}

/// Declared discovery of repositories is served, and so is what comes after it.
pub open spec fn serves_repos<F: Forge>(f: F, caps: ForgeCapabilities, end: End<F>) -> bool {
    tries(
        caps.repos,
        f,
        ForgeCall::ListRepos { owners: Seq::empty(), labels: Seq::empty() },
        "declared repos = true but list_repos reports unsupported"@,
        end,
        |f: F| serves_pull_requests(f, caps, end),
    )
}

/// Declared discovery of pull requests is served.
pub open spec fn serves_pull_requests<F: Forge>(
    f: F,
    caps: ForgeCapabilities,
    end: End<F>,
) -> bool {
    tries(
        caps.pull_requests,
        f,
        ForgeCall::ListPullRequests {
            owners: Seq::empty(),
            labels: Seq::empty(),
            for_users: Seq::empty(),
        },
        "declared pull_requests = true but list_pull_requests reports unsupported"@,
        end,
        |f: F| end.pass(f),
    )
}

fn try_triggers<F: Forge>(f: &mut F, repo: &RepoRef, caps: ForgeCapabilities) -> (r: Verdict)
    requires
        old(f).wf(),
    ensures
        final(f).wf(),
        serves_triggers(*old(f), *repo, caps, End { verdict: r@, adapter: *final(f) }),
{
    if caps.triggers {
        if let Err(e) = f.list_triggers(repo) {
            if is_unsupported(&e) {
                return Verdict::Broken(
                    "declared triggers = true but list_triggers reports unsupported",
                );
            }
        }
    }
    try_issues(f, repo, caps)
}

fn try_issues<F: Forge>(f: &mut F, repo: &RepoRef, caps: ForgeCapabilities) -> (r: Verdict)
    requires
        old(f).wf(),
    ensures
        final(f).wf(),
        serves_issues(*old(f), *repo, caps, End { verdict: r@, adapter: *final(f) }),
{
    let nobody: Vec<String> = Vec::new();
    assert(texts(nobody@) =~= Seq::<Seq<char>>::empty());
    if caps.issues {
        if let Err(e) = f.list_issues(nobody.as_slice(), nobody.as_slice(), nobody.as_slice()) {
            if is_unsupported(&e) {
                return Verdict::Broken(
                    "declared issues = true but list_issues reports unsupported",
                );
            }
        }
    }
    try_checks(f, repo, caps)
}

fn try_checks<F: Forge>(f: &mut F, repo: &RepoRef, caps: ForgeCapabilities) -> (r: Verdict)
    requires
        old(f).wf(),
    ensures
        final(f).wf(),
        serves_checks(*old(f), *repo, caps, End { verdict: r@, adapter: *final(f) }),
{
    if caps.checks {
        if let Err(e) = f.set_check(repo, "deadbeef", "ci", "completed", "success", "") {
            if is_unsupported(&e) {
                return Verdict::Broken("declared checks = true but set_check reports unsupported");
            }
        }
    }
    try_comments(f, repo, caps)
}

fn try_comments<F: Forge>(f: &mut F, repo: &RepoRef, caps: ForgeCapabilities) -> (r: Verdict)
    requires
        old(f).wf(),
    ensures
        final(f).wf(),
        serves_comments(*old(f), *repo, caps, End { verdict: r@, adapter: *final(f) }),
{
    if caps.comments {
        if let Err(e) = f.comment(repo, 1, "conformance") {
            if is_unsupported(&e) {
                return Verdict::Broken("declared comments = true but comment reports unsupported");
            }
        }
    }
    try_deployments(f, repo, caps)
}

fn try_deployments<F: Forge>(f: &mut F, repo: &RepoRef, caps: ForgeCapabilities) -> (r: Verdict)
    requires
        old(f).wf(),
    ensures
        final(f).wf(),
        serves_deployments(*old(f), *repo, caps, End { verdict: r@, adapter: *final(f) }),
{
    if caps.deployments {
        if let Err(e) = f.set_deployment(
            repo,
            "deadbeef",
            "refs/heads/main",
            "prod",
            "success",
            "",
            "",
            "",
        ) {
            if is_unsupported(&e) {
                return Verdict::Broken(
                    "declared deployments = true but set_deployment reports unsupported",
                );
            }
        }
    }
    try_repos(f, caps)
}

fn try_repos<F: Forge>(f: &mut F, caps: ForgeCapabilities) -> (r: Verdict)
    requires
        old(f).wf(),
    ensures
        final(f).wf(),
        serves_repos(*old(f), caps, End { verdict: r@, adapter: *final(f) }),
{
    let nobody: Vec<String> = Vec::new();
    assert(texts(nobody@) =~= Seq::<Seq<char>>::empty());
    if caps.repos {
        if let Err(e) = f.list_repos(nobody.as_slice(), nobody.as_slice()) {
            if is_unsupported(&e) {
                return Verdict::Broken("declared repos = true but list_repos reports unsupported");
            }
        }
    }
    try_pull_requests(f, caps)
}

fn try_pull_requests<F: Forge>(f: &mut F, caps: ForgeCapabilities) -> (r: Verdict)
    requires
        old(f).wf(),
    ensures
        final(f).wf(),
        serves_pull_requests(*old(f), caps, End { verdict: r@, adapter: *final(f) }),
{
    let nobody: Vec<String> = Vec::new();
    assert(texts(nobody@) =~= Seq::<Seq<char>>::empty());
    if caps.pull_requests {
        if let Err(e) = f.list_pull_requests(
            nobody.as_slice(),
            nobody.as_slice(),
            nobody.as_slice(),
        ) {
            if is_unsupported(&e) {
                return Verdict::Broken(
                    "declared pull_requests = true but list_pull_requests reports unsupported",
                );
            }
        }
    }
    Verdict::Pass
}

pub open spec fn declared_capabilities_are_served_course<F: Forge>(
    f: F,
    repo: RepoRef,
    end: End<F>,
) -> bool {
    asks(
        f,
        ForgeCall::Capabilities,
        |reply: ReplyView, f: F|
            match reply {
                ReplyView::Capabilities(Err(_)) => end.pass(f),
                ReplyView::Capabilities(Ok(caps)) => serves_triggers(f, repo, caps, end),
                _ => false,
            },
    )
}

/// A declared capability must actually work: `capabilities()` is a promise, not a
/// description.
///
/// The obligation is deliberately one-way. Declaring a surface obliges the adapter to
/// serve it: a caller that gates on the flag and then calls must not be met with "not
/// supported". Failing to declare a surface obliges nothing; under-reporting only costs a
/// skipped call.
pub fn declared_capabilities_are_served<X: Fixture>(fx: &mut X) -> (r: Verdict)
    requires
        old(fx).adapter().wf(),
    ensures
        final(fx).adapter().wf(),
        final(fx).subject() == old(fx).subject(),
        declared_capabilities_are_served_course(
            old(fx).adapter(),
            old(fx).subject(),
            End { verdict: r@, adapter: final(fx).adapter() },
        ),
{
    let repo = fx.repo();
    let f = fx.forge();
    let caps = match f.capabilities() {
        Ok(caps) => caps,
        // "Could not ask" is a transport problem, not a breach of the contract.
        Err(_) => {
            return Verdict::Pass;
        },
    };
    try_triggers(f, &repo, caps)
}

// ── transient_failure_is_recoverable ──────────────────────────────────────

pub open spec fn transient_failure_is_recoverable_course<X: Fixture>(
    fx: X,
    end: End<X::Adapter>,
) -> bool {
    exists|injected: bool, after: X|
        #[trigger] X::injects(
            fx,
            "create_branch"@,
            "transient network blip"@,
            injected,
            after,
        ) && if !injected {
            end.pass(after.adapter())
        } else {
            retries(after.adapter(), fx.subject(), end)
        }
}

/// The injected failure surfaces, and the retry creates.
pub open spec fn retries<F: Forge>(f: F, repo: RepoRef, end: End<F>) -> bool {
    let call = ForgeCall::CreateBranch { repo, name: "feat/retry"@, from_ref: "main"@ };
    asks(
        f,
        call,
        |reply: ReplyView, f: F|
            match reply {
                ReplyView::Branch(Ok(_)) => end.broken("injected failure should surface"@, f),
                ReplyView::Branch(Err(_)) => owes_branch(
                    f,
                    call,
                    end,
                    |retry: BranchOutcome, f: F|
                        if !retry.created {
                            end.broken(
                                "after a failure that created nothing, the retry CREATES"@,
                                f,
                            )
                        } else {
                            end.pass(f)
                        },
                ),
                _ => false,
            },
    )
}

fn retry<F: Forge>(f: &mut F, repo: &RepoRef) -> (r: Verdict)
    requires
        old(f).wf(),
    ensures
        final(f).wf(),
        retries(*old(f), *repo, End { verdict: r@, adapter: *final(f) }),
{
    if let Ok(_) = f.create_branch(repo, "feat/retry", "main") {
        return Verdict::Broken("injected failure should surface");
    }
    let retry = match f.create_branch(repo, "feat/retry", "main") {
        Ok(v) => v,
        Err(e) => {
            return Verdict::Refused(e.to_string());
        },
    };
    if !retry.created {
        return Verdict::Broken("after a failure that created nothing, the retry CREATES");
    }
    Verdict::Pass
}

/// A transient failure must not corrupt state: the retry succeeds and leaves exactly
/// one branch. Fixtures that cannot inject a failure skip the case.
pub fn transient_failure_is_recoverable<X: Fixture>(fx: &mut X) -> (r: Verdict)
    requires
        old(fx).adapter().wf(),
    ensures
        final(fx).adapter().wf(),
        final(fx).subject() == old(fx).subject(),
        transient_failure_is_recoverable_course(
            *old(fx),
            End { verdict: r@, adapter: final(fx).adapter() },
        ),
{
    let repo = fx.repo();
    // Real-forge fixtures cannot synthesize a blip on demand; they skip.
    let injected = fx.inject_failure("create_branch", "transient network blip");
    if injected {
        let f = fx.forge();
        retry(f, &repo)
    } else {
        assert(X::injects(
            *old(fx),
            "create_branch"@,
            "transient network blip"@,
            false,
            *fx,
        ));
        assert(End { verdict: VerdictView::Pass, adapter: fx.adapter() }.pass(fx.adapter()));
        Verdict::Pass
    }
}

} // verus!
