//! What a verdict of the conformance suite stands for.

use crate::conformance::{
    commit_identical_content_is_noop_success_course, create_branch_is_idempotent_course,
    declared_capabilities_are_served_course, ensure_trigger_is_idempotent_by_url_course,
    merged_change_is_merged_not_closed_course, open_change_adopts_existing_course,
    read_file_roundtrips_and_absent_is_none_course, retries, serves_checks, serves_comments,
    serves_deployments, serves_issues, serves_pull_requests, serves_repos, serves_triggers,
    transient_failure_is_recoverable_course, unsupported_is_explicit_course, End, Fixture,
    VerdictView,
};
use crate::forge::{Forge, ForgeCall, ForgeReply, ReplyView};
use crate::laws::double::fails_with;
use crate::messages::{ChangeRef, ChangeState, ForgeCapabilities, RepoRef, TriggerView};
use crate::search::count_that;
use crate::text::contains_text;
use vstd::prelude::*;

verus! {

/// The branch was created, and was not there before.
pub open spec fn creates(reply: ReplyView) -> bool {
    reply matches ReplyView::Branch(Ok(v)) && v.created && !v.already_existed
}

/// The branch was there before, and was not created.
pub open spec fn finds(reply: ReplyView) -> bool {
    reply matches ReplyView::Branch(Ok(v)) && !v.created && v.already_existed
}

/// There is a branch, whether it is new or not.
pub open spec fn branches(reply: ReplyView) -> bool {
    reply matches ReplyView::Branch(Ok(_))
}

/// A commit is told.
pub open spec fn commits(reply: ReplyView) -> bool {
    reply matches ReplyView::Text(Ok(sha)) && sha.len() > 0
}

/// A text is told, of whatever length.
pub open spec fn tells(reply: ReplyView) -> bool {
    reply matches ReplyView::Text(Ok(_))
}

/// A change was opened anew.
pub open spec fn opens(reply: ReplyView) -> bool {
    reply matches ReplyView::Change(Ok(v)) && !v.already_existed
}

/// The change that was opened is told again.
pub open spec fn adopts(first: ReplyView, second: ReplyView) -> bool {
    first matches ReplyView::Change(Ok(v))
        && (
            second matches ReplyView::Change(Ok(w)) && w.already_existed
                && w.change.number == v.change.number
        )
}

/// The file is there with the content, and with an id to update it by.
pub open spec fn holds(reply: ReplyView, content: Seq<char>) -> bool {
    reply matches ReplyView::File(Ok(Some(blob))) && blob.content == content
        && blob.blob_sha.len() > 0
}

/// There is no such file.
pub open spec fn absent(reply: ReplyView) -> bool {
    reply matches ReplyView::File(Ok(None))
}

/// A trigger was made that delivers to the url, for some event.
pub open spec fn hooks(reply: ReplyView, url: Seq<char>) -> bool {
    reply matches ReplyView::Ensured(Ok(v)) && v.created && v.trigger.url == url
        && v.trigger.events.len() > 0
}

/// The trigger was there before.
pub open spec fn hooked(reply: ReplyView) -> bool {
    reply matches ReplyView::Ensured(Ok(v)) && !v.created
}

/// One trigger of the list delivers to the url.
pub open spec fn lists_one(reply: ReplyView, url: Seq<char>) -> bool {
    reply matches ReplyView::Triggers(Ok(listed))
        && count_that(listed, |t: TriggerView| t.url == url) == 1
}

/// The reference is that of the change that was opened.
pub open spec fn names(change: ChangeRef, opened: ReplyView) -> bool {
    opened matches ReplyView::Change(Ok(v)) && v.change == change@
}

/// The case is cut short by an error, and says which.
pub open spec fn cut_short<F>(end: End<F>, reply: ReplyView, f: F) -> bool {
    end.adapter == f && (end.verdict matches VerdictView::Refused(e) && fails_with(reply, e))
}

/// The case finds the contract broken after a reply that is no error.
pub open spec fn found_broken<F>(end: End<F>, reply: ReplyView, f: F) -> bool {
    end.adapter == f && end.verdict is Broken
        && !(exists|e: Seq<char>| #[trigger] fails_with(reply, e))
}

/// The case does not get past this call, or past a later one.
pub open spec fn branches_stumbles_at_second<F: Forge>(f: F, repo: RepoRef, end: End<F>) -> bool {
    exists|second: ForgeReply, g: F| #[trigger]
        F::answers(
            f,
            ForgeCall::CreateBranch { repo, name: "feat/x"@, from_ref: "main"@ },
            second,
            g,
        )
        && (!finds(second@) && (cut_short(end, second@, g) || found_broken(end, second@, g)))
}

/// The case does not get past this call, or past a later one.
pub open spec fn branches_stumbles_at_first<F: Forge>(f: F, repo: RepoRef, end: End<F>) -> bool {
    exists|first: ForgeReply, g: F| #[trigger]
        F::answers(
            f,
            ForgeCall::CreateBranch { repo, name: "feat/x"@, from_ref: "main"@ },
            first,
            g,
        )
        && (
            (!creates(first@) && (cut_short(end, first@, g) || found_broken(end, first@, g)))
                || creates(first@) && branches_stumbles_at_second(g, repo, end)
        )
}

/// A pass stands for replies that keep the promise: a branch is created once.
/// Any other verdict stands for a reply that does not: an error is told as it came.
pub proof fn a_verdict_on_branches_stands_for_replies<F: Forge>(f: F, repo: RepoRef, end: End<F>)
    requires
        create_branch_is_idempotent_course(f, repo, end),
    ensures
        end.verdict is Pass ==> exists|first: ForgeReply, second: ForgeReply, f1: F| #[trigger]
            F::answers(
                f,
                ForgeCall::CreateBranch { repo, name: "feat/x"@, from_ref: "main"@ },
                first,
                f1,
            )
            && creates(first@)
            && #[trigger] F::answers(
                f1,
                ForgeCall::CreateBranch { repo, name: "feat/x"@, from_ref: "main"@ },
                second,
                end.adapter,
            )
            && finds(second@),
        !(end.verdict is Pass) ==> branches_stumbles_at_first(f, repo, end),
{
}

/// The case does not get past this call, or past a later one.
pub open spec fn changes_stumbles_at_second<F: Forge>(
    f: F,
    repo: RepoRef,
    first: ForgeReply,
    end: End<F>,
) -> bool {
    exists|second: ForgeReply, g: F| #[trigger]
        F::answers(
            f,
            ForgeCall::OpenChange {
                repo,
                head: "feat/adopt"@,
                base: "main"@,
                title: "t"@,
                body: "b"@,
                remove_source_branch: false,
            },
            second,
            g,
        )
        && (
            !adopts(first@, second@)
                && (cut_short(end, second@, g) || found_broken(end, second@, g))
        )
}

/// The case does not get past this call, or past a later one.
pub open spec fn changes_stumbles_at_first<F: Forge>(f: F, repo: RepoRef, end: End<F>) -> bool {
    exists|first: ForgeReply, g: F| #[trigger]
        F::answers(
            f,
            ForgeCall::OpenChange {
                repo,
                head: "feat/adopt"@,
                base: "main"@,
                title: "t"@,
                body: "b"@,
                remove_source_branch: false,
            },
            first,
            g,
        )
        && (
            (!opens(first@) && (cut_short(end, first@, g) || found_broken(end, first@, g)))
                || opens(first@) && changes_stumbles_at_second(g, repo, first, end)
        )
}

/// The case does not get past this call, or past a later one.
pub open spec fn changes_stumbles_at_made<F: Forge>(f: F, repo: RepoRef, end: End<F>) -> bool {
    exists|made: ForgeReply, g: F| #[trigger]
        F::answers(
            f,
            ForgeCall::CreateBranch { repo, name: "feat/adopt"@, from_ref: "main"@ },
            made,
            g,
        )
        && (
            (!branches(made@) && (cut_short(end, made@, g) || found_broken(end, made@, g)))
                || branches(made@) && changes_stumbles_at_first(g, repo, end)
        )
}

/// A pass stands for replies that keep the promise: an open change is adopted.
/// Any other verdict stands for a reply that does not: an error is told as it came.
pub proof fn a_verdict_on_changes_stands_for_replies<F: Forge>(f: F, repo: RepoRef, end: End<F>)
    requires
        open_change_adopts_existing_course(f, repo, end),
    ensures
        end.verdict is Pass ==> exists|
            made: ForgeReply,
            first: ForgeReply,
            second: ForgeReply,
            f1: F,
            f2: F,
        | #[trigger]
            F::answers(
                f,
                ForgeCall::CreateBranch { repo, name: "feat/adopt"@, from_ref: "main"@ },
                made,
                f1,
            )
            && branches(made@)
            && #[trigger] F::answers(
                f1,
                ForgeCall::OpenChange {
                    repo,
                    head: "feat/adopt"@,
                    base: "main"@,
                    title: "t"@,
                    body: "b"@,
                    remove_source_branch: false,
                },
                first,
                f2,
            )
            && opens(first@)
            && #[trigger] F::answers(
                f2,
                ForgeCall::OpenChange {
                    repo,
                    head: "feat/adopt"@,
                    base: "main"@,
                    title: "t"@,
                    body: "b"@,
                    remove_source_branch: false,
                },
                second,
                end.adapter,
            )
            && adopts(first@, second@),
        !(end.verdict is Pass) ==> changes_stumbles_at_made(f, repo, end),
{
}

/// The case does not get past this call, or past a later one.
pub open spec fn commits_stumbles_at_second<F: Forge>(f: F, repo: RepoRef, end: End<F>) -> bool {
    exists|second: ForgeReply, g: F| #[trigger]
        F::answers(
            f,
            ForgeCall::CommitFile {
                repo,
                branch: "feat/noop"@,
                path: "a.txt"@,
                content: "hello"@,
                blob_sha: ""@,
                message: "add a"@,
            },
            second,
            g,
        )
        && (!tells(second@) && end.adapter == g && end.verdict is Broken)
}

/// The case does not get past this call, or past a later one.
pub open spec fn commits_stumbles_at_first<F: Forge>(f: F, repo: RepoRef, end: End<F>) -> bool {
    exists|first: ForgeReply, g: F| #[trigger]
        F::answers(
            f,
            ForgeCall::CommitFile {
                repo,
                branch: "feat/noop"@,
                path: "a.txt"@,
                content: "hello"@,
                blob_sha: ""@,
                message: "add a"@,
            },
            first,
            g,
        )
        && (
            (!commits(first@) && (cut_short(end, first@, g) || found_broken(end, first@, g)))
                || commits(first@) && commits_stumbles_at_second(g, repo, end)
        )
}

/// The case does not get past this call, or past a later one.
pub open spec fn commits_stumbles_at_made<F: Forge>(f: F, repo: RepoRef, end: End<F>) -> bool {
    exists|made: ForgeReply, g: F| #[trigger]
        F::answers(
            f,
            ForgeCall::CreateBranch { repo, name: "feat/noop"@, from_ref: "main"@ },
            made,
            g,
        )
        && (
            (!branches(made@) && (cut_short(end, made@, g) || found_broken(end, made@, g)))
                || branches(made@) && commits_stumbles_at_first(g, repo, end)
        )
}

/// A pass stands for replies that keep the promise: what is committed twice is no error.
/// Any other verdict stands for a reply that does not: an error is told as it came.
pub proof fn a_verdict_on_commits_stands_for_replies<F: Forge>(f: F, repo: RepoRef, end: End<F>)
    requires
        commit_identical_content_is_noop_success_course(f, repo, end),
    ensures
        end.verdict is Pass ==> exists|
            made: ForgeReply,
            first: ForgeReply,
            second: ForgeReply,
            f1: F,
            f2: F,
        | #[trigger]
            F::answers(
                f,
                ForgeCall::CreateBranch { repo, name: "feat/noop"@, from_ref: "main"@ },
                made,
                f1,
            )
            && branches(made@)
            && #[trigger] F::answers(
                f1,
                ForgeCall::CommitFile {
                    repo,
                    branch: "feat/noop"@,
                    path: "a.txt"@,
                    content: "hello"@,
                    blob_sha: ""@,
                    message: "add a"@,
                },
                first,
                f2,
            )
            && commits(first@)
            && #[trigger] F::answers(
                f2,
                ForgeCall::CommitFile {
                    repo,
                    branch: "feat/noop"@,
                    path: "a.txt"@,
                    content: "hello"@,
                    blob_sha: ""@,
                    message: "add a"@,
                },
                second,
                end.adapter,
            )
            && tells(second@),
        !(end.verdict is Pass) ==> commits_stumbles_at_made(f, repo, end),
{
}

/// The case does not get past this call, or past a later one.
pub open spec fn files_stumbles_at_missing<F: Forge>(f: F, repo: RepoRef, end: End<F>) -> bool {
    exists|missing: ForgeReply, g: F| #[trigger]
        F::answers(f, ForgeCall::ReadFile { repo, path: "nope.txt"@, at: "feat/read"@ }, missing, g)
        && (!absent(missing@) && (cut_short(end, missing@, g) || found_broken(end, missing@, g)))
}

/// The case does not get past this call, or past a later one.
pub open spec fn files_stumbles_at_got<F: Forge>(f: F, repo: RepoRef, end: End<F>) -> bool {
    exists|got: ForgeReply, g: F| #[trigger]
        F::answers(f, ForgeCall::ReadFile { repo, path: "b.txt"@, at: "feat/read"@ }, got, g)
        && (
            (!holds(got@, "content"@) && (cut_short(end, got@, g) || found_broken(end, got@, g)))
                || holds(got@, "content"@) && files_stumbles_at_missing(g, repo, end)
        )
}

/// The case does not get past this call, or past a later one.
pub open spec fn files_stumbles_at_sent<F: Forge>(f: F, repo: RepoRef, end: End<F>) -> bool {
    exists|sent: ForgeReply, g: F| #[trigger]
        F::answers(
            f,
            ForgeCall::CommitFile {
                repo,
                branch: "feat/read"@,
                path: "b.txt"@,
                content: "content"@,
                blob_sha: ""@,
                message: "add b"@,
            },
            sent,
            g,
        )
        && (
            (!tells(sent@) && (cut_short(end, sent@, g) || found_broken(end, sent@, g)))
                || tells(sent@) && files_stumbles_at_got(g, repo, end)
        )
}

/// The case does not get past this call, or past a later one.
pub open spec fn files_stumbles_at_made<F: Forge>(f: F, repo: RepoRef, end: End<F>) -> bool {
    exists|made: ForgeReply, g: F| #[trigger]
        F::answers(
            f,
            ForgeCall::CreateBranch { repo, name: "feat/read"@, from_ref: "main"@ },
            made,
            g,
        )
        && (
            (!branches(made@) && (cut_short(end, made@, g) || found_broken(end, made@, g)))
                || branches(made@) && files_stumbles_at_sent(g, repo, end)
        )
}

/// A pass stands for replies that keep the promise: what was committed is read
/// back, and what was not is absent.
/// Any other verdict stands for a reply that does not: an error is told as it came.
pub proof fn a_verdict_on_files_stands_for_replies<F: Forge>(f: F, repo: RepoRef, end: End<F>)
    requires
        read_file_roundtrips_and_absent_is_none_course(f, repo, end),
    ensures
        end.verdict is Pass ==> exists|
            made: ForgeReply,
            sent: ForgeReply,
            got: ForgeReply,
            missing: ForgeReply,
            f1: F,
            f2: F,
            f3: F,
        | #[trigger]
            F::answers(
                f,
                ForgeCall::CreateBranch { repo, name: "feat/read"@, from_ref: "main"@ },
                made,
                f1,
            )
            && branches(made@)
            && #[trigger] F::answers(
                f1,
                ForgeCall::CommitFile {
                    repo,
                    branch: "feat/read"@,
                    path: "b.txt"@,
                    content: "content"@,
                    blob_sha: ""@,
                    message: "add b"@,
                },
                sent,
                f2,
            )
            && tells(sent@)
            && #[trigger] F::answers(
                f2,
                ForgeCall::ReadFile { repo, path: "b.txt"@, at: "feat/read"@ },
                got,
                f3,
            )
            && holds(got@, "content"@)
            && #[trigger] F::answers(
                f3,
                ForgeCall::ReadFile { repo, path: "nope.txt"@, at: "feat/read"@ },
                missing,
                end.adapter,
            )
            && absent(missing@),
        !(end.verdict is Pass) ==> files_stumbles_at_made(f, repo, end),
{
}

/// The state of the change is told.
pub open spec fn state_is(reply: ReplyView, state: ChangeState) -> bool {
    reply == ReplyView::State(Ok(state))
}

/// A change is told, whether it is new or not.
pub open spec fn tells_change(reply: ReplyView) -> bool {
    reply matches ReplyView::Change(Ok(_))
}

/// The case does not get past this call.
pub open spec fn stops<F>(end: End<F>, good: bool, reply: ReplyView, g: F) -> bool {
    !good && (cut_short(end, reply, g) || found_broken(end, reply, g))
}

/// The change that is merged is open before, and merged after.
pub open spec fn merge_is_shown<F: Forge>(
    f: F,
    repo: RepoRef,
    opened: ReplyView,
    end: End<F>,
) -> bool {
    exists|change: ChangeRef, before: ForgeReply, merged: ForgeReply, after: ForgeReply, g: F, h: F|
        #[trigger] F::answers(f, ForgeCall::ChangeState { repo, change }, before, g)
        && #[trigger] F::answers(g, ForgeCall::Merge { repo, change }, merged, h)
        && #[trigger] F::answers(h, ForgeCall::ChangeState { repo, change }, after, end.adapter)
        && names(change, opened) && state_is(before@, ChangeState::Open) && commits(merged@)
        && state_is(after@, ChangeState::Merged)
}

/// The state after a merge is not told as merged.
pub open spec fn merge_stops_after<F: Forge>(
    f: F,
    repo: RepoRef,
    change: ChangeRef,
    end: End<F>,
) -> bool {
    exists|after: ForgeReply, g: F| #[trigger]
        F::answers(f, ForgeCall::ChangeState { repo, change }, after, g)
        && stops(end, state_is(after@, ChangeState::Merged), after@, g)
}

/// The merge does not tell its commit, or is not told afterwards.
pub open spec fn merge_stops<F: Forge>(
    f: F,
    repo: RepoRef,
    change: ChangeRef,
    end: End<F>,
) -> bool {
    exists|merged: ForgeReply, g: F| #[trigger]
        F::answers(f, ForgeCall::Merge { repo, change }, merged, g)
        && (
            stops(end, commits(merged@), merged@, g) || commits(merged@)
                && merge_stops_after(g, repo, change, end)
        )
}

/// The change is not told as open, or is not merged as promised.
pub open spec fn change_stops<F: Forge>(
    f: F,
    repo: RepoRef,
    opened: ReplyView,
    end: End<F>,
) -> bool {
    exists|change: ChangeRef, before: ForgeReply, g: F| #[trigger]
        F::answers(f, ForgeCall::ChangeState { repo, change }, before, g) && names(change, opened)
        && (
            stops(end, state_is(before@, ChangeState::Open), before@, g)
                || state_is(before@, ChangeState::Open) && merge_stops(g, repo, change, end)
        )
}

/// The change is not opened, or not told and merged as promised.
pub open spec fn opening_stops<F: Forge>(f: F, repo: RepoRef, end: End<F>) -> bool {
    exists|opened: ForgeReply, g: F| #[trigger]
        F::answers(
            f,
            ForgeCall::OpenChange {
                repo,
                head: "feat/merge"@,
                base: "main"@,
                title: "t"@,
                body: "b"@,
                remove_source_branch: false,
            },
            opened,
            g,
        )
        && (
            stops(end, tells_change(opened@), opened@, g) || tells_change(opened@)
                && change_stops(g, repo, opened@, end)
        )
}

/// Nothing is committed to merge, or the rest stops.
pub open spec fn committing_stops<F: Forge>(f: F, repo: RepoRef, end: End<F>) -> bool {
    exists|sent: ForgeReply, g: F| #[trigger]
        F::answers(
            f,
            ForgeCall::CommitFile {
                repo,
                branch: "feat/merge"@,
                path: "c.txt"@,
                content: "x"@,
                blob_sha: ""@,
                message: "add c"@,
            },
            sent,
            g,
        )
        && (stops(end, tells(sent@), sent@, g) || tells(sent@) && opening_stops(g, repo, end))
}

/// There is no branch to merge, or the rest stops.
pub open spec fn branching_stops<F: Forge>(f: F, repo: RepoRef, end: End<F>) -> bool {
    exists|made: ForgeReply, g: F| #[trigger]
        F::answers(
            f,
            ForgeCall::CreateBranch { repo, name: "feat/merge"@, from_ref: "main"@ },
            made,
            g,
        )
        && (
            stops(end, branches(made@), made@, g) || branches(made@)
                && committing_stops(g, repo, end)
        )
}

/// A pass stands for replies that keep the promise: an open change is merged, and is then
/// merged and not closed. Any other verdict stands for a reply that does not.
pub proof fn a_verdict_on_merges_stands_for_replies<F: Forge>(f: F, repo: RepoRef, end: End<F>)
    requires
        merged_change_is_merged_not_closed_course(f, repo, end),
    ensures
        end.verdict is Pass ==> exists|
            made: ForgeReply,
            sent: ForgeReply,
            opened: ForgeReply,
            f1: F,
            f2: F,
            f3: F,
        | #[trigger]
            F::answers(
                f,
                ForgeCall::CreateBranch { repo, name: "feat/merge"@, from_ref: "main"@ },
                made,
                f1,
            )
            && #[trigger] F::answers(
                f1,
                ForgeCall::CommitFile {
                    repo,
                    branch: "feat/merge"@,
                    path: "c.txt"@,
                    content: "x"@,
                    blob_sha: ""@,
                    message: "add c"@,
                },
                sent,
                f2,
            )
            && #[trigger] F::answers(
                f2,
                ForgeCall::OpenChange {
                    repo,
                    head: "feat/merge"@,
                    base: "main"@,
                    title: "t"@,
                    body: "b"@,
                    remove_source_branch: false,
                },
                opened,
                f3,
            )
            && branches(made@) && tells(sent@) && merge_is_shown(f3, repo, opened@, end),
        !(end.verdict is Pass) ==> branching_stops(f, repo, end),
{
}

/// The triggers are not listed as promised.
pub open spec fn listing_stops<F: Forge>(f: F, repo: RepoRef, end: End<F>) -> bool {
    exists|listed: ForgeReply, g: F| #[trigger]
        F::answers(f, ForgeCall::ListTriggers { repo }, listed, g)
        && stops(end, lists_one(listed@, "https://hooks.example/webhook"@), listed@, g)
}

/// The trigger is not found, or the rest stops.
pub open spec fn rehooking_stops<F: Forge>(f: F, repo: RepoRef, end: End<F>) -> bool {
    exists|second: ForgeReply, g: F| #[trigger]
        F::answers(
            f,
            ForgeCall::EnsureTrigger {
                repo,
                url: "https://hooks.example/webhook"@,
                events: Seq::empty(),
                secret: "s3cret"@,
            },
            second,
            g,
        )
        && (
            stops(end, hooked(second@), second@, g) || hooked(second@)
                && listing_stops(g, repo, end)
        )
}

/// A pass stands for replies that keep the promise: a trigger is made once for its url; an
/// adapter that makes none is not held to it. Any other verdict stands for a reply that does
/// not.
pub proof fn a_verdict_on_triggers_stands_for_replies<F: Forge>(f: F, repo: RepoRef, end: End<F>)
    requires
        ensure_trigger_is_idempotent_by_url_course(f, repo, end),
    ensures
        end.verdict is Pass ==>
            (
                exists|first: ForgeReply| #[trigger]
                    F::answers(
                        f,
                        ForgeCall::EnsureTrigger {
                            repo,
                            url: "https://hooks.example/webhook"@,
                            events: Seq::empty(),
                            secret: "s3cret"@,
                        },
                        first,
                        end.adapter,
                    )
                    && (first@ matches ReplyView::Ensured(Err(_)))
            )
            || (
                exists|first: ForgeReply, second: ForgeReply, listed: ForgeReply, f1: F, f2: F|
                    #[trigger] F::answers(
                        f,
                        ForgeCall::EnsureTrigger {
                            repo,
                            url: "https://hooks.example/webhook"@,
                            events: Seq::empty(),
                            secret: "s3cret"@,
                        },
                        first,
                        f1,
                    )
                    && #[trigger] F::answers(
                        f1,
                        ForgeCall::EnsureTrigger {
                            repo,
                            url: "https://hooks.example/webhook"@,
                            events: Seq::empty(),
                            secret: "s3cret"@,
                        },
                        second,
                        f2,
                    )
                    && #[trigger] F::answers(
                        f2,
                        ForgeCall::ListTriggers { repo },
                        listed,
                        end.adapter,
                    )
                    && hooks(first@, "https://hooks.example/webhook"@) && hooked(second@)
                    && lists_one(listed@, "https://hooks.example/webhook"@)
            ),
        !(end.verdict is Pass) ==> exists|first: ForgeReply, g: F| #[trigger]
            F::answers(
                f,
                ForgeCall::EnsureTrigger {
                    repo,
                    url: "https://hooks.example/webhook"@,
                    events: Seq::empty(),
                    secret: "s3cret"@,
                },
                first,
                g,
            )
            && (first@ matches ReplyView::Ensured(Ok(_)))
            && (
                stops(end, hooks(first@, "https://hooks.example/webhook"@), first@, g)
                    || hooks(first@, "https://hooks.example/webhook"@)
                    && rehooking_stops(g, repo, end)
            ),
{
}

/// The change is armed, or the adapter says that it is not and tells the pipeline instead.
pub open spec fn arms_or_tells<F: Forge>(
    f: F,
    repo: RepoRef,
    opened: ReplyView,
    end: End<F>,
) -> bool {
    exists|change: ChangeRef, armed: ForgeReply, g: F| #[trigger]
        F::answers(
            f,
            ForgeCall::EnableAutoMerge { repo, change },
            armed,
            g,
        ) && names(change, opened) && (armed@ matches ReplyView::Flag(Ok(yes)) && if yes {
        g == end.adapter
    } else {
        exists|told: ForgeReply| #[trigger]
            F::answers(g, ForgeCall::PipelineStatus { repo, change }, told, end.adapter)
            && (told@ matches ReplyView::Pipeline(Ok(_)))
    })
}

/// A pass stands for a change that is armed, or that is said not to be; this case finds
/// nothing broken, it only tells the error that cut it short.
pub proof fn a_verdict_on_arming_stands_for_replies<F: Forge>(f: F, repo: RepoRef, end: End<F>)
    requires
        unsupported_is_explicit_course(f, repo, end),
    ensures
        end.verdict is Pass ==> exists|made: ForgeReply, opened: ForgeReply, f1: F, f2: F|
            #[trigger] F::answers(
                f,
                ForgeCall::CreateBranch { repo, name: "feat/unsup"@, from_ref: "main"@ },
                made,
                f1,
            )
            && #[trigger] F::answers(
                f1,
                ForgeCall::OpenChange {
                    repo,
                    head: "feat/unsup"@,
                    base: "main"@,
                    title: "t"@,
                    body: "b"@,
                    remove_source_branch: false,
                },
                opened,
                f2,
            )
            && branches(made@) && arms_or_tells(f2, repo, opened@, end),
        !(end.verdict is Broken),
        end.verdict matches VerdictView::Refused(e) ==>
            (
                exists|g: F, call: ForgeCall, reply: ForgeReply| #[trigger]
                    F::answers(g, call, reply, end.adapter) && fails_with(reply@, e)
            ),
{
}

/// A pass stands for a failure that surfaced and a retry that creates, where a failure could
/// be injected at all.
pub proof fn a_verdict_on_recovery_stands_for_replies<X: Fixture>(fx: X, end: End<X::Adapter>)
    requires
        transient_failure_is_recoverable_course(fx, end),
    ensures
        exists|injected: bool, after: X| #[trigger]
            X::injects(fx, "create_branch"@, "transient network blip"@, injected, after)
            && if injected {
            recovery_is_judged(after.adapter(), fx.subject(), end)
        } else {
            end.verdict is Pass && end.adapter == after.adapter()
        },
{
    let (injected, after) = choose|injected: bool, after: X| #[trigger] X::injects(
        fx,
        "create_branch"@,
        "transient network blip"@,
        injected,
        after,
    ) && if !injected {
        end.pass(after.adapter())
    } else {
        retries(after.adapter(), fx.subject(), end)
    };
    if injected {
        recovery_is_judged_by_its_replies(after.adapter(), fx.subject(), end);
    }
}

/// The first call fails and the second creates, where the case passes; where it does not, the
/// first call does not fail, or the second does not create.
pub open spec fn recovery_is_judged<F: Forge>(f: F, repo: RepoRef, end: End<F>) -> bool {
    exists|first: ForgeReply, g: F| #[trigger]
        F::answers(
            f,
            ForgeCall::CreateBranch { repo, name: "feat/retry"@, from_ref: "main"@ },
            first,
            g,
        )
        && match first@ {
        ReplyView::Branch(Err(_)) => exists|second: ForgeReply| #[trigger]
            F::answers(
                g,
                ForgeCall::CreateBranch { repo, name: "feat/retry"@, from_ref: "main"@ },
                second,
                end.adapter,
            )
            && match second@ {
            ReplyView::Branch(Ok(v)) => if v.created {
                end.verdict is Pass
            } else {
                end.verdict is Broken
            },
            ReplyView::Branch(Err(e)) => end.verdict == VerdictView::Refused(e),
            _ => false,
        },
        ReplyView::Branch(Ok(_)) => g == end.adapter && end.verdict is Broken,
        _ => false,
    }
}

proof fn recovery_is_judged_by_its_replies<F: Forge>(f: F, repo: RepoRef, end: End<F>)
    requires
        retries(f, repo, end),
    ensures
        recovery_is_judged(f, repo, end),
{
}

/// The reply says that the adapter does not have what was asked.
pub open spec fn disowns(reply: ReplyView) -> bool {
    match reply {
        ReplyView::Text(Err(e)) => contains_text(e, "not supported by this forge adapter"@),
        ReplyView::Triggers(Err(e)) => contains_text(e, "not supported by this forge adapter"@),
        ReplyView::Issues(Err(e)) => contains_text(e, "not supported by this forge adapter"@),
        ReplyView::Repos(Err(e)) => contains_text(e, "not supported by this forge adapter"@),
        ReplyView::PullRequests(Err(e)) => contains_text(e, "not supported by this forge adapter"@),
        _ => false,
    }
}

/// The call was made at some point, and its reply does not disown what was asked.
pub open spec fn tried<F: Forge>(call: ForgeCall) -> bool {
    exists|f: F, reply: ForgeReply, g: F| #[trigger]
        F::answers(f, call, reply, g) && !disowns(reply@)
}

/// A pass stands for replies to every declared surface, none of which disowns it; a break
/// stands for one that does. No error cuts the case short.
pub proof fn a_verdict_on_capabilities_stands_for_replies<F: Forge>(
    f: F,
    repo: RepoRef,
    end: End<F>,
)
    requires
        declared_capabilities_are_served_course(f, repo, end),
    ensures
        !(end.verdict is Refused),
        end.verdict is Pass ==> exists|reply: ForgeReply, g: F| #[trigger]
            F::answers(f, ForgeCall::Capabilities, reply, g) && match reply@ {
            ReplyView::Capabilities(Err(_)) => g == end.adapter,
            ReplyView::Capabilities(Ok(c)) => tried_all::<F>(repo, c),
            _ => false,
        },
        end.verdict is Broken ==> exists|g: F, call: ForgeCall, reply: ForgeReply| #[trigger]
            F::answers(g, call, reply, end.adapter) && disowns(reply@),
{
    let (reply, g) = choose|reply: ForgeReply, g: F| #[trigger] F::answers(
        f,
        ForgeCall::Capabilities,
        reply,
        g,
    ) && match reply@ {
        ReplyView::Capabilities(Err(_)) => end.pass(g),
        ReplyView::Capabilities(Ok(caps)) => serves_triggers(g, repo, caps, end),
        _ => false,
    };
    if let ReplyView::Capabilities(Ok(caps)) = reply@ {
        triggers_are_tried(g, repo, caps, end);
    }
}

/// Every declared surface was tried.
pub open spec fn tried_all<F: Forge>(repo: RepoRef, c: ForgeCapabilities) -> bool {
    &&& c.triggers ==> tried::<F>(ForgeCall::ListTriggers { repo })
    &&& c.issues ==>
        tried::<F>(
            ForgeCall::ListIssues {
                owners: Seq::empty(),
                labels: Seq::empty(),
                for_users: Seq::empty(),
            },
        )
    &&& c.checks ==>
        tried::<F>(
            ForgeCall::SetCheck {
                repo,
                head_sha: "deadbeef"@,
                name: "ci"@,
                status: "completed"@,
                conclusion: "success"@,
                details_url: ""@,
            },
        )
    &&& c.comments ==> tried::<F>(ForgeCall::Comment { repo, number: 1, body: "conformance"@ })
    &&& c.deployments ==>
        tried::<F>(
            ForgeCall::SetDeployment {
                repo,
                head_sha: "deadbeef"@,
                git_ref: "refs/heads/main"@,
                environment: "prod"@,
                state: "success"@,
                url: ""@,
                log_url: ""@,
                description: ""@,
            },
        )
    &&& c.repos ==> tried::<F>(ForgeCall::ListRepos { owners: Seq::empty(), labels: Seq::empty() })
    &&& c.pull_requests ==>
        tried::<F>(
            ForgeCall::ListPullRequests {
                owners: Seq::empty(),
                labels: Seq::empty(),
                for_users: Seq::empty(),
            },
        )
}

/// The case ends in a break that stands for a reply that disowns what was asked.
pub open spec fn broken_by_disowning<F: Forge>(end: End<F>) -> bool {
    end.verdict is Broken && exists|g: F, call: ForgeCall, reply: ForgeReply| #[trigger]
        F::answers(g, call, reply, end.adapter) && disowns(reply@)
}

proof fn pull_requests_are_tried<F: Forge>(f: F, caps: ForgeCapabilities, end: End<F>)
    requires
        serves_pull_requests(f, caps, end),
    ensures
        end.verdict is Pass || broken_by_disowning(end),
        end.verdict is Pass && caps.pull_requests ==>
            tried::<F>(
                ForgeCall::ListPullRequests {
                    owners: Seq::empty(),
                    labels: Seq::empty(),
                    for_users: Seq::empty(),
                },
            ),
{
}

proof fn repos_are_tried<F: Forge>(f: F, caps: ForgeCapabilities, end: End<F>)
    requires
        serves_repos(f, caps, end),
    ensures
        end.verdict is Pass || broken_by_disowning(end),
        end.verdict is Pass && caps.pull_requests ==>
            tried::<F>(
                ForgeCall::ListPullRequests {
                    owners: Seq::empty(),
                    labels: Seq::empty(),
                    for_users: Seq::empty(),
                },
            ),
        end.verdict is Pass && caps.repos ==>
            tried::<F>(ForgeCall::ListRepos { owners: Seq::empty(), labels: Seq::empty() }),
{
    assert forall|g: F| #[trigger]
        serves_pull_requests(g, caps, end) implies (end.verdict is Pass || broken_by_disowning(end))
        && (
            end.verdict is Pass && caps.pull_requests ==>
                tried::<F>(
                    ForgeCall::ListPullRequests {
                        owners: Seq::empty(),
                        labels: Seq::empty(),
                        for_users: Seq::empty(),
                    },
                )
        ) by {
        pull_requests_are_tried(g, caps, end);
    }
}

proof fn deployments_are_tried<F: Forge>(f: F, repo: RepoRef, caps: ForgeCapabilities, end: End<F>)
    requires
        serves_deployments(f, repo, caps, end),
    ensures
        end.verdict is Pass || broken_by_disowning(end),
        end.verdict is Pass && caps.pull_requests ==>
            tried::<F>(
                ForgeCall::ListPullRequests {
                    owners: Seq::empty(),
                    labels: Seq::empty(),
                    for_users: Seq::empty(),
                },
            ),
        end.verdict is Pass && caps.repos ==>
            tried::<F>(ForgeCall::ListRepos { owners: Seq::empty(), labels: Seq::empty() }),
        end.verdict is Pass && caps.deployments ==>
            tried::<F>(
                ForgeCall::SetDeployment {
                    repo,
                    head_sha: "deadbeef"@,
                    git_ref: "refs/heads/main"@,
                    environment: "prod"@,
                    state: "success"@,
                    url: ""@,
                    log_url: ""@,
                    description: ""@,
                },
            ),
{
    assert forall|g: F| #[trigger]
        serves_repos(g, caps, end) implies (end.verdict is Pass || broken_by_disowning(end))
        && (
            end.verdict is Pass && caps.pull_requests ==>
                tried::<F>(
                    ForgeCall::ListPullRequests {
                        owners: Seq::empty(),
                        labels: Seq::empty(),
                        for_users: Seq::empty(),
                    },
                )
        )
        && (
            end.verdict is Pass && caps.repos ==>
                tried::<F>(ForgeCall::ListRepos { owners: Seq::empty(), labels: Seq::empty() })
        ) by {
        repos_are_tried(g, caps, end);
    }
}

proof fn comments_are_tried<F: Forge>(f: F, repo: RepoRef, caps: ForgeCapabilities, end: End<F>)
    requires
        serves_comments(f, repo, caps, end),
    ensures
        end.verdict is Pass || broken_by_disowning(end),
        end.verdict is Pass && caps.pull_requests ==>
            tried::<F>(
                ForgeCall::ListPullRequests {
                    owners: Seq::empty(),
                    labels: Seq::empty(),
                    for_users: Seq::empty(),
                },
            ),
        end.verdict is Pass && caps.repos ==>
            tried::<F>(ForgeCall::ListRepos { owners: Seq::empty(), labels: Seq::empty() }),
        end.verdict is Pass && caps.deployments ==>
            tried::<F>(
                ForgeCall::SetDeployment {
                    repo,
                    head_sha: "deadbeef"@,
                    git_ref: "refs/heads/main"@,
                    environment: "prod"@,
                    state: "success"@,
                    url: ""@,
                    log_url: ""@,
                    description: ""@,
                },
            ),
        end.verdict is Pass && caps.comments ==>
            tried::<F>(ForgeCall::Comment { repo, number: 1, body: "conformance"@ }),
{
    assert forall|g: F| #[trigger]
        serves_deployments(g, repo, caps, end) implies (
            end.verdict is Pass || broken_by_disowning(end)
        )
        && (
            end.verdict is Pass && caps.pull_requests ==>
                tried::<F>(
                    ForgeCall::ListPullRequests {
                        owners: Seq::empty(),
                        labels: Seq::empty(),
                        for_users: Seq::empty(),
                    },
                )
        )
        && (
            end.verdict is Pass && caps.repos ==>
                tried::<F>(ForgeCall::ListRepos { owners: Seq::empty(), labels: Seq::empty() })
        )
        && (
            end.verdict is Pass && caps.deployments ==>
                tried::<F>(
                    ForgeCall::SetDeployment {
                        repo,
                        head_sha: "deadbeef"@,
                        git_ref: "refs/heads/main"@,
                        environment: "prod"@,
                        state: "success"@,
                        url: ""@,
                        log_url: ""@,
                        description: ""@,
                    },
                )
        ) by {
        deployments_are_tried(g, repo, caps, end);
    }
}

proof fn checks_are_tried<F: Forge>(f: F, repo: RepoRef, caps: ForgeCapabilities, end: End<F>)
    requires
        serves_checks(f, repo, caps, end),
    ensures
        end.verdict is Pass || broken_by_disowning(end),
        end.verdict is Pass && caps.pull_requests ==>
            tried::<F>(
                ForgeCall::ListPullRequests {
                    owners: Seq::empty(),
                    labels: Seq::empty(),
                    for_users: Seq::empty(),
                },
            ),
        end.verdict is Pass && caps.repos ==>
            tried::<F>(ForgeCall::ListRepos { owners: Seq::empty(), labels: Seq::empty() }),
        end.verdict is Pass && caps.deployments ==>
            tried::<F>(
                ForgeCall::SetDeployment {
                    repo,
                    head_sha: "deadbeef"@,
                    git_ref: "refs/heads/main"@,
                    environment: "prod"@,
                    state: "success"@,
                    url: ""@,
                    log_url: ""@,
                    description: ""@,
                },
            ),
        end.verdict is Pass && caps.comments ==>
            tried::<F>(ForgeCall::Comment { repo, number: 1, body: "conformance"@ }),
        end.verdict is Pass && caps.checks ==>
            tried::<F>(
                ForgeCall::SetCheck {
                    repo,
                    head_sha: "deadbeef"@,
                    name: "ci"@,
                    status: "completed"@,
                    conclusion: "success"@,
                    details_url: ""@,
                },
            ),
{
    assert forall|g: F| #[trigger]
        serves_comments(g, repo, caps, end) implies (
            end.verdict is Pass || broken_by_disowning(end)
        )
        && (
            end.verdict is Pass && caps.pull_requests ==>
                tried::<F>(
                    ForgeCall::ListPullRequests {
                        owners: Seq::empty(),
                        labels: Seq::empty(),
                        for_users: Seq::empty(),
                    },
                )
        )
        && (
            end.verdict is Pass && caps.repos ==>
                tried::<F>(ForgeCall::ListRepos { owners: Seq::empty(), labels: Seq::empty() })
        )
        && (
            end.verdict is Pass && caps.deployments ==>
                tried::<F>(
                    ForgeCall::SetDeployment {
                        repo,
                        head_sha: "deadbeef"@,
                        git_ref: "refs/heads/main"@,
                        environment: "prod"@,
                        state: "success"@,
                        url: ""@,
                        log_url: ""@,
                        description: ""@,
                    },
                )
        )
        && (
            end.verdict is Pass && caps.comments ==>
                tried::<F>(ForgeCall::Comment { repo, number: 1, body: "conformance"@ })
        ) by {
        comments_are_tried(g, repo, caps, end);
    }
}

proof fn issues_are_tried<F: Forge>(f: F, repo: RepoRef, caps: ForgeCapabilities, end: End<F>)
    requires
        serves_issues(f, repo, caps, end),
    ensures
        end.verdict is Pass || broken_by_disowning(end),
        end.verdict is Pass && caps.pull_requests ==>
            tried::<F>(
                ForgeCall::ListPullRequests {
                    owners: Seq::empty(),
                    labels: Seq::empty(),
                    for_users: Seq::empty(),
                },
            ),
        end.verdict is Pass && caps.repos ==>
            tried::<F>(ForgeCall::ListRepos { owners: Seq::empty(), labels: Seq::empty() }),
        end.verdict is Pass && caps.deployments ==>
            tried::<F>(
                ForgeCall::SetDeployment {
                    repo,
                    head_sha: "deadbeef"@,
                    git_ref: "refs/heads/main"@,
                    environment: "prod"@,
                    state: "success"@,
                    url: ""@,
                    log_url: ""@,
                    description: ""@,
                },
            ),
        end.verdict is Pass && caps.comments ==>
            tried::<F>(ForgeCall::Comment { repo, number: 1, body: "conformance"@ }),
        end.verdict is Pass && caps.checks ==>
            tried::<F>(
                ForgeCall::SetCheck {
                    repo,
                    head_sha: "deadbeef"@,
                    name: "ci"@,
                    status: "completed"@,
                    conclusion: "success"@,
                    details_url: ""@,
                },
            ),
        end.verdict is Pass && caps.issues ==>
            tried::<F>(
                ForgeCall::ListIssues {
                    owners: Seq::empty(),
                    labels: Seq::empty(),
                    for_users: Seq::empty(),
                },
            ),
{
    assert forall|g: F| #[trigger]
        serves_checks(g, repo, caps, end) implies (end.verdict is Pass || broken_by_disowning(end))
        && (
            end.verdict is Pass && caps.pull_requests ==>
                tried::<F>(
                    ForgeCall::ListPullRequests {
                        owners: Seq::empty(),
                        labels: Seq::empty(),
                        for_users: Seq::empty(),
                    },
                )
        )
        && (
            end.verdict is Pass && caps.repos ==>
                tried::<F>(ForgeCall::ListRepos { owners: Seq::empty(), labels: Seq::empty() })
        )
        && (
            end.verdict is Pass && caps.deployments ==>
                tried::<F>(
                    ForgeCall::SetDeployment {
                        repo,
                        head_sha: "deadbeef"@,
                        git_ref: "refs/heads/main"@,
                        environment: "prod"@,
                        state: "success"@,
                        url: ""@,
                        log_url: ""@,
                        description: ""@,
                    },
                )
        )
        && (
            end.verdict is Pass && caps.comments ==>
                tried::<F>(ForgeCall::Comment { repo, number: 1, body: "conformance"@ })
        )
        && (
            end.verdict is Pass && caps.checks ==>
                tried::<F>(
                    ForgeCall::SetCheck {
                        repo,
                        head_sha: "deadbeef"@,
                        name: "ci"@,
                        status: "completed"@,
                        conclusion: "success"@,
                        details_url: ""@,
                    },
                )
        ) by {
        checks_are_tried(g, repo, caps, end);
    }
}

proof fn triggers_are_tried<F: Forge>(f: F, repo: RepoRef, caps: ForgeCapabilities, end: End<F>)
    requires
        serves_triggers(f, repo, caps, end),
    ensures
        end.verdict is Pass || broken_by_disowning(end),
        end.verdict is Pass && caps.pull_requests ==>
            tried::<F>(
                ForgeCall::ListPullRequests {
                    owners: Seq::empty(),
                    labels: Seq::empty(),
                    for_users: Seq::empty(),
                },
            ),
        end.verdict is Pass && caps.repos ==>
            tried::<F>(ForgeCall::ListRepos { owners: Seq::empty(), labels: Seq::empty() }),
        end.verdict is Pass && caps.deployments ==>
            tried::<F>(
                ForgeCall::SetDeployment {
                    repo,
                    head_sha: "deadbeef"@,
                    git_ref: "refs/heads/main"@,
                    environment: "prod"@,
                    state: "success"@,
                    url: ""@,
                    log_url: ""@,
                    description: ""@,
                },
            ),
        end.verdict is Pass && caps.comments ==>
            tried::<F>(ForgeCall::Comment { repo, number: 1, body: "conformance"@ }),
        end.verdict is Pass && caps.checks ==>
            tried::<F>(
                ForgeCall::SetCheck {
                    repo,
                    head_sha: "deadbeef"@,
                    name: "ci"@,
                    status: "completed"@,
                    conclusion: "success"@,
                    details_url: ""@,
                },
            ),
        end.verdict is Pass && caps.issues ==>
            tried::<F>(
                ForgeCall::ListIssues {
                    owners: Seq::empty(),
                    labels: Seq::empty(),
                    for_users: Seq::empty(),
                },
            ),
        end.verdict is Pass && caps.triggers ==> tried::<F>(ForgeCall::ListTriggers { repo }),
{
    assert forall|g: F| #[trigger]
        serves_issues(g, repo, caps, end) implies (end.verdict is Pass || broken_by_disowning(end))
        && (
            end.verdict is Pass && caps.pull_requests ==>
                tried::<F>(
                    ForgeCall::ListPullRequests {
                        owners: Seq::empty(),
                        labels: Seq::empty(),
                        for_users: Seq::empty(),
                    },
                )
        )
        && (
            end.verdict is Pass && caps.repos ==>
                tried::<F>(ForgeCall::ListRepos { owners: Seq::empty(), labels: Seq::empty() })
        )
        && (
            end.verdict is Pass && caps.deployments ==>
                tried::<F>(
                    ForgeCall::SetDeployment {
                        repo,
                        head_sha: "deadbeef"@,
                        git_ref: "refs/heads/main"@,
                        environment: "prod"@,
                        state: "success"@,
                        url: ""@,
                        log_url: ""@,
                        description: ""@,
                    },
                )
        )
        && (
            end.verdict is Pass && caps.comments ==>
                tried::<F>(ForgeCall::Comment { repo, number: 1, body: "conformance"@ })
        )
        && (
            end.verdict is Pass && caps.checks ==>
                tried::<F>(
                    ForgeCall::SetCheck {
                        repo,
                        head_sha: "deadbeef"@,
                        name: "ci"@,
                        status: "completed"@,
                        conclusion: "success"@,
                        details_url: ""@,
                    },
                )
        )
        && (
            end.verdict is Pass && caps.issues ==>
                tried::<F>(
                    ForgeCall::ListIssues {
                        owners: Seq::empty(),
                        labels: Seq::empty(),
                        for_users: Seq::empty(),
                    },
                )
        ) by {
        issues_are_tried(g, repo, caps, end);
    }
}

} // verus!
