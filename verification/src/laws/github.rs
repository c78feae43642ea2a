//! What the GitHub adapter makes of what the host answers.

use crate::forge::{BranchOutcome, EnsuredTrigger, ForgeResult, OpenedChange, PipelineStatus};
use crate::github::{
    self, Answer, CommitFile, ContentFailure, ContentItem, CreateBranch, EnableAutoMerge,
    EnsureTrigger, OpenChange, PipelineQuery, Pull, ReadFile, RefFailure, RefObject, Request, Turn,
};
use crate::json::{Document, Json, JsonTree};
use crate::laws::json::{no_text, reading, says, says_at, says_text, silent};
use crate::messages::{ChangeRef, ChangeState, CiStatus, FileBlob, RepoRef, Trigger};
use crate::text::decimal;
use vstd::prelude::*;

verus! {

// ── pipeline status ─────────────────────────────────────────────────────────

/// No two conclusions have one name.
proof fn conclusions_differ()
    ensures
        "success"@ != "neutral"@,
        "success"@ != "skipped"@,
        "success"@ != "failure"@,
        "success"@ != "timed_out"@,
        "success"@ != "action_required"@,
        "success"@ != "startup_failure"@,
        "success"@ != "cancelled"@,
        "neutral"@ != "skipped"@,
        "neutral"@ != "failure"@,
        "neutral"@ != "timed_out"@,
        "neutral"@ != "action_required"@,
        "neutral"@ != "startup_failure"@,
        "neutral"@ != "cancelled"@,
        "skipped"@ != "failure"@,
        "skipped"@ != "timed_out"@,
        "skipped"@ != "action_required"@,
        "skipped"@ != "startup_failure"@,
        "skipped"@ != "cancelled"@,
        "failure"@ != "timed_out"@,
        "failure"@ != "action_required"@,
        "failure"@ != "startup_failure"@,
        "failure"@ != "cancelled"@,
        "timed_out"@ != "action_required"@,
        "timed_out"@ != "startup_failure"@,
        "timed_out"@ != "cancelled"@,
        "action_required"@ != "startup_failure"@,
        "action_required"@ != "cancelled"@,
        "startup_failure"@ != "cancelled"@,
{
    reveal_strlit("success");
    reveal_strlit("neutral");
    reveal_strlit("skipped");
    reveal_strlit("failure");
    reveal_strlit("timed_out");
    reveal_strlit("action_required");
    reveal_strlit("startup_failure");
    reveal_strlit("cancelled");
    assert("success"@[0] != "neutral"@[0]);
    assert("success"@[1] != "skipped"@[1]);
    assert("success"@[0] != "failure"@[0]);
    assert("success"@.len() != "timed_out"@.len());
    assert("success"@.len() != "action_required"@.len());
    assert("success"@.len() != "startup_failure"@.len());
    assert("success"@.len() != "cancelled"@.len());
    assert("neutral"@[0] != "skipped"@[0]);
    assert("neutral"@[0] != "failure"@[0]);
    assert("neutral"@.len() != "timed_out"@.len());
    assert("neutral"@.len() != "action_required"@.len());
    assert("neutral"@.len() != "startup_failure"@.len());
    assert("neutral"@.len() != "cancelled"@.len());
    assert("skipped"@[0] != "failure"@[0]);
    assert("skipped"@.len() != "timed_out"@.len());
    assert("skipped"@.len() != "action_required"@.len());
    assert("skipped"@.len() != "startup_failure"@.len());
    assert("skipped"@.len() != "cancelled"@.len());
    assert("failure"@.len() != "timed_out"@.len());
    assert("failure"@.len() != "action_required"@.len());
    assert("failure"@.len() != "startup_failure"@.len());
    assert("failure"@.len() != "cancelled"@.len());
    assert("timed_out"@.len() != "action_required"@.len());
    assert("timed_out"@.len() != "startup_failure"@.len());
    assert("timed_out"@[0] != "cancelled"@[0]);
    assert("action_required"@[0] != "startup_failure"@[0]);
    assert("action_required"@.len() != "cancelled"@.len());
    assert("startup_failure"@.len() != "cancelled"@.len());
}

/// No two combined states have one name.
proof fn states_differ()
    ensures
        "success"@ != "failure"@,
        "success"@ != "error"@,
        "success"@ != "pending"@,
        "failure"@ != "error"@,
        "failure"@ != "pending"@,
        "error"@ != "pending"@,
{
    reveal_strlit("success");
    reveal_strlit("failure");
    reveal_strlit("error");
    reveal_strlit("pending");
    assert("success"@[0] != "failure"@[0]);
    assert("success"@.len() != "error"@.len());
    assert("success"@[0] != "pending"@[0]);
    assert("failure"@.len() != "error"@.len());
    assert("failure"@[0] != "pending"@[0]);
    assert("error"@.len() != "pending"@.len());
}

/// The conclusion of a check run that came to a bad end.
pub open spec fn bad(conclusion: Seq<char>) -> bool {
    ||| conclusion == "failure"@
    ||| conclusion == "timed_out"@
    ||| conclusion == "action_required"@
    ||| conclusion == "startup_failure"@
    ||| conclusion == "cancelled"@
}

/// What a conclusion stands for: three are a success, four a failure, one a cancellation,
/// and any other, or none, says nothing.
pub proof fn conclusions_have_their_meaning(conclusion: Option<&str>, r: Option<CiStatus>)
    requires
        call_ensures(github::map_check_conclusion, (conclusion,), r),
    ensures
        r == Some(CiStatus::Success) <==> (conclusion matches Some(c) && (c@ == "success"@ || c@
            == "neutral"@ || c@ == "skipped"@)),
        r == Some(CiStatus::Canceled) <==> (conclusion matches Some(c) && c@ == "cancelled"@),
        r == Some(CiStatus::Failed) <==> (conclusion matches Some(c) && c@ != "cancelled"@ && bad(
            c@,
        )),
        r is None || r == Some(CiStatus::Success) || r == Some(CiStatus::Failed) || r == Some(
            CiStatus::Canceled,
        ),
{
    conclusions_differ();
}

/// The run is completed.
pub open spec fn done(run: JsonTree) -> bool {
    says_text(run, "status"@, "completed"@)
}

/// The run is completed, and came to a bad end.
pub open spec fn failed(run: JsonTree) -> bool {
    done(run) && exists|c: Seq<char>| bad(c) && #[trigger] says_text(run, "conclusion"@, c)
}

/// One check run with a bad end fails the pipeline, whatever the other runs say. Without
/// one, a run that is not completed keeps it running; and it succeeds exactly where every
/// run is completed and none came to a bad end.
pub proof fn check_runs_decide(
    repo: RepoRef,
    head_sha: String,
    answer: Document,
    runs: Seq<JsonTree>,
    r: Turn<PipelineQuery, PipelineStatus>,
)
    requires
        call_ensures(
            PipelineQuery::next,
            (PipelineQuery::Runs { repo, head_sha }, Answer::Value(Ok(answer))),
            r,
        ),
        says(answer.json.tree(), "check_runs"@, JsonTree::List(runs)),
        runs.len() > 0,
    ensures
        r matches Turn::Done(Ok(p)) && {
            &&& p.status == CiStatus::Failed || p.status == CiStatus::Running || p.status
                == CiStatus::Success
            &&& p.status == CiStatus::Failed <==> exists|i: int|
                0 <= i < runs.len() && failed(#[trigger] runs[i])
            &&& p.status == CiStatus::Success <==> forall|i: int|
                0 <= i < runs.len() ==> done(#[trigger] runs[i]) && !failed(runs[i])
            &&& p.pipeline_id@ == head_sha@
            &&& p.url@ == "https://github.com/"@ + repo.owner@ + "/"@ + repo.name@ + "/commits/"@
                + head_sha@
        },
{
    reading();
    conclusions_differ();
    assert forall|i: int| 0 <= i < runs.len() implies done(#[trigger] runs[i])
        == github::completed(runs[i]) && failed(runs[i]) == github::ended_badly(runs[i]) by {
        let run = runs[i];
        if github::ended_badly(run) {
            let c = run.field("conclusion"@)->0->Text_0;
            assert(says_text(run, "conclusion"@, c));
        }
    }
}

/// A change without check runs is judged by the combined status of its head, which is asked
/// for at the host.
pub proof fn without_check_runs_the_combined_status_is_asked(
    repo: RepoRef,
    head_sha: String,
    answer: Document,
    r: Turn<PipelineQuery, PipelineStatus>,
)
    requires
        call_ensures(
            PipelineQuery::next,
            (PipelineQuery::Runs { repo, head_sha }, Answer::Value(Ok(answer))),
            r,
        ),
        forall|runs: Seq<JsonTree>|
            runs.len() > 0 ==> !#[trigger] says(
                answer.json.tree(),
                "check_runs"@,
                JsonTree::List(runs),
            ),
    ensures
        r matches Turn::Ask(PipelineQuery::Combined { repo: rp, head_sha: sha }, q) && {
            &&& rp@ == repo@
            &&& sha@ == head_sha@
            &&& q matches Request::Get { route }
            &&& route@ == "/repos/"@ + repo.owner@ + "/"@ + repo.name@ + "/"@ + ("commits/"@
                + head_sha@ + "/"@ + "status"@)
        },
{
    reading();
    if let Some(JsonTree::List(runs)) = answer.json.tree().field("check_runs"@) {
        assert(says(answer.json.tree(), "check_runs"@, JsonTree::List(runs)));
    }
}

/// The combined state decides: a success, a failure or an error, something pending; any
/// other state, or none, is no pipeline at all.
pub proof fn combined_state_decides(
    repo: RepoRef,
    head_sha: String,
    answer: Document,
    r: Turn<PipelineQuery, PipelineStatus>,
)
    requires
        call_ensures(
            PipelineQuery::next,
            (PipelineQuery::Combined { repo, head_sha }, Answer::Value(Ok(answer))),
            r,
        ),
    ensures
        r matches Turn::Done(Ok(p)) && {
            let t = answer.json.tree();
            &&& says_text(t, "state"@, "success"@) <==> p.status == CiStatus::Success
            &&& (says_text(t, "state"@, "failure"@) || says_text(t, "state"@, "error"@))
                <==> p.status == CiStatus::Failed
            &&& says_text(t, "state"@, "pending"@) <==> p.status == CiStatus::Running
            &&& p.status == CiStatus::Success || p.status == CiStatus::Failed || p.status
                == CiStatus::Running || p.status == CiStatus::Absent
            &&& p.pipeline_id@ == head_sha@
            &&& p.url@ == "https://github.com/"@ + repo.owner@ + "/"@ + repo.name@ + "/commits/"@
                + head_sha@
        },
{
    reading();
    states_differ();
}

/// The pull request is read first, and then the check runs of the head that it names.
pub proof fn the_pipeline_is_that_of_the_head(
    repo: &RepoRef,
    change: &ChangeRef,
    started: (PipelineQuery, Request),
    answer: Document,
    r: Turn<PipelineQuery, PipelineStatus>,
)
    requires
        call_ensures(PipelineQuery::start, (repo, change), started),
        call_ensures(PipelineQuery::next, (started.0, Answer::Value(Ok(answer))), r),
    ensures
        started.1 matches Request::Get { route } && route@ == "/repos/"@ + repo.owner@ + "/"@
            + repo.name@ + "/"@ + ("pulls/"@ + decimal(change.number as nat)),
        forall|head: JsonTree, sha: Seq<char>|
            says(answer.json.tree(), "head"@, head) && #[trigger] says_text(head, "sha"@, sha) ==> {
                &&& r matches Turn::Ask(PipelineQuery::Runs { repo: rp, head_sha }, q)
                &&& rp@ == repo@
                &&& head_sha@ == sha
                &&& q matches Request::Get { route }
                &&& route@ == "/repos/"@ + repo.owner@ + "/"@ + repo.name@ + "/"@ + ("commits/"@
                    + sha + "/"@ + "check-runs"@)
            },
        (forall|head: JsonTree|
            says(answer.json.tree(), "head"@, head) ==> #[trigger] no_text(head, "sha"@)) ==> (
        r matches Turn::Done(Err(e)) && e@ == "PR "@ + decimal(change.number as nat)
            + " has no head.sha"@),
{
    reading();
    if let Some(head) = answer.json.tree().field("head"@) {
        assert(says(answer.json.tree(), "head"@, head));
        if let Some(JsonTree::Text(sha)) = head.field("sha"@) {
            assert(says_text(head, "sha"@, sha));
            assert(!no_text(head, "sha"@));
        }
    }
}

/// A request that fails on the way fails the query, with what was being read and the cause.
pub proof fn a_failed_read_fails_the_pipeline_query(
    q: PipelineQuery,
    cause: String,
    r: Turn<PipelineQuery, PipelineStatus>,
)
    requires
        call_ensures(PipelineQuery::next, (q, Answer::Value(Err(cause))), r),
    ensures
        r matches Turn::Done(Err(e)) && e@ == match q {
            PipelineQuery::Pull { repo, number } => "get PR "@ + ("/repos/"@ + repo.owner@ + "/"@
                + repo.name@ + "/"@ + ("pulls/"@ + decimal(number as nat))) + ": "@ + cause@,
            PipelineQuery::Runs { .. } => "check-runs"@ + ": "@ + cause@,
            PipelineQuery::Combined { .. } => "combined status"@ + ": "@ + cause@,
        },
{
}

// ── opening a change ────────────────────────────────────────────────────────

/// The change is this pull request from this head: its number, and its url where the host
/// gives one.
pub open spec fn change_of(o: OpenedChange, pull: Pull, head: Seq<char>) -> bool {
    &&& o.change.number == pull.number
    &&& o.change.branch@ == head
    &&& match pull.html_url {
        Some(url) => o.change.url@ == url@,
        None => o.change.url@.len() == 0,
    }
    &&& o.change.id@.len() == 0
}

/// Whether it was opened or adopted, a change is the pull request that the host answered
/// with: the one it made, or the first of the open ones.
pub proof fn a_change_is_the_host_s_pull_request(
    repo: RepoRef,
    head: String,
    cause: String,
    made: Pull,
    found: Vec<Pull>,
    opened: Turn<OpenChange, OpenedChange>,
    adopted: Turn<OpenChange, OpenedChange>,
)
    requires
        call_ensures(
            OpenChange::next,
            (OpenChange::Create { repo, head }, Answer::Pull(Ok(made))),
            opened,
        ),
        call_ensures(
            OpenChange::next,
            (OpenChange::Adopt { head, cause }, Answer::Pulls(Ok(found))),
            adopted,
        ),
    ensures
        opened matches Turn::Done(Ok(o)) && !o.already_existed && change_of(o, made, head@),
        found@.len() > 0 ==> (adopted matches Turn::Done(Ok(o)) && o.already_existed && change_of(
            o,
            found@[0],
            head@,
        )),
        found@.len() == 0 ==> (adopted matches Turn::Done(Err(e)) && e@ == "open PR"@ + ": "@
            + cause@),
{
}

/// A pull request is asked for as the caller describes it. Where the host refuses, the open
/// ones from the same head of the same owner are asked for, and the refusal is kept: it is
/// what is told where they cannot be had either.
pub proof fn a_refused_change_is_looked_for(
    repo: &RepoRef,
    head: &str,
    base: &str,
    title: &str,
    body: &str,
    started: (OpenChange, Request),
    cause: String,
    other: String,
    asked: Turn<OpenChange, OpenedChange>,
    lost: Turn<OpenChange, OpenedChange>,
)
    requires
        call_ensures(OpenChange::start, (repo, head, base, title, body), started),
        call_ensures(OpenChange::next, (started.0, Answer::Pull(Err(cause))), asked),
        asked is Ask ==> call_ensures(
            OpenChange::next,
            (asked->Ask_0, Answer::Pulls(Err(other))),
            lost,
        ),
    ensures
        started.1 matches Request::CreatePull { owner, name, title: t, head: h, base: b, text }
            && owner@ == repo.owner@ && name@ == repo.name@ && t@ == title@ && h@ == head@ && b@
            == base@ && text@ == body@,
        asked matches Turn::Ask(_, Request::OpenPulls { owner, name, head: h }) && owner@
            == repo.owner@ && name@ == repo.name@ && h@ == repo.owner@ + ":"@ + head@,
        lost matches Turn::Done(Err(e)) && e@ == "open PR"@ + ": "@ + cause@,
{
}

// ── branches ────────────────────────────────────────────────────────────────

/// The keys of the request for a branch differ.
proof fn ref_keys_differ()
    ensures
        "ref"@ != "sha"@,
{
    reveal_strlit("ref");
    reveal_strlit("sha");
    assert("ref"@[0] != "sha"@[0]);
}

/// The request makes the branch at the commit, in the repository.
pub open spec fn makes_branch(q: Request, repo: RepoRef, name: Seq<char>, sha: Seq<char>) -> bool {
    &&& q matches Request::Post { route, body }
    &&& route@ == "/repos/"@ + repo.owner@ + "/"@ + repo.name@ + "/"@ + "git/refs"@
    &&& says_text(body.tree(), "ref"@, "refs/heads/"@ + name)
    &&& says_text(body.tree(), "sha"@, sha)
}

proof fn branch_bodies(name: Seq<char>, sha: Seq<char>)
    ensures
        ({
            let t = JsonTree::Entries(
                seq![
                    ("ref"@, JsonTree::Text("refs/heads/"@ + name)),
                    ("sha"@, JsonTree::Text(sha)),
                ],
            );
            says_text(t, "ref"@, "refs/heads/"@ + name) && says_text(t, "sha"@, sha)
        }),
{
    ref_keys_differ();
    let entries = seq![
        ("ref"@, JsonTree::Text("refs/heads/"@ + name)),
        ("sha"@, JsonTree::Text(sha)),
    ];
    says_at(entries, "ref"@, 0);
    says_at(entries, "sha"@, 1);
}

/// A branch is made where its start is: at the commit of the branch that the start names,
/// or, where it names none, at the start itself. A lookup that fails for another reason, or
/// without a start, and a ref that is no commit, make nothing.
pub proof fn a_branch_is_made_at_its_start(
    repo: &RepoRef,
    name: &str,
    from_ref: &str,
    started: (CreateBranch, Request),
    found: Result<RefObject, RefFailure>,
    r: Turn<CreateBranch, BranchOutcome>,
)
    requires
        call_ensures(CreateBranch::start, (repo, name, from_ref), started),
        call_ensures(CreateBranch::next, (started.0, Answer::Ref(found)), r),
    ensures
        started.1 matches Request::Ref { owner, name: n, branch } && owner@ == repo.owner@ && n@
            == repo.name@ && branch@ == from_ref@,
        found matches Ok(RefObject::Commit { sha }) ==> (r matches Turn::Ask(_, q) && makes_branch(
            q,
            *repo,
            name@,
            sha@,
        )),
        found matches Err(RefFailure::NotFound(_)) && from_ref@.len() > 0 ==> (
        r matches Turn::Ask(_, q) && makes_branch(q, *repo, name@, from_ref@)),
        found matches Err(RefFailure::NotFound(cause)) ==> (from_ref@.len() == 0 ==> (
        r matches Turn::Done(Err(e)) && e@ == "get_ref "@ + from_ref@ + ": "@ + cause@)),
        found matches Err(RefFailure::Other(cause)) ==> (r matches Turn::Done(Err(e)) && e@
            == "get_ref "@ + from_ref@ + ": "@ + cause@),
        found matches Ok(RefObject::Other { shown }) ==> (r matches Turn::Done(Err(e)) && e@
            == "unexpected ref object: "@ + shown@),
{
    branch_bodies(name@, from_ref@);
    if let Ok(RefObject::Commit { sha }) = found {
        branch_bodies(name@, sha@);
    }
}

/// A branch that was made is new. One that could not be made is looked for: where it is
/// there, it already existed; where it is not, the failure is told.
pub proof fn a_branch_is_new_or_was_there(
    repo: RepoRef,
    name: String,
    unfound: Option<String>,
    document: Document,
    cause: String,
    made: Turn<CreateBranch, BranchOutcome>,
    refused: Turn<CreateBranch, BranchOutcome>,
    found: Result<RefObject, RefFailure>,
    r: Turn<CreateBranch, BranchOutcome>,
)
    requires
        call_ensures(
            CreateBranch::next,
            (CreateBranch::Make { repo, name, unfound }, Answer::Value(Ok(document))),
            made,
        ),
        call_ensures(
            CreateBranch::next,
            (CreateBranch::Make { repo, name, unfound }, Answer::Value(Err(cause))),
            refused,
        ),
        refused is Ask ==> call_ensures(
            CreateBranch::next,
            (refused->Ask_0, Answer::Ref(found)),
            r,
        ),
    ensures
        made matches Turn::Done(Ok(o)) && o.created && !o.already_existed,
        refused matches Turn::Ask(_, Request::Ref { owner, name: n, branch }) && owner@
            == repo.owner@ && n@ == repo.name@ && branch@ == name@,
        found is Ok ==> (r matches Turn::Done(Ok(o)) && !o.created && o.already_existed),
        found is Err && unfound is None ==> (r matches Turn::Done(Err(e)) && e@ == "create branch"@
            + ": "@ + cause@),
        found is Err && unfound is Some ==> (r matches Turn::Done(Err(e)) && e@ == unfound->0@),
{
}

// ── files ───────────────────────────────────────────────────────────────────

/// A file is read at the branch that is asked for, and without one at the default branch:
/// the one that the host tells, or `main` where it tells none.
pub proof fn a_file_is_read_at_its_branch(
    repo: &RepoRef,
    path: &str,
    at: &str,
    started: (ReadFile, Request),
    told: Result<Option<String>, String>,
    r: Turn<ReadFile, Option<FileBlob>>,
)
    requires
        call_ensures(ReadFile::start, (repo, path, at), started),
        call_ensures(ReadFile::next, (started.0, Answer::Repo(told)), r),
    ensures
        at@.len() > 0 ==> (started.1 matches Request::Content { owner, name, path: p, at: b }
            && owner@ == repo.owner@ && name@ == repo.name@ && p@ == path@ && b@ == at@),
        at@.len() == 0 ==> (started.1 matches Request::Repo { owner, name } && owner@ == repo.owner@
            && name@ == repo.name@),
        told matches Ok(branch) ==> (at@.len() == 0 ==> (r matches Turn::Ask(
            ReadFile::Content { path: kept },
            Request::Content { owner, name, path: p, at: b },
        ) && kept@ == path@ && owner@ == repo.owner@ && name@ == repo.name@ && p@ == path@ && b@
            == match branch {
            Some(branch) => branch@,
            None => "main"@,
        })),
        told matches Err(cause) ==> (at@.len() == 0 ==> (r matches Turn::Done(Err(e)) && e@
            == "get repo "@ + repo.owner@ + "/"@ + repo.name@ + ": "@ + cause@)),
{
}

/// What is read of a file is what the host holds: its path, its text and its id. A file that
/// is not there is an answer; a host that fails, or a content that cannot be read, is an
/// error.
pub proof fn what_is_read_is_what_the_host_holds(
    path: String,
    found: Result<Option<ContentItem>, ContentFailure>,
    text: Option<String>,
    r: Turn<ReadFile, Option<FileBlob>>,
)
    requires
        call_ensures(ReadFile::next, (ReadFile::Content { path }, Answer::Content(found)), r),
        found matches Ok(Some(item)) ==> call_ensures(
            github::decoded_content,
            (&item.encoded,),
            text,
        ),
    ensures
        found matches Ok(Some(item)) ==> match text {
            Some(text) => r matches Turn::Done(Ok(Some(blob))) && blob.path@ == path@
                && blob.content@ == text@ && blob.blob_sha@ == item.sha@,
            None => r matches Turn::Done(Err(e)) && e@ == path@ + ": base64 decode failed"@,
        },
        found matches Ok(None) ==> r matches Turn::Done(Ok(None)),
        found matches Err(ContentFailure::NotFound) ==> r matches Turn::Done(Ok(None)),
        found matches Err(ContentFailure::Other(cause)) ==> (r matches Turn::Done(Err(e)) && e@
            == "get content "@ + path@ + ": "@ + cause@),
{
}

/// The bytes but for spaces, tabs and the like.
pub open spec fn solid(bytes: Seq<u8>) -> Seq<u8> {
    bytes.filter(
        |b: u8| b != 0x20 && b != 0x09 && b != 0x0a && b != 0x0b && b != 0x0c && b != 0x0d,
    )
}

proof fn solid_is_unbroken(bytes: Seq<u8>)
    ensures
        solid(bytes) == github::unbroken(bytes),
{
    assert((|b: u8|
        b != 0x20 && b != 0x09 && b != 0x0a && b != 0x0b && b != 0x0c && b != 0x0d) =~= (|b: u8|
        !github::blank(b)));
}

/// Two contents that differ in blanks only are the same file, and no content is no file.
pub proof fn blanks_do_not_count(
    a: &Option<String>,
    b: &Option<String>,
    r: Option<String>,
    s: Option<String>,
)
    requires
        call_ensures(github::decoded_content, (a,), r),
        call_ensures(github::decoded_content, (b,), s),
    ensures
        a is None ==> r is None,
        a matches Some(x) && b matches Some(y) && solid(vstd::utf8::encode_utf8(x@)) == solid(
            vstd::utf8::encode_utf8(y@),
        ) ==> (r is Some) == (s is Some) && (r is Some ==> r->0@ == s->0@),
{
    if a is Some && b is Some {
        solid_is_unbroken(vstd::utf8::encode_utf8(a->0@));
        solid_is_unbroken(vstd::utf8::encode_utf8(b->0@));
    }
}

/// The keys of a commit differ.
proof fn commit_keys_differ()
    ensures
        "message"@ != "content"@,
        "message"@ != "branch"@,
        "message"@ != "sha"@,
        "content"@ != "branch"@,
        "content"@ != "sha"@,
        "branch"@ != "sha"@,
{
    reveal_strlit("message");
    reveal_strlit("content");
    reveal_strlit("branch");
    reveal_strlit("sha");
    assert("message"@[0] != "content"@[0]);
    assert("message"@.len() != "branch"@.len());
    assert("message"@.len() != "sha"@.len());
    assert("content"@.len() != "branch"@.len());
    assert("content"@.len() != "sha"@.len());
    assert("branch"@.len() != "sha"@.len());
}

/// A commit is sent to the path in the repository, on the branch, with its message, and with
/// the id of the file that it replaces where there is one. The content that it carries is
/// read back as it was, whatever blanks the host breaks it into lines by.
pub proof fn a_committed_content_is_read_back(
    repo: &RepoRef,
    branch: &str,
    path: &str,
    content: &str,
    blob_sha: &str,
    message: &str,
    started: (CommitFile, Request),
    held: &Option<String>,
    r: Option<String>,
)
    requires
        call_ensures(
            CommitFile::start,
            (repo, branch, path, content, blob_sha, message),
            started,
        ),
        call_ensures(github::decoded_content, (held,), r),
    ensures
        started.1 matches Request::Put { route, body } && {
            let t = body.tree();
            &&& route@ == "/repos/"@ + repo.owner@ + "/"@ + repo.name@ + "/"@ + ("contents/"@
                + path@)
            &&& says_text(t, "message"@, message@)
            &&& says_text(t, "branch"@, branch@)
            &&& blob_sha@.len() > 0 ==> says_text(t, "sha"@, blob_sha@)
            &&& blob_sha@.len() == 0 ==> silent(t, "sha"@)
            &&& exists|sent: Seq<char>| #[trigger]
                says_text(t, "content"@, sent) && (held is Some && solid(
                    vstd::utf8::encode_utf8(held->0@),
                ) == vstd::utf8::encode_utf8(sent) ==> (r matches Some(text) && text@ == content@))
        },
{
    commit_keys_differ();
    let sent = github::base64_text(vstd::utf8::encode_utf8(content@));
    let t = github::commit_body(branch@, content@, blob_sha@, message@);
    let entries = t->Entries_0;
    says_at(entries, "message"@, 0);
    says_at(entries, "content"@, 1);
    says_at(entries, "branch"@, 2);
    if blob_sha@.len() > 0 {
        says_at(entries, "sha"@, 3);
    }
    assert(says_text(t, "content"@, sent));
    assert(github::reads_back(sent, content@));
    if held is Some {
        solid_is_unbroken(vstd::utf8::encode_utf8(held->0@));
        assert(github::file_text(Some(held->0@)) == crate::messages::seen(r));
    }
    assert(started.1@ is Put);
    assert(started.1 is Put);
    if blob_sha@.len() == 0 {
        assert(silent(t, "sha"@));
    }
}

/// A commit tells its sha. One that is refused is a success all the same where the branch
/// holds exactly that content already; else the refusal is told.
pub proof fn a_refused_commit_of_what_is_held_succeeds(
    repo: RepoRef,
    branch: String,
    path: String,
    content: String,
    made: Document,
    cause: String,
    done: Turn<CommitFile, String>,
    refused: Turn<CommitFile, String>,
    found: Result<Option<ContentItem>, ContentFailure>,
    r: Turn<CommitFile, String>,
)
    requires
        call_ensures(
            CommitFile::next,
            (CommitFile::Put { repo, branch, path, content }, Answer::Value(Ok(made))),
            done,
        ),
        call_ensures(
            CommitFile::next,
            (CommitFile::Put { repo, branch, path, content }, Answer::Value(Err(cause))),
            refused,
        ),
        refused is Ask ==> call_ensures(
            CommitFile::next,
            (refused->Ask_0, Answer::Content(found)),
            r,
        ),
    ensures
        forall|commit: JsonTree, sha: Seq<char>|
            says(made.json.tree(), "commit"@, commit) && #[trigger] says_text(commit, "sha"@, sha)
                ==> (done matches Turn::Done(Ok(s)) && s@ == sha),
        silent(made.json.tree(), "commit"@) ==> (done matches Turn::Done(Ok(s)) && s@.len() == 0),
        refused matches Turn::Ask(_, Request::Content { owner, name, path: p, at }) && owner@
            == repo.owner@ && name@ == repo.name@ && p@ == path@ && at@ == branch@,
        r is Done,
        r matches Turn::Done(Ok(_)) <==> (found matches Ok(Some(item))
            && item.encoded matches Some(held) && github::base64_bytes(
            solid(vstd::utf8::encode_utf8(held@)),
        ) == Some(vstd::utf8::encode_utf8(content@))),
        r matches Turn::Done(Err(e)) ==> e@ == "commit file"@ + ": "@ + cause@,
{
    reading();
    if let Ok(Some(item)) = found {
        if let Some(held) = item.encoded {
            solid_is_unbroken(vstd::utf8::encode_utf8(held@));
        }
    }
}

// ── merging ─────────────────────────────────────────────────────────────────

/// The keys of a GraphQL request differ.
proof fn mutation_keys_differ()
    ensures
        "query"@ != "variables"@,
{
    reveal_strlit("query");
    reveal_strlit("variables");
    assert("query"@.len() != "variables"@.len());
}

/// Auto-merge is armed on the pull request's node, by a mutation that names it; a pull request
/// without a node cannot be armed, and one that cannot be read is an error.
pub proof fn auto_merge_is_asked_of_the_pull_request(
    repo: &RepoRef,
    change: &ChangeRef,
    started: (EnableAutoMerge, Request),
    answer: Result<Document, String>,
    r: Turn<EnableAutoMerge, bool>,
)
    requires
        call_ensures(EnableAutoMerge::start, (repo, change), started),
        call_ensures(EnableAutoMerge::next, (started.0, Answer::Value(answer)), r),
    ensures
        started.1 matches Request::Get { route } && route@ == "/repos/"@ + repo.owner@ + "/"@
            + repo.name@ + "/"@ + ("pulls/"@ + decimal(change.number as nat)),
        answer matches Ok(pr) ==> (forall|id: Seq<char>| #[trigger]
            says_text(pr.json.tree(), "node_id"@, id) ==> {
                &&& r matches Turn::Ask(EnableAutoMerge::Arm, Request::Graphql { body })
                &&& exists|variables: JsonTree| #[trigger]
                    says(body.tree(), "variables"@, variables) && says_text(variables, "id"@, id)
                &&& says_text(
                    body.tree(),
                    "query"@,
                    "mutation($id:ID!){enablePullRequestAutoMerge(input:{pullRequestId:$id,mergeMethod:MERGE}){clientMutationId}}"@,
                )
            }),
        answer matches Ok(pr) ==> (no_text(pr.json.tree(), "node_id"@) ==> r
            == Turn::<EnableAutoMerge, bool>::Done(Ok(false))),
        answer matches Err(cause) ==> (r matches Turn::Done(Err(e)) && e@ == "get PR "@
            + ("/repos/"@ + repo.owner@ + "/"@ + repo.name@ + "/"@ + ("pulls/"@ + decimal(
            change.number as nat,
        ))) + ": "@ + cause@),
{
    reading();
    mutation_keys_differ();
    if let Ok(pr) = answer {
        assert forall|id: Seq<char>| #[trigger] says_text(pr.json.tree(), "node_id"@, id) implies {
            let body = r->Ask_1->Graphql_body.tree();
            &&& exists|variables: JsonTree| #[trigger]
                says(body, "variables"@, variables) && says_text(variables, "id"@, id)
            &&& says_text(
                body,
                "query"@,
                "mutation($id:ID!){enablePullRequestAutoMerge(input:{pullRequestId:$id,mergeMethod:MERGE}){clientMutationId}}"@,
            )
        } by {
            let body = r->Ask_1->Graphql_body.tree();
            let entries = body->Entries_0;
            assert(body == github::auto_merge_body(id));
            says_at(entries, "query"@, 0);
            says_at(entries, "variables"@, 1);
            let variables = entries[1].1;
            says_at(variables->Entries_0, "id"@, 0);
            assert(says(body, "variables"@, variables));
        }
    }
}

/// Auto-merge is on exactly where the host answers the mutation without errors. A host that
/// will not, or cannot be reached, is a no, and never a failure.
pub proof fn auto_merge_is_on_where_the_host_agrees(
    answer: Result<Document, String>,
    r: Turn<EnableAutoMerge, bool>,
)
    requires
        call_ensures(EnableAutoMerge::next, (EnableAutoMerge::Arm, Answer::Value(answer)), r),
    ensures
        r matches Turn::Done(Ok(armed)) && (armed <==> (answer matches Ok(d) && silent(
            d.json.tree(),
            "errors"@,
        ))),
{
    reading();
}

/// A merge is asked for at the pull request, by a merge commit, and tells that commit's sha
/// where the host does.
pub proof fn a_merge_tells_its_commit(
    repo: &RepoRef,
    change: &ChangeRef,
    request: Request,
    answer: Result<Json, String>,
    r: ForgeResult<String>,
)
    requires
        call_ensures(github::merge_request, (repo, change), request),
        call_ensures(github::merge, (answer,), r),
    ensures
        request matches Request::Put { route, body } && route@ == "/repos/"@ + repo.owner@ + "/"@
            + repo.name@ + "/"@ + ("pulls/"@ + decimal(change.number as nat) + "/merge"@)
            && says_text(body.tree(), "merge_method"@, "merge"@),
        answer matches Ok(value) ==> (forall|sha: Seq<char>| #[trigger]
            says_text(value.tree(), "sha"@, sha) ==> (r matches Ok(s) && s@ == sha)),
        answer matches Ok(value) ==> (no_text(value.tree(), "sha"@) ==> (r matches Ok(s) && s@.len()
            == 0)),
        answer matches Err(cause) ==> (r matches Err(e) && e@ == "merge PR"@ + ": "@ + cause@),
{
    reading();
    if let Request::Put { route, body } = request {
        let entries = seq![("merge_method"@, JsonTree::Text("merge"@))];
        assert(body.tree() == JsonTree::Entries(entries));
        says_at(entries, "merge_method"@, 0);
    }
}

/// A pull request that is merged is merged, though its state is closed; one that is closed
/// and not merged is closed; every other is open.
pub proof fn merged_is_not_closed(
    repo: &RepoRef,
    change: &ChangeRef,
    request: Request,
    answer: Result<Json, String>,
    r: ForgeResult<ChangeState>,
)
    requires
        call_ensures(github::change_state_request, (repo, change), request),
        call_ensures(github::change_state, (repo, change, answer), r),
    ensures
        request matches Request::Get { route } && route@ == "/repos/"@ + repo.owner@ + "/"@
            + repo.name@ + "/"@ + ("pulls/"@ + decimal(change.number as nat)),
        answer matches Ok(pr) ==> (r matches Ok(state) && {
            let merged = says(pr.tree(), "merged"@, JsonTree::Flag(true));
            let closed = says_text(pr.tree(), "state"@, "closed"@);
            &&& state == ChangeState::Merged <==> merged
            &&& state == ChangeState::Closed <==> !merged && closed
            &&& state == ChangeState::Open <==> !merged && !closed
        }),
        answer matches Err(cause) ==> (r matches Err(e) && e@ == "get PR "@ + ("/repos/"@
            + repo.owner@ + "/"@ + repo.name@ + "/"@ + ("pulls/"@ + decimal(
            change.number as nat,
        ))) + ": "@ + cause@),
{
    reading();
}

// ── triggers ────────────────────────────────────────────────────────────────

/// A trigger is the hook: its id, the url that it delivers to, its events that are texts, and
/// that it is active where the host says so. What the hook does not say is empty.
pub proof fn a_trigger_is_the_hook(
    hook: &Document,
    config: JsonTree,
    url: Seq<char>,
    items: Vec<Json>,
    picked: Vec<String>,
    r: Trigger,
)
    requires
        call_ensures(github::gh_hook_to_trigger, (hook,), r),
        call_ensures(crate::json::collect_texts, (&items,), picked),
    ensures
        match hook.id {
            Some(id) => r.id@ == id@,
            None => r.id@.len() == 0,
        },
        says(hook.json.tree(), "config"@, config) && says_text(config, "url"@, url) ==> r.url@
            == url,
        silent(hook.json.tree(), "config"@) ==> r.url@.len() == 0,
        says(hook.json.tree(), "config"@, config) && no_text(config, "url"@) ==> r.url@.len() == 0,
        says(hook.json.tree(), "events"@, JsonTree::List(crate::json::trees(items@)))
            ==> r.events@.len() == picked@.len() && forall|i: int|
            0 <= i < picked@.len() ==> (#[trigger] r.events@[i])@ == picked@[i]@,
        silent(hook.json.tree(), "events"@) ==> r.events@.len() == 0,
        r.active <==> says(hook.json.tree(), "active"@, JsonTree::Flag(true)),
        r.target@.len() == 0,
{
    reading();
    let a = crate::messages::texts(r.events@);
    let b = crate::messages::texts(picked@);
    assert(a.len() == r.events@.len());
    assert(b.len() == picked@.len());
    assert(r@.events == a);
    assert forall|i: int| 0 <= i < picked@.len() && a == b implies (#[trigger] r.events@[i])@
        == picked@[i]@ by {
        assert(a[i] == r.events@[i]@);
        assert(b[i] == picked@[i]@);
    }
}

/// Every hook is listed, in the host's order, as the trigger that it is.
pub proof fn every_hook_is_listed(
    repo: &RepoRef,
    request: Request,
    answer: Result<Vec<Document>, String>,
    i: int,
    one: Trigger,
    r: ForgeResult<Vec<Trigger>>,
)
    requires
        call_ensures(github::list_triggers_request, (repo,), request),
        call_ensures(github::list_triggers, (repo, answer), r),
        answer matches Ok(hooks) ==> (0 <= i < hooks@.len() ==> call_ensures(
            github::gh_hook_to_trigger,
            (&hooks@[i],),
            one,
        )),
    ensures
        request matches Request::List { route } && route@ == "/repos/"@ + repo.owner@ + "/"@
            + repo.name@ + "/"@ + "hooks"@,
        answer matches Ok(hooks) ==> (r matches Ok(v) && v@.len() == hooks@.len() && (0 <= i
            < hooks@.len() ==> v@[i]@ == one@)),
        answer matches Err(cause) ==> (r matches Err(e) && e@ == "list hooks "@ + ("/repos/"@
            + repo.owner@ + "/"@ + repo.name@ + "/"@ + "hooks"@) + ": "@ + cause@),
{
    if let Ok(hooks) = answer {
        let v = r->Ok_0;
        let listed = crate::messages::trigger_views(v@);
        assert(listed.len() == v@.len());
        if 0 <= i < hooks@.len() {
            assert(listed[i] == v@[i]@);
        }
    }
}

/// The keys of a hook differ.
proof fn hook_keys_differ()
    ensures
        "name"@ != "active"@,
        "name"@ != "events"@,
        "name"@ != "config"@,
        "active"@ != "events"@,
        "active"@ != "config"@,
        "events"@ != "config"@,
{
    reveal_strlit("name");
    reveal_strlit("active");
    reveal_strlit("events");
    reveal_strlit("config");
    assert("name"@.len() != "active"@.len());
    assert("name"@.len() != "events"@.len());
    assert("name"@.len() != "config"@.len());
    assert("active"@[0] != "events"@[0]);
    assert("active"@[0] != "config"@[0]);
    assert("events"@[0] != "config"@[0]);
}

/// The keys of a hook's configuration differ.
proof fn config_keys_differ()
    ensures
        "url"@ != "content_type"@,
        "url"@ != "secret"@,
        "content_type"@ != "secret"@,
{
    reveal_strlit("url");
    reveal_strlit("content_type");
    reveal_strlit("secret");
    assert("url"@.len() != "content_type"@.len());
    assert("url"@.len() != "secret"@.len());
    assert("content_type"@.len() != "secret"@.len());
}

/// The events of a hook that is asked for are these texts, in this order.
pub open spec fn lists(t: JsonTree, events: Seq<Seq<char>>) -> bool {
    t matches JsonTree::List(items) && items.len() == events.len() && forall|i: int|
        0 <= i < events.len() ==> #[trigger] items[i] == JsonTree::Text(events[i])
}

/// A hook that already delivers to the url is given back, the first of them, and nothing is
/// made. Without one, a hook is asked for: to that url, for the events that the caller names
/// or else for pushes and pull requests, with the secret where there is one.
pub proof fn a_hook_at_the_url_is_not_made_again(
    repo: &RepoRef,
    url: &str,
    events: &[String],
    secret: &str,
    started: (EnsureTrigger, Request),
    hooks: Vec<Document>,
    listed: ForgeResult<Vec<Trigger>>,
    r: Turn<EnsureTrigger, EnsuredTrigger>,
)
    requires
        call_ensures(EnsureTrigger::start, (repo, url, events, secret), started),
        call_ensures(github::list_triggers, (repo, Ok(hooks)), listed),
        call_ensures(EnsureTrigger::next, (started.0, Answer::Values(Ok(hooks))), r),
    ensures
        started.1 matches Request::List { route } && route@ == "/repos/"@ + repo.owner@ + "/"@
            + repo.name@ + "/"@ + "hooks"@,
        listed matches Ok(there) ==> (forall|i: int|
            0 <= i < there@.len() && (#[trigger] there@[i]).url@ == url@ && (forall|j: int|
                0 <= j < i ==> (#[trigger] there@[j]).url@ != url@) ==> (r matches Turn::Done(
                Ok(e),
            ) && !e.created && e.trigger@ == there@[i]@)),
        listed matches Ok(there) ==> ((forall|i: int|
            0 <= i < there@.len() ==> (#[trigger] there@[i]).url@ != url@) ==> {
            &&& r matches Turn::Ask(_, Request::Post { route, body })
            &&& route@ == "/repos/"@ + repo.owner@ + "/"@ + repo.name@ + "/"@ + "hooks"@
            &&& says_text(body.tree(), "name"@, "web"@)
            &&& says(body.tree(), "active"@, JsonTree::Flag(true))
            &&& exists|named: JsonTree| #[trigger]
                says(body.tree(), "events"@, named) && if events@.len() > 0 {
                    lists(named, crate::messages::texts(events@))
                } else {
                    lists(named, seq!["push"@, "pull_request"@])
                }
            &&& exists|config: JsonTree| #[trigger]
                says(body.tree(), "config"@, config) && says_text(config, "url"@, url@)
                    && says_text(config, "content_type"@, "json"@) && if secret@.len() > 0 {
                    says_text(config, "secret"@, secret@)
                } else {
                    silent(config, "secret"@)
                }
        }),
{
    reading();
    hook_keys_differ();
    config_keys_differ();
    let there = listed->Ok_0;
    let seen = crate::messages::trigger_views(there@);
    let p = |t: crate::messages::TriggerView| t.url == url@;
    assert(seen.len() == there@.len());
    assert forall|i: int| 0 <= i < there@.len() implies #[trigger] seen[i] == there@[i]@ by {}
    assert forall|i: int|
        0 <= i < there@.len() && (#[trigger] there@[i]).url@ == url@ && (forall|j: int|
            0 <= j < i ==> (#[trigger] there@[j]).url@ != url@) implies (r matches Turn::Done(Ok(e))
        && !e.created && e.trigger@ == there@[i]@) by {
        assert(p(seen[i]));
        assert forall|j: int| 0 <= j < i implies !p(#[trigger] seen[j]) by {
            assert(there@[j].url@ != url@);
        }
        crate::search::first_index_at(seen, p, i);
    }
    if forall|i: int| 0 <= i < there@.len() ==> (#[trigger] there@[i]).url@ != url@ {
        assert forall|j: int| 0 <= j < seen.len() implies !p(#[trigger] seen[j]) by {
            assert(there@[j].url@ != url@);
        }
        crate::search::first_index_none(seen, p);
        let t = r->Ask_1->Post_body.tree();
        let wanted = crate::messages::texts(events@);
        assert(wanted.len() == events@.len());
        assert(t == github::hook_body(url@, wanted, secret@));
        let entries = t->Entries_0;
        says_at(entries, "name"@, 0);
        says_at(entries, "active"@, 1);
        says_at(entries, "events"@, 2);
        says_at(entries, "config"@, 3);
        let config = entries[3].1;
        says_at(config->Entries_0, "url"@, 0);
        says_at(config->Entries_0, "content_type"@, 1);
        if secret@.len() > 0 {
            says_at(config->Entries_0, "secret"@, 2);
        } else {
            assert(silent(config, "secret"@));
        }
        let named = entries[2].1;
        assert(says(t, "events"@, named));
        assert(says(t, "config"@, config));
        if events@.len() > 0 {
            assert(lists(named, wanted));
        } else {
            assert(lists(named, seq!["push"@, "pull_request"@]));
        }
    }
}

/// A hook that was made is given back as created; where the hooks cannot be listed or the
/// hook cannot be made, the failure is told.
pub proof fn a_made_hook_is_new(
    repo: RepoRef,
    url: String,
    events: Vec<String>,
    secret: String,
    cause: String,
    hook: Document,
    one: Trigger,
    unlisted: Turn<EnsureTrigger, EnsuredTrigger>,
    made: Turn<EnsureTrigger, EnsuredTrigger>,
    refused: Turn<EnsureTrigger, EnsuredTrigger>,
)
    requires
        call_ensures(
            EnsureTrigger::next,
            (EnsureTrigger::List { repo, url, events, secret }, Answer::Values(Err(cause))),
            unlisted,
        ),
        call_ensures(github::gh_hook_to_trigger, (&hook,), one),
        call_ensures(
            EnsureTrigger::next,
            (EnsureTrigger::Create { repo }, Answer::Value(Ok(hook))),
            made,
        ),
        call_ensures(
            EnsureTrigger::next,
            (EnsureTrigger::Create { repo }, Answer::Value(Err(cause))),
            refused,
        ),
    ensures
        unlisted matches Turn::Done(Err(e)) && e@ == "list hooks "@ + ("/repos/"@ + repo.owner@
            + "/"@ + repo.name@ + "/"@ + "hooks"@) + ": "@ + cause@,
        made matches Turn::Done(Ok(e)) && e.created && e.trigger@ == one@,
        refused matches Turn::Done(Err(e)) && e@ == "create hook "@ + ("/repos/"@ + repo.owner@
            + "/"@ + repo.name@ + "/"@ + "hooks"@) + ": "@ + cause@,
{
}

// ── the rest ────────────────────────────────────────────────────────────────

/// The default branch is the one that the host tells, or `main` where it tells none.
pub proof fn the_default_branch_is_the_host_s(
    repo: &RepoRef,
    request: Request,
    answer: Result<Option<String>, String>,
    r: ForgeResult<String>,
)
    requires
        call_ensures(github::default_branch_request, (repo,), request),
        call_ensures(github::default_branch, (repo, answer), r),
    ensures
        request matches Request::Repo { owner, name } && owner@ == repo.owner@ && name@
            == repo.name@,
        answer matches Ok(Some(branch)) ==> (r matches Ok(b) && b@ == branch@),
        answer matches Ok(None) ==> (r matches Ok(b) && b@ == "main"@),
        answer matches Err(cause) ==> (r matches Err(e) && e@ == "get repo "@ + repo.owner@ + "/"@
            + repo.name@ + ": "@ + cause@),
{
}

/// The adapter serves triggers beyond the core, and declares nothing else.
pub proof fn only_triggers_are_declared(r: crate::messages::ForgeCapabilities)
    requires
        call_ensures(github::capabilities, (), r),
    ensures
        r.triggers,
        !r.issues && !r.checks && !r.comments && !r.deployments && !r.repos && !r.pull_requests,
{
}

/// Every operation refuses an answer of another kind than it asked for.
pub proof fn misplaced_answers_are_refused(
    repo: RepoRef,
    text: String,
    texts: Vec<String>,
    unfound: Option<String>,
    answer: Answer,
    pipeline: (PipelineQuery, Turn<PipelineQuery, PipelineStatus>),
    read: (Turn<ReadFile, Option<FileBlob>>, Turn<ReadFile, Option<FileBlob>>),
    branch: (Turn<CreateBranch, BranchOutcome>, Turn<CreateBranch, BranchOutcome>),
    commit: (Turn<CommitFile, String>, Turn<CommitFile, String>),
    change: (Turn<OpenChange, OpenedChange>, Turn<OpenChange, OpenedChange>),
    armed: (EnableAutoMerge, Turn<EnableAutoMerge, bool>),
    trigger: (Turn<EnsureTrigger, EnsuredTrigger>, Turn<EnsureTrigger, EnsuredTrigger>),
)
    requires
        call_ensures(PipelineQuery::next, (pipeline.0, answer), pipeline.1),
        call_ensures(ReadFile::next, (ReadFile::Branch { repo, path: text }, answer), read.0),
        call_ensures(ReadFile::next, (ReadFile::Content { path: text }, answer), read.1),
        call_ensures(
            CreateBranch::next,
            (CreateBranch::Base { repo, name: text, from_ref: text }, answer),
            branch.0,
        ),
        call_ensures(
            CreateBranch::next,
            (CreateBranch::Make { repo, name: text, unfound }, answer),
            branch.1,
        ),
        call_ensures(
            CommitFile::next,
            (CommitFile::Put { repo, branch: text, path: text, content: text }, answer),
            commit.0,
        ),
        call_ensures(
            CommitFile::next,
            (CommitFile::Look { content: text, cause: text }, answer),
            commit.1,
        ),
        call_ensures(OpenChange::next, (OpenChange::Create { repo, head: text }, answer), change.0),
        call_ensures(
            OpenChange::next,
            (OpenChange::Adopt { head: text, cause: text }, answer),
            change.1,
        ),
        call_ensures(EnableAutoMerge::next, (armed.0, answer), armed.1),
        call_ensures(
            EnsureTrigger::next,
            (EnsureTrigger::List { repo, url: text, events: texts, secret: text }, answer),
            trigger.0,
        ),
        call_ensures(EnsureTrigger::next, (EnsureTrigger::Create { repo }, answer), trigger.1),
    ensures
        !(answer is Value) ==> refused(pipeline.1) && refused(armed.1) && refused(branch.1)
            && refused(commit.0) && refused(trigger.1),
        !(answer is Repo) ==> refused(read.0),
        !(answer is Content) ==> refused(read.1) && refused(commit.1),
        !(answer is Ref) ==> refused(branch.0),
        !(answer is Pull) ==> refused(change.0),
        !(answer is Pulls) ==> refused(change.1),
        !(answer is Values) ==> refused(trigger.0),
{
}

/// The operation is done, with the error of an answer that does not belong to its request.
pub open spec fn refused<S, T>(r: Turn<S, T>) -> bool {
    r matches Turn::Done(Err(e)) && e@ == "the answer does not belong to the request"@
}

} // verus!
