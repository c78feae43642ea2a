//! The GitHub adapter's decisions.
//!
//! Every operation is a small state machine: it says which request to send, takes the
//! answer, and either asks again or is done. Sending is left to the caller, so what the
//! adapter decides on each answer can be stated and proved.

use crate::forge::{
    default_events, default_trigger_events, in_context, BranchOutcome, EnsuredTrigger,
    EnsuredTriggerView, ForgeError, ForgeResult, OpenedChange, OpenedChangeView, PipelineStatus,
    PipelineStatusView,
};
use crate::json::{
    collect_texts, entry, field_at, flag_at, list_at, text_at, texts_of, trees, Document, Json,
    JsonTree,
};
use crate::messages::{
    copy_texts, find_at, same_bytes, seen, texts, trigger_views, ChangeRef, ChangeRefView,
    ChangeState, CiStatus, FileBlob, FileBlobView, ForgeCapabilities, RepoRef, RepoRefView, Trigger,
    TriggerView,
};
use crate::search::first_index;
use crate::text::{decimal, same, u64_text};
use base64::Engine;
use vstd::prelude::*;

verus! {

// ── requests and answers ────────────────────────────────────────────────────

/// A request to GitHub.
pub enum Request {
    /// The repository's metadata.
    Repo { owner: String, name: String },
    /// A file's content at a branch.
    Content { owner: String, name: String, path: String, at: String },
    /// The ref of a branch.
    Ref { owner: String, name: String, branch: String },
    Get { route: String },
    /// As `Get`, for an answer that is a list.
    List { route: String },
    Post { route: String, body: Json },
    Put { route: String, body: Json },
    Graphql { body: Json },
    CreatePull {
        owner: String,
        name: String,
        title: String,
        head: String,
        base: String,
        text: String,
    },
    /// The open pull requests from `head`, which is `owner:branch`.
    OpenPulls { owner: String, name: String, head: String },
}

/// A request by its characters.
pub enum RequestView {
    Repo { owner: Seq<char>, name: Seq<char> },
    Content { owner: Seq<char>, name: Seq<char>, path: Seq<char>, at: Seq<char> },
    Ref { owner: Seq<char>, name: Seq<char>, branch: Seq<char> },
    Get { route: Seq<char> },
    List { route: Seq<char> },
    Post { route: Seq<char>, body: JsonTree },
    Put { route: Seq<char>, body: JsonTree },
    Graphql { body: JsonTree },
    CreatePull {
        owner: Seq<char>,
        name: Seq<char>,
        title: Seq<char>,
        head: Seq<char>,
        base: Seq<char>,
        text: Seq<char>,
    },
    OpenPulls { owner: Seq<char>, name: Seq<char>, head: Seq<char> },
}

impl View for Request {
    type V = RequestView;

    open spec fn view(&self) -> RequestView {
        match *self {
            Request::Repo { owner, name } => RequestView::Repo { owner: owner@, name: name@ },
            Request::Content { owner, name, path, at } => RequestView::Content {
                owner: owner@,
                name: name@,
                path: path@,
                at: at@,
            },
            Request::Ref { owner, name, branch } => RequestView::Ref {
                owner: owner@,
                name: name@,
                branch: branch@,
            },
            Request::Get { route } => RequestView::Get { route: route@ },
            Request::List { route } => RequestView::List { route: route@ },
            Request::Post { route, body } => RequestView::Post {
                route: route@,
                body: body.tree(),
            },
            Request::Put { route, body } => RequestView::Put { route: route@, body: body.tree() },
            Request::Graphql { body } => RequestView::Graphql { body: body.tree() },
            Request::CreatePull { owner, name, title, head, base, text } => {
                RequestView::CreatePull {
                    owner: owner@,
                    name: name@,
                    title: title@,
                    head: head@,
                    base: base@,
                    text: text@,
                }
            },
            Request::OpenPulls { owner, name, head } => RequestView::OpenPulls {
                owner: owner@,
                name: name@,
                head: head@,
            },
        }
    }
}

/// Why a file's content could not be had.
pub enum ContentFailure {
    NotFound,
    Other(String),
}

/// A file as the contents API gives it: its content in base64, broken into lines, where it
/// comes along.
pub struct ContentItem {
    pub encoded: Option<String>,
    pub sha: String,
}

/// What a ref points at; anything but a commit by its debug form.
pub enum RefObject {
    Commit { sha: String },
    Other { shown: String },
}

/// Why a ref could not be had: the host knows none of that name, or anything else.
pub enum RefFailure {
    NotFound(String),
    Other(String),
}

/// A pull request.
pub struct Pull {
    pub number: u64,
    pub html_url: Option<String>,
}

/// GitHub's answer to a request. A failure is told by the text of its causes.
pub enum Answer {
    /// To `Repo`: the default branch, where there is one.
    Repo(Result<Option<String>, String>),
    /// To `Content`: the first item, where there is one.
    Content(Result<Option<ContentItem>, ContentFailure>),
    /// To `Ref`.
    Ref(Result<RefObject, RefFailure>),
    /// To `Get`, `Post`, `Put` and `Graphql`.
    Value(Result<Document, String>),
    /// To `List`.
    Values(Result<Vec<Document>, String>),
    /// To `CreatePull`.
    Pull(Result<Pull, String>),
    /// To `OpenPulls`.
    Pulls(Result<Vec<Pull>, String>),
}

/// Where an operation stands: it asks, or it is done.
pub enum Turn<S, T> {
    Ask(S, Request),
    Done(ForgeResult<T>),
}

/// The answer is of the kind that the request has.
pub open spec fn belongs(request: RequestView, answer: Answer) -> bool {
    match request {
        RequestView::Repo { .. } => answer is Repo,
        RequestView::Content { .. } => answer is Content,
        RequestView::Ref { .. } => answer is Ref,
        RequestView::Get { .. } => answer is Value,
        RequestView::List { .. } => answer is Values,
        RequestView::Post { .. } => answer is Value,
        RequestView::Put { .. } => answer is Value,
        RequestView::Graphql { .. } => answer is Value,
        RequestView::CreatePull { .. } => answer is Pull,
        RequestView::OpenPulls { .. } => answer is Pulls,
    }
}

pub open spec fn misplaced_answer() -> Seq<char> {
    "the answer does not belong to the request"@
}

/// The error of an answer that does not belong to the request.
fn misplaced() -> (r: ForgeError)
    ensures
        r@ == misplaced_answer(),
{
    ForgeError::msg("the answer does not belong to the request")
}

// ── routes ──────────────────────────────────────────────────────────────────

/// `/repos/{owner}/{name}/{rest}`
pub open spec fn repo_route(repo: RepoRefView, rest: Seq<char>) -> Seq<char> {
    "/repos/"@ + repo.owner + "/"@ + repo.name + "/"@ + rest
}

fn route(repo: &RepoRef, rest: &str) -> (r: String)
    ensures
        r@ == repo_route(repo@, rest@),
{
    "/repos/".to_owned().concat(repo.owner.as_str()).concat("/").concat(
        repo.name.as_str(),
    ).concat("/").concat(rest)
}

/// The route of a pull request.
pub open spec fn pull_route(repo: RepoRefView, number: nat) -> Seq<char> {
    repo_route(repo, "pulls/"@ + decimal(number))
}

fn pull(repo: &RepoRef, number: u64) -> (r: String)
    ensures
        r@ == pull_route(repo@, number as nat),
{
    route(repo, "pulls/".to_owned().concat(u64_text(number).as_str()).as_str())
}

/// The error of a pull request that could not be read.
pub open spec fn pull_failed(repo: RepoRefView, number: nat, cause: Seq<char>) -> Seq<char> {
    in_context("get PR "@ + pull_route(repo, number), cause)
}

fn pull_error(repo: &RepoRef, number: u64, cause: &str) -> (r: ForgeError)
    ensures
        r@ == pull_failed(repo@, number as nat, cause@),
{
    ForgeError::in_context("get PR ".to_owned().concat(pull(repo, number).as_str()).as_str(), cause)
}

/// The route of a commit's `check-runs` or `status`.
pub open spec fn commit_route(repo: RepoRefView, sha: Seq<char>, what: Seq<char>) -> Seq<char> {
    repo_route(repo, "commits/"@ + sha + "/"@ + what)
}

fn commit(repo: &RepoRef, sha: &str, what: &str) -> (r: String)
    ensures
        r@ == commit_route(repo@, sha@, what@),
{
    route(repo, "commits/".to_owned().concat(sha).concat("/").concat(what).as_str())
}

// ── pipeline_status ─────────────────────────────────────────────────────────

/// What a finished check run's conclusion says, where it says something.
pub open spec fn conclusion_status(conclusion: Option<Seq<char>>) -> Option<CiStatus> {
    match conclusion {
        None => None,
        Some(c) => if c == "success"@ || c == "neutral"@ || c == "skipped"@ {
            Some(CiStatus::Success)
        } else if c == "failure"@ || c == "timed_out"@ || c == "action_required"@ || c
            == "startup_failure"@ {
            Some(CiStatus::Failed)
        } else if c == "cancelled"@ {
            Some(CiStatus::Canceled)
        } else {
            None
        },
    }
}

pub fn map_check_conclusion(conclusion: Option<&str>) -> (r: Option<CiStatus>)
    ensures
        r == conclusion_status(
            match conclusion {
                Some(c) => Some(c@),
                None => None,
            },
        ),
{
    match conclusion {
        None => None,
        Some(c) => {
            if same(c, "success") || same(c, "neutral") || same(c, "skipped") {
                Some(CiStatus::Success)
            } else if same(c, "failure") || same(c, "timed_out") || same(c, "action_required")
                || same(c, "startup_failure") {
                Some(CiStatus::Failed)
            } else if same(c, "cancelled") {
                Some(CiStatus::Canceled)
            } else {
                None
            }
        },
    }
}

/// The run has come to an end.
pub open spec fn completed(run: JsonTree) -> bool {
    text_at(run.field("status"@)) == Some("completed"@)
}

/// The run has come to a bad end: failed or cancelled.
pub open spec fn ended_badly(run: JsonTree) -> bool {
    &&& completed(run)
    &&& {
        let status = conclusion_status(text_at(run.field("conclusion"@)));
        status == Some(CiStatus::Failed) || status == Some(CiStatus::Canceled)
    }
}

/// The status of a commit with these check runs: one bad end fails it, else one
/// unfinished run keeps it running.
pub open spec fn runs_status(runs: Seq<JsonTree>) -> CiStatus {
    if exists|i: int| 0 <= i < runs.len() && #[trigger] ended_badly(runs[i]) {
        CiStatus::Failed
    } else if exists|i: int| 0 <= i < runs.len() && !#[trigger] completed(runs[i]) {
        CiStatus::Running
    } else {
        CiStatus::Success
    }
}

fn check_runs(runs: &Vec<Json>) -> (r: CiStatus)
    ensures
        r == runs_status(trees(runs@)),
{
    let ghost all = trees(runs@);
    let mut any_running = false;
    let mut any_failed = false;
    let mut i: usize = 0;
    while i < runs.len()
        invariant
            i <= runs.len(),
            all == trees(runs@),
            any_running == exists|j: int| 0 <= j < i && !#[trigger] completed(all[j]),
            any_failed == exists|j: int| 0 <= j < i && #[trigger] ended_badly(all[j]),
        decreases runs.len() - i,
    {
        let run = &runs[i];
        assert(all[i as int] == run.tree());
        let ghost running = any_running;
        let ghost failed = any_failed;
        let finished = match run.get_str("status") {
            Some(status) => same(status, "completed"),
            None => false,
        };
        assert(finished == completed(all[i as int]));
        if !finished {
            any_running = true;
        } else {
            let conclusion = map_check_conclusion(run.get_str("conclusion"));
            match conclusion {
                Some(CiStatus::Failed) => {
                    any_failed = true;
                },
                Some(CiStatus::Canceled) => {
                    any_failed = true;
                },
                _ => {},
            }
        }
        assert(any_failed == (failed || ended_badly(all[i as int])));
        assert(any_running == (running || !completed(all[i as int])));
        i = i + 1;
    }
    if any_failed {
        CiStatus::Failed
    } else if any_running {
        CiStatus::Running
    } else {
        CiStatus::Success
    }
}

/// What the combined status API says of a commit.
pub open spec fn combined_status(combined: JsonTree) -> CiStatus {
    match text_at(combined.field("state"@)) {
        None => CiStatus::Absent,
        Some(state) => if state == "success"@ {
            CiStatus::Success
        } else if state == "failure"@ || state == "error"@ {
            CiStatus::Failed
        } else if state == "pending"@ {
            CiStatus::Running
        } else {
            CiStatus::Absent
        },
    }
}

fn combined(value: &Json) -> (r: CiStatus)
    ensures
        r == combined_status(value.tree()),
{
    match value.get_str("state") {
        None => CiStatus::Absent,
        Some(state) => if same(state, "success") {
            CiStatus::Success
        } else if same(state, "failure") || same(state, "error") {
            CiStatus::Failed
        } else if same(state, "pending") {
            CiStatus::Running
        } else {
            CiStatus::Absent
        },
    }
}

/// The status of a commit, by its sha.
pub open spec fn commit_status(
    repo: RepoRefView,
    sha: Seq<char>,
    status: CiStatus,
) -> PipelineStatusView {
    PipelineStatusView {
        status,
        pipeline_id: sha,
        url: "https://github.com/"@ + repo.owner + "/"@ + repo.name + "/commits/"@ + sha,
    }
}

fn pipeline(repo: &RepoRef, sha: &str, status: CiStatus) -> (r: PipelineStatus)
    ensures
        r@ == commit_status(repo@, sha@, status),
{
    PipelineStatus {
        status,
        pipeline_id: sha.to_owned(),
        url: "https://github.com/".to_owned().concat(repo.owner.as_str()).concat("/").concat(
            repo.name.as_str(),
        ).concat("/commits/").concat(sha),
    }
}

/// The pipeline status of a change's head: its check runs, or the combined status API
/// where it has none.
pub enum PipelineQuery {
    /// The pull request was asked for.
    Pull { repo: RepoRef, number: u64 },
    /// The head's check runs were asked for.
    Runs { repo: RepoRef, head_sha: String },
    /// The head's combined status was asked for.
    Combined { repo: RepoRef, head_sha: String },
}

impl PipelineQuery {
    /// The answer is of the kind that was asked for.
    pub open spec fn awaits(self, answer: Answer) -> bool {
        answer is Value
    }

    pub fn start(repo: &RepoRef, change: &ChangeRef) -> (r: (Self, Request))
        ensures
            r.0 == (PipelineQuery::Pull { repo: *repo, number: change.number }),
            r.1@ == (RequestView::Get { route: pull_route(repo@, change.number as nat) }),
            forall|a: Answer| #[trigger] belongs(r.1@, a) ==> r.0.awaits(a),
    {
        (
            PipelineQuery::Pull { repo: repo.clone(), number: change.number },
            Request::Get { route: pull(repo, change.number) },
        )
    }

    pub fn next(self, answer: Answer) -> (r: Turn<Self, PipelineStatus>)
        ensures
            !self.awaits(answer) ==> (r matches Turn::Done(Err(f)) && f@ == misplaced_answer()),
            self.awaits(answer) ==> match (self, answer->Value_0) {
                (PipelineQuery::Pull { repo, number }, Err(e)) => {
                    r matches Turn::Done(Err(f)) && f@ == pull_failed(repo@, number as nat, e@)
                },
                (PipelineQuery::Pull { repo, number }, Ok(pr)) => {
                    match text_at(field_at(pr.json.tree().field("head"@), "sha"@)) {
                        None => r matches Turn::Done(Err(f)) && f@ == "PR "@ + decimal(
                            number as nat,
                        ) + " has no head.sha"@,
                        Some(sha) => {
                            &&& r matches Turn::Ask(PipelineQuery::Runs { repo: rp, head_sha }, q)
                            &&& rp@ == repo@
                            &&& head_sha@ == sha
                            &&& q@ == (RequestView::Get {
                                route: commit_route(repo@, sha, "check-runs"@),
                            })
                        },
                    }
                },
                (PipelineQuery::Runs { repo, head_sha }, Err(e)) => {
                    r matches Turn::Done(Err(f)) && f@ == in_context("check-runs"@, e@)
                },
                (PipelineQuery::Runs { repo, head_sha }, Ok(value)) => {
                    match list_at(value.json.tree().field("check_runs"@)) {
                        Some(runs) if runs.len() > 0 => r matches Turn::Done(Ok(p)) && p@
                            == commit_status(repo@, head_sha@, runs_status(runs)),
                        _ => {
                            &&& r matches Turn::Ask(
                                PipelineQuery::Combined { repo: rp, head_sha: sha },
                                q,
                            )
                            &&& rp@ == repo@
                            &&& sha@ == head_sha@
                            &&& q@ == (RequestView::Get {
                                route: commit_route(repo@, head_sha@, "status"@),
                            })
                        },
                    }
                },
                (PipelineQuery::Combined { repo, head_sha }, Err(e)) => {
                    r matches Turn::Done(Err(f)) && f@ == in_context("combined status"@, e@)
                },
                (PipelineQuery::Combined { repo, head_sha }, Ok(value)) => {
                    r matches Turn::Done(Ok(p)) && p@ == commit_status(
                        repo@,
                        head_sha@,
                        combined_status(value.json.tree()),
                    )
                },
            },
            r matches Turn::Ask(s, q) ==> (forall|a: Answer| #[trigger]
                belongs(q@, a) ==> s.awaits(a)),
    {
        let value = match answer {
            Answer::Value(value) => value,
            _ => {
                return Turn::Done(Err(misplaced()));
            },
        };
        match self {
            PipelineQuery::Pull { repo, number } => {
                let pr = match value {
                    Ok(pr) => pr,
                    Err(e) => {
                        return Turn::Done(Err(pull_error(&repo, number, e.as_str())));
                    },
                };
                let sha = match pr.json.get("head") {
                    Some(head) => head.get_str("sha"),
                    None => None,
                };
                match sha {
                    None => Turn::Done(
                        Err(
                            ForgeError::from_text(
                                "PR ".to_owned().concat(u64_text(number).as_str()).concat(
                                    " has no head.sha",
                                ),
                            ),
                        ),
                    ),
                    Some(sha) => {
                        let route = commit(&repo, sha, "check-runs");
                        Turn::Ask(
                            PipelineQuery::Runs { repo, head_sha: sha.to_owned() },
                            Request::Get { route },
                        )
                    },
                }
            },
            PipelineQuery::Runs { repo, head_sha } => {
                let value = match value {
                    Ok(value) => value,
                    Err(e) => {
                        return Turn::Done(
                            Err(ForgeError::in_context("check-runs", e.as_str())),
                        );
                    },
                };
                let runs = match value.json.get("check_runs") {
                    Some(runs) => runs.as_array(),
                    None => None,
                };
                if let Some(runs) = runs {
                    if runs.len() > 0 {
                        return Turn::Done(
                            Ok(pipeline(&repo, head_sha.as_str(), check_runs(runs))),
                        );
                    }
                }
                // Fall back to the legacy combined status API.
                let route = commit(&repo, head_sha.as_str(), "status");
                Turn::Ask(PipelineQuery::Combined { repo, head_sha }, Request::Get { route })
            },
            PipelineQuery::Combined { repo, head_sha } => {
                match value {
                    Ok(value) => Turn::Done(
                        Ok(pipeline(&repo, head_sha.as_str(), combined(&value.json))),
                    ),
                    Err(e) => Turn::Done(
                        Err(ForgeError::in_context("combined status", e.as_str())),
                    ),
                }
            },
        }
    }
}

// ── default_branch and read_file ────────────────────────────────────────────

/// The default branch that the metadata names, else `main`.
pub open spec fn branch_or_main(branch: Option<Seq<char>>) -> Seq<char> {
    match branch {
        Some(branch) => branch,
        None => "main"@,
    }
}

pub fn default_branch_request(repo: &RepoRef) -> (r: Request)
    ensures
        r@ == (RequestView::Repo { owner: repo@.owner, name: repo@.name }),
{
    Request::Repo { owner: repo.owner.clone(), name: repo.name.clone() }
}

/// The repo's default branch, from its metadata.
pub fn default_branch(repo: &RepoRef, answer: Result<Option<String>, String>) -> (r: ForgeResult<
    String,
>)
    ensures
        match answer {
            Ok(branch) => r matches Ok(b) && b@ == branch_or_main(seen(branch)),
            Err(e) => r matches Err(f) && f@ == in_context(
                "get repo "@ + repo@.owner + "/"@ + repo@.name,
                e@,
            ),
        },
{
    match answer {
        Ok(Some(branch)) => Ok(branch),
        Ok(None) => Ok("main".to_owned()),
        Err(e) => Err(
            ForgeError::in_context(
                "get repo ".to_owned().concat(repo.owner.as_str()).concat("/").concat(
                    repo.name.as_str(),
                ).as_str(),
                e.as_str(),
            ),
        ),
    }
}

/// The content request for a file at a branch.
pub open spec fn content_request(repo: RepoRefView, path: Seq<char>, at: Seq<char>) -> RequestView {
    RequestView::Content { owner: repo.owner, name: repo.name, path, at }
}

fn content(repo: &RepoRef, path: &str, at: &str) -> (r: Request)
    ensures
        r@ == content_request(repo@, path@, at@),
{
    Request::Content {
        owner: repo.owner.clone(),
        name: repo.name.clone(),
        path: path.to_owned(),
        at: at.to_owned(),
    }
}

/// A byte that base64 is broken into lines by: space, line feed, tab, carriage return,
/// vertical tab, form feed.
pub open spec fn blank(b: u8) -> bool {
    b == 0x20 || b == 0x0a || b == 0x09 || b == 0x0d || b == 0x0b || b == 0x0c
}

/// The bytes without the blanks among them.
pub open spec fn unbroken(bytes: Seq<u8>) -> Seq<u8> {
    bytes.filter(|b: u8| !blank(b))
}

fn without_blanks(bytes: &[u8]) -> (r: Vec<u8>)
    ensures
        r@ == unbroken(bytes@),
{
    let ghost kept = |b: u8| !blank(b);
    let mut r: Vec<u8> = Vec::new();
    let mut i: usize = 0;
    assert(bytes@.take(0).filter(kept) =~= Seq::<u8>::empty()) by {
        reveal(Seq::filter);
    }
    while i < bytes.len()
        invariant
            i <= bytes@.len(),
            kept == |b: u8| !blank(b),
            r@ == bytes@.take(i as int).filter(kept),
        decreases bytes@.len() - i,
    {
        let b: u8 = bytes[i];
        proof {
            reveal(Seq::filter);
            assert(bytes@.take(i + 1).drop_last() =~= bytes@.take(i as int));
            assert(bytes@.take(i + 1).last() == b);
        }
        if !(b == 0x20 || b == 0x0a || b == 0x09 || b == 0x0d || b == 0x0b || b == 0x0c) {
            r.push(b);
        }
        i = i + 1;
    }
    assert(bytes@.take(i as int) =~= bytes@);
    r
}

/// The bytes that a text in base64 stands for; `None` for what is no base64.
pub uninterp spec fn base64_bytes(encoded: Seq<u8>) -> Option<Seq<u8>>;

/// `decode` of `base64`'s standard engine. The contract names the result; that decoding
/// undoes encoding is stated at [`encode_base64`].
#[verifier::external_body]
fn decode_base64(encoded: &[u8]) -> (r: Option<Vec<u8>>)
    ensures
        match r {
            Some(bytes) => base64_bytes(encoded@) == Some(bytes@),
            None => base64_bytes(encoded@) is None,
        },
{
    base64::engine::general_purpose::STANDARD.decode(encoded).ok()
}

/// What the standard library reads from bytes that are no UTF-8: a text with replacement
/// characters in it.
pub uninterp spec fn replaced_text(bytes: Seq<u8>) -> Seq<char>;

/// The text of bytes.
pub open spec fn text_of(bytes: Seq<u8>) -> Seq<char> {
    if vstd::utf8::valid_utf8(bytes) {
        vstd::utf8::decode_utf8(bytes)
    } else {
        replaced_text(bytes)
    }
}

/// `String::from_utf8_lossy`: the text that UTF-8 bytes stand for. The contract names the
/// text of other bytes and says nothing of where its replacement characters stand.
#[verifier::external_body]
fn lossy_text(bytes: &[u8]) -> (r: String)
    ensures
        r@ == if vstd::utf8::valid_utf8(bytes@) {
            vstd::utf8::decode_utf8(bytes@)
        } else {
            replaced_text(bytes@)
        },
{
    String::from_utf8_lossy(bytes).into_owned()
}

/// The text of a file from its content in base64; `None` where there is no content, or
/// what there is is no base64.
pub open spec fn file_text(encoded: Option<Seq<char>>) -> Option<Seq<char>> {
    match encoded {
        Some(encoded) => match base64_bytes(unbroken(vstd::utf8::encode_utf8(encoded))) {
            Some(bytes) => Some(text_of(bytes)),
            None => None,
        },
        None => None,
    }
}

/// The text of a file from its content in base64.
pub fn decoded_content(encoded: &Option<String>) -> (r: Option<String>)
    ensures
        seen(r) == file_text(seen(*encoded)),
{
    match encoded {
        Some(encoded) => {
            let bytes = without_blanks(encoded.as_str().as_bytes());
            match decode_base64(bytes.as_slice()) {
                Some(bytes) => Some(lossy_text(bytes.as_slice())),
                None => None,
            }
        },
        None => None,
    }
}

/// What is read: the file with its text, or the error that there is none.
pub fn file_read(path: String, text: Option<String>, sha: String) -> (r: ForgeResult<
    Option<FileBlob>,
>)
    ensures
        match text {
            None => r matches Err(f) && f@ == path@ + ": base64 decode failed"@,
            Some(text) => r matches Ok(Some(blob)) && blob@ == (FileBlobView {
                path: path@,
                content: text@,
                blob_sha: sha@,
            }),
        },
{
    match text {
        None => Err(ForgeError::from_text(path.concat(": base64 decode failed"))),
        Some(content) => Ok(Some(FileBlob { path, content, blob_sha: sha })),
    }
}

/// Reading a file: at the given branch, or at the default branch, which is asked for
/// first.
pub enum ReadFile {
    /// The default branch was asked for.
    Branch { repo: RepoRef, path: String },
    /// The content was asked for.
    Content { path: String },
}

impl ReadFile {
    pub open spec fn awaits(self, answer: Answer) -> bool {
        match self {
            ReadFile::Branch { .. } => answer is Repo,
            ReadFile::Content { .. } => answer is Content,
        }
    }

    pub fn start(repo: &RepoRef, path: &str, at: &str) -> (r: (Self, Request))
        ensures
            if at@.len() == 0 {
                &&& r.0 matches ReadFile::Branch { repo: rp, path: p }
                &&& rp@ == repo@
                &&& p@ == path@
                &&& r.1@ == (RequestView::Repo { owner: repo@.owner, name: repo@.name })
            } else {
                &&& r.0 matches ReadFile::Content { path: p }
                &&& p@ == path@
                &&& r.1@ == content_request(repo@, path@, at@)
            },
            forall|a: Answer| #[trigger] belongs(r.1@, a) ==> r.0.awaits(a),
    {
        if at.is_empty() {
            (
                ReadFile::Branch { repo: repo.clone(), path: path.to_owned() },
                default_branch_request(repo),
            )
        } else {
            (ReadFile::Content { path: path.to_owned() }, content(repo, path, at))
        }
    }

    pub fn next(self, answer: Answer) -> (r: Turn<Self, Option<FileBlob>>)
        ensures
            !self.awaits(answer) ==> (r matches Turn::Done(Err(f)) && f@ == misplaced_answer()),
            self.awaits(answer) ==> match self {
                ReadFile::Branch { repo, path } => match answer->Repo_0 {
                    Err(e) => r matches Turn::Done(Err(f)) && f@ == in_context(
                        "get repo "@ + repo@.owner + "/"@ + repo@.name,
                        e@,
                    ),
                    Ok(branch) => {
                        &&& r matches Turn::Ask(ReadFile::Content { path: p }, q)
                        &&& p@ == path@
                        &&& q@ == content_request(repo@, path@, branch_or_main(seen(branch)))
                    },
                },
                ReadFile::Content { path } => match answer->Content_0 {
                    // An absent file is an answer, not a failure.
                    Err(ContentFailure::NotFound) => r matches Turn::Done(Ok(None)),
                    Err(ContentFailure::Other(e)) => r matches Turn::Done(Err(f)) && f@
                        == in_context("get content "@ + path@, e@),
                    Ok(None) => r matches Turn::Done(Ok(None)),
                    Ok(Some(item)) => match file_text(seen(item.encoded)) {
                        None => r matches Turn::Done(Err(f)) && f@ == path@
                            + ": base64 decode failed"@,
                        Some(text) => r matches Turn::Done(Ok(Some(blob))) && blob@ == (
                        FileBlobView { path: path@, content: text, blob_sha: item.sha@ }),
                    },
                },
            },
            r matches Turn::Ask(s, q) ==> (forall|a: Answer| #[trigger]
                belongs(q@, a) ==> s.awaits(a)),
    {
        match (self, answer) {
            (ReadFile::Branch { repo, path }, Answer::Repo(branch)) => {
                match default_branch(&repo, branch) {
                    Err(e) => Turn::Done(Err(e)),
                    Ok(branch) => {
                        let ask = content(&repo, path.as_str(), branch.as_str());
                        Turn::Ask(ReadFile::Content { path }, ask)
                    },
                }
            },
            (ReadFile::Content { path }, Answer::Content(found)) => {
                match found {
                    Err(ContentFailure::NotFound) => Turn::Done(Ok(None)),
                    Err(ContentFailure::Other(e)) => Turn::Done(
                        Err(
                            ForgeError::in_context(
                                "get content ".to_owned().concat(path.as_str()).as_str(),
                                e.as_str(),
                            ),
                        ),
                    ),
                    Ok(None) => Turn::Done(Ok(None)),
                    Ok(Some(item)) => {
                        let text = decoded_content(&item.encoded);
                        Turn::Done(file_read(path, text, item.sha))
                    },
                }
            },
            _ => Turn::Done(Err(misplaced())),
        }
    }
}

// ── create_branch ───────────────────────────────────────────────────────────

/// The request for a branch's ref.
pub open spec fn ref_request(repo: RepoRefView, branch: Seq<char>) -> RequestView {
    RequestView::Ref { owner: repo.owner, name: repo.name, branch }
}

fn branch_ref(repo: &RepoRef, branch: &str) -> (r: Request)
    ensures
        r@ == ref_request(repo@, branch@),
{
    Request::Ref {
        owner: repo.owner.clone(),
        name: repo.name.clone(),
        branch: branch.to_owned(),
    }
}

/// The request that makes branch `name` at `sha`.
pub open spec fn make_branch_request(
    repo: RepoRefView,
    name: Seq<char>,
    sha: Seq<char>,
) -> RequestView {
    RequestView::Post {
        route: repo_route(repo, "git/refs"@),
        body: JsonTree::Entries(
            seq![
                ("ref"@, JsonTree::Text("refs/heads/"@ + name)),
                ("sha"@, JsonTree::Text(sha)),
            ],
        ),
    }
}

fn make_branch(repo: &RepoRef, name: &str, sha: &str) -> (r: Request)
    ensures
        r@ == make_branch_request(repo@, name@, sha@),
{
    let mut body: Vec<(String, Json)> = Vec::new();
    body.push(entry("ref", Json::text("refs/heads/".to_owned().concat(name).as_str())));
    body.push(entry("sha", Json::text(sha)));
    proof {
        assert(crate::json::entry_trees(body@) =~= seq![
            ("ref"@, JsonTree::Text("refs/heads/"@ + name@)),
            ("sha"@, JsonTree::Text(sha@)),
        ]);
    }
    Request::Post { route: route(repo, "git/refs"), body: Json::object(body) }
}

/// The error that the start of a branch could not be had.
pub open spec fn ref_failed(from_ref: Seq<char>, cause: Seq<char>) -> Seq<char> {
    in_context("get_ref "@ + from_ref, cause)
}

fn ref_error(from_ref: &str, cause: &str) -> (r: String)
    ensures
        r@ == ref_failed(from_ref@, cause@),
{
    ForgeError::in_context("get_ref ".to_owned().concat(from_ref).as_str(), cause).to_string()
}

/// Creating a branch from another branch or from a commit. Where the request fails and the
/// branch is there all the same, it already existed. A start that is neither a branch nor a
/// commit is told as the branch that was not found.
pub enum CreateBranch {
    /// The ref to start from was asked for.
    Base { repo: RepoRef, name: String, from_ref: String },
    /// The branch was asked to be made; `unfound` where the start names no branch.
    Make { repo: RepoRef, name: String, unfound: Option<String> },
    /// Making failed; the branch itself was asked for.
    Check { cause: String, unfound: Option<String> },
}

impl CreateBranch {
    pub open spec fn awaits(self, answer: Answer) -> bool {
        match self {
            CreateBranch::Base { .. } => answer is Ref,
            CreateBranch::Make { .. } => answer is Value,
            CreateBranch::Check { .. } => answer is Ref,
        }
    }

    pub fn start(repo: &RepoRef, name: &str, from_ref: &str) -> (r: (Self, Request))
        ensures
            r.0 matches CreateBranch::Base { repo: rp, name: n, from_ref: fr} && rp@ == repo@ && n@
                == name@ && fr@ == from_ref@,
            r.1@ == ref_request(repo@, from_ref@),
            forall|a: Answer| #[trigger] belongs(r.1@, a) ==> r.0.awaits(a),
    {
        (
            CreateBranch::Base {
                repo: repo.clone(),
                name: name.to_owned(),
                from_ref: from_ref.to_owned(),
            },
            branch_ref(repo, from_ref),
        )
    }

    pub fn next(self, answer: Answer) -> (r: Turn<Self, BranchOutcome>)
        ensures
            !self.awaits(answer) ==> (r matches Turn::Done(Err(f)) && f@ == misplaced_answer()),
            self.awaits(answer) ==> match self {
                CreateBranch::Base { repo, name, from_ref } => match answer->Ref_0 {
                    // What names no branch is a commit's sha.
                    Err(RefFailure::NotFound(e)) if from_ref@.len() > 0 => {
                        &&& r matches Turn::Ask(
                            CreateBranch::Make { repo: rp, name: n, unfound },
                            q,
                        )
                        &&& rp@ == repo@
                        &&& n@ == name@
                        &&& seen(unfound) == Some(ref_failed(from_ref@, e@))
                        &&& q@ == make_branch_request(repo@, name@, from_ref@)
                    },
                    Err(RefFailure::NotFound(e)) => r matches Turn::Done(Err(f)) && f@
                        == ref_failed(from_ref@, e@),
                    Err(RefFailure::Other(e)) => r matches Turn::Done(Err(f)) && f@ == ref_failed(
                        from_ref@,
                        e@,
                    ),
                    Ok(RefObject::Other { shown }) => r matches Turn::Done(Err(f)) && f@
                        == "unexpected ref object: "@ + shown@,
                    Ok(RefObject::Commit { sha }) => {
                        &&& r matches Turn::Ask(
                            CreateBranch::Make { repo: rp, name: n, unfound },
                            q,
                        )
                        &&& rp@ == repo@
                        &&& n@ == name@
                        &&& unfound is None
                        &&& q@ == make_branch_request(repo@, name@, sha@)
                    },
                },
                CreateBranch::Make { repo, name, unfound } => match answer->Value_0 {
                    Ok(_) => r == Turn::<CreateBranch, BranchOutcome>::Done(
                        Ok(BranchOutcome { created: true, already_existed: false }),
                    ),
                    Err(e) => {
                        &&& r matches Turn::Ask(CreateBranch::Check { cause, unfound: u }, q)
                        &&& cause@ == e@
                        &&& u == unfound
                        &&& q@ == ref_request(repo@, name@)
                    },
                },
                CreateBranch::Check { cause, unfound } => match answer->Ref_0 {
                    Ok(_) => r == Turn::<CreateBranch, BranchOutcome>::Done(
                        Ok(BranchOutcome { created: false, already_existed: true }),
                    ),
                    Err(_) => r matches Turn::Done(Err(f)) && f@ == match unfound {
                        Some(unfound) => unfound@,
                        None => in_context("create branch"@, cause@),
                    },
                },
            },
            r matches Turn::Ask(s, q) ==> (forall|a: Answer| #[trigger]
                belongs(q@, a) ==> s.awaits(a)),
    {
        match (self, answer) {
            (CreateBranch::Base { repo, name, from_ref }, Answer::Ref(base)) => {
                match base {
                    Err(RefFailure::NotFound(e)) => {
                        let unfound = ref_error(from_ref.as_str(), e.as_str());
                        if from_ref.as_str().is_empty() {
                            return Turn::Done(Err(ForgeError::from_text(unfound)));
                        }
                        let ask = make_branch(&repo, name.as_str(), from_ref.as_str());
                        Turn::Ask(CreateBranch::Make { repo, name, unfound: Some(unfound) }, ask)
                    },
                    Err(RefFailure::Other(e)) => Turn::Done(
                        Err(ForgeError::from_text(ref_error(from_ref.as_str(), e.as_str()))),
                    ),
                    Ok(RefObject::Other { shown }) => Turn::Done(
                        Err(
                            ForgeError::from_text(
                                "unexpected ref object: ".to_owned().concat(shown.as_str()),
                            ),
                        ),
                    ),
                    Ok(RefObject::Commit { sha }) => {
                        let ask = make_branch(&repo, name.as_str(), sha.as_str());
                        Turn::Ask(CreateBranch::Make { repo, name, unfound: None }, ask)
                    },
                }
            },
            (CreateBranch::Make { repo, name, unfound }, Answer::Value(made)) => {
                match made {
                    Ok(_) => Turn::Done(
                        Ok(BranchOutcome { created: true, already_existed: false }),
                    ),
                    // Idempotent: if the branch now exists, it already existed.
                    Err(e) => {
                        let ask = branch_ref(&repo, name.as_str());
                        Turn::Ask(CreateBranch::Check { cause: e, unfound }, ask)
                    },
                }
            },
            (CreateBranch::Check { cause, unfound }, Answer::Ref(found)) => {
                match found {
                    Ok(_) => Turn::Done(
                        Ok(BranchOutcome { created: false, already_existed: true }),
                    ),
                    Err(_) => Turn::Done(
                        Err(
                            match unfound {
                                Some(unfound) => ForgeError::from_text(unfound),
                                None => ForgeError::in_context("create branch", cause.as_str()),
                            },
                        ),
                    ),
                }
            },
            _ => Turn::Done(Err(misplaced())),
        }
    }
}

// ── commit_file ─────────────────────────────────────────────────────────────

/// Bytes in the standard base64 alphabet, padded.
pub uninterp spec fn base64_text(bytes: Seq<u8>) -> Seq<char>;

/// `encode` of `base64`'s standard engine, whose `decode` gives the bytes back. It would
/// panic on an input whose encoding is longer than an address can tell, and no slice is
/// that long.
#[verifier::external_body]
fn encode_base64(bytes: &[u8]) -> (r: String)
    ensures
        r@ == base64_text(bytes@),
        base64_bytes(vstd::utf8::encode_utf8(r@)) == Some(bytes@),
{
    base64::engine::general_purpose::STANDARD.encode(bytes)
}

/// A content that is sent in this form is read back, whatever blanks the host breaks it
/// into lines by.
pub open spec fn reads_back(sent: Seq<char>, content: Seq<char>) -> bool {
    forall|held: Seq<char>|
        unbroken(vstd::utf8::encode_utf8(held)) == vstd::utf8::encode_utf8(sent)
            ==> #[trigger] file_text(Some(held)) == Some(content)
}

/// The body of a commit: the content in base64, and the file's id where it has one.
pub open spec fn commit_body(
    branch: Seq<char>,
    content: Seq<char>,
    blob_sha: Seq<char>,
    message: Seq<char>,
) -> JsonTree {
    let entries = seq![
        ("message"@, JsonTree::Text(message)),
        ("content"@, JsonTree::Text(base64_text(vstd::utf8::encode_utf8(content)))),
        ("branch"@, JsonTree::Text(branch)),
    ];
    JsonTree::Entries(
        if blob_sha.len() == 0 {
            entries
        } else {
            entries.push(("sha"@, JsonTree::Text(blob_sha)))
        },
    )
}

/// The request that commits a file.
pub fn commit_file_request(
    repo: &RepoRef,
    branch: &str,
    path: &str,
    content: &str,
    blob_sha: &str,
    message: &str,
) -> (r: Request)
    ensures
        r@ == (RequestView::Put {
            route: repo_route(repo@, "contents/"@ + path@),
            body: commit_body(branch@, content@, blob_sha@, message@),
        }),
        reads_back(base64_text(vstd::utf8::encode_utf8(content@)), content@),
{
    let mut body: Vec<(String, Json)> = Vec::new();
    body.push(entry("message", Json::text(message)));
    body.push(entry("content", Json::text(encode_base64(content.as_bytes()).as_str())));
    body.push(entry("branch", Json::text(branch)));
    proof {
        vstd::utf8::encode_utf8_valid_utf8(content@);
        vstd::utf8::encode_utf8_decode_utf8(content@);
    }
    let ghost entries = seq![
        ("message"@, JsonTree::Text(message@)),
        ("content"@, JsonTree::Text(base64_text(vstd::utf8::encode_utf8(content@)))),
        ("branch"@, JsonTree::Text(branch@)),
    ];
    assert(crate::json::entry_trees(body@) =~= entries);
    if !blob_sha.is_empty() {
        body.push(entry("sha", Json::text(blob_sha)));
        assert(crate::json::entry_trees(body@) =~= entries.push(
            ("sha"@, JsonTree::Text(blob_sha@)),
        ));
    }
    Request::Put {
        route: route(repo, "contents/".to_owned().concat(path).as_str()),
        body: Json::object(body),
    }
}

/// A text where there is one, else the empty text.
pub open spec fn or_empty(text: Option<Seq<char>>) -> Seq<char> {
    match text {
        Some(text) => text,
        None => Seq::empty(),
    }
}

fn owned_or_empty(text: Option<&str>) -> (r: String)
    ensures
        r@ == or_empty(
            match text {
                Some(text) => Some(text@),
                None => None,
            },
        ),
{
    match text {
        Some(text) => text.to_owned(),
        None => String::new(),
    }
}

/// The commit's sha, where the answer tells it.
pub fn commit_file(answer: Result<Json, String>) -> (r: ForgeResult<String>)
    ensures
        match answer {
            Ok(value) => r matches Ok(sha) && sha@ == or_empty(
                text_at(field_at(value.tree().field("commit"@), "sha"@)),
            ),
            Err(e) => r matches Err(f) && f@ == in_context("commit file"@, e@),
        },
{
    match answer {
        Ok(value) => {
            let sha = match value.get("commit") {
                Some(commit) => commit.get_str("sha"),
                None => None,
            };
            Ok(owned_or_empty(sha))
        },
        Err(e) => Err(ForgeError::in_context("commit file", e.as_str())),
    }
}

/// What a host holds of a file is this content, byte by byte.
pub open spec fn holds(encoded: Option<Seq<char>>, content: Seq<char>) -> bool {
    match encoded {
        Some(encoded) => base64_bytes(unbroken(vstd::utf8::encode_utf8(encoded))) == Some(
            vstd::utf8::encode_utf8(content),
        ),
        None => false,
    }
}

/// The bytes that were decoded are this content's.
pub fn same_content(decoded: &Option<Vec<u8>>, content: &str) -> (r: bool)
    ensures
        r == match decoded {
            Some(bytes) => bytes@ == vstd::utf8::encode_utf8(content@),
            None => false,
        },
{
    match decoded {
        Some(bytes) => same_bytes(bytes, &content.as_bytes_vec()),
        None => false,
    }
}

fn is_held(encoded: &Option<String>, content: &str) -> (r: bool)
    ensures
        r == holds(seen(*encoded), content@),
{
    match encoded {
        Some(encoded) => {
            let bytes = without_blanks(encoded.as_str().as_bytes());
            same_content(&decode_base64(bytes.as_slice()), content)
        },
        None => false,
    }
}

/// Committing a file. GitHub may refuse a content that the branch already holds; a commit
/// that is refused is therefore followed by a look at the file, and a file that holds the
/// content already is a success that changed nothing.
pub enum CommitFile {
    /// The commit was sent.
    Put { repo: RepoRef, branch: String, path: String, content: String },
    /// It was refused, and the file was asked for.
    Look { content: String, cause: String },
}

impl CommitFile {
    pub open spec fn awaits(self, answer: Answer) -> bool {
        match self {
            CommitFile::Put { .. } => answer is Value,
            CommitFile::Look { .. } => answer is Content,
        }
    }

    pub fn start(
        repo: &RepoRef,
        branch: &str,
        path: &str,
        content: &str,
        blob_sha: &str,
        message: &str,
    ) -> (r: (Self, Request))
        ensures
            r.0 matches CommitFile::Put { repo: rp, branch: b, path: p, content: c } && rp@ == repo@
                && b@ == branch@ && p@ == path@ && c@ == content@,
            r.1@ == (RequestView::Put {
                route: repo_route(repo@, "contents/"@ + path@),
                body: commit_body(branch@, content@, blob_sha@, message@),
            }),
            reads_back(base64_text(vstd::utf8::encode_utf8(content@)), content@),
            forall|a: Answer| #[trigger] belongs(r.1@, a) ==> r.0.awaits(a),
    {
        (
            CommitFile::Put {
                repo: repo.clone(),
                branch: branch.to_owned(),
                path: path.to_owned(),
                content: content.to_owned(),
            },
            commit_file_request(repo, branch, path, content, blob_sha, message),
        )
    }

    /// The commit's sha where the answer tells it; a content that is held already has
    /// none to tell.
    pub fn next(self, answer: Answer) -> (r: Turn<Self, String>)
        ensures
            !self.awaits(answer) ==> (r matches Turn::Done(Err(f)) && f@ == misplaced_answer()),
            self.awaits(answer) ==> match self {
                CommitFile::Put { repo, branch, path, content } => match answer->Value_0 {
                    Ok(made) => r matches Turn::Done(Ok(sha)) && sha@ == or_empty(
                        text_at(field_at(made.json.tree().field("commit"@), "sha"@)),
                    ),
                    Err(e) => {
                        &&& r matches Turn::Ask(CommitFile::Look { content: c, cause }, q)
                        &&& c@ == content@
                        &&& cause@ == e@
                        &&& q@ == content_request(repo@, path@, branch@)
                    },
                },
                CommitFile::Look { content, cause } => match answer->Content_0 {
                    Ok(Some(item)) if holds(seen(item.encoded), content@) => {
                        r matches Turn::Done(Ok(sha)) && sha@ == Seq::<char>::empty()
                    },
                    _ => r matches Turn::Done(Err(f)) && f@ == in_context("commit file"@, cause@),
                },
            },
            r matches Turn::Ask(s, q) ==> (forall|a: Answer| #[trigger]
                belongs(q@, a) ==> s.awaits(a)),
    {
        match (self, answer) {
            (CommitFile::Put { repo, branch, path, content: text }, Answer::Value(made)) => {
                match made {
                    Ok(made) => Turn::Done(commit_file(Ok(made.json))),
                    Err(cause) => {
                        let ask = content(&repo, path.as_str(), branch.as_str());
                        Turn::Ask(CommitFile::Look { content: text, cause }, ask)
                    },
                }
            },
            (CommitFile::Look { content: text, cause }, Answer::Content(found)) => {
                if let Ok(Some(item)) = &found {
                    if is_held(&item.encoded, text.as_str()) {
                        return Turn::Done(Ok(String::new()));
                    }
                }
                Turn::Done(commit_file(Err(cause)))
            },
            _ => Turn::Done(Err(misplaced())),
        }
    }
}

// ── open_change ─────────────────────────────────────────────────────────────

/// The change that a pull request is.
pub open spec fn pull_change(
    pull: Pull,
    head: Seq<char>,
    already_existed: bool,
) -> OpenedChangeView {
    OpenedChangeView {
        change: ChangeRefView {
            number: pull.number as int,
            url: or_empty(seen(pull.html_url)),
            branch: head,
            id: Seq::empty(),
        },
        already_existed,
    }
}

fn opened(pull: &Pull, head: String, already_existed: bool) -> (r: OpenedChange)
    ensures
        r@ == pull_change(*pull, head@, already_existed),
{
    OpenedChange {
        change: ChangeRef {
            number: pull.number,
            url: match &pull.html_url {
                Some(url) => url.clone(),
                None => String::new(),
            },
            branch: head,
            // Numeric forge: `number` is authoritative.
            id: String::new(),
        },
        already_existed,
    }
}

/// Opening a change: where that fails, the open pull request from the same head is
/// adopted.
pub enum OpenChange {
    /// The pull request was asked to be made.
    Create { repo: RepoRef, head: String },
    /// That failed; the open ones were asked for.
    Adopt { head: String, cause: String },
}

impl OpenChange {
    pub open spec fn awaits(self, answer: Answer) -> bool {
        match self {
            OpenChange::Create { .. } => answer is Pull,
            OpenChange::Adopt { .. } => answer is Pulls,
        }
    }

    pub fn start(repo: &RepoRef, head: &str, base: &str, title: &str, body: &str) -> (r: (
        Self,
        Request,
    ))
        ensures
            r.0 matches OpenChange::Create { repo: rp, head: h } && rp@ == repo@ && h@ == head@,
            r.1@ == (RequestView::CreatePull {
                owner: repo@.owner,
                name: repo@.name,
                title: title@,
                head: head@,
                base: base@,
                text: body@,
            }),
            forall|a: Answer| #[trigger] belongs(r.1@, a) ==> r.0.awaits(a),
    {
        (
            OpenChange::Create { repo: repo.clone(), head: head.to_owned() },
            Request::CreatePull {
                owner: repo.owner.clone(),
                name: repo.name.clone(),
                title: title.to_owned(),
                head: head.to_owned(),
                base: base.to_owned(),
                text: body.to_owned(),
            },
        )
    }

    pub fn next(self, answer: Answer) -> (r: Turn<Self, OpenedChange>)
        ensures
            !self.awaits(answer) ==> (r matches Turn::Done(Err(f)) && f@ == misplaced_answer()),
            self.awaits(answer) ==> match self {
                OpenChange::Create { repo, head } => match answer->Pull_0 {
                    Ok(pull) => r matches Turn::Done(Ok(o)) && o@ == pull_change(
                        pull,
                        head@,
                        false,
                    ),
                    Err(e) => {
                        &&& r matches Turn::Ask(OpenChange::Adopt { head: h, cause }, q)
                        &&& h@ == head@
                        &&& cause@ == e@
                        &&& q@ == (RequestView::OpenPulls {
                            owner: repo@.owner,
                            name: repo@.name,
                            head: repo@.owner + ":"@ + head@,
                        })
                    },
                },
                OpenChange::Adopt { head, cause } => match answer->Pulls_0 {
                    Ok(pulls) if pulls@.len() > 0 => r matches Turn::Done(Ok(o)) && o@
                        == pull_change(pulls@[0], head@, true),
                    _ => r matches Turn::Done(Err(f)) && f@ == in_context("open PR"@, cause@),
                },
            },
            r matches Turn::Ask(s, q) ==> (forall|a: Answer| #[trigger]
                belongs(q@, a) ==> s.awaits(a)),
    {
        match (self, answer) {
            (OpenChange::Create { repo, head }, Answer::Pull(made)) => {
                match made {
                    Ok(pull) => Turn::Done(Ok(opened(&pull, head, false))),
                    // Adopt an existing open pull request for this head branch.
                    Err(e) => {
                        let from = repo.owner.clone().concat(":").concat(head.as_str());
                        Turn::Ask(
                            OpenChange::Adopt { head, cause: e },
                            Request::OpenPulls { owner: repo.owner, name: repo.name, head: from },
                        )
                    },
                }
            },
            (OpenChange::Adopt { head, cause }, Answer::Pulls(found)) => {
                if let Ok(pulls) = &found {
                    if pulls.len() > 0 {
                        return Turn::Done(Ok(opened(&pulls[0], head, true)));
                    }
                }
                Turn::Done(Err(ForgeError::in_context("open PR", cause.as_str())))
            },
            _ => Turn::Done(Err(misplaced())),
        }
    }
}

// ── enable_auto_merge ───────────────────────────────────────────────────────

/// The mutation that arms auto-merge, which the REST API cannot do.
pub open spec fn auto_merge_body(node_id: Seq<char>) -> JsonTree {
    JsonTree::Entries(
        seq![
            (
                "query"@,
                JsonTree::Text(
                    "mutation($id:ID!){enablePullRequestAutoMerge(input:{pullRequestId:$id,mergeMethod:MERGE}){clientMutationId}}"@,
                ),
            ),
            ("variables"@, JsonTree::Entries(seq![("id"@, JsonTree::Text(node_id))])),
        ],
    )
}

fn auto_merge_mutation(node_id: &str) -> (r: Json)
    ensures
        r.tree() == auto_merge_body(node_id@),
{
    let mut variables: Vec<(String, Json)> = Vec::new();
    variables.push(entry("id", Json::text(node_id)));
    assert(crate::json::entry_trees(variables@) =~= seq![("id"@, JsonTree::Text(node_id@))]);
    let mut body: Vec<(String, Json)> = Vec::new();
    body.push(
        entry(
            "query",
            Json::text(
                "mutation($id:ID!){enablePullRequestAutoMerge(input:{pullRequestId:$id,mergeMethod:MERGE}){clientMutationId}}",
            ),
        ),
    );
    body.push(entry("variables", Json::object(variables)));
    assert(JsonTree::Entries(crate::json::entry_trees(body@)) == auto_merge_body(node_id@)) by {
        assert(crate::json::entry_trees(body@) =~= auto_merge_body(node_id@)->Entries_0);
    }
    Json::object(body)
}

/// Arming auto-merge. Where the forge will not, the caller falls back: that is a `false`,
/// not a failure.
pub enum EnableAutoMerge {
    /// The pull request was asked for.
    Pull { repo: RepoRef, number: u64 },
    /// The mutation was sent.
    Arm,
}

impl EnableAutoMerge {
    pub open spec fn awaits(self, answer: Answer) -> bool {
        answer is Value
    }

    pub fn start(repo: &RepoRef, change: &ChangeRef) -> (r: (Self, Request))
        ensures
            r.0 == (EnableAutoMerge::Pull { repo: *repo, number: change.number }),
            r.1@ == (RequestView::Get { route: pull_route(repo@, change.number as nat) }),
            forall|a: Answer| #[trigger] belongs(r.1@, a) ==> r.0.awaits(a),
    {
        (
            EnableAutoMerge::Pull { repo: repo.clone(), number: change.number },
            Request::Get { route: pull(repo, change.number) },
        )
    }

    pub fn next(self, answer: Answer) -> (r: Turn<Self, bool>)
        ensures
            !self.awaits(answer) ==> (r matches Turn::Done(Err(f)) && f@ == misplaced_answer()),
            self.awaits(answer) ==> match (self, answer->Value_0) {
                (EnableAutoMerge::Pull { repo, number }, Err(e)) => {
                    r matches Turn::Done(Err(f)) && f@ == pull_failed(repo@, number as nat, e@)
                },
                (EnableAutoMerge::Pull { repo, number }, Ok(pr)) => {
                    match text_at(pr.json.tree().field("node_id"@)) {
                        None => r == Turn::<EnableAutoMerge, bool>::Done(Ok(false)),
                        Some(id) => {
                            &&& r matches Turn::Ask(EnableAutoMerge::Arm, q)
                            &&& q@ == (RequestView::Graphql { body: auto_merge_body(id) })
                        },
                    }
                },
                (EnableAutoMerge::Arm, Ok(value)) => {
                    r == Turn::<EnableAutoMerge, bool>::Done(
                        Ok(value.json.tree().field("errors"@) is None),
                    )
                },
                (EnableAutoMerge::Arm, Err(_)) => {
                    r == Turn::<EnableAutoMerge, bool>::Done(Ok(false))
                },
            },
            r matches Turn::Ask(s, q) ==> (forall|a: Answer| #[trigger]
                belongs(q@, a) ==> s.awaits(a)),
    {
        let value = match answer {
            Answer::Value(value) => value,
            _ => {
                return Turn::Done(Err(misplaced()));
            },
        };
        match self {
            EnableAutoMerge::Pull { repo, number } => {
                match value {
                    Err(e) => Turn::Done(Err(pull_error(&repo, number, e.as_str()))),
                    Ok(pr) => match pr.json.get_str("node_id") {
                        None => Turn::Done(Ok(false)),
                        Some(id) => Turn::Ask(
                            EnableAutoMerge::Arm,
                            Request::Graphql { body: auto_merge_mutation(id) },
                        ),
                    },
                }
            },
            EnableAutoMerge::Arm => {
                match value {
                    Ok(value) => Turn::Done(Ok(value.json.get("errors").is_none())),
                    Err(_) => Turn::Done(Ok(false)),
                }
            },
        }
    }
}

// ── merge and change_state ──────────────────────────────────────────────────

pub fn merge_request(repo: &RepoRef, change: &ChangeRef) -> (r: Request)
    ensures
        r@ == (RequestView::Put {
            route: repo_route(repo@, "pulls/"@ + decimal(change.number as nat) + "/merge"@),
            body: JsonTree::Entries(seq![("merge_method"@, JsonTree::Text("merge"@))]),
        }),
{
    let mut body: Vec<(String, Json)> = Vec::new();
    body.push(entry("merge_method", Json::text("merge")));
    assert(crate::json::entry_trees(body@) =~= seq![("merge_method"@, JsonTree::Text("merge"@))]);
    Request::Put {
        route: route(
            repo,
            "pulls/".to_owned().concat(u64_text(change.number).as_str()).concat("/merge").as_str(),
        ),
        body: Json::object(body),
    }
}

/// The merge commit's sha, where the answer tells it.
pub fn merge(answer: Result<Json, String>) -> (r: ForgeResult<String>)
    ensures
        match answer {
            Ok(value) => r matches Ok(sha) && sha@ == or_empty(
                text_at(value.tree().field("sha"@)),
            ),
            Err(e) => r matches Err(f) && f@ == in_context("merge PR"@, e@),
        },
{
    match answer {
        Ok(value) => Ok(owned_or_empty(value.get_str("sha"))),
        Err(e) => Err(ForgeError::in_context("merge PR", e.as_str())),
    }
}

pub fn change_state_request(repo: &RepoRef, change: &ChangeRef) -> (r: Request)
    ensures
        r@ == (RequestView::Get { route: pull_route(repo@, change.number as nat) }),
{
    Request::Get { route: pull(repo, change.number) }
}

/// A merged pull request is merged though it is closed too.
pub open spec fn pull_state(pr: JsonTree) -> ChangeState {
    if flag_at(pr.field("merged"@)) == Some(true) {
        ChangeState::Merged
    } else if text_at(pr.field("state"@)) == Some("closed"@) {
        ChangeState::Closed
    } else {
        ChangeState::Open
    }
}

pub fn change_state(repo: &RepoRef, change: &ChangeRef, answer: Result<Json, String>) -> (r:
    ForgeResult<ChangeState>)
    ensures
        match answer {
            Ok(pr) => r == Ok::<ChangeState, ForgeError>(pull_state(pr.tree())),
            Err(e) => r matches Err(f) && f@ == pull_failed(repo@, change.number as nat, e@),
        },
{
    match answer {
        Err(e) => Err(pull_error(repo, change.number, e.as_str())),
        Ok(pr) => {
            let merged = match pr.get("merged") {
                Some(merged) => match merged.as_bool() {
                    Some(merged) => merged,
                    None => false,
                },
                None => false,
            };
            if merged {
                return Ok(ChangeState::Merged);
            }
            match pr.get_str("state") {
                Some(state) => if same(state, "closed") {
                    Ok(ChangeState::Closed)
                } else {
                    Ok(ChangeState::Open)
                },
                None => Ok(ChangeState::Open),
            }
        },
    }
}

// ── triggers ────────────────────────────────────────────────────────────────

/// A hook as a trigger, with the hook's id as text. GitHub already uses the `push` and
/// `pull_request` event names, so events pass through.
pub open spec fn hook_trigger(id: Option<Seq<char>>, h: JsonTree) -> TriggerView {
    TriggerView {
        id: or_empty(id),
        url: or_empty(text_at(field_at(h.field("config"@), "url"@))),
        events: match list_at(h.field("events"@)) {
            Some(items) => texts_of(items),
            None => Seq::empty(),
        },
        active: flag_at(h.field("active"@)) == Some(true),
        target: Seq::empty(),
    }
}

/// The trigger that a hook is.
pub open spec fn hook_of(h: Document) -> TriggerView {
    hook_trigger(seen(h.id), h.json.tree())
}

/// Map a GitHub hook JSON object to a normalized [`Trigger`].
pub fn gh_hook_to_trigger(h: &Document) -> (r: Trigger)
    ensures
        r@ == hook_of(*h),
{
    let id = match &h.id {
        Some(id) => id.clone(),
        None => String::new(),
    };
    let h = &h.json;
    let url = match h.get("config") {
        Some(config) => config.get_str("url"),
        None => None,
    };
    let items = match h.get("events") {
        Some(events) => events.as_array(),
        None => None,
    };
    let events = match items {
        Some(items) => collect_texts(items),
        None => {
            let none: Vec<String> = Vec::new();
            assert(texts(none@) =~= Seq::<Seq<char>>::empty());
            none
        },
    };
    let active = match h.get("active") {
        Some(active) => match active.as_bool() {
            Some(active) => active,
            None => false,
        },
        None => false,
    };
    Trigger {
        id,
        url: owned_or_empty(url),
        events,
        active,
        // Delivers by HTTPS, so `url` carries it.
        target: String::new(),
    }
}

/// The route of a repository's hooks.
pub open spec fn hooks_route(repo: RepoRefView) -> Seq<char> {
    repo_route(repo, "hooks"@)
}

pub fn list_triggers_request(repo: &RepoRef) -> (r: Request)
    ensures
        r@ == (RequestView::List { route: hooks_route(repo@) }),
{
    Request::List { route: route(repo, "hooks") }
}

/// The triggers that the hooks are.
pub open spec fn hook_triggers(hooks: Seq<Document>) -> Seq<TriggerView> {
    hooks.map_values(|h: Document| hook_of(h))
}

/// The repo's configured inbound triggers, from its hooks.
pub fn list_triggers(repo: &RepoRef, answer: Result<Vec<Document>, String>) -> (r: ForgeResult<
    Vec<Trigger>,
>)
    ensures
        match answer {
            Ok(hooks) => r matches Ok(v) && trigger_views(v@) == hook_triggers(hooks@),
            Err(e) => r matches Err(f) && f@ == in_context("list hooks "@ + hooks_route(repo@), e@),
        },
{
    match answer {
        Err(e) => Err(
            ForgeError::in_context(
                "list hooks ".to_owned().concat(route(repo, "hooks").as_str()).as_str(),
                e.as_str(),
            ),
        ),
        Ok(hooks) => {
            let mut r: Vec<Trigger> = Vec::new();
            let mut i: usize = 0;
            while i < hooks.len()
                invariant
                    i <= hooks.len(),
                    r@.len() == i,
                    forall|j: int|
                        0 <= j < i ==> (#[trigger] r@[j])@ == hook_of(hooks@[j]),
                decreases hooks.len() - i,
            {
                r.push(gh_hook_to_trigger(&hooks[i]));
                i = i + 1;
            }
            assert(trigger_views(r@) =~= hook_triggers(hooks@));
            Ok(r)
        },
    }
}

/// The events of a hook as JSON.
pub open spec fn events_tree(events: Seq<Seq<char>>) -> JsonTree {
    JsonTree::List(events.map_values(|e: Seq<char>| JsonTree::Text(e)))
}

fn events_json(events: &Vec<String>) -> (r: Json)
    ensures
        r.tree() == events_tree(texts(events@)),
{
    let mut v: Vec<Json> = Vec::new();
    let mut i: usize = 0;
    while i < events.len()
        invariant
            i <= events.len(),
            v@.len() == i,
            forall|j: int|
                0 <= j < i ==> (#[trigger] v@[j]).tree() == JsonTree::Text(events@[j]@),
        decreases events.len() - i,
    {
        v.push(Json::text(events[i].as_str()));
        i = i + 1;
    }
    assert(trees(v@) =~= events_tree(texts(events@))->List_0);
    Json::list(v)
}

/// The request that makes a hook; the secret goes in where there is one.
pub open spec fn hook_body(url: Seq<char>, events: Seq<Seq<char>>, secret: Seq<char>) -> JsonTree {
    let config = seq![
        ("url"@, JsonTree::Text(url)),
        ("content_type"@, JsonTree::Text("json"@)),
    ];
    JsonTree::Entries(
        seq![
            ("name"@, JsonTree::Text("web"@)),
            ("active"@, JsonTree::Flag(true)),
            (
                "events"@,
                events_tree(
                    if events.len() == 0 {
                        default_events()
                    } else {
                        events
                    },
                ),
            ),
            (
                "config"@,
                JsonTree::Entries(
                    if secret.len() == 0 {
                        config
                    } else {
                        config.push(("secret"@, JsonTree::Text(secret)))
                    },
                ),
            ),
        ],
    )
}

fn hook_json(url: &str, events: &Vec<String>, secret: &str) -> (r: Json)
    ensures
        r.tree() == hook_body(url@, texts(events@), secret@),
{
    let mut config: Vec<(String, Json)> = Vec::new();
    config.push(entry("url", Json::text(url)));
    config.push(entry("content_type", Json::text("json")));
    let ghost plain = seq![
        ("url"@, JsonTree::Text(url@)),
        ("content_type"@, JsonTree::Text("json"@)),
    ];
    assert(crate::json::entry_trees(config@) =~= plain);
    if !secret.is_empty() {
        config.push(entry("secret", Json::text(secret)));
        assert(crate::json::entry_trees(config@) =~= plain.push(
            ("secret"@, JsonTree::Text(secret@)),
        ));
    }
    let subscribed = if events.len() == 0 {
        events_json(&default_trigger_events())
    } else {
        events_json(events)
    };
    let mut body: Vec<(String, Json)> = Vec::new();
    body.push(entry("name", Json::text("web")));
    body.push(entry("active", Json::Flag(true)));
    body.push(entry("events", subscribed));
    body.push(entry("config", Json::object(config)));
    assert(crate::json::entry_trees(body@) =~= hook_body(
        url@,
        texts(events@),
        secret@,
    )->Entries_0);
    Json::object(body)
}

/// Ensuring a hook: one that already delivers to the url is given back as it is.
pub enum EnsureTrigger {
    /// The hooks were asked for.
    List { repo: RepoRef, url: String, events: Vec<String>, secret: String },
    /// The hook was asked to be made.
    Create { repo: RepoRef },
}

impl EnsureTrigger {
    pub open spec fn awaits(self, answer: Answer) -> bool {
        match self {
            EnsureTrigger::List { .. } => answer is Values,
            EnsureTrigger::Create { .. } => answer is Value,
        }
    }

    pub fn start(repo: &RepoRef, url: &str, events: &[String], secret: &str) -> (r: (
        Self,
        Request,
    ))
        ensures
            r.0 matches EnsureTrigger::List { repo: rp, url: u, events: ev, secret: s } && rp@
                == repo@ && u@ == url@ && texts(ev@) == texts(events@) && s@ == secret@,
            r.1@ == (RequestView::List { route: hooks_route(repo@) }),
            forall|a: Answer| #[trigger] belongs(r.1@, a) ==> r.0.awaits(a),
    {
        (
            EnsureTrigger::List {
                repo: repo.clone(),
                url: url.to_owned(),
                events: copy_texts(events),
                secret: secret.to_owned(),
            },
            list_triggers_request(repo),
        )
    }

    pub fn next(self, answer: Answer) -> (r: Turn<Self, EnsuredTrigger>)
        ensures
            !self.awaits(answer) ==> (r matches Turn::Done(Err(f)) && f@ == misplaced_answer()),
            self.awaits(answer) ==> match self {
                EnsureTrigger::List { repo, url, events, secret } => match answer->Values_0 {
                    Err(e) => r matches Turn::Done(Err(f)) && f@ == in_context(
                        "list hooks "@ + hooks_route(repo@),
                        e@,
                    ),
                    Ok(hooks) => {
                        let there = hook_triggers(hooks@);
                        match first_index(there, |t: TriggerView| t.url == url@) {
                            Some(i) => r matches Turn::Done(Ok(e)) && e@ == (EnsuredTriggerView {
                                trigger: there[i],
                                created: false,
                            }),
                            None => {
                                &&& r matches Turn::Ask(EnsureTrigger::Create { repo: rp }, q)
                                &&& rp@ == repo@
                                &&& q@ == (RequestView::Post {
                                    route: hooks_route(repo@),
                                    body: hook_body(url@, texts(events@), secret@),
                                })
                            },
                        }
                    },
                },
                EnsureTrigger::Create { repo } => match answer->Value_0 {
                    Err(e) => r matches Turn::Done(Err(f)) && f@ == in_context(
                        "create hook "@ + hooks_route(repo@),
                        e@,
                    ),
                    Ok(hook) => r matches Turn::Done(Ok(e)) && e@ == (EnsuredTriggerView {
                        trigger: hook_of(hook),
                        created: true,
                    }),
                },
            },
            r matches Turn::Ask(s, q) ==> (forall|a: Answer| #[trigger]
                belongs(q@, a) ==> s.awaits(a)),
    {
        match (self, answer) {
            (EnsureTrigger::List { repo, url, events, secret }, Answer::Values(hooks)) => {
                let listed = match list_triggers(&repo, hooks) {
                    Ok(listed) => listed,
                    Err(e) => {
                        return Turn::Done(Err(e));
                    },
                };
                // Idempotent: a hook already delivering to `url` is returned as-is.
                if let Some(i) = find_at(&listed, url.as_str()) {
                    return Turn::Done(
                        Ok(EnsuredTrigger { trigger: listed[i].clone(), created: false }),
                    );
                }
                let ask = Request::Post {
                    route: route(&repo, "hooks"),
                    body: hook_json(url.as_str(), &events, secret.as_str()),
                };
                Turn::Ask(EnsureTrigger::Create { repo }, ask)
            },
            (EnsureTrigger::Create { repo }, Answer::Value(made)) => {
                match made {
                    Ok(hook) => Turn::Done(
                        Ok(EnsuredTrigger { trigger: gh_hook_to_trigger(&hook), created: true }),
                    ),
                    Err(e) => Turn::Done(
                        Err(
                            ForgeError::in_context(
                                "create hook ".to_owned().concat(
                                    route(&repo, "hooks").as_str(),
                                ).as_str(),
                                e.as_str(),
                            ),
                        ),
                    ),
                }
            },
            _ => Turn::Done(Err(misplaced())),
        }
    }
}

/// Core plus inbound triggers, and nothing else: an honest report of what this adapter
/// serves, not of what GitHub offers.
pub fn capabilities() -> (r: ForgeCapabilities)
    ensures
        r == ForgeCapabilities::triggers_only(),
{
    ForgeCapabilities::with_triggers()
}

} // verus!
