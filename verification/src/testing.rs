//! Test doubles for the [`Forge`] contract.
//!
//! [`FakeForge`] is a working in-memory forge, not a stub that returns canned values:
//! the contract's idempotency guarantees are behavioural, and a stub cannot exercise
//! them. What it does is the model below, call by call.

use crate::conformance::{
    commit_identical_content_is_noop_success_course, create_branch_is_idempotent_course,
    declared_capabilities_are_served_course, ensure_trigger_is_idempotent_by_url_course,
    merged_change_is_merged_not_closed_course, open_change_adopts_existing_course,
    read_file_roundtrips_and_absent_is_none_course, transient_failure_is_recoverable_course,
    unsupported_is_explicit_course, End, Fixture,
};
use crate::forge::{
    default_events, default_trigger_events, not_supported, not_supported_error, repo_slug, slug,
    BranchOutcome, EnsuredTrigger, EnsuredTriggerView, Forge, ForgeCall, ForgeError, ForgeReply,
    ForgeResult, OpenedChange, OpenedChangeView, PipelineStatus, PipelineStatusView, ReplyView,
};
use crate::messages::{
    copy_texts, find_at, texts, trigger_views, ChangeRef, ChangeRefView, ChangeState, CiStatus,
    FileBlob, FileBlobView, ForgeCapabilities, ForgeKind, Issue, PullRequest, RepoRef, Repository,
    Trigger, TriggerView,
};
use crate::search::{count_that, first_index, first_index_at, first_index_facts, first_index_none};
use crate::table::{Key, Table};
use crate::text::{decimal, padded, padded_text, same, u64_text};
use vstd::prelude::*;

verus! {

// ── the model ───────────────────────────────────────────────────────────────

/// One change of a repository.
pub struct ChangeModel {
    pub number: nat,
    pub head: Seq<char>,
    pub base: Seq<char>,
    pub state: ChangeState,
    pub auto_merge: bool,
    pub ci: CiStatus,
    pub merge_sha: Seq<char>,
}

/// One repository: its branches by name with their head, its files by branch and path
/// with content and id, its changes and triggers in the order they came, and the
/// counter behind change numbers and ids.
#[verifier::ext_equal]
pub struct RepoModel {
    pub default_branch: Seq<char>,
    pub branches: Map<Seq<char>, Seq<char>>,
    pub files: Map<(Seq<char>, Seq<char>), (Seq<char>, Seq<char>)>,
    pub changes: Seq<ChangeModel>,
    pub triggers: Seq<TriggerView>,
    pub seq: nat,
}

/// The forge: its repositories by slug, the calls so far, and the failure to inject.
#[verifier::ext_equal]
pub struct ForgeModel {
    pub kind: ForgeKind,
    pub repos: Map<Seq<char>, RepoModel>,
    pub calls: Seq<Seq<char>>,
    pub pending: Option<(Seq<char>, Seq<char>)>,
}

impl RepoModel {
    /// A repository with nothing in it.
    pub open spec fn fresh() -> RepoModel {
        RepoModel {
            default_branch: Seq::empty(),
            branches: Map::empty(),
            files: Map::empty(),
            changes: Seq::empty(),
            triggers: Seq::empty(),
            seq: 0,
        }
    }

    /// Changes are numbered in the order in which they were opened, within the counter, and
    /// every file has an id.
    pub open spec fn kept(self) -> bool {
        &&& forall|i: int|
            0 <= i < self.changes.len() ==> (#[trigger] self.changes[i]).number <= self.seq
        &&& forall|i: int, j: int|
            0 <= i < j < self.changes.len() ==> (#[trigger] self.changes[i]).number < (
            #[trigger] self.changes[j]).number
        &&& forall|key: (Seq<char>, Seq<char>)| #[trigger]
            self.files.contains_key(key) ==> self.files[key].1.len() > 0
    }

    /// The index of the change with this number.
    pub open spec fn numbered(self, number: nat) -> Option<int> {
        first_index(self.changes, |c: ChangeModel| c.number == number)
    }

    /// Auto-merge is armed on the change with this number.
    pub open spec fn armed(self, number: nat) -> bool {
        match self.numbered(number) {
            Some(i) => self.changes[i].auto_merge,
            None => false,
        }
    }

    /// The index of the open change from this head.
    pub open spec fn open_from(self, head: Seq<char>) -> Option<int> {
        first_index(
            self.changes,
            |c: ChangeModel| c.head == head && c.state == ChangeState::Open,
        )
    }

    /// The index of the trigger at this url.
    pub open spec fn trigger_at(self, url: Seq<char>) -> Option<int> {
        first_index(self.triggers, |t: TriggerView| t.url == url)
    }

    pub open spec fn read_file(self, path: Seq<char>, at: Seq<char>) -> Option<FileBlobView> {
        let branch = if at.len() == 0 {
            self.default_branch
        } else {
            at
        };
        if self.files.contains_key((branch, path)) {
            let (content, blob_sha) = self.files[(branch, path)];
            Some(FileBlobView { path, content, blob_sha })
        } else {
            None
        }
    }

    /// The head of the new branch: that of the branch it starts from, or the given sha.
    pub open spec fn start(self, from_ref: Seq<char>) -> Seq<char> {
        let from = if from_ref.len() == 0 {
            self.default_branch
        } else {
            from_ref
        };
        if self.branches.contains_key(from) {
            self.branches[from]
        } else {
            from
        }
    }

    pub open spec fn create_branch(self, name: Seq<char>, from_ref: Seq<char>) -> (
        RepoModel,
        Result<BranchOutcome, Seq<char>>,
    ) {
        if self.branches.contains_key(name) {
            (self, Ok(BranchOutcome { created: false, already_existed: true }))
        } else {
            (
                RepoModel {
                    branches: self.branches.insert(name, self.start(from_ref)),
                    ..self
                },
                Ok(BranchOutcome { created: true, already_existed: false }),
            )
        }
    }

    pub open spec fn commit_file(
        self,
        branch: Seq<char>,
        path: Seq<char>,
        content: Seq<char>,
    ) -> (RepoModel, Result<Seq<char>, Seq<char>>) {
        if !self.branches.contains_key(branch) {
            (self, Err("no such branch: "@ + branch))
        } else if self.files.contains_key((branch, path)) && self.files[(branch, path)].0
            == content {
            (self, Ok(self.branches[branch]))
        } else {
            let seq = self.seq + 1;
            let sha = "commit"@ + padded(seq, 10);
            (
                RepoModel {
                    files: self.files.insert(
                        (branch, path),
                        (content, "blob"@ + padded(seq, 12)),
                    ),
                    branches: self.branches.insert(branch, sha),
                    seq,
                    ..self
                },
                Ok(sha),
            )
        }
    }

    pub open spec fn open_change(self, slug: Seq<char>, head: Seq<char>, base: Seq<char>) -> (
        RepoModel,
        Result<OpenedChangeView, Seq<char>>,
    ) {
        match self.open_from(head) {
            Some(i) => (
                self,
                Ok(
                    OpenedChangeView {
                        change: change_view(slug, self.changes[i].number, head),
                        already_existed: true,
                    },
                ),
            ),
            None => {
                let number = self.seq + 1;
                (
                    RepoModel {
                        changes: self.changes.push(
                            ChangeModel {
                                number,
                                head,
                                base,
                                state: ChangeState::Open,
                                auto_merge: false,
                                ci: CiStatus::Absent,
                                merge_sha: Seq::empty(),
                            },
                        ),
                        seq: number,
                        ..self
                    },
                    Ok(
                        OpenedChangeView {
                            change: change_view(slug, number, head),
                            already_existed: false,
                        },
                    ),
                )
            },
        }
    }

    /// The repository with the change at `i` replaced.
    pub open spec fn with_change(self, i: int, change: ChangeModel) -> RepoModel {
        RepoModel { changes: self.changes.update(i, change), ..self }
    }

    pub open spec fn enable_auto_merge(self, number: nat) -> (
        RepoModel,
        Result<bool, Seq<char>>,
    ) {
        match self.numbered(number) {
            Some(i) => (
                self.with_change(i, ChangeModel { auto_merge: true, ..self.changes[i] }),
                Ok(true),
            ),
            None => (self, Err(no_such_change(number))),
        }
    }

    pub open spec fn pipeline_status(self, slug: Seq<char>, number: nat) -> Result<
        PipelineStatusView,
        Seq<char>,
    > {
        match self.numbered(number) {
            Some(i) => Ok(
                PipelineStatusView {
                    status: self.changes[i].ci,
                    pipeline_id: "pipe-"@ + decimal(self.changes[i].number),
                    url: "https://fake/"@ + slug + "/pipelines/"@ + decimal(
                        self.changes[i].number,
                    ),
                },
            ),
            None => Err(no_such_change(number)),
        }
    }

    /// A merge takes a number of the counter even where it fails.
    pub open spec fn merge(self, number: nat) -> (RepoModel, Result<Seq<char>, Seq<char>>) {
        let counted = RepoModel { seq: self.seq + 1, ..self };
        let sha = "merge"@ + padded(self.seq + 1, 11);
        match self.numbered(number) {
            None => (counted, Err(no_such_change(number))),
            Some(i) => {
                let change = self.changes[i];
                if change.state != ChangeState::Open {
                    (
                        counted,
                        Err(
                            "change "@ + decimal(number) + " is not open (state "@
                                + change.state.title() + ")"@,
                        ),
                    )
                } else {
                    (
                        RepoModel {
                            branches: counted.branches.insert(change.base, sha),
                            ..counted.with_change(
                                i,
                                ChangeModel {
                                    state: ChangeState::Merged,
                                    auto_merge: false,
                                    merge_sha: sha,
                                    ..change
                                },
                            )
                        },
                        Ok(sha),
                    )
                }
            },
        }
    }

    pub open spec fn change_state(self, number: nat) -> Result<ChangeState, Seq<char>> {
        match self.numbered(number) {
            Some(i) => Ok(self.changes[i].state),
            None => Err(no_such_change(number)),
        }
    }

    pub open spec fn ensure_trigger(self, url: Seq<char>, events: Seq<Seq<char>>) -> (
        RepoModel,
        Result<EnsuredTriggerView, Seq<char>>,
    ) {
        match self.trigger_at(url) {
            Some(i) => (
                self,
                Ok(EnsuredTriggerView { trigger: self.triggers[i], created: false }),
            ),
            None => {
                let trigger = TriggerView {
                    id: "hook-"@ + decimal(self.seq + 1),
                    url,
                    events: if events.len() == 0 {
                        default_events()
                    } else {
                        events
                    },
                    active: true,
                    target: Seq::empty(),
                };
                (
                    RepoModel {
                        triggers: self.triggers.push(trigger),
                        seq: self.seq + 1,
                        ..self
                    },
                    Ok(EnsuredTriggerView { trigger, created: true }),
                )
            },
        }
    }

    pub open spec fn set_ci(self, number: nat, status: CiStatus) -> RepoModel {
        match self.numbered(number) {
            Some(i) => self.with_change(i, ChangeModel { ci: status, ..self.changes[i] }),
            None => self,
        }
    }
}

/// The reference under which a change is known.
pub open spec fn change_view(slug: Seq<char>, number: nat, head: Seq<char>) -> ChangeRefView {
    ChangeRefView {
        number: number as int,
        url: "https://fake/"@ + slug + "/changes/"@ + decimal(number),
        branch: head,
        id: Seq::empty(),
    }
}

pub open spec fn no_such_change(number: nat) -> Seq<char> {
    "no such change: "@ + decimal(number)
}

impl ForgeModel {
    /// The call is recorded; a failure waiting for it fires, once.
    pub open spec fn enter(self, method: Seq<char>) -> (ForgeModel, Result<(), Seq<char>>) {
        let recorded = ForgeModel { calls: self.calls.push(method), ..self };
        match self.pending {
            Some((m, msg)) if m == method => (
                ForgeModel { pending: None, ..recorded },
                Err(msg),
            ),
            _ => (recorded, Ok(())),
        }
    }

    /// A recorded call on a repository, which does nothing where there is none.
    pub open spec fn served<T>(
        self,
        method: Seq<char>,
        repo: RepoRef,
        op: spec_fn(RepoModel) -> (RepoModel, Result<T, Seq<char>>),
    ) -> (ForgeModel, Result<T, Seq<char>>) {
        let (entered, outcome) = self.enter(method);
        let key = slug(repo@);
        match outcome {
            Err(e) => (entered, Err(e)),
            Ok(()) => if !entered.repos.contains_key(key) {
                (entered, Err("no such repo: "@ + key))
            } else {
                let (repo, result) = op(entered.repos[key]);
                (ForgeModel { repos: entered.repos.insert(key, repo), ..entered }, result)
            },
        }
    }

    /// The repository with its default branch at a seed commit.
    pub open spec fn seeded_with(self, slug: Seq<char>, default_branch: Seq<char>) -> ForgeModel {
        let was = if self.repos.contains_key(slug) {
            self.repos[slug]
        } else {
            RepoModel::fresh()
        };
        ForgeModel {
            repos: self.repos.insert(
                slug,
                RepoModel {
                    default_branch,
                    branches: was.branches.insert(default_branch, "seed000000000000"@),
                    ..was
                },
            ),
            ..self
        }
    }

    /// The pipeline status of a change set, where there is such a repository and change.
    pub open spec fn with_ci(self, slug: Seq<char>, number: nat, status: CiStatus) -> ForgeModel {
        if self.repos.contains_key(slug) {
            ForgeModel {
                repos: self.repos.insert(slug, self.repos[slug].set_ci(number, status)),
                ..self
            }
        } else {
            self
        }
    }

    /// Auto-merge is armed on the change.
    pub open spec fn armed(self, slug: Seq<char>, number: nat) -> bool {
        self.repos.contains_key(slug) && self.repos[slug].armed(number)
    }

    /// A recorded call of a surface that the double does not have.
    pub open spec fn refuses(self, method: Seq<char>) -> (ForgeModel, Seq<char>) {
        let (entered, outcome) = self.enter(method);
        match outcome {
            Err(e) => (entered, e),
            Ok(()) => (entered, not_supported(method)),
        }
    }

    /// What a call does to the forge and what it replies.
    pub open spec fn step(self, call: ForgeCall) -> (ForgeModel, ReplyView) {
        match call {
            ForgeCall::DefaultBranch { repo } => {
                let (m, r) = self.served(
                    "default_branch"@,
                    repo,
                    |r: RepoModel| (r, Ok(r.default_branch)),
                );
                (m, ReplyView::Text(r))
            },
            ForgeCall::ReadFile { repo, path, at } => {
                let (m, r) = self.served(
                    "read_file"@,
                    repo,
                    |r: RepoModel| (r, Ok(r.read_file(path, at))),
                );
                (m, ReplyView::File(r))
            },
            ForgeCall::CreateBranch { repo, name, from_ref } => {
                let (m, r) = self.served(
                    "create_branch"@,
                    repo,
                    |r: RepoModel| r.create_branch(name, from_ref),
                );
                (m, ReplyView::Branch(r))
            },
            ForgeCall::CommitFile { repo, branch, path, content, blob_sha, message } => {
                let (m, r) = self.served(
                    "commit_file"@,
                    repo,
                    |r: RepoModel| r.commit_file(branch, path, content),
                );
                (m, ReplyView::Text(r))
            },
            ForgeCall::OpenChange { repo, head, base, title, body, remove_source_branch } => {
                let (m, r) = self.served(
                    "open_change"@,
                    repo,
                    |r: RepoModel| r.open_change(slug(repo@), head, base),
                );
                (m, ReplyView::Change(r))
            },
            ForgeCall::EnableAutoMerge { repo, change } => {
                let (m, r) = self.served(
                    "enable_auto_merge"@,
                    repo,
                    |r: RepoModel| r.enable_auto_merge(change.number as nat),
                );
                (m, ReplyView::Flag(r))
            },
            ForgeCall::PipelineStatus { repo, change } => {
                let (m, r) = self.served(
                    "pipeline_status"@,
                    repo,
                    |r: RepoModel| (r, r.pipeline_status(slug(repo@), change.number as nat)),
                );
                (m, ReplyView::Pipeline(r))
            },
            ForgeCall::Merge { repo, change } => {
                let (m, r) = self.served(
                    "merge"@,
                    repo,
                    |r: RepoModel| r.merge(change.number as nat),
                );
                (m, ReplyView::Text(r))
            },
            ForgeCall::ChangeState { repo, change } => {
                let (m, r) = self.served(
                    "change_state"@,
                    repo,
                    |r: RepoModel| (r, r.change_state(change.number as nat)),
                );
                (m, ReplyView::State(r))
            },
            ForgeCall::ListTriggers { repo } => {
                let (m, r) = self.served(
                    "list_triggers"@,
                    repo,
                    |r: RepoModel| (r, Ok(r.triggers)),
                );
                (m, ReplyView::Triggers(r))
            },
            ForgeCall::EnsureTrigger { repo, url, events, secret } => {
                let (m, r) = self.served(
                    "ensure_trigger"@,
                    repo,
                    |r: RepoModel| r.ensure_trigger(url, events),
                );
                (m, ReplyView::Ensured(r))
            },
            // Core plus triggers.
            ForgeCall::Capabilities => {
                let (m, r) = self.enter("capabilities"@);
                (
                    m,
                    ReplyView::Capabilities(
                        match r {
                            Ok(()) => Ok(ForgeCapabilities::triggers_only()),
                            Err(e) => Err(e),
                        },
                    ),
                )
            },
            ForgeCall::SetCheck { .. } => {
                let (m, e) = self.refuses("set_check"@);
                (m, ReplyView::Text(Err(e)))
            },
            ForgeCall::Comment { .. } => {
                let (m, e) = self.refuses("comment"@);
                (m, ReplyView::Text(Err(e)))
            },
            ForgeCall::SetDeployment { .. } => {
                let (m, e) = self.refuses("set_deployment"@);
                (m, ReplyView::Text(Err(e)))
            },
            ForgeCall::ListRepos { .. } => {
                let (m, e) = self.refuses("list_repos"@);
                (m, ReplyView::Repos(Err(e)))
            },
            ForgeCall::ListIssues { .. } => {
                let (m, e) = self.refuses("list_issues"@);
                (m, ReplyView::Issues(Err(e)))
            },
            ForgeCall::ListPullRequests { .. } => {
                let (m, e) = self.refuses("list_pull_requests"@);
                (m, ReplyView::PullRequests(Err(e)))
            },
        }
    }
}

// ── the double ──────────────────────────────────────────────────────────────

/// One change (PR/MR) in a [`FakeRepo`].
struct FakeChange {
    number: u64,
    head: String,
    base: String,
    state: ChangeState,
    /// Armed by `enable_auto_merge`; `merge` clears it.
    auto_merge: bool,
    ci: CiStatus,
    merge_sha: String,
}

impl View for FakeChange {
    type V = ChangeModel;

    closed spec fn view(&self) -> ChangeModel {
        ChangeModel {
            number: self.number as nat,
            head: self.head@,
            base: self.base@,
            state: self.state,
            auto_merge: self.auto_merge,
            ci: self.ci,
            merge_sha: self.merge_sha@,
        }
    }
}

/// A file's place: branch and path.
struct FileKey {
    branch: String,
    path: String,
}

impl View for FileKey {
    type V = (Seq<char>, Seq<char>);

    closed spec fn view(&self) -> (Seq<char>, Seq<char>) {
        (self.branch@, self.path@)
    }
}

impl Key for FileKey {
    fn same_key(&self, other: &Self) -> (r: bool) {
        self.branch == other.branch && self.path == other.path
    }
}

/// A file's content and id.
struct FakeFile {
    content: String,
    blob_sha: String,
}

/// One repository's in-memory state.
struct FakeRepo {
    default_branch: String,
    branches: Table<String, String>,
    files: Table<FileKey, FakeFile>,
    changes: Vec<FakeChange>,
    triggers: Vec<Trigger>,
    /// Monotonic counter for change numbers and synthetic shas.
    seq: u64,
}

spec fn change_models(changes: Seq<FakeChange>) -> Seq<ChangeModel> {
    changes.map_values(|c: FakeChange| c@)
}

impl View for FakeRepo {
    type V = RepoModel;

    closed spec fn view(&self) -> RepoModel {
        RepoModel {
            default_branch: self.default_branch@,
            branches: self.branches@.map_values(|s: String| s@),
            files: self.files@.map_values(|f: FakeFile| (f.content@, f.blob_sha@)),
            changes: change_models(self.changes@),
            triggers: trigger_views(self.triggers@),
            seq: self.seq as nat,
        }
    }
}

impl FakeRepo {
    fn fresh() -> (r: Self)
        ensures
            r@ == RepoModel::fresh(),
    {
        let r = FakeRepo {
            default_branch: String::new(),
            branches: Table::new(),
            files: Table::new(),
            changes: Vec::new(),
            triggers: Vec::new(),
            seq: 0,
        };
        assert(r@ =~= RepoModel::fresh());
        r
    }

    /// The head of branch `name` becomes `sha`.
    fn set_branch(&mut self, name: &str, sha: String)
        ensures
            final(self)@ == (RepoModel {
                branches: old(self)@.branches.insert(name@, sha@),
                ..old(self)@
            }),
            old(self)@.kept() ==> final(self)@.kept(),
    {
        self.branches.insert(name.to_owned(), sha);
        assert(self@ =~= RepoModel {
            branches: old(self)@.branches.insert(name@, sha@),
            ..old(self)@
        });
    }

    fn read_file(&self, path: &str, at: &str) -> (r: Option<FileBlob>)
        ensures
            match r {
                Some(f) => self@.read_file(path@, at@) == Some(f@),
                None => self@.read_file(path@, at@) is None,
            },
    {
        let branch = if at.is_empty() {
            self.default_branch.clone()
        } else {
            at.to_owned()
        };
        match self.files.get(&FileKey { branch, path: path.to_owned() }) {
            Some(f) => Some(
                FileBlob {
                    path: path.to_owned(),
                    content: f.content.clone(),
                    blob_sha: f.blob_sha.clone(),
                },
            ),
            None => None,
        }
    }

    fn create_branch(&mut self, name: &str, from_ref: &str) -> (r: BranchOutcome)
        ensures
            (final(self)@, Ok::<BranchOutcome, Seq<char>>(r)) == old(self)@.create_branch(
                name@,
                from_ref@,
            ),
            old(self)@.kept() ==> final(self)@.kept(),
    {
        // Idempotent: an existing branch is not an error.
        if self.branches.contains_key(&name.to_owned()) {
            return BranchOutcome { created: false, already_existed: true };
        }
        let from = if from_ref.is_empty() {
            self.default_branch.clone()
        } else {
            from_ref.to_owned()
        };
        // `from_ref` may be a branch name or a raw sha; resolve the former.
        let sha = match self.branches.get(&from) {
            Some(sha) => sha.clone(),
            None => from,
        };
        self.set_branch(name, sha);
        BranchOutcome { created: true, already_existed: false }
    }

    fn commit_file(&mut self, branch: &str, path: &str, content: &str) -> (r: ForgeResult<String>)
        requires
            old(self)@.seq < u64::MAX,
        ensures
            (final(self)@, ForgeReply::Text(r)@) == ({
                let (m, v) = old(self)@.commit_file(branch@, path@, content@);
                (m, ReplyView::Text(v))
            }),
            old(self)@.kept() ==> final(self)@.kept(),
    {
        let head = match self.branches.get(&branch.to_owned()) {
            None => {
                return Err(
                    ForgeError::from_text("no such branch: ".to_owned().concat(branch)),
                );
            },
            Some(head) => head.clone(),
        };
        let key = FileKey { branch: branch.to_owned(), path: path.to_owned() };
        // Byte-identical content is a no-op success, not an error: a re-running
        // cascade must be idempotent.
        if let Some(f) = self.files.get(&key) {
            if same(f.content.as_str(), content) {
                return Ok(head);
            }
        }
        self.seq = self.seq + 1;
        let sha = "commit".to_owned().concat(padded_text(self.seq, 10).as_str());
        let blob_sha = "blob".to_owned().concat(padded_text(self.seq, 12).as_str());
        self.files.insert(key, FakeFile { content: content.to_owned(), blob_sha });
        let ghost stored = RepoModel {
            files: old(self)@.files.insert(
                (branch@, path@),
                (content@, "blob"@ + padded(old(self)@.seq + 1, 12)),
            ),
            seq: old(self)@.seq + 1,
            ..old(self)@
        };
        assert(self@ =~= stored);
        self.set_branch(branch, sha.clone());
        Ok(sha)
    }

    /// The change from an open `head`.
    fn find_open(&self, head: &str) -> (r: Option<usize>)
        ensures
            match r {
                Some(i) => self@.open_from(head@) == Some(i as int) && i < self.changes@.len(),
                None => self@.open_from(head@) is None,
            },
    {
        let ghost p = |c: ChangeModel| c.head == head@ && c.state == ChangeState::Open;
        let mut i: usize = 0;
        while i < self.changes.len()
            invariant
                i <= self.changes@.len(),
                p == |c: ChangeModel| c.head == head@ && c.state == ChangeState::Open,
                forall|j: int| 0 <= j < i ==> !p(#[trigger] self@.changes[j]),
            decreases self.changes.len() - i,
        {
            assert(self@.changes[i as int] == self.changes@[i as int]@);
            if same(self.changes[i].head.as_str(), head) && self.changes[i].state
                == ChangeState::Open {
                proof {
                    first_index_at(self@.changes, p, i as int);
                }
                return Some(i);
            }
            i = i + 1;
        }
        proof {
            first_index_none(self@.changes, p);
        }
        None
    }

    /// The change with this number.
    fn find_number(&self, number: u64) -> (r: ForgeResult<usize>)
        ensures
            match r {
                Ok(i) => self@.numbered(number as nat) == Some(i as int) && i
                    < self.changes@.len(),
                Err(e) => self@.numbered(number as nat) is None && e@ == no_such_change(
                    number as nat,
                ),
            },
    {
        let ghost p = |c: ChangeModel| c.number == number as nat;
        let mut i: usize = 0;
        while i < self.changes.len()
            invariant
                i <= self.changes@.len(),
                p == |c: ChangeModel| c.number == number as nat,
                forall|j: int| 0 <= j < i ==> !p(#[trigger] self@.changes[j]),
            decreases self.changes.len() - i,
        {
            assert(self@.changes[i as int] == self.changes@[i as int]@);
            if self.changes[i].number == number {
                proof {
                    first_index_at(self@.changes, p, i as int);
                }
                return Ok(i);
            }
            i = i + 1;
        }
        proof {
            first_index_none(self@.changes, p);
        }
        Err(ForgeError::from_text("no such change: ".to_owned().concat(u64_text(number).as_str())))
    }

    fn open_change(&mut self, slug: &str, head: &str, base: &str) -> (r: OpenedChange)
        requires
            old(self)@.seq < u64::MAX,
        ensures
            (final(self)@, Ok::<OpenedChangeView, Seq<char>>(r@)) == old(self)@.open_change(
                slug@,
                head@,
                base@,
            ),
            old(self)@.kept() ==> final(self)@.kept(),
    {
        // Idempotent: adopt an existing open change for the same head. A merged or
        // closed one does not block opening a new change.
        if let Some(i) = self.find_open(head) {
            let number = self.changes[i].number;
            return OpenedChange { change: change_ref(slug, number, head), already_existed: true };
        }
        self.seq = self.seq + 1;
        let number: u64 = self.seq;
        self.changes.push(
            FakeChange {
                number,
                head: head.to_owned(),
                base: base.to_owned(),
                state: ChangeState::Open,
                auto_merge: false,
                ci: CiStatus::Absent,
                merge_sha: String::new(),
            },
        );
        assert(self@ =~= old(self)@.open_change(slug@, head@, base@).0);
        OpenedChange { change: change_ref(slug, number, head), already_existed: false }
    }

    fn enable_auto_merge(&mut self, number: u64) -> (r: ForgeResult<bool>)
        ensures
            (final(self)@, ForgeReply::Flag(r)@) == ({
                let (m, v) = old(self)@.enable_auto_merge(number as nat);
                (m, ReplyView::Flag(v))
            }),
            old(self)@.kept() ==> final(self)@.kept(),
    {
        match self.find_number(number) {
            Err(e) => Err(e),
            Ok(i) => {
                self.changes[i].auto_merge = true;
                assert(self@ =~= old(self)@.enable_auto_merge(number as nat).0);
                Ok(true)
            },
        }
    }

    fn pipeline_status(&self, slug: &str, number: u64) -> (r: ForgeResult<PipelineStatus>)
        ensures
            ForgeReply::Pipeline(r)@ == ReplyView::Pipeline(
                self@.pipeline_status(slug@, number as nat),
            ),
    {
        match self.find_number(number) {
            Err(e) => Err(e),
            Ok(i) => {
                let c = &self.changes[i];
                Ok(
                    PipelineStatus {
                        status: c.ci,
                        pipeline_id: "pipe-".to_owned().concat(u64_text(c.number).as_str()),
                        url: "https://fake/".to_owned().concat(slug).concat(
                            "/pipelines/",
                        ).concat(u64_text(c.number).as_str()),
                    },
                )
            },
        }
    }

    fn merge(&mut self, number: u64) -> (r: ForgeResult<String>)
        requires
            old(self)@.seq < u64::MAX,
        ensures
            (final(self)@, ForgeReply::Text(r)@) == ({
                let (m, v) = old(self)@.merge(number as nat);
                (m, ReplyView::Text(v))
            }),
            old(self)@.kept() ==> final(self)@.kept(),
    {
        self.seq = self.seq + 1;
        let sha = "merge".to_owned().concat(padded_text(self.seq, 11).as_str());
        let ghost counted = RepoModel { seq: old(self)@.seq + 1, ..old(self)@ };
        assert(self@ =~= counted);
        match self.find_number(number) {
            Err(e) => Err(e),
            Ok(i) => {
                let state = self.changes[i].state;
                if state != ChangeState::Open {
                    return Err(
                        ForgeError::from_text(
                            "change ".to_owned().concat(u64_text(number).as_str()).concat(
                                " is not open (state ",
                            ).concat(state.name()).concat(")"),
                        ),
                    );
                }
                let ghost change = self.changes@[i as int]@;
                self.changes[i].state = ChangeState::Merged;
                self.changes[i].auto_merge = false;
                self.changes[i].merge_sha = sha.clone();
                assert(self@ =~= counted.with_change(
                    i as int,
                    ChangeModel {
                        state: ChangeState::Merged,
                        auto_merge: false,
                        merge_sha: sha@,
                        ..change
                    },
                ));
                let base = self.changes[i].base.clone();
                self.set_branch(base.as_str(), sha.clone());
                Ok(sha)
            },
        }
    }

    fn change_state(&self, number: u64) -> (r: ForgeResult<ChangeState>)
        ensures
            ForgeReply::State(r)@ == ReplyView::State(self@.change_state(number as nat)),
    {
        match self.find_number(number) {
            Err(e) => Err(e),
            Ok(i) => Ok(self.changes[i].state),
        }
    }

    fn list_triggers(&self) -> (r: Vec<Trigger>)
        ensures
            trigger_views(r@) == self@.triggers,
    {
        let mut r: Vec<Trigger> = Vec::new();
        let mut i: usize = 0;
        while i < self.triggers.len()
            invariant
                i <= self.triggers@.len(),
                r@.len() == i,
                forall|j: int| 0 <= j < i ==> (#[trigger] r@[j])@ == self.triggers@[j]@,
            decreases self.triggers.len() - i,
        {
            r.push(self.triggers[i].clone());
            i = i + 1;
        }
        assert(trigger_views(r@) =~= trigger_views(self.triggers@));
        r
    }

    fn ensure_trigger(&mut self, url: &str, events: &[String]) -> (r: EnsuredTrigger)
        requires
            old(self)@.seq < u64::MAX,
        ensures
            (final(self)@, Ok::<EnsuredTriggerView, Seq<char>>(r@))
                == old(self)@.ensure_trigger(url@, texts(events@)),
            old(self)@.kept() ==> final(self)@.kept(),
    {
        // Idempotent by url: that is the identity a real adapter matches on.
        if let Some(i) = find_at(&self.triggers, url) {
            return EnsuredTrigger { trigger: self.triggers[i].clone(), created: false };
        }
        self.seq = self.seq + 1;
        let trigger = Trigger {
            id: "hook-".to_owned().concat(u64_text(self.seq).as_str()),
            url: url.to_owned(),
            events: if events.len() == 0 {
                default_trigger_events()
            } else {
                copy_texts(events)
            },
            active: true,
            target: String::new(),
        };
        self.triggers.push(trigger.clone());
        assert(self@ =~= old(self)@.ensure_trigger(url@, texts(events@)).0);
        EnsuredTrigger { trigger, created: true }
    }

    fn set_ci(&mut self, number: u64, status: CiStatus)
        ensures
            final(self)@ == old(self)@.set_ci(number as nat, status),
            old(self)@.kept() ==> final(self)@.kept(),
    {
        match self.find_number(number) {
            Err(_) => {},
            Ok(i) => {
                self.changes[i].ci = status;
                assert(self@ =~= old(self)@.set_ci(number as nat, status));
            },
        }
    }

    fn auto_merge_armed(&self, number: u64) -> (r: bool)
        ensures
            r == match self@.numbered(number as nat) {
                Some(i) => self@.changes[i].auto_merge,
                None => false,
            },
    {
        match self.find_number(number) {
            Err(_) => false,
            Ok(i) => self.changes[i].auto_merge,
        }
    }
}

fn change_ref(slug: &str, number: u64, head: &str) -> (r: ChangeRef)
    ensures
        r@ == change_view(slug@, number as nat, head@),
{
    ChangeRef {
        number,
        url: "https://fake/".to_owned().concat(slug).concat("/changes/").concat(
            u64_text(number).as_str(),
        ),
        branch: head.to_owned(),
        id: String::new(),
    }
}

/// An in-memory [`Forge`] with real idempotency semantics.
pub struct FakeForge {
    kind: ForgeKind,
    repos: Table<String, FakeRepo>,
    calls: Vec<String>,
    /// One-shot error injection: the next call to the named method fails. Cleared once
    /// fired, so a test can assert recovery on the retry.
    fail_next: Option<(String, String)>,
}

impl View for FakeForge {
    type V = ForgeModel;

    closed spec fn view(&self) -> ForgeModel {
        ForgeModel {
            kind: self.kind,
            repos: self.repos@.map_values(|r: FakeRepo| r@),
            calls: texts(self.calls@),
            pending: match self.fail_next {
                Some((m, msg)) => Some((m@, msg@)),
                None => None,
            },
        }
    }
}

impl ForgeModel {
    /// No repository has counted further than there were calls, so the counter of a
    /// repository cannot run out before the list of calls does; and every repository keeps
    /// its changes and files in order.
    pub open spec fn wf(self) -> bool {
        forall|slug: Seq<char>| #[trigger]
            self.repos.contains_key(slug) ==> self.repos[slug].seq <= self.calls.len()
                && self.repos[slug].kept()
    }
}

impl FakeForge {
    pub fn new(kind: ForgeKind) -> (r: Self)
        ensures
            r.wf(),
            r@ == (ForgeModel {
                kind,
                repos: Map::empty(),
                calls: Seq::empty(),
                pending: None,
            }),
    {
        let r = FakeForge { kind, repos: Table::new(), calls: Vec::new(), fail_next: None };
        assert(r@ =~= ForgeModel {
            kind,
            repos: Map::empty(),
            calls: Seq::empty(),
            pending: None,
        });
        r
    }

    /// Create `slug` with `default_branch` already pointing at a seed commit.
    ///
    /// Most contract methods are meaningless on a repository with no commits:
    /// `create_branch` has nothing to branch from and `read_file` has no tree to read.
    pub fn seed_repo(&mut self, slug: &str, default_branch: &str)
        requires
            old(self).wf(),
        ensures
            final(self).wf(),
            final(self)@ == old(self)@.seeded_with(slug@, default_branch@),
    {
        let key = slug.to_owned();
        if !self.repos.contains_key(&key) {
            self.repos.insert(key.clone(), FakeRepo::fresh());
        }
        if let Some(i) = self.repos.position(&key) {
            let ghost was = self.repos@[slug@]@;
            let repo = self.repos.value_mut(i);
            repo.default_branch = default_branch.to_owned();
            repo.set_branch(default_branch, "seed000000000000".to_owned());
            assert(repo@ =~= RepoModel {
                default_branch: default_branch@,
                branches: was.branches.insert(default_branch@, "seed000000000000"@),
                ..was
            });
            assert(self@.repos =~= old(self)@.repos.insert(slug@, self.repos@[slug@]@));
        }
    }

    /// Every contract method called so far, in order. Lets a test assert that a code
    /// path took the cheap route (e.g. adopted an existing change rather than opening a
    /// second one).
    #[must_use]
    pub fn calls(&self) -> (r: Vec<String>)
        ensures
            texts(r@) == self@.calls,
    {
        copy_texts(self.calls.as_slice())
    }

    /// Fail the next call to `method` with `msg`, once.
    pub fn fail_next(&mut self, method: &str, msg: &str)
        requires
            old(self).wf(),
        ensures
            final(self).wf(),
            final(self)@ == (ForgeModel { pending: Some((method@, msg@)), ..old(self)@ }),
    {
        self.fail_next = Some((method.to_owned(), msg.to_owned()));
    }

    /// Record the call and fire a pending one-shot failure if it matches.
    fn enter(&mut self, method: &str) -> (r: ForgeResult<()>)
        requires
            old(self).wf(),
        ensures
            final(self).wf(),
            final(self)@ == old(self)@.enter(method@).0,
            match r {
                Ok(()) => {
                    &&& old(self)@.enter(method@).1 is Ok
                    &&& final(self)@.room()
                },
                Err(e) => old(self)@.enter(method@).1 == Err::<(), Seq<char>>(e@),
            },
    {
        self.calls.push(method.to_owned());
        assert(texts(self.calls@) =~= old(self)@.calls.push(method@));
        assert(self@.calls.len() <= u64::MAX) by {
            assert(self.calls@.len() == self.calls.len());
        }
        let fires = match &self.fail_next {
            Some((m, _)) => same(m.as_str(), method),
            None => false,
        };
        if fires {
            let pending = self.fail_next.take();
            if let Some((_, msg)) = pending {
                return Err(ForgeError::from_text(msg));
            }
        }
        Ok(())
    }

    /// Record the call of a surface that the double does not have.
    fn refuse(&mut self, method: &str) -> (r: ForgeError)
        requires
            old(self).wf(),
        ensures
            final(self).wf(),
            (final(self)@, r@) == old(self)@.refuses(method@),
    {
        match self.enter(method) {
            Err(e) => e,
            Ok(()) => not_supported_error(method),
        }
    }

    /// The index of the repository, or the error that there is none.
    fn locate(&self, repo: &RepoRef) -> (r: ForgeResult<usize>)
        ensures
            match r {
                Ok(i) => {
                    &&& i < self.repos.pairs().len()
                    &&& self.repos.pairs()[i as int].0@ == slug(repo@)
                    &&& forall|j: int|
                        0 <= j < i ==> (#[trigger] self.repos.pairs()[j]).0@ != slug(repo@)
                    &&& self@.repos.contains_key(slug(repo@))
                    &&& self@.repos[slug(repo@)] == self.repos.pairs()[i as int].1@
                },
                Err(e) => {
                    &&& !self@.repos.contains_key(slug(repo@))
                    &&& e@ == "no such repo: "@ + slug(repo@)
                },
            },
    {
        let key = repo_slug(repo);
        match self.repos.position(&key) {
            Some(i) => Ok(i),
            None => Err(
                ForgeError::from_text("no such repo: ".to_owned().concat(key.as_str())),
            ),
        }
    }

    /// Set a change's pipeline status: lets a test drive the poll-then-merge path
    /// without a real CI system.
    pub fn set_ci(&mut self, repo: &RepoRef, number: u64, status: CiStatus)
        requires
            old(self).wf(),
        ensures
            final(self).wf(),
            final(self)@ == old(self)@.with_ci(slug(repo@), number as nat, status),
    {
        if let Ok(i) = self.locate(repo) {
            self.repos.value_mut(i).set_ci(number, status);
            assert(self@.repos =~= old(self)@.repos.insert(
                slug(repo@),
                self.repos@[slug(repo@)]@,
            ));
        }
    }

    /// Whether auto-merge is currently armed on a change.
    #[must_use]
    pub fn auto_merge_armed(&self, repo: &RepoRef, number: u64) -> (r: bool)
        ensures
            r == self@.armed(slug(repo@), number as nat),
    {
        match self.locate(repo) {
            Ok(i) => self.repos.value_at(i).auto_merge_armed(number),
            Err(_) => false,
        }
    }
}

impl ForgeModel {
    /// Every counter can still go up.
    pub open spec fn room(self) -> bool {
        forall|slug: Seq<char>| #[trigger]
            self.repos.contains_key(slug) ==> self.repos[slug].seq < self.calls.len() <= u64::MAX
    }
}

impl Forge for FakeForge {
    closed spec fn wf(&self) -> bool {
        self@.wf()
    }

    open spec fn answers(pre: Self, call: ForgeCall, reply: ForgeReply, post: Self) -> bool {
        (post@, reply@) == pre@.step(call)
    }

    closed spec fn target(&self) -> ForgeKind {
        self.kind
    }

    fn kind(&self) -> ForgeKind {
        self.kind
    }

    fn default_branch(&mut self, repo: &RepoRef) -> (r: ForgeResult<String>) {
        match self.enter("default_branch") {
            Err(e) => {
                return Err(e);
            },
            Ok(()) => {},
        }
        let ghost entered = self@;
        match self.locate(repo) {
            Err(e) => Err(e),
            Ok(i) => {
                let r = Ok(self.repos.value_at(i).default_branch.clone());
                assert(self@.repos =~= entered.repos.insert(
                    slug(repo@),
                    self.repos@[slug(repo@)]@,
                ));
                r
            },
        }
    }

    fn read_file(
        &mut self,
        repo: &RepoRef,
        path: &str,
        at: &str,
    ) -> (r: ForgeResult<Option<FileBlob>>) {
        match self.enter("read_file") {
            Err(e) => {
                return Err(e);
            },
            Ok(()) => {},
        }
        let ghost entered = self@;
        match self.locate(repo) {
            Err(e) => Err(e),
            Ok(i) => {
                let r = Ok(self.repos.value_at(i).read_file(path, at));
                assert(self@.repos =~= entered.repos.insert(
                    slug(repo@),
                    self.repos@[slug(repo@)]@,
                ));
                r
            },
        }
    }

    fn create_branch(
        &mut self,
        repo: &RepoRef,
        name: &str,
        from_ref: &str,
    ) -> (r: ForgeResult<BranchOutcome>) {
        match self.enter("create_branch") {
            Err(e) => {
                return Err(e);
            },
            Ok(()) => {},
        }
        let ghost entered = self@;
        match self.locate(repo) {
            Err(e) => Err(e),
            Ok(i) => {
                let r = Ok(self.repos.value_mut(i).create_branch(name, from_ref));
                assert(self@.repos =~= entered.repos.insert(
                    slug(repo@),
                    self.repos@[slug(repo@)]@,
                ));
                r
            },
        }
    }

    fn commit_file(
        &mut self,
        repo: &RepoRef,
        branch: &str,
        path: &str,
        content: &str,
        _blob_sha: &str,
        _message: &str,
    ) -> (r: ForgeResult<String>) {
        match self.enter("commit_file") {
            Err(e) => {
                return Err(e);
            },
            Ok(()) => {},
        }
        let ghost entered = self@;
        match self.locate(repo) {
            Err(e) => Err(e),
            Ok(i) => {
                let r = self.repos.value_mut(i).commit_file(branch, path, content);
                assert(self@.repos =~= entered.repos.insert(
                    slug(repo@),
                    self.repos@[slug(repo@)]@,
                ));
                r
            },
        }
    }

    fn open_change(
        &mut self,
        repo: &RepoRef,
        head: &str,
        base: &str,
        _title: &str,
        _body: &str,
        _remove_source_branch: bool,
    ) -> (r: ForgeResult<OpenedChange>) {
        match self.enter("open_change") {
            Err(e) => {
                return Err(e);
            },
            Ok(()) => {},
        }
        let key = repo_slug(repo);
        let ghost entered = self@;
        match self.locate(repo) {
            Err(e) => Err(e),
            Ok(i) => {
                let r = Ok(self.repos.value_mut(i).open_change(key.as_str(), head, base));
                assert(self@.repos =~= entered.repos.insert(
                    slug(repo@),
                    self.repos@[slug(repo@)]@,
                ));
                r
            },
        }
    }

    fn enable_auto_merge(&mut self, repo: &RepoRef, change: &ChangeRef) -> (r: ForgeResult<bool>) {
        match self.enter("enable_auto_merge") {
            Err(e) => {
                return Err(e);
            },
            Ok(()) => {},
        }
        let ghost entered = self@;
        match self.locate(repo) {
            Err(e) => Err(e),
            Ok(i) => {
                let r = self.repos.value_mut(i).enable_auto_merge(change.number);
                assert(self@.repos =~= entered.repos.insert(
                    slug(repo@),
                    self.repos@[slug(repo@)]@,
                ));
                r
            },
        }
    }

    fn pipeline_status(
        &mut self,
        repo: &RepoRef,
        change: &ChangeRef,
    ) -> (r: ForgeResult<PipelineStatus>) {
        match self.enter("pipeline_status") {
            Err(e) => {
                return Err(e);
            },
            Ok(()) => {},
        }
        let ghost entered = self@;
        match self.locate(repo) {
            Err(e) => Err(e),
            Ok(i) => {
                let r = self.repos.value_at(i).pipeline_status(
                    repo_slug(repo).as_str(),
                    change.number,
                );
                assert(self@.repos =~= entered.repos.insert(
                    slug(repo@),
                    self.repos@[slug(repo@)]@,
                ));
                r
            },
        }
    }

    fn merge(&mut self, repo: &RepoRef, change: &ChangeRef) -> (r: ForgeResult<String>) {
        match self.enter("merge") {
            Err(e) => {
                return Err(e);
            },
            Ok(()) => {},
        }
        let ghost entered = self@;
        match self.locate(repo) {
            Err(e) => Err(e),
            Ok(i) => {
                let r = self.repos.value_mut(i).merge(change.number);
                assert(self@.repos =~= entered.repos.insert(
                    slug(repo@),
                    self.repos@[slug(repo@)]@,
                ));
                r
            },
        }
    }

    fn change_state(
        &mut self,
        repo: &RepoRef,
        change: &ChangeRef,
    ) -> (r: ForgeResult<ChangeState>) {
        match self.enter("change_state") {
            Err(e) => {
                return Err(e);
            },
            Ok(()) => {},
        }
        let ghost entered = self@;
        match self.locate(repo) {
            Err(e) => Err(e),
            Ok(i) => {
                let r = self.repos.value_at(i).change_state(change.number);
                assert(self@.repos =~= entered.repos.insert(
                    slug(repo@),
                    self.repos@[slug(repo@)]@,
                ));
                r
            },
        }
    }

    fn list_triggers(&mut self, repo: &RepoRef) -> (r: ForgeResult<Vec<Trigger>>) {
        match self.enter("list_triggers") {
            Err(e) => {
                return Err(e);
            },
            Ok(()) => {},
        }
        let ghost entered = self@;
        match self.locate(repo) {
            Err(e) => Err(e),
            Ok(i) => {
                let r = Ok(self.repos.value_at(i).list_triggers());
                assert(self@.repos =~= entered.repos.insert(
                    slug(repo@),
                    self.repos@[slug(repo@)]@,
                ));
                r
            },
        }
    }

    fn ensure_trigger(
        &mut self,
        repo: &RepoRef,
        url: &str,
        events: &[String],
        _secret: &str,
    ) -> (r: ForgeResult<EnsuredTrigger>) {
        match self.enter("ensure_trigger") {
            Err(e) => {
                return Err(e);
            },
            Ok(()) => {},
        }
        let ghost entered = self@;
        match self.locate(repo) {
            Err(e) => Err(e),
            Ok(i) => {
                let r = Ok(self.repos.value_mut(i).ensure_trigger(url, events));
                assert(self@.repos =~= entered.repos.insert(
                    slug(repo@),
                    self.repos@[slug(repo@)]@,
                ));
                r
            },
        }
    }

    fn set_check(
        &mut self,
        _repo: &RepoRef,
        _head_sha: &str,
        _name: &str,
        _status: &str,
        _conclusion: &str,
        _details_url: &str,
    ) -> (r: ForgeResult<String>) {
        Err(self.refuse("set_check"))
    }

    fn comment(&mut self, _repo: &RepoRef, _number: u64, _body: &str) -> (r: ForgeResult<String>) {
        Err(self.refuse("comment"))
    }

    fn set_deployment(
        &mut self,
        _repo: &RepoRef,
        _head_sha: &str,
        _git_ref: &str,
        _environment: &str,
        _state: &str,
        _url: &str,
        _log_url: &str,
        _description: &str,
    ) -> (r: ForgeResult<String>) {
        Err(self.refuse("set_deployment"))
    }

    fn list_repos(
        &mut self,
        _owners: &[String],
        _labels: &[String],
    ) -> (r: ForgeResult<Vec<Repository>>) {
        Err(self.refuse("list_repos"))
    }

    fn list_issues(
        &mut self,
        _owners: &[String],
        _labels: &[String],
        _for_users: &[String],
    ) -> (r: ForgeResult<Vec<Issue>>) {
        Err(self.refuse("list_issues"))
    }

    fn list_pull_requests(
        &mut self,
        _owners: &[String],
        _labels: &[String],
        _for_users: &[String],
    ) -> (r: ForgeResult<Vec<PullRequest>>) {
        Err(self.refuse("list_pull_requests"))
    }

    /// Exactly what the double implements: core plus triggers. A declaration of
    /// nothing would make "every declared surface is served" hold without saying
    /// anything.
    fn capabilities(&mut self) -> (r: ForgeResult<ForgeCapabilities>) {
        match self.enter("capabilities") {
            Err(e) => Err(e),
            Ok(()) => Ok(ForgeCapabilities::with_triggers()),
        }
    }
}

// ── the double as a fixture ─────────────────────────────────────────────────

/// The double with a repository on it, for the conformance suite.
pub struct FakeFixture {
    pub forge: FakeForge,
    pub repo: RepoRef,
}

impl FakeFixture {
    /// A double whose repository starts at a seed commit on `main`.
    pub fn new(kind: ForgeKind, repo: RepoRef) -> (r: Self)
        ensures
            r.forge.wf(),
            r.repo == repo,
            seeded(r.forge@, repo),
            r.forge@.kind == kind,
    {
        let mut forge = FakeForge::new(kind);
        forge.seed_repo(repo_slug(&repo).as_str(), "main");
        assert(forge@.repos[slug(repo@)] =~= RepoModel {
            default_branch: "main"@,
            branches: Map::empty().insert("main"@, "seed000000000000"@),
            ..RepoModel::fresh()
        });
        FakeFixture { forge, repo }
    }
}

/// The repository is there, with a seed commit on `main` and nothing else, and no
/// failure is waiting.
pub open spec fn seeded(m: ForgeModel, repo: RepoRef) -> bool {
    &&& m.pending is None
    &&& m.repos.contains_key(slug(repo@))
    &&& m.repos[slug(repo@)] == (RepoModel {
        default_branch: "main"@,
        branches: Map::empty().insert("main"@, "seed000000000000"@),
        ..RepoModel::fresh()
    })
}

impl Fixture for FakeFixture {
    type Adapter = FakeForge;

    open spec fn adapter(&self) -> FakeForge {
        self.forge
    }

    open spec fn subject(&self) -> RepoRef {
        self.repo
    }

    open spec fn injects(
        pre: Self,
        method: Seq<char>,
        msg: Seq<char>,
        done: bool,
        post: Self,
    ) -> bool {
        &&& done
        &&& post.repo == pre.repo
        &&& post.forge@ == (ForgeModel { pending: Some((method, msg)), ..pre.forge@ })
    }

    fn forge(&mut self) -> (r: &mut FakeForge) {
        &mut self.forge
    }

    fn repo(&self) -> RepoRef {
        self.repo.clone()
    }

    /// The failure is always injected: the double's next call to `method` fails with `msg`.
    fn inject_failure(&mut self, method: &str, msg: &str) -> (r: bool)
        ensures
            r,
            final(self).repo == old(self).repo,
            final(self).forge@ == (ForgeModel {
                pending: Some((method@, msg@)),
                ..old(self).forge@
            }),
    {
        self.forge.fail_next(method, msg);
        true
    }
}

// ── what the double keeps ───────────────────────────────────────────────────

/// A branch created twice is created once: the second call reports that it existed, and
/// changes nothing.
pub proof fn create_branch_twice(r: RepoModel, name: Seq<char>, from_ref: Seq<char>)
    ensures
        ({
            let (once, first) = r.create_branch(name, from_ref);
            let (twice, second) = once.create_branch(name, from_ref);
            &&& first is Ok
            &&& first->Ok_0.created == !r.branches.contains_key(name)
            &&& first->Ok_0.already_existed == r.branches.contains_key(name)
            &&& second == Ok::<BranchOutcome, Seq<char>>(
                BranchOutcome { created: false, already_existed: true },
            )
            &&& twice == once
        }),
{
}

/// What was committed to a branch is read back from it, with an id; every other file
/// stays as it was.
pub proof fn commit_is_read_back(
    r: RepoModel,
    branch: Seq<char>,
    path: Seq<char>,
    content: Seq<char>,
)
    requires
        r.kept(),
        r.branches.contains_key(branch),
        branch.len() > 0,
    ensures
        ({
            let after = r.commit_file(branch, path, content).0;
            &&& r.commit_file(branch, path, content).1 is Ok
            &&& after.read_file(path, branch) is Some
            &&& after.read_file(path, branch)->0.path == path
            &&& after.read_file(path, branch)->0.content == content
            &&& after.read_file(path, branch)->0.blob_sha.len() > 0
            &&& forall|p: Seq<char>, b: Seq<char>|
                b.len() > 0 && (p != path || b != branch) ==> #[trigger] after.read_file(p, b)
                    == r.read_file(p, b)
        }),
{
    let after = r.commit_file(branch, path, content).0;
    assert forall|p: Seq<char>, b: Seq<char>|
        b.len() > 0 && (p != path || b != branch) implies #[trigger] after.read_file(p, b)
        == r.read_file(p, b) by {
        assert((b, p).0 != branch || (b, p).1 != path);
    }
}

/// Without a branch the default branch is read, and a path that was never committed to a
/// branch is absent from it.
pub proof fn reading_defaults(r: RepoModel, path: Seq<char>, branch: Seq<char>)
    ensures
        r.read_file(path, Seq::empty()) == r.read_file(path, r.default_branch),
        branch.len() > 0 && !r.files.contains_key((branch, path)) ==> r.read_file(path, branch)
            is None,
{
}

/// Committing the same content again is a success that changes nothing.
pub proof fn commit_twice(r: RepoModel, branch: Seq<char>, path: Seq<char>, content: Seq<char>)
    requires
        r.branches.contains_key(branch),
    ensures
        ({
            let (once, first) = r.commit_file(branch, path, content);
            let (twice, second) = once.commit_file(branch, path, content);
            &&& first is Ok
            &&& second == first
            &&& twice == once
        }),
{
}

/// An open change for the same head is adopted: the second call gives the same change,
/// says so, and changes nothing.
pub proof fn open_change_twice(r: RepoModel, slug: Seq<char>, head: Seq<char>, base: Seq<char>)
    ensures
        ({
            let (once, first) = r.open_change(slug, head, base);
            let (twice, second) = once.open_change(slug, head, base);
            &&& first is Ok
            &&& first->Ok_0.already_existed == (r.open_from(head) is Some)
            &&& second == Ok::<OpenedChangeView, Seq<char>>(
                OpenedChangeView { already_existed: true, ..first->Ok_0 },
            )
            &&& twice == once
        }),
{
    let p = |c: ChangeModel| c.head == head && c.state == ChangeState::Open;
    first_index_facts(r.changes, p);
    if r.open_from(head) is None {
        let once = r.open_change(slug, head, base).0;
        assert forall|j: int| 0 <= j < r.changes.len() implies !p(#[trigger] once.changes[j]) by {
            assert(once.changes[j] == r.changes[j]);
        }
        first_index_at(once.changes, p, r.changes.len() as int);
    }
}

/// Where no change is open from the head, a new one is opened: its number exceeds every
/// earlier one, it is open, not armed and without a pipeline, and the earlier changes stay
/// as they were.
pub proof fn new_change_is_numbered_anew(
    r: RepoModel,
    slug: Seq<char>,
    head: Seq<char>,
    base: Seq<char>,
)
    requires
        r.kept(),
        r.open_from(head) is None,
    ensures
        ({
            let (after, opened) = r.open_change(slug, head, base);
            let last = after.changes.last();
            &&& opened matches Ok(o)
            &&& !o.already_existed
            &&& o.change.branch == head
            &&& o.change.number == last.number
            &&& after.changes.drop_last() == r.changes
            &&& forall|i: int|
                0 <= i < r.changes.len() ==> (#[trigger] r.changes[i]).number < last.number
            &&& last.head == head
            &&& last.base == base
            &&& last.state == ChangeState::Open
            &&& !last.auto_merge
            &&& last.ci == CiStatus::Absent
            &&& after.kept()
        }),
{
    let after = r.open_change(slug, head, base).0;
    assert(after.changes.drop_last() =~= r.changes);
}

/// A merged change is merged, not closed: its branch's head is the merge commit, and a
/// second merge is refused.
pub proof fn merge_is_final(r: RepoModel, number: nat)
    requires
        r.change_state(number) == Ok::<ChangeState, Seq<char>>(ChangeState::Open),
    ensures
        ({
            let (after, sha) = r.merge(number);
            &&& sha is Ok
            &&& sha->Ok_0.len() > 0
            &&& after.change_state(number) == Ok::<ChangeState, Seq<char>>(ChangeState::Merged)
            &&& after.branches[r.changes[r.numbered(number)->0].base] == sha->Ok_0
            &&& after.merge(number).1 is Err
        }),
{
    reveal_strlit("merge");
    let p = |c: ChangeModel| c.number == number;
    first_index_facts(r.changes, p);
    let i = r.numbered(number)->0;
    let after = r.merge(number).0;
    assert forall|j: int| 0 <= j < i implies !p(#[trigger] after.changes[j]) by {
        assert(after.changes[j] == r.changes[j]);
    }
    first_index_at(after.changes, p, i);
    assert(after.numbered(number) == Some(i));
}

/// A trigger ensured twice is created once: the second call gives it back and adds
/// nothing.
pub proof fn ensure_trigger_twice(r: RepoModel, url: Seq<char>, events: Seq<Seq<char>>)
    ensures
        ({
            let (once, first) = r.ensure_trigger(url, events);
            let (twice, second) = once.ensure_trigger(url, events);
            &&& first is Ok
            &&& first->Ok_0.created == (r.trigger_at(url) is None)
            &&& first->Ok_0.trigger.url == url
            &&& second == Ok::<EnsuredTriggerView, Seq<char>>(
                EnsuredTriggerView { created: false, ..first->Ok_0 },
            )
            &&& twice == once
        }),
{
    let p = |t: TriggerView| t.url == url;
    first_index_facts(r.triggers, p);
    if r.trigger_at(url) is None {
        let once = r.ensure_trigger(url, events).0;
        assert forall|j: int| 0 <= j < r.triggers.len() implies !p(#[trigger] once.triggers[j]) by {
            assert(once.triggers[j] == r.triggers[j]);
        }
        first_index_at(once.triggers, p, r.triggers.len() as int);
    }
}

/// No two triggers of a repository deliver to one url, and ensuring one keeps it so.
pub proof fn one_trigger_for_a_url(r: RepoModel, url: Seq<char>, events: Seq<Seq<char>>)
    requires
        forall|i: int, j: int|
            0 <= i < j < r.triggers.len() ==> (#[trigger] r.triggers[i]).url != (
            #[trigger] r.triggers[j]).url,
    ensures
        ({
            let after = r.ensure_trigger(url, events).0;
            forall|i: int, j: int|
                0 <= i < j < after.triggers.len() ==> (#[trigger] after.triggers[i]).url != (
                #[trigger] after.triggers[j]).url
        }),
{
    first_index_facts(r.triggers, |t: TriggerView| t.url == url);
}

/// A failure that was injected fires on the next call of its method, once; the call
/// after it finds every repository as it was.
pub proof fn injected_failure_fires_once(m: ForgeModel, method: Seq<char>, msg: Seq<char>)
    requires
        m.pending == Some((method, msg)),
    ensures
        ({
            let (once, first) = m.enter(method);
            let (twice, second) = once.enter(method);
            &&& first == Err::<(), Seq<char>>(msg)
            &&& second is Ok
            &&& twice.repos == m.repos
            &&& twice.calls == m.calls.push(method).push(method)
        }),
{
}

/// The double passes `create_branch_is_idempotent`.
pub proof fn passes_create_branch_is_idempotent(f: FakeForge, repo: RepoRef, end: End<FakeForge>)
    requires
        seeded(f@, repo),
        create_branch_is_idempotent_course(f, repo, end),
    ensures
        end.verdict is Pass,
{
    reveal_strlit("main");
    reveal_strlit("feat/x");
}

/// The double passes `open_change_adopts_existing`.
pub proof fn passes_open_change_adopts_existing(f: FakeForge, repo: RepoRef, end: End<FakeForge>)
    requires
        seeded(f@, repo),
        open_change_adopts_existing_course(f, repo, end),
    ensures
        end.verdict is Pass,
{
    reveal_strlit("main");
    reveal_strlit("feat/adopt");
}

/// The double passes `commit_identical_content_is_noop_success`.
pub proof fn passes_commit_identical_content_is_noop_success(
    f: FakeForge,
    repo: RepoRef,
    end: End<FakeForge>,
)
    requires
        seeded(f@, repo),
        commit_identical_content_is_noop_success_course(f, repo, end),
    ensures
        end.verdict is Pass,
{
    reveal_strlit("main");
    reveal_strlit("feat/noop");
    reveal_strlit("commit");
}

/// The double passes `read_file_roundtrips_and_absent_is_none`.
#[verifier::rlimit(60)]
pub proof fn passes_read_file_roundtrips_and_absent_is_none(
    f: FakeForge,
    repo: RepoRef,
    end: End<FakeForge>,
)
    requires
        seeded(f@, repo),
        read_file_roundtrips_and_absent_is_none_course(f, repo, end),
    ensures
        end.verdict is Pass,
{
    reveal_strlit("main");
    reveal_strlit("feat/read");
    reveal_strlit("b.txt");
    reveal_strlit("nope.txt");
    reveal_strlit("blob");
    let r = f@.repos[slug(repo@)].create_branch("feat/read"@, "main"@).0;
    commit_is_read_back(r, "feat/read"@, "b.txt"@, "content"@);
    assert(r.read_file("nope.txt"@, "feat/read"@) is None);
    assert("b.txt"@.len() != "nope.txt"@.len());
}

/// The double passes `merged_change_is_merged_not_closed`.
#[verifier::rlimit(60)]
pub proof fn passes_merged_change_is_merged_not_closed(
    f: FakeForge,
    repo: RepoRef,
    end: End<FakeForge>,
)
    requires
        seeded(f@, repo),
        merged_change_is_merged_not_closed_course(f, repo, end),
    ensures
        end.verdict is Pass,
{
    reveal_strlit("main");
    reveal_strlit("feat/merge");
    reveal_strlit("merge");
}

/// The double passes `ensure_trigger_is_idempotent_by_url`.
pub proof fn passes_ensure_trigger_is_idempotent_by_url(
    f: FakeForge,
    repo: RepoRef,
    end: End<FakeForge>,
)
    requires
        seeded(f@, repo),
        ensure_trigger_is_idempotent_by_url_course(f, repo, end),
    ensures
        end.verdict is Pass,
{
    let url = "https://hooks.example/webhook"@;
    let r = f@.repos[slug(repo@)];
    ensure_trigger_twice(r, url, Seq::empty());
    let after = r.ensure_trigger(url, Seq::empty()).0;
    let p = |t: TriggerView| t.url == url;
    assert(after.triggers.drop_last() =~= Seq::<TriggerView>::empty());
    assert(count_that(after.triggers.drop_last(), p) == 0);
    assert(count_that(after.triggers, p) == 1);
}

/// The double passes `unsupported_is_explicit`.
#[verifier::rlimit(60)]
pub proof fn passes_unsupported_is_explicit(f: FakeForge, repo: RepoRef, end: End<FakeForge>)
    requires
        seeded(f@, repo),
        unsupported_is_explicit_course(f, repo, end),
    ensures
        end.verdict is Pass,
{
    reveal_strlit("main");
    reveal_strlit("feat/unsup");
}

/// The double passes `declared_capabilities_are_served`.
pub proof fn passes_declared_capabilities_are_served(
    f: FakeForge,
    repo: RepoRef,
    end: End<FakeForge>,
)
    requires
        seeded(f@, repo),
        declared_capabilities_are_served_course(f, repo, end),
    ensures
        end.verdict is Pass,
{
}

/// The double passes
/// [`transient_failure_is_recoverable`](crate::conformance::transient_failure_is_recoverable).
pub proof fn passes_transient_failure_is_recoverable(fx: FakeFixture, end: End<FakeForge>)
    requires
        seeded(fx.forge@, fx.repo),
        transient_failure_is_recoverable_course(fx, end),
    ensures
        end.verdict is Pass,
{
    reveal_strlit("main");
    reveal_strlit("feat/retry");
}

} // verus!
