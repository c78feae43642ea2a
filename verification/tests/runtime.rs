use std::sync::Arc;

use platform::forge::{
    BranchOutcome, EnsuredTrigger, Forge, ForgeCall, ForgeError, ForgeResult, OpenedChange,
    PipelineStatus,
};
use platform::messages::{
    ChangeRef, ChangeState, FileBlob, ForgeCapabilities, ForgeKind, Issue, PullRequest, RepoRef,
    Repository, Trigger,
};
use platform::runtime::{
    joined, pin, pin_arc, pin_boxed, Handed, InPlace, Outcome, Pinned, Shared,
};
use platform::testing::FakeForge;

fn repo() -> RepoRef {
    RepoRef {
        forge: ForgeKind::Gitlab.number(),
        host: String::new(),
        owner: "acme".to_string(),
        name: "widgets".to_string(),
    }
}

fn change() -> ChangeRef {
    ChangeRef {
        number: 1,
        url: String::new(),
        branch: String::new(),
        id: String::new(),
    }
}

fn seeded() -> FakeForge {
    let mut fake = FakeForge::new(ForgeKind::Gitlab);
    fake.seed_repo("acme/widgets", "main");
    fake
}

type Task<T> = Result<ForgeResult<T>, String>;

/// An adapter whose tasks panic.
struct Panicking {
    cause: &'static str,
}

impl Panicking {
    fn lost<T>(&self) -> Task<T> {
        Err(self.cause.to_string())
    }
}

impl Handed for Panicking {
    fn wf(&self) -> bool {
        true
    }

    fn outcomes(_pre: Self, _call: ForgeCall, _outcome: Outcome, _post: Self) -> bool {
        true
    }

    fn target(&self) -> ForgeKind {
        ForgeKind::Github
    }

    fn kind(&self) -> ForgeKind {
        ForgeKind::Github
    }

    fn default_branch(&mut self, _repo: &RepoRef) -> Task<String> {
        self.lost()
    }

    fn read_file(
        &mut self,
        _repo: &RepoRef,
        _path: &str,
        _at: &str,
    ) -> Task<Option<FileBlob>> {
        self.lost()
    }

    fn create_branch(
        &mut self,
        _repo: &RepoRef,
        _name: &str,
        _from_ref: &str,
    ) -> Task<BranchOutcome> {
        self.lost()
    }

    fn commit_file(
        &mut self,
        _repo: &RepoRef,
        _branch: &str,
        _path: &str,
        _content: &str,
        _blob_sha: &str,
        _message: &str,
    ) -> Task<String> {
        self.lost()
    }

    fn open_change(
        &mut self,
        _repo: &RepoRef,
        _head: &str,
        _base: &str,
        _title: &str,
        _body: &str,
        _remove_source_branch: bool,
    ) -> Task<OpenedChange> {
        self.lost()
    }

    fn enable_auto_merge(&mut self, _repo: &RepoRef, _change: &ChangeRef) -> Task<bool> {
        self.lost()
    }

    fn pipeline_status(
        &mut self,
        _repo: &RepoRef,
        _change: &ChangeRef,
    ) -> Task<PipelineStatus> {
        self.lost()
    }

    fn merge(&mut self, _repo: &RepoRef, _change: &ChangeRef) -> Task<String> {
        self.lost()
    }

    fn change_state(&mut self, _repo: &RepoRef, _change: &ChangeRef) -> Task<ChangeState> {
        self.lost()
    }

    fn list_triggers(&mut self, _repo: &RepoRef) -> Task<Vec<Trigger>> {
        self.lost()
    }

    fn ensure_trigger(
        &mut self,
        _repo: &RepoRef,
        _url: &str,
        _events: &[String],
        _secret: &str,
    ) -> Task<EnsuredTrigger> {
        self.lost()
    }

    fn capabilities(&mut self) -> Task<ForgeCapabilities> {
        self.lost()
    }

    fn set_check(
        &mut self,
        _repo: &RepoRef,
        _head_sha: &str,
        _name: &str,
        _status: &str,
        _conclusion: &str,
        _details_url: &str,
    ) -> Task<String> {
        self.lost()
    }

    fn comment(&mut self, _repo: &RepoRef, _number: u64, _body: &str) -> Task<String> {
        self.lost()
    }

    fn set_deployment(
        &mut self,
        _repo: &RepoRef,
        _head_sha: &str,
        _git_ref: &str,
        _environment: &str,
        _state: &str,
        _url: &str,
        _log_url: &str,
        _description: &str,
    ) -> Task<String> {
        self.lost()
    }

    fn list_repos(
        &mut self,
        _owners: &[String],
        _labels: &[String],
    ) -> Task<Vec<Repository>> {
        self.lost()
    }

    fn list_issues(
        &mut self,
        _owners: &[String],
        _labels: &[String],
        _for_users: &[String],
    ) -> Task<Vec<Issue>> {
        self.lost()
    }

    fn list_pull_requests(
        &mut self,
        _owners: &[String],
        _labels: &[String],
        _for_users: &[String],
    ) -> Task<Vec<PullRequest>> {
        self.lost()
    }
}

fn told<T>(r: ForgeResult<T>) -> String {
    r.err().expect("a lost call is an error").to_string()
}

#[test]
fn a_pinned_adapter_is_the_adapter() {
    let r = repo();
    let mut pinned = pin(seeded());
    assert!(pinned.kind() == ForgeKind::Gitlab);
    assert_eq!(pinned.default_branch(&r).ok().unwrap(), "main");
    let refused = pinned.set_deployment(&r, "sha", "ref", "prod", "success", "u", "l", "d");
    assert_eq!(
        refused.err().unwrap().to_string(),
        "set_deployment not supported by this forge adapter"
    );
    assert_eq!(
        pinned.inner_mut().forge.calls(),
        vec!["default_branch", "set_deployment"]
    );
    let mut boxed = pin_boxed(Box::new(seeded()));
    assert_eq!(boxed.default_branch(&r).ok().unwrap(), "main");
}

#[test]
fn outcomes_are_joined() {
    assert_eq!(joined(Ok(Ok::<u8, ForgeError>(7))).ok().unwrap(), 7);
    assert_eq!(told(joined::<u8>(Ok(Err(ForgeError::msg("own"))))), "own");
    assert_eq!(
        told(joined::<u8>(Err("panicked".to_string()))),
        "forge call failed to join: panicked"
    );
}

#[test]
fn a_panic_in_any_call_is_told() {
    let mut pinned = Pinned::new(Panicking { cause: "task 7 panicked" });
    let r = repo();
    let c = change();
    let want = "forge call failed to join: task 7 panicked";
    assert!(pinned.kind() == ForgeKind::Github);
    assert_eq!(told(pinned.default_branch(&r)), want);
    assert_eq!(told(pinned.read_file(&r, "p", "")), want);
    assert_eq!(told(pinned.create_branch(&r, "b", "")), want);
    assert_eq!(told(pinned.commit_file(&r, "b", "p", "c", "", "m")), want);
    assert_eq!(told(pinned.open_change(&r, "h", "b", "t", "x", false)), want);
    assert_eq!(told(pinned.enable_auto_merge(&r, &c)), want);
    assert_eq!(told(pinned.pipeline_status(&r, &c)), want);
    assert_eq!(told(pinned.merge(&r, &c)), want);
    assert_eq!(told(pinned.change_state(&r, &c)), want);
    assert_eq!(told(pinned.list_triggers(&r)), want);
    assert_eq!(told(pinned.ensure_trigger(&r, "u", &[], "s")), want);
    assert_eq!(told(pinned.capabilities()), want);
    assert_eq!(told(pinned.set_check(&r, "s", "n", "a", "b", "u")), want);
    assert_eq!(told(pinned.comment(&r, 1, "x")), want);
    assert_eq!(told(pinned.set_deployment(&r, "s", "g", "e", "a", "u", "l", "d")), want);
    assert_eq!(told(pinned.list_repos(&[], &[])), want);
    assert_eq!(told(pinned.list_issues(&[], &[], &[])), want);
    assert_eq!(told(pinned.list_pull_requests(&[], &[], &[])), want);
}

#[test]
fn a_shared_adapter_is_one_adapter() {
    let r = repo();
    let handle = Arc::new(Shared::new(InPlace { forge: seeded() }));
    let mut pinned = pin_arc(handle.clone());
    assert!(pinned.kind() == ForgeKind::Gitlab);
    let (mut adapter, lease) = handle.lease();
    adapter.forge.fail_next("default_branch", "injected at the handle");
    lease.put_back(adapter);
    assert_eq!(told(pinned.default_branch(&r)), "injected at the handle");
    assert_eq!(pinned.default_branch(&r).ok().unwrap(), "main");
    let refused = pinned.set_deployment(&r, "sha", "ref", "prod", "success", "u", "l", "d");
    assert_eq!(told(refused), "set_deployment not supported by this forge adapter");
    let mut second = pin_arc(handle.clone());
    assert!(second.create_branch(&r, "feat/x", "main").ok().unwrap().created);
    assert!(pinned.create_branch(&r, "feat/x", "main").ok().unwrap().already_existed);
    let (adapter, lease) = handle.lease();
    assert_eq!(
        adapter.forge.calls(),
        vec![
            "default_branch",
            "default_branch",
            "set_deployment",
            "create_branch",
            "create_branch",
        ]
    );
    lease.put_back(adapter);
}

#[test]
fn a_panic_behind_a_shared_adapter_is_told() {
    let handle = Arc::new(Shared::new(Panicking { cause: "task 7 panicked" }));
    let mut pinned = pin_arc(handle.clone());
    assert!(pinned.kind() == ForgeKind::Github);
    let lost = pinned.set_deployment(&repo(), "s", "g", "e", "a", "u", "l", "d");
    assert_eq!(told(lost), "forge call failed to join: task 7 panicked");
    assert_eq!(told(pinned.capabilities()), "forge call failed to join: task 7 panicked");
}
