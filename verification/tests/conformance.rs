use platform::conformance::{
    commit_identical_content_is_noop_success, create_branch_is_idempotent, declared_capabilities_are_served, ensure_trigger_is_idempotent_by_url, merged_change_is_merged_not_closed, open_change_adopts_existing, read_file_roundtrips_and_absent_is_none, transient_failure_is_recoverable, unsupported_is_explicit, Fixture, Verdict,
};
use platform::forge::Forge;
use platform::geetch_conformance::ServedFixture;
use platform::messages::{ChangeRef, ChangeState, CiStatus, ForgeKind, RepoRef};
use platform::runtime_conformance::PinnedFixture;
use platform::testing::{FakeFixture, FakeForge};

fn repo(kind: ForgeKind) -> RepoRef {
    RepoRef {
        forge: kind.number(),
        host: "fake.invalid".to_string(),
        owner: "acme".to_string(),
        name: "widgets".to_string(),
    }
}

fn assert_passes(verdict: Verdict) {
    match verdict {
        Verdict::Pass => {}
        Verdict::Refused(e) => panic!("a call failed: {e}"),
        Verdict::Broken(what) => panic!("{what}"),
    }
}

#[test]
fn fake_github_create_branch_is_idempotent() {
    let mut fx = FakeFixture::new(ForgeKind::Github, repo(ForgeKind::Github));
    assert_passes(create_branch_is_idempotent(&mut fx));
}

#[test]
fn fake_github_open_change_adopts_existing() {
    let mut fx = FakeFixture::new(ForgeKind::Github, repo(ForgeKind::Github));
    assert_passes(open_change_adopts_existing(&mut fx));
}

#[test]
fn fake_github_commit_identical_content_is_noop_success() {
    let mut fx = FakeFixture::new(ForgeKind::Github, repo(ForgeKind::Github));
    assert_passes(commit_identical_content_is_noop_success(&mut fx));
}

#[test]
fn fake_github_read_file_roundtrips_and_absent_is_none() {
    let mut fx = FakeFixture::new(ForgeKind::Github, repo(ForgeKind::Github));
    assert_passes(read_file_roundtrips_and_absent_is_none(&mut fx));
}

#[test]
fn fake_github_merged_change_is_merged_not_closed() {
    let mut fx = FakeFixture::new(ForgeKind::Github, repo(ForgeKind::Github));
    assert_passes(merged_change_is_merged_not_closed(&mut fx));
}

#[test]
fn fake_github_ensure_trigger_is_idempotent_by_url() {
    let mut fx = FakeFixture::new(ForgeKind::Github, repo(ForgeKind::Github));
    assert_passes(ensure_trigger_is_idempotent_by_url(&mut fx));
}

#[test]
fn fake_github_unsupported_is_explicit() {
    let mut fx = FakeFixture::new(ForgeKind::Github, repo(ForgeKind::Github));
    assert_passes(unsupported_is_explicit(&mut fx));
}

#[test]
fn fake_github_declared_capabilities_are_served() {
    let mut fx = FakeFixture::new(ForgeKind::Github, repo(ForgeKind::Github));
    assert_passes(declared_capabilities_are_served(&mut fx));
}

#[test]
fn fake_github_transient_failure_is_recoverable() {
    let mut fx = FakeFixture::new(ForgeKind::Github, repo(ForgeKind::Github));
    assert_passes(transient_failure_is_recoverable(&mut fx));
}

#[test]
fn fake_gitlab_create_branch_is_idempotent() {
    let mut fx = FakeFixture::new(ForgeKind::Gitlab, repo(ForgeKind::Gitlab));
    assert_passes(create_branch_is_idempotent(&mut fx));
}

#[test]
fn fake_gitlab_open_change_adopts_existing() {
    let mut fx = FakeFixture::new(ForgeKind::Gitlab, repo(ForgeKind::Gitlab));
    assert_passes(open_change_adopts_existing(&mut fx));
}

#[test]
fn fake_gitlab_commit_identical_content_is_noop_success() {
    let mut fx = FakeFixture::new(ForgeKind::Gitlab, repo(ForgeKind::Gitlab));
    assert_passes(commit_identical_content_is_noop_success(&mut fx));
}

#[test]
fn fake_gitlab_read_file_roundtrips_and_absent_is_none() {
    let mut fx = FakeFixture::new(ForgeKind::Gitlab, repo(ForgeKind::Gitlab));
    assert_passes(read_file_roundtrips_and_absent_is_none(&mut fx));
}

#[test]
fn fake_gitlab_merged_change_is_merged_not_closed() {
    let mut fx = FakeFixture::new(ForgeKind::Gitlab, repo(ForgeKind::Gitlab));
    assert_passes(merged_change_is_merged_not_closed(&mut fx));
}

#[test]
fn fake_gitlab_ensure_trigger_is_idempotent_by_url() {
    let mut fx = FakeFixture::new(ForgeKind::Gitlab, repo(ForgeKind::Gitlab));
    assert_passes(ensure_trigger_is_idempotent_by_url(&mut fx));
}

#[test]
fn fake_gitlab_unsupported_is_explicit() {
    let mut fx = FakeFixture::new(ForgeKind::Gitlab, repo(ForgeKind::Gitlab));
    assert_passes(unsupported_is_explicit(&mut fx));
}

#[test]
fn fake_gitlab_declared_capabilities_are_served() {
    let mut fx = FakeFixture::new(ForgeKind::Gitlab, repo(ForgeKind::Gitlab));
    assert_passes(declared_capabilities_are_served(&mut fx));
}

#[test]
fn fake_gitlab_transient_failure_is_recoverable() {
    let mut fx = FakeFixture::new(ForgeKind::Gitlab, repo(ForgeKind::Gitlab));
    assert_passes(transient_failure_is_recoverable(&mut fx));
}

#[test]
fn pinned_github_create_branch_is_idempotent() {
    let mut fx = PinnedFixture::new(ForgeKind::Github, repo(ForgeKind::Github));
    assert_passes(create_branch_is_idempotent(&mut fx));
}

#[test]
fn pinned_github_open_change_adopts_existing() {
    let mut fx = PinnedFixture::new(ForgeKind::Github, repo(ForgeKind::Github));
    assert_passes(open_change_adopts_existing(&mut fx));
}

#[test]
fn pinned_github_commit_identical_content_is_noop_success() {
    let mut fx = PinnedFixture::new(ForgeKind::Github, repo(ForgeKind::Github));
    assert_passes(commit_identical_content_is_noop_success(&mut fx));
}

#[test]
fn pinned_github_read_file_roundtrips_and_absent_is_none() {
    let mut fx = PinnedFixture::new(ForgeKind::Github, repo(ForgeKind::Github));
    assert_passes(read_file_roundtrips_and_absent_is_none(&mut fx));
}

#[test]
fn pinned_github_merged_change_is_merged_not_closed() {
    let mut fx = PinnedFixture::new(ForgeKind::Github, repo(ForgeKind::Github));
    assert_passes(merged_change_is_merged_not_closed(&mut fx));
}

#[test]
fn pinned_github_ensure_trigger_is_idempotent_by_url() {
    let mut fx = PinnedFixture::new(ForgeKind::Github, repo(ForgeKind::Github));
    assert_passes(ensure_trigger_is_idempotent_by_url(&mut fx));
}

#[test]
fn pinned_github_unsupported_is_explicit() {
    let mut fx = PinnedFixture::new(ForgeKind::Github, repo(ForgeKind::Github));
    assert_passes(unsupported_is_explicit(&mut fx));
}

#[test]
fn pinned_github_declared_capabilities_are_served() {
    let mut fx = PinnedFixture::new(ForgeKind::Github, repo(ForgeKind::Github));
    assert_passes(declared_capabilities_are_served(&mut fx));
}

#[test]
fn pinned_github_transient_failure_is_recoverable() {
    let mut fx = PinnedFixture::new(ForgeKind::Github, repo(ForgeKind::Github));
    assert_passes(transient_failure_is_recoverable(&mut fx));
}

#[test]
fn geetch_over_the_wire_create_branch_is_idempotent() {
    let mut fx = ServedFixture::new(ForgeKind::Geetch, repo(ForgeKind::Geetch));
    assert_passes(create_branch_is_idempotent(&mut fx));
}

#[test]
fn geetch_over_the_wire_open_change_adopts_existing() {
    let mut fx = ServedFixture::new(ForgeKind::Geetch, repo(ForgeKind::Geetch));
    assert_passes(open_change_adopts_existing(&mut fx));
}

#[test]
fn geetch_over_the_wire_commit_identical_content_is_noop_success() {
    let mut fx = ServedFixture::new(ForgeKind::Geetch, repo(ForgeKind::Geetch));
    assert_passes(commit_identical_content_is_noop_success(&mut fx));
}

#[test]
fn geetch_over_the_wire_read_file_roundtrips_and_absent_is_none() {
    let mut fx = ServedFixture::new(ForgeKind::Geetch, repo(ForgeKind::Geetch));
    assert_passes(read_file_roundtrips_and_absent_is_none(&mut fx));
}

#[test]
fn geetch_over_the_wire_merged_change_is_merged_not_closed() {
    let mut fx = ServedFixture::new(ForgeKind::Geetch, repo(ForgeKind::Geetch));
    assert_passes(merged_change_is_merged_not_closed(&mut fx));
}

#[test]
fn geetch_over_the_wire_ensure_trigger_is_idempotent_by_url() {
    let mut fx = ServedFixture::new(ForgeKind::Geetch, repo(ForgeKind::Geetch));
    assert_passes(ensure_trigger_is_idempotent_by_url(&mut fx));
}

#[test]
fn geetch_over_the_wire_unsupported_is_explicit() {
    let mut fx = ServedFixture::new(ForgeKind::Geetch, repo(ForgeKind::Geetch));
    assert_passes(unsupported_is_explicit(&mut fx));
}

#[test]
fn geetch_over_the_wire_declared_capabilities_are_served() {
    let mut fx = ServedFixture::new(ForgeKind::Geetch, repo(ForgeKind::Geetch));
    assert_passes(declared_capabilities_are_served(&mut fx));
}

#[test]
fn geetch_over_the_wire_transient_failure_is_recoverable() {
    let mut fx = ServedFixture::new(ForgeKind::Geetch, repo(ForgeKind::Geetch));
    assert_passes(transient_failure_is_recoverable(&mut fx));
}

#[test]
fn an_injected_failure_surfaces_once() {
    let mut fx = FakeFixture::new(ForgeKind::Github, repo(ForgeKind::Github));
    assert!(fx.inject_failure("merge", "boom"));
    let r = fx.repo();
    let f = fx.forge();
    // Another method does not trip it.
    assert_eq!(f.default_branch(&r).ok().unwrap(), "main");
    let change = ChangeRef {
        number: 1,
        url: String::new(),
        branch: String::new(),
        id: String::new(),
    };
    assert_eq!(f.merge(&r, &change).err().unwrap().to_string(), "boom");
    assert_eq!(f.merge(&r, &change).err().unwrap().to_string(), "no such change: 1");
    assert_eq!(f.calls(), vec!["default_branch", "merge", "merge"]);
}

#[test]
fn a_broken_adapter_is_told_apart() {
    // A repository that is not there: every owed call is refused, with the reason.
    let mut fx = FakeFixture::new(ForgeKind::Github, repo(ForgeKind::Github));
    fx.repo.name = "gone".to_string();
    let verdict = create_branch_is_idempotent(&mut fx);
    assert!(!verdict.passed());
    match verdict {
        Verdict::Refused(e) => assert_eq!(e, "no such repo: acme/gone"),
        _ => panic!("a refusal was owed"),
    }
}

fn seeded() -> (FakeForge, RepoRef) {
    let fx = FakeFixture::new(ForgeKind::Gitlab, repo(ForgeKind::Gitlab));
    (fx.forge, fx.repo)
}

#[test]
fn the_double_numbers_what_it_makes() {
    let (mut f, r) = seeded();
    assert!(f.create_branch(&r, "feat", "").ok().unwrap().created);
    let sha = f.commit_file(&r, "feat", "a.txt", "1", "", "m").ok().unwrap();
    assert_eq!(sha, "commit0000000001");
    let blob = f.read_file(&r, "a.txt", "feat").ok().unwrap().unwrap();
    assert_eq!(blob.content, "1");
    assert_eq!(blob.blob_sha, "blob000000000001");
    assert!(f.read_file(&r, "a.txt", "").ok().unwrap().is_none());
    let opened = f.open_change(&r, "feat", "main", "t", "b", true).ok().unwrap();
    assert_eq!(opened.change.number, 2);
    assert_eq!(opened.change.url, "https://fake/acme/widgets/changes/2");
    assert_eq!(opened.change.branch, "feat");
    assert_eq!(
        f.commit_file(&r, "nope", "a.txt", "1", "", "m").err().unwrap().to_string(),
        "no such branch: nope"
    );
}

#[test]
fn a_merged_change_stays_merged() {
    let (mut f, r) = seeded();
    let change = f.open_change(&r, "feat", "main", "t", "b", false).ok().unwrap().change;
    assert!(!f.auto_merge_armed(&r, change.number));
    assert!(f.enable_auto_merge(&r, &change).ok().unwrap());
    assert!(f.auto_merge_armed(&r, change.number));
    assert_eq!(f.pipeline_status(&r, &change).ok().unwrap().status, CiStatus::Absent);
    f.set_ci(&r, change.number, CiStatus::Running);
    assert_eq!(f.pipeline_status(&r, &change).ok().unwrap().status, CiStatus::Running);
    assert_eq!(f.merge(&r, &change).ok().unwrap(), "merge00000000002");
    assert_eq!(f.change_state(&r, &change).ok().unwrap(), ChangeState::Merged);
    assert!(!f.auto_merge_armed(&r, change.number));
    assert_eq!(
        f.merge(&r, &change).err().unwrap().to_string(),
        "change 1 is not open (state Merged)"
    );
    // A merged change does not block a new one from the same head.
    let again = f.open_change(&r, "feat", "main", "t", "b", false).ok().unwrap();
    assert!(!again.already_existed);
    assert_ne!(again.change.number, change.number);
}

#[test]
fn one_trigger_for_a_url() {
    let (mut f, r) = seeded();
    let first = f.ensure_trigger(&r, "https://h", &[], "").ok().unwrap();
    assert!(first.created);
    assert_eq!(first.trigger.events, vec!["push", "pull_request"]);
    let second = f.ensure_trigger(&r, "https://h", &["push".to_string()], "x").ok().unwrap();
    assert!(!second.created);
    assert_eq!(second.trigger.id, first.trigger.id);
    assert_eq!(f.list_triggers(&r).ok().unwrap().len(), 1);
}

#[test]
fn every_call_is_recorded() {
    let r = repo(ForgeKind::Gitlab);
    let mut fx = FakeFixture::new(ForgeKind::Gitlab, r.clone());
    let f = &mut fx.forge;
    assert!(f.capabilities().is_ok());
    assert!(f.default_branch(&r).is_ok());
    assert!(f.set_check(&r, "s", "n", "a", "b", "u").is_err());
    assert!(f.comment(&r, 1, "x").is_err());
    assert!(f.set_deployment(&r, "s", "g", "e", "a", "u", "l", "d").is_err());
    assert!(f.list_repos(&[], &[]).is_err());
    assert!(f.list_issues(&[], &[], &[]).is_err());
    assert!(f.list_pull_requests(&[], &[], &[]).is_err());
    assert_eq!(
        f.calls(),
        vec![
            "capabilities",
            "default_branch",
            "set_check",
            "comment",
            "set_deployment",
            "list_repos",
            "list_issues",
            "list_pull_requests",
        ]
    );
}
