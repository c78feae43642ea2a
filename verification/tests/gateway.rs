use platform::forge::{default_trigger_events, repo_slug, Forge};
use platform::forge_factory::{
    build_forge, effective_host, parse_forge_kind, token_for, token_variables,
};
use platform::gateway::{
    require_capability, AdapterPlan, ForgeGateway, Metadata, GITHUB_TOKEN_META, GITLAB_HOST_META,
    GITLAB_TOKEN_META,
};
use platform::geetch::{endpoint_url, invalid_address, unreachable_address, GeetchForge};
use platform::messages::{ChangeRef, CiStatus, ForgeKind, RepoRef};
use platform::status::{Code, Status};
use platform::table::Table;
use platform::testing::FakeForge;
use platform::wire::{
    ForgeService, GetCapabilitiesRequest, GetCapabilitiesResponse, GetDefaultBranchRequest,
    ListForgeIssuesRequest, ListForgePullRequestsRequest, ListForgeReposRequest, MergeRequest, PipelineStatusRequest, ReadFileRequest,
};

fn meta(pairs: &[(&str, &str)]) -> Metadata {
    let mut t: Metadata = Table::new();
    for (k, v) in pairs {
        t.insert(k.to_string(), v.to_string());
    }
    t
}

fn repo(forge: i32, host: &str) -> RepoRef {
    RepoRef {
        forge,
        host: host.to_string(),
        owner: "acme".to_string(),
        name: "widgets".to_string(),
    }
}

fn plan(forge: i32, host: &str, pairs: &[(&str, &str)]) -> Result<AdapterPlan, Status> {
    ForgeGateway {}.adapter(&repo(forge, host), &meta(pairs))
}

#[test]
fn the_credential_is_the_callers() {
    match plan(
        ForgeKind::Gitlab.number(),
        "git.acme",
        &[(GITLAB_TOKEN_META, "t"), (GITLAB_HOST_META, "other")],
    ) {
        Ok(AdapterPlan::Gitlab { host, token }) => {
            assert_eq!((host.as_str(), token.as_str()), ("git.acme", "t"))
        }
        _ => panic!("a gitlab adapter is owed"),
    }
    match plan(
        ForgeKind::Gitlab.number(),
        "",
        &[(GITLAB_TOKEN_META, "t"), (GITLAB_HOST_META, "other")],
    ) {
        Ok(AdapterPlan::Gitlab { host, .. }) => assert_eq!(host, "other"),
        _ => panic!("a gitlab adapter is owed"),
    }
    match plan(ForgeKind::Github.number(), "", &[(GITHUB_TOKEN_META, "g")]) {
        Ok(AdapterPlan::Github { token }) => assert_eq!(token, "g"),
        _ => panic!("a github adapter is owed"),
    }
}

#[test]
fn without_a_credential_or_a_forge_there_is_no_adapter() {
    let told = |r: Result<AdapterPlan, Status>| {
        let s = r.err().unwrap();
        (s.code(), s.message().to_string())
    };
    assert_eq!(
        told(plan(ForgeKind::Gitlab.number(), "h", &[(GITLAB_TOKEN_META, "")])),
        (Code::Unauthenticated, "missing gitlab token".to_string())
    );
    assert_eq!(
        told(plan(ForgeKind::Gitlab.number(), "", &[(GITLAB_TOKEN_META, "t")])),
        (
            Code::InvalidArgument,
            "gitlab host required (repo.host or metadata)".to_string()
        )
    );
    assert_eq!(
        told(plan(ForgeKind::Github.number(), "", &[(GITLAB_TOKEN_META, "t")])),
        (Code::Unauthenticated, "missing github token".to_string())
    );
    assert_eq!(
        told(plan(ForgeKind::Geetch.number(), "", &[])).0,
        Code::Unimplemented
    );
    assert_eq!(told(plan(0, "", &[])).0, Code::InvalidArgument);
    assert_eq!(
        told(ForgeGateway {}.adapter_for(&None, &meta(&[]))),
        (Code::InvalidArgument, "repo is required".to_string())
    );
}

fn seeded() -> FakeForge {
    let mut fake = FakeForge::new(ForgeKind::Gitlab);
    fake.seed_repo("acme/widgets", "main");
    fake
}

#[test]
fn a_served_adapter_answers_requests() {
    let mut served = ForgeGateway {}.into_server(seeded());
    let r = repo(ForgeKind::Gitlab.number(), "h");
    let branch = served
        .get_default_branch(GetDefaultBranchRequest { repo: Some(r.clone()) })
        .ok()
        .unwrap();
    assert_eq!(branch.branch, "main");
    let file = served
        .read_file(ReadFileRequest {
            repo: Some(r.clone()),
            path: "nope".to_string(),
            at: String::new(),
        })
        .ok()
        .unwrap();
    assert!(!file.found && file.blob.is_none());
    let status = served
        .get_default_branch(GetDefaultBranchRequest { repo: None })
        .err()
        .unwrap();
    assert_eq!(status.code(), Code::InvalidArgument);
    assert_eq!(status.message(), "repo is required");
    let status = served
        .merge(MergeRequest { repo: Some(r.clone()), change: None })
        .err()
        .unwrap();
    assert_eq!(status.message(), "change is required");
    let status = served
        .pipeline_status(PipelineStatusRequest {
            repo: Some(r.clone()),
            change: Some(ChangeRef {
                number: 9,
                url: String::new(),
                branch: String::new(),
                id: String::new(),
            }),
        })
        .err()
        .unwrap();
    assert_eq!(status.code(), Code::Internal);
    assert_eq!(status.message(), "no such change: 9");
}

#[test]
fn an_undeclared_surface_is_not_attempted() {
    let mut served = ForgeGateway {}.into_server(seeded());
    let status = served
        .list_issues(ListForgeIssuesRequest {
            repo: Some(repo(ForgeKind::Gitlab.number(), "h")),
            owners: vec![],
            labels: vec![],
            for_users: vec![],
        })
        .err()
        .unwrap();
    assert_eq!(status.code(), Code::FailedPrecondition);
    assert_eq!(
        status.message(),
        "Gitlab does not provide `issues` (ForgeCapabilities.issues = false); call GetCapabilities before this RPC"
    );
    assert_eq!(served.forge.calls(), vec!["capabilities"]);
    assert!(require_capability(ForgeKind::Github, "issues", true).is_ok());
}

#[test]
fn every_optional_list_is_declared_before_it_is_served() {
    let mut served = ForgeGateway {}.into_server(seeded());
    let r = repo(ForgeKind::Gitlab.number(), "h");
    let repos = served
        .list_repos(ListForgeReposRequest {
            repo: Some(r.clone()),
            owners: vec![],
            labels: vec![],
        })
        .err()
        .unwrap();
    assert_eq!(repos.code(), Code::FailedPrecondition);
    assert_eq!(
        repos.message(),
        "Gitlab does not provide `repos` (ForgeCapabilities.repos = false); call GetCapabilities before this RPC"
    );
    let pulls = served
        .list_pull_requests(ListForgePullRequestsRequest {
            repo: Some(r),
            owners: vec![],
            labels: vec![],
            for_users: vec![],
        })
        .err()
        .unwrap();
    assert_eq!(pulls.code(), Code::FailedPrecondition);
    assert_eq!(
        pulls.message(),
        "Gitlab does not provide `pull_requests` (ForgeCapabilities.pull_requests = false); call GetCapabilities before this RPC"
    );
    assert_eq!(served.forge.calls(), vec!["capabilities", "capabilities"]);
}

#[test]
fn geetch_addresses_get_a_scheme() {
    assert_eq!(endpoint_url("geetch:9090"), "http://geetch:9090");
    assert_eq!(endpoint_url("http://geetch:9090"), "http://geetch:9090");
    assert_eq!(endpoint_url("https://geetch"), "https://geetch");
    assert_eq!(
        invalid_address("a\"b", "bad").to_string(),
        r#"invalid geetch address "a\"b": bad"#
    );
    assert_eq!(
        unreachable_address("geetch", "refused").to_string(),
        "could not reach geetch at http://geetch: refused"
    );
}

#[test]
fn capabilities_are_asked_of_the_remote() {
    let mut geetch = GeetchForge::new(ForgeGateway {}.into_server(seeded()));
    let asked = geetch.capabilities().ok().unwrap();
    let direct = seeded().capabilities().ok().unwrap();
    assert_eq!(asked.triggers, direct.triggers);
    assert_eq!(asked.issues, direct.issues);
    assert!(geetch.kind() == ForgeKind::Geetch);
    assert_eq!(
        geetch.list_repos(&[], &[]).err().unwrap().to_string(),
        "list_repos not supported by this forge adapter"
    );
    let sent: GetCapabilitiesResponse = geetch
        .service
        .get_capabilities(GetCapabilitiesRequest { repo: Some(repo(3, "")) })
        .ok()
        .unwrap();
    assert!(sent.capabilities.is_some());
}

#[test]
fn a_forge_is_built_from_a_command_line() {
    assert!(parse_forge_kind("github") == Ok(ForgeKind::Github));
    assert!(parse_forge_kind("gitlab") == Ok(ForgeKind::Gitlab));
    assert_eq!(
        parse_forge_kind("svn").err().unwrap(),
        "unknown forge svn (use github|gitlab)"
    );
    assert_eq!(effective_host(ForgeKind::Github, ""), "github.com");
    assert_eq!(effective_host(ForgeKind::Gitlab, ""), "gitlab.com");
    assert_eq!(effective_host(ForgeKind::Github, "ghe"), "ghe");
    assert_eq!(token_variables(ForgeKind::Github), vec!["GITHUB_TOKEN", "FORGE_TOKEN"]);
    let values = vec![Some(String::new()), Some("t".to_string())];
    assert_eq!(token_for(ForgeKind::Github, &values).ok().unwrap(), "t");
    assert_eq!(
        token_for(ForgeKind::Gitlab, &vec![None, None]).err().unwrap(),
        "no token in env — set GITLAB_TOKEN (or FORGE_TOKEN)"
    );
    assert!(matches!(
        build_forge(ForgeKind::Gitlab, "h", "t"),
        Ok(AdapterPlan::Gitlab { .. })
    ));
    assert_eq!(
        build_forge(ForgeKind::Geetch, "h", "t").err().unwrap(),
        "unsupported forge kind: Geetch"
    );
}

#[test]
fn slugs_events_and_numbers() {
    assert_eq!(repo_slug(&repo(1, "")), "acme/widgets");
    let mut bare = repo(1, "");
    bare.owner = String::new();
    assert_eq!(repo_slug(&bare), "widgets");
    assert_eq!(default_trigger_events(), vec!["push", "pull_request"]);
    for s in [CiStatus::Absent, CiStatus::Failed, CiStatus::Running, CiStatus::Success] {
        assert!(CiStatus::from_number(s.number()) == Some(s));
    }
    assert!(CiStatus::from_number(99).is_none());
}
