use platform::github::{
    change_state, commit_file, commit_file_request, default_branch, gh_hook_to_trigger,
    list_triggers, map_check_conclusion, merge, merge_request, Answer, ContentFailure,
    CommitFile, ContentItem, CreateBranch, EnableAutoMerge, EnsureTrigger, OpenChange, PipelineQuery, Pull,
    ReadFile, RefFailure, RefObject, Request, Turn,
};
use platform::json::{Document, Json};
use platform::messages::{ChangeRef, ChangeState, CiStatus, RepoRef};

fn repo() -> RepoRef {
    RepoRef {
        forge: 1,
        host: String::new(),
        owner: "acme".into(),
        name: "widgets".into(),
    }
}

fn change(number: u64) -> ChangeRef {
    ChangeRef {
        number,
        url: String::new(),
        branch: String::new(),
        id: String::new(),
    }
}

fn json(text: &str) -> Json {
    Json::parse(text).unwrap()
}

fn document(text: &str) -> Document {
    let value: serde_json::Value = serde_json::from_str(text).unwrap();
    Document::decode(&value)
}

fn value(text: &str) -> Answer {
    Answer::Value(Ok(document(text)))
}

/// The value on one line.
fn line(json: &Json) -> String {
    let quote = |s: &str| serde_json::Value::from(s).to_string();
    match json {
        Json::Null => "null".to_string(),
        Json::Flag(b) => b.to_string(),
        Json::Number(n) => n.clone(),
        Json::Text(s) => quote(s),
        Json::List(items) => {
            let items: Vec<String> = items.iter().map(line).collect();
            format!("[{}]", items.join(","))
        }
        Json::Entries(entries) => {
            let entries: Vec<String> = entries
                .iter()
                .map(|(k, v)| format!("{}:{}", quote(k), line(v)))
                .collect();
            format!("{{{}}}", entries.join(","))
        }
    }
}

#[test]
fn maps_github_hook_to_trigger() {
    let hook = document(
        r#"{
            "id": 12345,
            "active": true,
            "events": ["push", "pull_request"],
            "config": {
                "url": "https://hooks.fastverk.com/webhook",
                "content_type": "json"
            }
        }"#,
    );
    let t = gh_hook_to_trigger(&hook);
    assert_eq!(t.id, "12345");
    assert_eq!(t.url, "https://hooks.fastverk.com/webhook");
    assert_eq!(
        t.events,
        vec!["push".to_string(), "pull_request".to_string()]
    );
    assert!(t.active);
}

#[test]
fn a_hook_that_says_nothing_is_an_empty_trigger() {
    let t = gh_hook_to_trigger(&document("{}"));
    assert_eq!(t.id, "");
    assert_eq!(t.url, "");
    assert!(t.events.is_empty());
    assert!(!t.active);
    assert_eq!(t.target, "");
    let odd = gh_hook_to_trigger(&document(r#"{"id":"x\"y","events":["push",1],"active":"yes"}"#));
    assert_eq!(odd.id, r#""x\"y""#);
    assert_eq!(odd.events, vec!["push".to_string()]);
    assert!(!odd.active);
}

#[test]
fn conclusions_map_to_statuses() {
    for c in ["success", "neutral", "skipped"] {
        assert_eq!(map_check_conclusion(Some(c)), Some(CiStatus::Success));
    }
    for c in ["failure", "timed_out", "action_required", "startup_failure"] {
        assert_eq!(map_check_conclusion(Some(c)), Some(CiStatus::Failed));
    }
    assert_eq!(map_check_conclusion(Some("cancelled")), Some(CiStatus::Canceled));
    assert_eq!(map_check_conclusion(Some("stale")), None);
    assert_eq!(map_check_conclusion(None), None);
}

fn route(request: &Request) -> String {
    match request {
        Request::Get { route } | Request::List { route } => route.clone(),
        Request::Post { route, .. } | Request::Put { route, .. } => route.clone(),
        _ => panic!("a request without a route"),
    }
}

fn body(request: &Request) -> String {
    match request {
        Request::Post { body, .. } | Request::Put { body, .. } => line(body),
        Request::Graphql { body } => line(body),
        _ => panic!("a request without a body"),
    }
}

fn pipeline(runs: &str) -> CiStatus {
    let (q, r) = PipelineQuery::start(&repo(), &change(7));
    assert_eq!(route(&r), "/repos/acme/widgets/pulls/7");
    let (q, r) = match q.next(value(r#"{"head":{"sha":"abc"}}"#)) {
        Turn::Ask(q, r) => (q, r),
        Turn::Done(_) => panic!("the check runs must be asked for"),
    };
    assert_eq!(route(&r), "/repos/acme/widgets/commits/abc/check-runs");
    match q.next(value(runs)) {
        Turn::Done(Ok(p)) => {
            assert_eq!(p.pipeline_id, "abc");
            assert_eq!(p.url, "https://github.com/acme/widgets/commits/abc");
            p.status
        }
        _ => panic!("check runs must settle the status"),
    }
}

#[test]
fn check_runs_settle_the_pipeline() {
    let done = r#"{"status":"completed","conclusion":"success"}"#;
    let bad = r#"{"status":"completed","conclusion":"cancelled"}"#;
    let busy = r#"{"status":"in_progress"}"#;
    assert_eq!(pipeline(&format!(r#"{{"check_runs":[{done}]}}"#)), CiStatus::Success);
    assert_eq!(pipeline(&format!(r#"{{"check_runs":[{done},{busy}]}}"#)), CiStatus::Running);
    assert_eq!(pipeline(&format!(r#"{{"check_runs":[{busy},{bad}]}}"#)), CiStatus::Failed);
}

#[test]
fn without_check_runs_the_combined_status_counts() {
    for (state, want) in [
        (r#"{"state":"success"}"#, CiStatus::Success),
        (r#"{"state":"failure"}"#, CiStatus::Failed),
        (r#"{"state":"error"}"#, CiStatus::Failed),
        (r#"{"state":"pending"}"#, CiStatus::Running),
        (r#"{"state":"other"}"#, CiStatus::Absent),
        ("{}", CiStatus::Absent),
    ] {
        let (q, _) = PipelineQuery::start(&repo(), &change(7));
        let q = match q.next(value(r#"{"head":{"sha":"abc"}}"#)) {
            Turn::Ask(q, _) => q,
            Turn::Done(_) => panic!(),
        };
        let (q, r) = match q.next(value(r#"{"check_runs":[]}"#)) {
            Turn::Ask(q, r) => (q, r),
            Turn::Done(_) => panic!(),
        };
        assert_eq!(route(&r), "/repos/acme/widgets/commits/abc/status");
        match q.next(value(state)) {
            Turn::Done(Ok(p)) => assert_eq!(p.status, want),
            _ => panic!(),
        }
    }
}

#[test]
fn pipeline_failures_tell_what_was_asked() {
    let (q, _) = PipelineQuery::start(&repo(), &change(7));
    match q.next(Answer::Value(Err("boom".into()))) {
        Turn::Done(Err(e)) => {
            assert_eq!(e.to_string(), "get PR /repos/acme/widgets/pulls/7: boom")
        }
        _ => panic!(),
    }
    let (q, _) = PipelineQuery::start(&repo(), &change(7));
    match q.next(value("{}")) {
        Turn::Done(Err(e)) => assert_eq!(e.to_string(), "PR 7 has no head.sha"),
        _ => panic!(),
    }
}

#[test]
fn reading_asks_for_the_default_branch_only_without_one() {
    let (_, r) = ReadFile::start(&repo(), "a.txt", "dev");
    match r {
        Request::Content { owner, name, path, at } => {
            assert_eq!((owner.as_str(), name.as_str()), ("acme", "widgets"));
            assert_eq!((path.as_str(), at.as_str()), ("a.txt", "dev"));
        }
        _ => panic!(),
    }
    let (s, r) = ReadFile::start(&repo(), "a.txt", "");
    assert!(matches!(r, Request::Repo { .. }));
    let (s, r) = match s.next(Answer::Repo(Ok(None))) {
        Turn::Ask(s, r) => (s, r),
        Turn::Done(_) => panic!(),
    };
    assert!(matches!(r, Request::Content { at, .. } if at == "main"));
    match s.next(Answer::Content(Ok(Some(ContentItem {
        encoded: Some("aGVs\nbG8=\n".into()),
        sha: "blob".into(),
    })))) {
        Turn::Done(Ok(Some(blob))) => {
            assert_eq!(blob.path, "a.txt");
            assert_eq!(blob.content, "hello");
            assert_eq!(blob.blob_sha, "blob");
        }
        _ => panic!(),
    }
}

fn read(answer: Answer) -> Turn<ReadFile, Option<platform::messages::FileBlob>> {
    let (s, _) = ReadFile::start(&repo(), "a.txt", "dev");
    s.next(answer)
}

#[test]
fn an_absent_file_is_an_answer() {
    assert!(matches!(
        read(Answer::Content(Err(ContentFailure::NotFound))),
        Turn::Done(Ok(None))
    ));
    assert!(matches!(read(Answer::Content(Ok(None))), Turn::Done(Ok(None))));
    match read(Answer::Content(Err(ContentFailure::Other("boom".into())))) {
        Turn::Done(Err(e)) => assert_eq!(e.to_string(), "get content a.txt: boom"),
        _ => panic!(),
    }
    match read(Answer::Content(Ok(Some(ContentItem {
        encoded: None,
        sha: "blob".into(),
    })))) {
        Turn::Done(Err(e)) => assert_eq!(e.to_string(), "a.txt: base64 decode failed"),
        _ => panic!(),
    }
    match default_branch(&repo(), Err("boom".into())) {
        Err(e) => assert_eq!(e.to_string(), "get repo acme/widgets: boom"),
        Ok(_) => panic!(),
    }
}

#[test]
fn a_branch_that_is_there_already_existed() {
    let start = || CreateBranch::start(&repo(), "feat/x", "main");
    let (s, r) = start();
    assert!(matches!(r, Request::Ref { branch, .. } if branch == "main"));
    let make = |s: CreateBranch| match s.next(Answer::Ref(Ok(RefObject::Commit {
        sha: "abc".into(),
    }))) {
        Turn::Ask(s, r) => (s, r),
        Turn::Done(_) => panic!(),
    };
    let (s, r) = make(s);
    assert_eq!(route(&r), "/repos/acme/widgets/git/refs");
    assert_eq!(body(&r), r#"{"ref":"refs/heads/feat/x","sha":"abc"}"#);
    match s.next(value("{}")) {
        Turn::Done(Ok(o)) => assert!(o.created && !o.already_existed),
        _ => panic!(),
    }
    let refused = || match make(start().0).0.next(Answer::Value(Err("422".into()))) {
        Turn::Ask(s, r) => {
            assert!(matches!(r, Request::Ref { branch, .. } if branch == "feat/x"));
            s
        }
        Turn::Done(_) => panic!(),
    };
    match refused().next(Answer::Ref(Ok(RefObject::Commit { sha: "abc".into() }))) {
        Turn::Done(Ok(o)) => assert!(!o.created && o.already_existed),
        _ => panic!(),
    }
    match refused().next(Answer::Ref(Err(RefFailure::NotFound("404".into())))) {
        Turn::Done(Err(e)) => assert_eq!(e.to_string(), "create branch: 422"),
        _ => panic!(),
    }
    let nowhere = CreateBranch::start(&repo(), "feat/x", "").0;
    match nowhere.next(Answer::Ref(Err(RefFailure::NotFound("404".into())))) {
        Turn::Done(Err(e)) => assert_eq!(e.to_string(), "get_ref : 404"),
        _ => panic!(),
    }
    match start().0.next(Answer::Ref(Ok(RefObject::Other { shown: "Tag".into() }))) {
        Turn::Done(Err(e)) => assert_eq!(e.to_string(), "unexpected ref object: Tag"),
        _ => panic!(),
    }
}

#[test]
fn commits_are_sent_in_base64_and_tell_their_sha() {
    let r = commit_file_request(&repo(), "main", "a.txt", "hello", "", "add a");
    assert_eq!(route(&r), "/repos/acme/widgets/contents/a.txt");
    assert_eq!(
        body(&r),
        r#"{"message":"add a","content":"aGVsbG8=","branch":"main"}"#
    );
    let r = commit_file_request(&repo(), "main", "a.txt", "hello", "old", "add a");
    assert_eq!(
        body(&r),
        r#"{"message":"add a","content":"aGVsbG8=","branch":"main","sha":"old"}"#
    );
    assert_eq!(commit_file(Ok(json(r#"{"commit":{"sha":"abc"}}"#))).ok().unwrap(), "abc");
    assert_eq!(commit_file(Ok(json("{}"))).ok().unwrap(), "");
    assert_eq!(
        commit_file(Err("boom".into())).err().unwrap().to_string(),
        "commit file: boom"
    );
}

#[test]
fn an_open_pull_request_is_adopted() {
    let start = || OpenChange::start(&repo(), "feat/x", "main", "t", "b").0;
    match start().next(Answer::Pull(Ok(Pull {
        number: 5,
        html_url: Some("https://x/5".into()),
    }))) {
        Turn::Done(Ok(o)) => {
            assert_eq!(o.change.number, 5);
            assert_eq!(o.change.url, "https://x/5");
            assert_eq!(o.change.branch, "feat/x");
            assert!(!o.already_existed);
        }
        _ => panic!(),
    }
    let refused = || match start().next(Answer::Pull(Err("422".into()))) {
        Turn::Ask(s, Request::OpenPulls { head, .. }) => {
            assert_eq!(head, "acme:feat/x");
            s
        }
        _ => panic!(),
    };
    match refused().next(Answer::Pulls(Ok(vec![
        Pull { number: 3, html_url: None },
        Pull { number: 4, html_url: None },
    ]))) {
        Turn::Done(Ok(o)) => {
            assert_eq!(o.change.number, 3);
            assert_eq!(o.change.url, "");
            assert!(o.already_existed);
        }
        _ => panic!(),
    }
    for found in [Ok(vec![]), Err("boom".to_string())] {
        match refused().next(Answer::Pulls(found)) {
            Turn::Done(Err(e)) => assert_eq!(e.to_string(), "open PR: 422"),
            _ => panic!(),
        }
    }
}

#[test]
fn auto_merge_that_cannot_be_armed_is_a_no() {
    let (s, _) = EnableAutoMerge::start(&repo(), &change(7));
    assert!(matches!(s.next(value("{}")), Turn::Done(Ok(false))));
    let arm = || {
        let (s, _) = EnableAutoMerge::start(&repo(), &change(7));
        match s.next(value(r#"{"node_id":"N"}"#)) {
            Turn::Ask(s, r) => (s, r),
            Turn::Done(_) => panic!(),
        }
    };
    let (s, r) = arm();
    assert_eq!(
        body(&r),
        r#"{"query":"mutation($id:ID!){enablePullRequestAutoMerge(input:{pullRequestId:$id,mergeMethod:MERGE}){clientMutationId}}","variables":{"id":"N"}}"#
    );
    assert!(matches!(s.next(value(r#"{"data":{}}"#)), Turn::Done(Ok(true))));
    assert!(matches!(arm().0.next(value(r#"{"errors":[]}"#)), Turn::Done(Ok(false))));
    assert!(matches!(
        arm().0.next(Answer::Value(Err("boom".into()))),
        Turn::Done(Ok(false))
    ));
}

#[test]
fn a_merged_pull_request_is_merged_though_closed() {
    let state = |t: &str| change_state(&repo(), &change(7), Ok(json(t))).ok().unwrap();
    assert_eq!(state(r#"{"merged":true,"state":"closed"}"#), ChangeState::Merged);
    assert_eq!(state(r#"{"merged":false,"state":"closed"}"#), ChangeState::Closed);
    assert_eq!(state(r#"{"state":"open"}"#), ChangeState::Open);
    assert_eq!(state("{}"), ChangeState::Open);
    let r = merge_request(&repo(), &change(7));
    assert_eq!(route(&r), "/repos/acme/widgets/pulls/7/merge");
    assert_eq!(body(&r), r#"{"merge_method":"merge"}"#);
    assert_eq!(merge(Ok(json(r#"{"sha":"abc"}"#))).ok().unwrap(), "abc");
    assert_eq!(
        merge(Err("boom".into())).err().unwrap().to_string(),
        "merge PR: boom"
    );
}

#[test]
fn a_hook_at_the_url_is_given_back() {
    let hooks = || {
        Answer::Values(Ok(vec![
            document(r#"{"id":1,"config":{"url":"https://a"}}"#),
            document(r#"{"id":2,"config":{"url":"https://b"},"active":true}"#),
            document(r#"{"id":3,"config":{"url":"https://b"}}"#),
        ]))
    };
    let (s, r) = EnsureTrigger::start(&repo(), "https://b", &[], "");
    assert_eq!(route(&r), "/repos/acme/widgets/hooks");
    match s.next(hooks()) {
        Turn::Done(Ok(e)) => {
            assert_eq!(e.trigger.id, "2");
            assert!(!e.created);
        }
        _ => panic!(),
    }
    let (s, _) = EnsureTrigger::start(&repo(), "https://c", &[], "s3cret");
    let (s, r) = match s.next(hooks()) {
        Turn::Ask(s, r) => (s, r),
        Turn::Done(_) => panic!(),
    };
    assert_eq!(
        body(&r),
        r#"{"name":"web","active":true,"events":["push","pull_request"],"config":{"url":"https://c","content_type":"json","secret":"s3cret"}}"#
    );
    match s.next(value(r#"{"id":9,"config":{"url":"https://c"}}"#)) {
        Turn::Done(Ok(e)) => {
            assert_eq!(e.trigger.id, "9");
            assert!(e.created);
        }
        _ => panic!(),
    }
    let (s, _) = EnsureTrigger::start(&repo(), "https://c", &["release".to_string()], "");
    match s.next(Answer::Values(Ok(vec![]))) {
        Turn::Ask(s, r) => {
            assert_eq!(
                body(&r),
                r#"{"name":"web","active":true,"events":["release"],"config":{"url":"https://c","content_type":"json"}}"#
            );
            match s.next(Answer::Value(Err("boom".into()))) {
                Turn::Done(Err(e)) => assert_eq!(
                    e.to_string(),
                    "create hook /repos/acme/widgets/hooks: boom"
                ),
                _ => panic!(),
            }
        }
        Turn::Done(_) => panic!(),
    }
    match list_triggers(&repo(), Err("boom".into())) {
        Err(e) => assert_eq!(e.to_string(), "list hooks /repos/acme/widgets/hooks: boom"),
        Ok(_) => panic!(),
    }
}

#[test]
fn an_answer_to_another_request_ends_the_operation() {
    let (s, _) = PipelineQuery::start(&repo(), &change(7));
    match s.next(Answer::Repo(Ok(None))) {
        Turn::Done(Err(e)) => {
            assert_eq!(e.to_string(), "the answer does not belong to the request")
        }
        _ => panic!(),
    }
    let (s, _) = OpenChange::start(&repo(), "feat/x", "main", "t", "b");
    assert!(matches!(s.next(Answer::Pulls(Ok(vec![]))), Turn::Done(Err(_))));
}

#[test]
fn a_branch_may_start_from_a_commit() {
    let (s, r) = CreateBranch::start(&repo(), "feat/x", "0a1b2c");
    assert!(matches!(r, Request::Ref { branch, .. } if branch == "0a1b2c"));
    match s.next(Answer::Ref(Err(RefFailure::NotFound("404".into())))) {
        Turn::Ask(s, r) => {
            assert_eq!(route(&r), "/repos/acme/widgets/git/refs");
            assert_eq!(body(&r), r#"{"ref":"refs/heads/feat/x","sha":"0a1b2c"}"#);
            match s.next(value("{}")) {
                Turn::Done(Ok(o)) => assert!(o.created && !o.already_existed),
                _ => panic!(),
            }
        }
        Turn::Done(_) => panic!("the branch must be made at the commit"),
    }
}

#[test]
fn only_a_start_that_is_not_found_may_be_a_commit() {
    let start = || CreateBranch::start(&repo(), "feat/x", "develp").0;
    match start().next(Answer::Ref(Err(RefFailure::Other("timed out".into())))) {
        Turn::Done(Err(e)) => assert_eq!(e.to_string(), "get_ref develp: timed out"),
        _ => panic!("a lookup that fails is an error"),
    }
    let refused = || {
        let made = match start().next(Answer::Ref(Err(RefFailure::NotFound("404".into())))) {
            Turn::Ask(s, _) => s,
            Turn::Done(_) => panic!(),
        };
        match made.next(Answer::Value(Err("422".into()))) {
            Turn::Ask(s, r) => {
                assert!(matches!(r, Request::Ref { branch, .. } if branch == "feat/x"));
                s
            }
            Turn::Done(_) => panic!(),
        }
    };
    match refused().next(Answer::Ref(Err(RefFailure::NotFound("404".into())))) {
        Turn::Done(Err(e)) => assert_eq!(e.to_string(), "get_ref develp: 404"),
        _ => panic!("a start that is nothing is an error"),
    }
    match refused().next(Answer::Ref(Ok(RefObject::Commit { sha: "abc".into() }))) {
        Turn::Done(Ok(o)) => assert!(o.already_existed && !o.created),
        _ => panic!(),
    }
}

#[test]
fn contents_are_read_from_base64_broken_into_lines() {
    let read = |encoded: &str| {
        read(Answer::Content(Ok(Some(ContentItem {
            encoded: Some(encoded.to_string()),
            sha: "blob".into(),
        }))))
    };
    let content = |encoded: &str| match read(encoded) {
        Turn::Done(Ok(Some(blob))) => blob.content,
        _ => panic!("{encoded:?} is base64"),
    };
    assert_eq!(content(" aGVs\r\n\tbG8\u{b}=\u{c}\n"), "hello");
    assert_eq!(content("w6k="), "\u{e9}");
    assert_eq!(content("/w=="), "\u{fffd}");
    assert_eq!(content(""), "");
    for encoded in ["aGVsbG8", "a*b=", "a"] {
        match read(encoded) {
            Turn::Done(Err(e)) => assert_eq!(e.to_string(), "a.txt: base64 decode failed"),
            _ => panic!("{encoded:?} is no base64"),
        }
    }
}

#[test]
fn committing_what_is_held_already_is_a_success() {
    let start = || CommitFile::start(&repo(), "feat/noop", "a.txt", "hello", "", "add a");
    let (s, r) = start();
    assert_eq!(route(&r), "/repos/acme/widgets/contents/a.txt");
    assert!(body(&r).contains(r#""branch":"feat/noop""#));
    match s.next(value(r#"{"commit":{"sha":"abc"}}"#)) {
        Turn::Done(Ok(sha)) => assert_eq!(sha, "abc"),
        _ => panic!(),
    }
    let looked = |answer: Answer| {
        let (s, r) = match start().0.next(Answer::Value(Err("422".into()))) {
            Turn::Ask(s, r) => (s, r),
            Turn::Done(_) => panic!("the file is looked at"),
        };
        assert!(
            matches!(r, Request::Content { path, at, .. } if path == "a.txt" && at == "feat/noop")
        );
        match s.next(answer) {
            Turn::Done(done) => done,
            Turn::Ask(..) => panic!("one look is enough"),
        }
    };
    let held = |encoded: Option<&str>| {
        Answer::Content(Ok(Some(ContentItem {
            encoded: encoded.map(|e| e.to_string()),
            sha: "blob".into(),
        })))
    };
    assert_eq!(looked(held(Some("aGVs\nbG8=\n"))).ok().unwrap(), "");
    for answer in [
        held(Some("aGVsbG8h")),
        held(Some("no base64")),
        held(None),
        Answer::Content(Ok(None)),
        Answer::Content(Err(ContentFailure::NotFound)),
        Answer::Content(Err(ContentFailure::Other("boom".into()))),
    ] {
        assert_eq!(looked(answer).err().unwrap().to_string(), "commit file: 422");
    }
    match start().0.next(Answer::Repo(Ok(None))) {
        Turn::Done(Err(e)) => {
            assert_eq!(e.to_string(), "the answer does not belong to the request")
        }
        _ => panic!(),
    }
}
