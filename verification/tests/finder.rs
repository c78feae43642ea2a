use platform::client::{first_url, resolved, selector_map, Backoff, Finder, Watched};
use platform::groups::{collect_groups, parse_group, GroupCache, GroupObject};
use platform::json::Json;
use platform::registry::Registry;
use platform::resolver::{
    priorities, priority_of_service, Endpoint, OrderingPolicy, Service, ServicePort,
    CAPABILITY_LABEL, SELECTORS_ANNOTATION,
};
use platform::service::{EventKind, FinderService, ResolveRequest, Wake, WatchAction};
use platform::status::{Code, Status};
use platform::table::Table;
use platform::text::i64_of;

const PRIORITY: &str = "finder.fastverk.dev/priority";

fn ranked(name: &str, selectors: &str, priority: &str) -> Service {
    let mut service = svc(name, selectors);
    service.annotations.insert(PRIORITY.to_string(), priority.to_string());
    service
}

fn svc(name: &str, selectors: &str) -> Service {
    let mut labels: Table<String, String> = Table::new();
    labels.insert(CAPABILITY_LABEL.to_string(), "parser".to_string());
    let mut annotations: Table<String, String> = Table::new();
    annotations.insert(SELECTORS_ANNOTATION.to_string(), selectors.to_string());
    Service {
        name: Some(name.to_string()),
        labels,
        annotations,
        ports: Some(vec![ServicePort {
            name: Some("grpc".to_string()),
            port: 50060,
        }]),
    }
}

fn group(name: Option<&str>, data: &str) -> GroupObject {
    GroupObject {
        name: name.map(|n| n.to_string()),
        data: Json::parse(data).unwrap(),
    }
}

const POLICY: &str = r#"{"spec":{"capability":"parser","selector":{"lang":"rust","n":1},"portName":"grpc","ordering":{"strategy":"Priority"}}}"#;

fn finder() -> FinderService {
    let mut reg = Registry::new("ns", PRIORITY);
    reg.replace(vec![
        ranked("alpha", r#"{"lang":["rust"]}"#, "2"),
        ranked("beta", r#"{"lang":["rust"]}"#, "1"),
        svc("gamma", r#"{"lang":["go"]}"#),
    ]);
    let groups = GroupCache::new(collect_groups(&vec![group(Some("rust"), POLICY)]));
    FinderService::new(reg, groups)
}

fn names(v: &Vec<Endpoint>) -> Vec<String> {
    v.iter().map(|e| e.service.clone()).collect()
}

fn query(capability: &str, selector: &[(&str, &str)]) -> ResolveRequest {
    Finder::connect("http://finder".to_string()).request(capability, selector, "grpc")
}

#[test]
fn groups_are_parsed_and_malformed_ones_skipped() {
    let (name, policy) = parse_group(&group(Some("rust"), POLICY)).unwrap();
    assert_eq!(name, "rust");
    assert_eq!(policy.capability, "parser");
    assert_eq!(policy.selector.get(&"lang".to_string()).unwrap(), "rust");
    assert_eq!(policy.selector.len(), 1);
    assert_eq!(policy.port_name, "grpc");
    assert!(policy.ordering == OrderingPolicy::Priority);
    let (_, bare) = parse_group(&group(Some("g"), r#"{"spec":{"capability":"x"}}"#)).unwrap();
    assert_eq!(bare.port_name, "");
    assert_eq!(bare.selector.len(), 0);
    assert!(bare.ordering == OrderingPolicy::Unordered);
    assert!(parse_group(&group(None, POLICY)).is_none());
    assert!(parse_group(&group(Some("g"), "{}")).is_none());
    assert!(parse_group(&group(Some("g"), r#"{"spec":{}}"#)).is_none());
    let listed = vec![
        group(Some("g"), "{}"),
        group(Some("h"), POLICY),
        group(Some("h"), r#"{"spec":{"capability":"later"}}"#),
    ];
    let all = collect_groups(&listed);
    assert_eq!(all.len(), 1);
    assert_eq!(all.get(&"h".to_string()).unwrap().capability, "later");
}

#[test]
fn a_poll_that_brings_nothing_new_is_no_change() {
    let listed = || collect_groups(&vec![group(Some("rust"), POLICY)]);
    let mut cache = GroupCache::new(listed());
    assert!(!cache.refresh(listed()));
    assert!(cache.refresh(collect_groups(&vec![])));
    assert!(cache.get("rust").is_none());
    assert!(cache.refresh(listed()));
    assert_eq!(cache.get("rust").unwrap().capability, "parser");
}

#[test]
fn queries_and_groups_are_resolved() {
    let finder = finder();
    let found = finder.resolve(&query("parser", &[("lang", "rust")])).ok().unwrap();
    assert_eq!(names(&found), vec!["alpha", "beta"]);
    // A group is ordered by its policy.
    let found = finder.resolve_group("rust").ok().unwrap();
    assert_eq!(names(&found), vec!["beta", "alpha"]);
    // No match is not a failure.
    assert!(finder.resolve(&query("nope", &[])).ok().unwrap().is_empty());
}

#[test]
fn what_is_required_is_told() {
    let finder = finder();
    let status = finder.resolve(&query("", &[])).err().unwrap();
    assert_eq!(status.code(), Code::InvalidArgument);
    assert_eq!(status.message(), "capability is required");
    let status = finder.resolve_group("").err().unwrap();
    assert_eq!(status.code(), Code::InvalidArgument);
    assert_eq!(status.message(), "name is required");
    let status = finder.resolve_group("no \"such\"").err().unwrap();
    assert_eq!(status.code(), Code::NotFound);
    assert_eq!(status.message(), r#"no EndpointGroup "no \"such\"""#);
    assert!(finder.watch(query("", &[])).is_err());
    assert!(finder.watch_group(String::new()).is_err());
}

#[test]
fn a_watch_sends_a_snapshot_and_then_changes_only() {
    let mut finder = finder();
    let (mut watch, event) = finder.watch(query("parser", &[("lang", "rust")])).ok().unwrap();
    assert!(event.kind == EventKind::Snapshot);
    assert_eq!(names(&event.endpoints), vec!["alpha", "beta"]);
    assert!(matches!(watch.wake(Wake::Ping, &finder), WatchAction::Wait));
    // A change to Services that this subscriber does not see does not wake it.
    finder.reg.replace(vec![
        svc("alpha", r#"{"lang":["rust"]}"#),
        svc("beta", r#"{"lang":["rust"]}"#),
    ]);
    assert!(matches!(watch.wake(Wake::Ping, &finder), WatchAction::Wait));
    finder.reg.replace(vec![svc("beta", r#"{"lang":["rust"]}"#)]);
    match watch.wake(Wake::Lagged, &finder) {
        WatchAction::Send(event) => {
            assert!(event.kind == EventKind::Changed);
            assert_eq!(names(&event.endpoints), vec!["beta"]);
        }
        _ => panic!("the change must be sent"),
    }
    assert!(matches!(watch.wake(Wake::Ping, &finder), WatchAction::Wait));
    assert!(matches!(watch.wake(Wake::Closed, &finder), WatchAction::End));
}

#[test]
fn a_watched_group_may_appear_later() {
    let mut finder = finder();
    let (mut watch, event) = finder.watch_group("late".to_string()).ok().unwrap();
    assert!(event.endpoints.is_empty());
    finder.groups.refresh(collect_groups(&vec![group(Some("late"), POLICY)]));
    match watch.wake(Wake::Ping, &finder) {
        WatchAction::Send(event) => assert_eq!(names(&event.endpoints), vec!["beta", "alpha"]),
        _ => panic!("the group's endpoints must be sent"),
    }
}

#[test]
fn the_client_keeps_the_last_known_good_set() {
    let finder = finder();
    let mut watched = Watched::new();
    assert!(watched.first_url().is_none());
    let found = finder.resolve(&query("parser", &[])).ok().unwrap();
    assert_eq!(
        first_url(&found).unwrap(),
        "http://alpha.ns.svc.cluster.local:50060"
    );
    assert!(watched.observe(Ok(found)).is_ok());
    assert_eq!(watched.observe(Err("gone".to_string())).err().unwrap(), "gone");
    assert_eq!(watched.current().len(), 3);
    assert_eq!(
        watched.first_url().unwrap(),
        "http://alpha.ns.svc.cluster.local:50060"
    );
}

#[test]
fn selectors_keep_the_later_of_two_values() {
    let map = selector_map(&[("a", "1"), ("b", "2"), ("a", "3")]);
    assert_eq!(map.len(), 2);
    assert_eq!(map.get(&"a".to_string()).unwrap(), "3");
    let finder = Finder::connect("http://f".to_string());
    assert_eq!(finder.clone().endpoint(), "http://f");
}

#[test]
fn waits_double_up_to_half_a_minute() {
    let mut backoff = Backoff::new();
    let waits: Vec<u64> = (0..7).map(|_| backoff.after(false)).collect();
    assert_eq!(waits, vec![1, 2, 4, 8, 16, 30, 30]);
    assert_eq!(backoff.after(true), 1);
    assert_eq!(backoff.after(false), 2);
}

#[test]
fn priorities_come_from_the_annotation() {
    let services = vec![
        ranked("fast", "{}", "-3"),
        ranked("slow", "{}", "+20"),
        ranked("odd", "{}", "soon"),
        svc("plain", "{}"),
    ];
    let table = priorities(&services, PRIORITY);
    assert_eq!(table.get(&"fast".to_string()), Some(&-3));
    assert_eq!(table.get(&"slow".to_string()), Some(&20));
    assert_eq!(table.get(&"odd".to_string()), Some(&i64::MAX));
    assert_eq!(table.get(&"plain".to_string()), Some(&i64::MAX));
    assert!(table.get(&"gone".to_string()).is_none());
    assert_eq!(priority_of_service(&services[0], "other/key"), i64::MAX);
    let twice = vec![ranked("twin", "{}", "1"), ranked("twin", "{}", "2")];
    assert_eq!(priorities(&twice, PRIORITY).get(&"twin".to_string()), Some(&2));
}

#[test]
fn a_group_follows_the_priorities_of_its_services() {
    let mut finder = finder();
    assert_eq!(names(&finder.resolve_group("rust").ok().unwrap()), vec!["beta", "alpha"]);
    finder.reg.replace(vec![
        ranked("alpha", r#"{"lang":["rust"]}"#, "0"),
        svc("beta", r#"{"lang":["rust"]}"#),
    ]);
    assert_eq!(names(&finder.resolve_group("rust").ok().unwrap()), vec!["alpha", "beta"]);
}

#[test]
fn whole_numbers_are_read() {
    for (text, value) in [
        ("0", Some(0)),
        ("-0", Some(0)),
        ("+7", Some(7)),
        ("007", Some(7)),
        ("9223372036854775807", Some(i64::MAX)),
        ("-9223372036854775808", Some(i64::MIN)),
        ("9223372036854775808", None),
        ("-9223372036854775809", None),
        ("99999999999999999999999999999999999999999999", None),
        ("", None),
        ("-", None),
        ("+", None),
        (" 1", None),
        ("1.5", None),
        ("--1", None),
    ] {
        assert_eq!(i64_of(text), value, "{text}");
        assert_eq!(text.parse::<i64>().ok(), value, "{text}");
    }
}

#[test]
fn an_unavailable_finder_yields_the_empty_set() {
    let unavailable = Status::new(Code::Unavailable, "connection refused");
    assert!(resolved(Err(unavailable)).ok().unwrap().is_empty());
    for code in [Code::InvalidArgument, Code::NotFound, Code::Internal, Code::Unknown] {
        let refused = resolved(Err(Status::new(code, "refused"))).err().unwrap();
        assert_eq!((refused.code(), refused.message()), (code, "refused"));
    }
    let found = finder().resolve(&query("parser", &[("lang", "go")])).ok().unwrap();
    assert_eq!(names(&resolved(Ok(found)).ok().unwrap()), vec!["gamma"]);
}
