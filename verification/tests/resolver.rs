use platform::resolver::{
    order_endpoints, parse_selectors, resolve, service_endpoints, Endpoint, OrderingPolicy,
    Service, ServicePort, CAPABILITY_LABEL, ENDPOINT_ANNOTATION, SELECTORS_ANNOTATION,
};
use platform::table::Table;

fn svc(
    name: &str,
    capability: Option<&str>,
    selectors_json: Option<&str>,
    endpoint: Option<&str>,
    ports: &[(&str, i32)],
) -> Service {
    let mut labels: Table<String, String> = Table::new();
    if let Some(c) = capability {
        labels.insert(CAPABILITY_LABEL.to_string(), c.to_string());
    }
    let mut annotations: Table<String, String> = Table::new();
    if let Some(j) = selectors_json {
        annotations.insert(SELECTORS_ANNOTATION.to_string(), j.to_string());
    }
    if let Some(e) = endpoint {
        annotations.insert(ENDPOINT_ANNOTATION.to_string(), e.to_string());
    }
    Service {
        name: Some(name.to_string()),
        labels,
        annotations,
        ports: Some(
            ports
                .iter()
                .map(|(n, port)| ServicePort {
                    name: Some(n.to_string()),
                    port: *port,
                })
                .collect(),
        ),
    }
}

fn q(pairs: &[(&str, &str)]) -> Table<String, String> {
    let mut t: Table<String, String> = Table::new();
    for (k, v) in pairs {
        t.insert(k.to_string(), v.to_string());
    }
    t
}

#[test]
fn resolves_parser_by_extension() {
    let services = vec![
        svc(
            "parser-rust",
            Some("ast-parser"),
            Some(r#"{"ext":[".rs",".rlib"],"language":"rust"}"#),
            None,
            &[("grpc", 50060)],
        ),
        svc(
            "parser-python",
            Some("ast-parser"),
            Some(r#"{"ext":[".py"],"language":"python"}"#),
            None,
            &[("grpc", 50060)],
        ),
    ];
    let out = resolve(&services, "fastverk", "ast-parser", &q(&[("ext", ".rs")]), "grpc");
    assert_eq!(out.len(), 1);
    assert_eq!(
        out[0].url,
        "http://parser-rust.fastverk.svc.cluster.local:50060"
    );
    assert_eq!(out[0].port_name, "grpc");
    assert_eq!(out[0].attributes.get(&"language".to_string()).unwrap(), "rust");
}

#[test]
fn empty_selector_matches_all_in_capability() {
    // The console-plugin case: no selector, resolve every plugin's http port.
    let services = vec![
        svc("plugin-forge", Some("console-plugin"), None, None, &[("http", 8080), ("grpc", 50053)]),
        svc("plugin-depot", Some("console-plugin"), None, None, &[("http", 8080)]),
        svc("unrelated", Some("ast-parser"), None, None, &[("http", 9000)]),
    ];
    let out = resolve(&services, "fastverk", "console-plugin", &q(&[]), "http");
    assert_eq!(out.len(), 2);
    assert!(out.iter().all(|e| e.port_name == "http"));
}

#[test]
fn selector_miss_yields_nothing() {
    let services = vec![svc(
        "parser-rust",
        Some("ast-parser"),
        Some(r#"{"ext":[".rs"]}"#),
        None,
        &[("grpc", 50060)],
    )];
    let out = resolve(&services, "fastverk", "ast-parser", &q(&[("ext", ".go")]), "grpc");
    assert!(out.is_empty());
}

#[test]
fn wrong_capability_skipped() {
    let services = vec![svc("x", Some("graphd"), None, None, &[("grpc", 50051)])];
    assert!(resolve(&services, "ns", "ast-parser", &q(&[]), "").is_empty());
}

#[test]
fn endpoint_override_wins_over_ports() {
    let services = vec![svc(
        "external-thing",
        Some("graphd"),
        Some(r#"{"repo":"fastverk/botnoc"}"#),
        Some("https://graphd.example.com:443"),
        &[("grpc", 50051)],
    )];
    // No port_name: the override is returned.
    let out = resolve(&services, "ns", "graphd", &q(&[("repo", "fastverk/botnoc")]), "");
    assert_eq!(out.len(), 1);
    assert_eq!(out[0].url, "https://graphd.example.com:443");
    assert_eq!(out[0].port_name, "");
    // A named-port query can't be satisfied by a raw-URL override.
    assert!(resolve(&services, "ns", "graphd", &q(&[]), "grpc").is_empty());
}

#[test]
fn all_named_ports_when_port_name_empty() {
    let services = vec![svc(
        "plugin-forge",
        Some("console-plugin"),
        None,
        None,
        &[("http", 8080), ("grpc", 50053)],
    )];
    let out = resolve(&services, "fastverk", "console-plugin", &q(&[]), "");
    assert_eq!(out.len(), 2); // both named ports
}

#[test]
fn multi_key_selector_requires_all() {
    let services = vec![svc(
        "parser-rust",
        Some("ast-parser"),
        Some(r#"{"ext":[".rs"],"language":"rust"}"#),
        None,
        &[("grpc", 50060)],
    )];
    // both keys satisfied
    assert_eq!(
        resolve(&services, "ns", "ast-parser", &q(&[("ext", ".rs"), ("language", "rust")]), "grpc").len(),
        1
    );
    // one key wrong: no match
    assert!(resolve(
        &services,
        "ns",
        "ast-parser",
        &q(&[("ext", ".rs"), ("language", "go")]),
        "grpc"
    )
    .is_empty());
}

#[test]
fn malformed_selectors_advertise_nothing() {
    let broken = "{\"ext\":".to_string();
    assert_eq!(parse_selectors(Some(&broken)).len(), 0);
    let list = "[1,2]".to_string();
    assert_eq!(parse_selectors(Some(&list)).len(), 0);
    assert_eq!(parse_selectors(None).len(), 0);
    // Resolution does not fail on a bad Service: it matches only the empty selector.
    let s = svc("bad", Some("graphd"), Some("not json"), None, &[("grpc", 1)]);
    assert_eq!(service_endpoints(&s, "ns", "graphd", &q(&[]), "").len(), 1);
    assert_eq!(service_endpoints(&s, "ns", "graphd", &q(&[("a", "b")]), "").len(), 0);
}

#[test]
fn numbers_and_flags_are_advertised_by_their_text() {
    let raw = r#"{"port":50060,"tls":true,"off":false,"ratio":1.5,"none":null,"empty":[],"mixed":["a",1,"b"],"object":{"x":"y"}}"#.to_string();
    let offered = parse_selectors(Some(&raw));
    let get = |k: &str| offered.get(&k.to_string()).cloned();
    assert_eq!(get("port"), Some(vec!["50060".to_string()]));
    assert_eq!(get("tls"), Some(vec!["true".to_string()]));
    assert_eq!(get("off"), Some(vec!["false".to_string()]));
    assert_eq!(get("ratio"), Some(vec!["1.5".to_string()]));
    assert_eq!(get("none"), None);
    assert_eq!(get("empty"), None);
    assert_eq!(get("mixed"), Some(vec!["a".to_string(), "b".to_string()]));
    assert_eq!(get("object"), None);
}

#[test]
fn attributes_are_joined_with_commas() {
    let s = svc(
        "p",
        Some("ast-parser"),
        Some(r#"{"ext":[".rs",".rlib"]}"#),
        None,
        &[("grpc", 50060)],
    );
    let out = service_endpoints(&s, "ns", "ast-parser", &q(&[]), "grpc");
    assert_eq!(out[0].attributes.get(&"ext".to_string()).unwrap(), ".rs,.rlib");
    assert_eq!(out[0].service, "p");
    assert_eq!(out[0].namespace, "ns");
}

#[test]
fn a_service_without_name_ports_or_port_names_has_no_endpoint() {
    let mut nameless = svc("x", Some("graphd"), None, None, &[("grpc", 1)]);
    nameless.name = None;
    assert!(service_endpoints(&nameless, "ns", "graphd", &q(&[]), "").is_empty());
    let mut portless = svc("x", Some("graphd"), None, None, &[]);
    portless.ports = None;
    assert!(service_endpoints(&portless, "ns", "graphd", &q(&[]), "").is_empty());
    let mut unnamed = svc("x", Some("graphd"), None, None, &[]);
    unnamed.ports = Some(vec![ServicePort { name: None, port: 9 }]);
    assert!(service_endpoints(&unnamed, "ns", "graphd", &q(&[]), "").is_empty());
}

#[test]
fn endpoints_come_sorted_by_url() {
    let services = vec![
        svc("zeta", Some("c"), None, None, &[("http", 1)]),
        svc("alpha", Some("c"), None, None, &[("http", 2), ("grpc", 1)]),
        svc("mid", Some("c"), None, Some("http://alpha.ns.svc.cluster.local:1"), &[]),
    ];
    let out = resolve(&services, "ns", "c", &q(&[]), "");
    let urls: Vec<&str> = out.iter().map(|e| e.url.as_str()).collect();
    assert_eq!(
        urls,
        vec![
            "http://alpha.ns.svc.cluster.local:1",
            "http://alpha.ns.svc.cluster.local:1",
            "http://alpha.ns.svc.cluster.local:2",
            "http://zeta.ns.svc.cluster.local:1",
        ]
    );
    // Equal urls stay in the order of their Services.
    assert_eq!(out[0].service, "alpha");
    assert_eq!(out[1].service, "mid");
    assert_eq!(
        resolve(&services, "ns", "c", &q(&[]), "").len(),
        out.len()
    );
}

fn endpoint(service: &str) -> Endpoint {
    Endpoint {
        url: format!("http://{service}"),
        port_name: String::new(),
        attributes: q(&[]),
        service: service.to_string(),
        namespace: String::new(),
    }
}

#[test]
fn priority_orders_lowest_first_and_unknown_last() {
    let mut priorities: Table<String, i64> = Table::new();
    priorities.insert("slow".to_string(), 20);
    priorities.insert("fast".to_string(), -3);
    priorities.insert("twin".to_string(), 20);
    let list = || vec![endpoint("unknown"), endpoint("slow"), endpoint("fast"), endpoint("twin")];
    let names = |v: &Vec<Endpoint>| v.iter().map(|e| e.service.clone()).collect::<Vec<_>>();
    let out = order_endpoints(list(), OrderingPolicy::Priority, &priorities);
    assert_eq!(names(&out), vec!["fast", "slow", "twin", "unknown"]);
    let out = order_endpoints(list(), OrderingPolicy::Unordered, &priorities);
    assert_eq!(names(&out), vec!["unknown", "slow", "fast", "twin"]);
}
