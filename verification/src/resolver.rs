//! The pure capability/selector to endpoints mapping.
//!
//! A Service advertises a *capability* (a label) and a set of *selector attributes* (an
//! annotation that holds a JSON object). Resolving is a pure function of the Services in
//! the cache plus the query.

use crate::json::{collect_texts, json_parse, texts_of, Json, JsonTree};
use crate::messages::{seen, texts};
use crate::search::origin_of;
use crate::sorted::was_there;
use crate::sorting::{sort, sorting_is_unique, stably_sorted, views, Ranked};
use crate::table::{deep, Plain, Table};
use crate::text::{
    at_or_before, i32_text, i64_of, lex_le, lex_total, lex_transitive, same, signed_decimal,
    signed_value,
};
use vstd::prelude::*;

verus! {

/// Label whose value is the capability a Service serves (the List filter key).
pub const CAPABILITY_LABEL: &'static str = "finder.fastverk.dev/capability";

/// Annotation holding a JSON object of advertised selector attributes, e.g.
/// `{"ext":[".rs",".rlib"],"language":"rust"}`. A value is a string or a string array.
/// Absent: the Service matches only the empty selector.
pub const SELECTORS_ANNOTATION: &'static str = "finder.fastverk.dev/selectors";

/// Annotation pinning an explicit endpoint URL (for external / non-Service targets). When
/// present it wins over named-port derivation.
pub const ENDPOINT_ANNOTATION: &'static str = "finder.fastverk.dev/endpoint";

// ── the data ────────────────────────────────────────────────────────────────

/// A port of a Service.
#[derive(Debug)]
pub struct ServicePort {
    pub name: Option<String>,
    pub port: i32,
}

/// A port by its characters.
pub struct ServicePortView {
    pub name: Option<Seq<char>>,
    pub port: int,
}

impl View for ServicePort {
    type V = ServicePortView;

    open spec fn view(&self) -> ServicePortView {
        ServicePortView { name: seen(self.name), port: self.port as int }
    }
}

/// A Service, as far as discovery reads it.
pub struct Service {
    pub name: Option<String>,
    pub labels: Table<String, String>,
    pub annotations: Table<String, String>,
    /// The ports of its spec, where it has them.
    pub ports: Option<Vec<ServicePort>>,
}

/// A Service by its characters.
pub struct ServiceView {
    pub name: Option<Seq<char>>,
    pub labels: Map<Seq<char>, Seq<char>>,
    pub annotations: Map<Seq<char>, Seq<char>>,
    pub ports: Option<Seq<ServicePortView>>,
}

impl View for Service {
    type V = ServiceView;

    open spec fn view(&self) -> ServiceView {
        ServiceView {
            name: seen(self.name),
            labels: deep(self.labels@),
            annotations: deep(self.annotations@),
            ports: match self.ports {
                Some(ports) => Some(views(ports@)),
                None => None,
            },
        }
    }
}

/// Where a capability is served.
pub struct Endpoint {
    pub url: String,
    pub port_name: String,
    pub attributes: Table<String, String>,
    pub service: String,
    pub namespace: String,
}

/// An endpoint by its characters.
#[verifier::ext_equal]
pub struct EndpointView {
    pub url: Seq<char>,
    pub port_name: Seq<char>,
    pub attributes: Map<Seq<char>, Seq<char>>,
    pub service: Seq<char>,
    pub namespace: Seq<char>,
}

impl View for Endpoint {
    type V = EndpointView;

    open spec fn view(&self) -> EndpointView {
        EndpointView {
            url: self.url@,
            port_name: self.port_name@,
            attributes: deep(self.attributes@),
            service: self.service@,
            namespace: self.namespace@,
        }
    }
}

/// Endpoints are ordered by their url.
impl Ranked for Endpoint {
    open spec fn before_or_with(a: EndpointView, b: EndpointView) -> bool {
        lex_le(a.url, b.url)
    }

    proof fn ranks_are_total(a: EndpointView, b: EndpointView) {
        lex_total(a.url, b.url);
    }

    proof fn ranks_are_transitive(a: EndpointView, b: EndpointView, c: EndpointView) {
        lex_transitive(a.url, b.url, c.url);
    }

    fn goes_before_or_with(&self, other: &Self) -> (r: bool) {
        at_or_before(self.url.as_str(), other.url.as_str())
    }
}

// ── advertised attributes ───────────────────────────────────────────────────

/// Advertised selector attributes: key to one or more values.
pub type Advertised = Table<String, Vec<String>>;

/// Advertised attributes by their characters.
pub open spec fn advertised_map(t: Map<Seq<char>, Vec<String>>) -> Map<Seq<char>, Seq<Seq<char>>> {
    t.map_values(|v: Vec<String>| texts(v@))
}

/// The values that an attribute advertises, where it is of a kind that can: a text, the
/// texts of a list, and a number or a flag by its text, so that `{"port":50060}` works.
pub open spec fn attribute_values(v: JsonTree) -> Seq<Seq<char>> {
    match v {
        JsonTree::Text(s) => seq![s],
        JsonTree::List(items) => texts_of(items),
        JsonTree::Number(n) => seq![n],
        JsonTree::Flag(b) => seq![
            if b {
                "true"@
            } else {
                "false"@
            },
        ],
        _ => Seq::empty(),
    }
}

/// What an object's entries advertise. An attribute without a value is left out.
pub open spec fn advertised_by(entries: Seq<(Seq<char>, JsonTree)>) -> Map<
    Seq<char>,
    Seq<Seq<char>>,
>
    decreases entries.len(),
{
    if entries.len() == 0 {
        Map::empty()
    } else {
        let (key, v) = entries.last();
        let before = advertised_by(entries.drop_last());
        if attribute_values(v).len() == 0 {
            before
        } else {
            before.insert(key, attribute_values(v))
        }
    }
}

/// What an annotation advertises. A missing or malformed one advertises nothing.
pub open spec fn advertised(value: Option<JsonTree>) -> Map<Seq<char>, Seq<Seq<char>>> {
    match value {
        Some(JsonTree::Entries(entries)) => advertised_by(entries),
        _ => Map::empty(),
    }
}

fn values(v: &Json) -> (r: Vec<String>)
    ensures
        texts(r@) == attribute_values(v.tree()),
{
    let mut r: Vec<String> = Vec::new();
    match v {
        Json::Text(s) => {
            r.push(s.clone());
            assert(texts(r@) =~= seq![s@]);
        },
        Json::List(_) => {
            if let Some(items) = v.as_array() {
                r = collect_texts(items);
            }
        },
        Json::Number(n) => {
            r.push(n.clone());
            assert(texts(r@) =~= seq![n@]);
        },
        Json::Flag(b) => {
            if *b {
                r.push("true".to_owned());
            } else {
                r.push("false".to_owned());
            }
            assert(texts(r@) =~= attribute_values(v.tree()));
        },
        _ => {
            assert(texts(r@) =~= Seq::<Seq<char>>::empty());
        },
    }
    r
}

/// The attributes that a parsed annotation advertises.
pub fn advertise(value: &Json) -> (r: Advertised)
    ensures
        advertised_map(r@) == advertised(Some(value.tree())),
{
    let mut r: Advertised = Table::new();
    assert(advertised_map(r@) =~= Map::empty());
    if let Some(entries) = value.as_object() {
        let ghost all = crate::json::entry_trees(entries@);
        let mut i: usize = 0;
        while i < entries.len()
            invariant
                i <= entries.len(),
                all == crate::json::entry_trees(entries@),
                advertised_map(r@) == advertised_by(all.take(i as int)),
            decreases entries.len() - i,
        {
            assert(all.take(i + 1).drop_last() =~= all.take(i as int));
            assert(all.take(i + 1).last() == (entries@[i as int].0@, entries@[i as int].1.tree()));
            let found = values(&entries[i].1);
            if found.len() > 0 {
                let ghost before = r@;
                let ghost key = entries@[i as int].0@;
                r.insert(entries[i].0.clone(), found);
                assert(advertised_map(r@) =~= advertised_map(before).insert(
                    key,
                    texts(found@),
                ));
            }
            i = i + 1;
        }
        assert(all.take(i as int) =~= all);
    }
    r
}

/// What an annotation's text says as JSON, where there is one.
pub open spec fn said(raw: Option<Seq<char>>) -> Option<JsonTree> {
    match raw {
        Some(text) => json_parse(text),
        None => None,
    }
}

/// Parse the selectors annotation into key and values. Tolerant: resolution must not fail
/// on one bad Service.
pub fn parse_selectors(raw: Option<&String>) -> (r: Advertised)
    ensures
        advertised_map(r@) == advertised(
            said(
                match raw {
                    Some(s) => Some(s@),
                    None => None,
                },
            ),
        ),
{
    if let Some(text) = raw {
        if let Some(value) = Json::parse(text.as_str()) {
            return advertise(&value);
        }
    }
    let r: Advertised = Table::new();
    assert(advertised_map(r@) =~= Map::empty());
    r
}

/// Every key of the query is advertised with the value that the query wants.
pub open spec fn matches_query(
    query: Map<Seq<char>, Seq<char>>,
    advertised: Map<Seq<char>, Seq<Seq<char>>>,
) -> bool {
    forall|k: Seq<char>| #[trigger]
        query.contains_key(k) ==> advertised.contains_key(k) && advertised[k].contains(query[k])
}

/// One of the values is the one wanted.
fn offers(found: &Vec<String>, want: &str) -> (r: bool)
    ensures
        r == texts(found@).contains(want@),
{
    let mut i: usize = 0;
    while i < found.len()
        invariant
            i <= found.len(),
            forall|j: int| 0 <= j < i ==> (#[trigger] found@[j])@ != want@,
        decreases found.len() - i,
    {
        if same(found[i].as_str(), want) {
            assert(texts(found@)[i as int] == want@);
            return true;
        }
        i = i + 1;
    }
    assert forall|j: int| 0 <= j < texts(found@).len() implies texts(found@)[j] != want@ by {
        assert(texts(found@)[j] == found@[j]@);
    }
    false
}

/// A Service matches a query when, for every key in the query, the Service advertises
/// that key and the query value is among its advertised values. An empty query matches
/// every Service carrying the capability.
pub fn selector_matches(query: &Table<String, String>, offered: &Advertised) -> (r: bool)
    ensures
        r == matches_query(deep(query@), advertised_map(offered@)),
{
    let ghost wanted = deep(query@);
    let ghost there = advertised_map(offered@);
    proof {
        query.view_is_lookup();
    }
    let mut i: usize = 0;
    while i < query.len()
        invariant
            i <= query.pairs().len(),
            wanted == deep(query@),
            there == advertised_map(offered@),
            forall|j: int|
                #![trigger query.pairs()[j]]
                0 <= j < i ==> there.contains_key(query.pairs()[j].0@)
                    && there[query.pairs()[j].0@].contains(wanted[query.pairs()[j].0@]),
        decreases query.pairs().len() - i,
    {
        let key = query.key_at(i);
        let ghost k = key@;
        proof {
            query.entry_counts(i as int);
        }
        // The first entry under a key is the one that counts.
        let kept = match (query.get(key), offered.get(key)) {
            (Some(want), Some(found)) => offers(found, want.as_str()),
            _ => false,
        };
        if !kept {
            assert(wanted.contains_key(k));
            return false;
        }
        i = i + 1;
    }
    assert forall|k: Seq<char>| #[trigger] wanted.contains_key(k) implies there.contains_key(k)
        && there[k].contains(wanted[k]) by {
        let j = query.index_of(k);
        assert(query.pairs()[j].0@ == k);
    }
    true
}

/// The texts with the separator between them.
pub open spec fn joined(parts: Seq<Seq<char>>, separator: Seq<char>) -> Seq<char>
    decreases parts.len(),
{
    if parts.len() == 0 {
        Seq::empty()
    } else if parts.len() == 1 {
        parts[0]
    } else {
        joined(parts.drop_last(), separator) + separator + parts.last()
    }
}

fn join(parts: &Vec<String>, separator: &str) -> (r: String)
    ensures
        r@ == joined(texts(parts@), separator@),
{
    let ghost all = texts(parts@);
    let mut r: String = String::new();
    let mut i: usize = 0;
    while i < parts.len()
        invariant
            i <= parts.len(),
            all == texts(parts@),
            r@ == joined(all.take(i as int), separator@),
        decreases parts.len() - i,
    {
        assert(all.take(i + 1).drop_last() =~= all.take(i as int));
        assert(all.take(i + 1).last() == parts@[i as int]@);
        r = if i == 0 {
            parts[i].clone()
        } else {
            r.concat(separator).concat(parts[i].as_str())
        };
        i = i + 1;
    }
    assert(all.take(i as int) =~= all);
    r
}

/// Advertised attributes with their values joined by commas.
pub open spec fn flattened(advertised: Map<Seq<char>, Seq<Seq<char>>>) -> Map<
    Seq<char>,
    Seq<char>,
> {
    advertised.map_values(|v: Seq<Seq<char>>| joined(v, ","@))
}

/// Flatten advertised attributes to key and value for the response (arrays joined with
/// ',') so a consumer can distinguish multiple resolved backends.
pub fn flatten(offered: &Advertised) -> (r: Table<String, String>)
    ensures
        deep(r@) == flattened(advertised_map(offered@)),
{
    let ghost there = advertised_map(offered@);
    let mut r: Table<String, String> = Table::new();
    let mut i: usize = 0;
    while i < offered.len()
        invariant
            i <= offered.pairs().len(),
            there == advertised_map(offered@),
            forall|k: Seq<char>| #[trigger]
                r@.contains_key(k) ==> there.contains_key(k) && r@[k]@ == joined(there[k], ","@),
            forall|j: int|
                #![trigger offered.pairs()[j]]
                0 <= j < i ==> r@.contains_key(offered.pairs()[j].0@),
        decreases offered.pairs().len() - i,
    {
        let key = offered.key_at(i);
        proof {
            offered.entry_counts(i as int);
        }
        if let Some(found) = offered.get(key) {
            r.insert(key.clone(), join(found, ","));
        }
        i = i + 1;
    }
    assert(deep(r@) =~= flattened(there)) by {
        assert forall|k: Seq<char>| there.contains_key(k) implies r@.contains_key(k) by {
            let j = offered.index_of(k);
            assert(offered.pairs()[j].0@ == k);
        }
    }
    r
}

// ── endpoints ───────────────────────────────────────────────────────────────

/// The annotation's text, where the Service has it.
pub open spec fn annotation(svc: ServiceView, key: Seq<char>) -> Option<Seq<char>> {
    if svc.annotations.contains_key(key) {
        Some(svc.annotations[key])
    } else {
        None
    }
}

/// The port has a name, and the one asked for where one is asked for.
pub open spec fn port_wanted(port: ServicePortView, port_name: Seq<char>) -> bool {
    port.name is Some && (port_name.len() == 0 || port.name == Some(port_name))
}

/// The endpoint of a named port, by cluster DNS.
pub open spec fn port_endpoint(
    port: ServicePortView,
    name: Seq<char>,
    ns: Seq<char>,
    attributes: Map<Seq<char>, Seq<char>>,
) -> EndpointView {
    EndpointView {
        url: "http://"@ + name + "."@ + ns + ".svc.cluster.local:"@ + signed_decimal(port.port),
        port_name: port.name->0,
        attributes,
        service: name,
        namespace: ns,
    }
}

/// The endpoints of a Service that advertises these attributes: none where it does not
/// carry the capability, does not match the selector, has no name or exposes no usable
/// port; the pinned URL where it has one and no port was asked for; else one for every
/// named port that is wanted.
pub open spec fn endpoints_advertising(
    svc: ServiceView,
    ns: Seq<char>,
    capability: Seq<char>,
    query: Map<Seq<char>, Seq<char>>,
    port_name: Seq<char>,
    advertised: Map<Seq<char>, Seq<Seq<char>>>,
) -> Seq<EndpointView> {
    if !(svc.labels.contains_key(CAPABILITY_LABEL@) && svc.labels[CAPABILITY_LABEL@]
        == capability) {
        Seq::empty()
    } else if !matches_query(query, advertised) || svc.name is None {
        Seq::empty()
    } else if svc.annotations.contains_key(ENDPOINT_ANNOTATION@) {
        if port_name.len() == 0 {
            seq![
                EndpointView {
                    url: svc.annotations[ENDPOINT_ANNOTATION@],
                    port_name: Seq::empty(),
                    attributes: flattened(advertised),
                    service: svc.name->0,
                    namespace: ns,
                },
            ]
        } else {
            // A raw URL cannot satisfy a named-port query.
            Seq::empty()
        }
    } else {
        match svc.ports {
            None => Seq::empty(),
            Some(ports) => ports.filter(|p: ServicePortView| port_wanted(p, port_name)).map_values(
                |p: ServicePortView| port_endpoint(p, svc.name->0, ns, flattened(advertised)),
            ),
        }
    }
}

/// The endpoints of a Service, with what its annotation advertises.
pub open spec fn endpoints_of(
    svc: ServiceView,
    ns: Seq<char>,
    capability: Seq<char>,
    query: Map<Seq<char>, Seq<char>>,
    port_name: Seq<char>,
) -> Seq<EndpointView> {
    endpoints_advertising(
        svc,
        ns,
        capability,
        query,
        port_name,
        advertised(said(annotation(svc, SELECTORS_ANNOTATION@))),
    )
}

fn named_ports(
    ports: &Vec<ServicePort>,
    name: &String,
    ns: &str,
    port_name: &str,
    attributes: &Table<String, String>,
) -> (r: Vec<Endpoint>)
    ensures
        views(r@) == views(ports@).filter(
            |p: ServicePortView| port_wanted(p, port_name@),
        ).map_values(
            |p: ServicePortView| port_endpoint(p, name@, ns@, deep(attributes@)),
        ),
{
    let ghost all = views(ports@);
    let ghost wanted = |p: ServicePortView| port_wanted(p, port_name@);
    let ghost made = |p: ServicePortView| port_endpoint(p, name@, ns@, deep(attributes@));
    let mut r: Vec<Endpoint> = Vec::new();
    proof {
        reveal(Seq::filter);
    }
    assert(views(r@) =~= all.take(0).filter(wanted).map_values(made));
    let mut i: usize = 0;
    while i < ports.len()
        invariant
            i <= ports.len(),
            all == views(ports@),
            wanted == |p: ServicePortView| port_wanted(p, port_name@),
            made == |p: ServicePortView| port_endpoint(p, name@, ns@, deep(attributes@)),
            views(r@) == all.take(i as int).filter(wanted).map_values(made),
        decreases ports.len() - i,
    {
        let p = &ports[i];
        let ghost so_far = all.take(i as int).filter(wanted);
        proof {
            reveal(Seq::filter);
            assert(all.take(i + 1).drop_last() =~= all.take(i as int));
            assert(all.take(i + 1).last() == p@);
        }
        if let Some(own) = &p.name {
            if port_name.is_empty() || same(own.as_str(), port_name) {
                let ghost before = views(r@);
                let e = Endpoint {
                    url: "http://".to_owned().concat(name.as_str()).concat(".").concat(ns).concat(
                        ".svc.cluster.local:",
                    ).concat(i32_text(p.port).as_str()),
                    port_name: own.clone(),
                    attributes: attributes.copied(),
                    service: name.clone(),
                    namespace: ns.to_owned(),
                };
                assert(e@ == made(p@));
                r.push(e);
                assert(views(r@) =~= before.push(e@));
                assert(so_far.push(p@).map_values(made) =~= so_far.map_values(made).push(e@));
            }
        }
        i = i + 1;
    }
    assert(all.take(i as int) =~= all);
    r
}

/// The endpoints of a Service that advertises the given attributes.
pub fn service_endpoints_advertising(
    svc: &Service,
    ns: &str,
    capability: &str,
    query: &Table<String, String>,
    port_name: &str,
    offered: &Advertised,
) -> (r: Vec<Endpoint>)
    ensures
        views(r@) == endpoints_advertising(
            svc@,
            ns@,
            capability@,
            deep(query@),
            port_name@,
            advertised_map(offered@),
        ),
{
    let mut r: Vec<Endpoint> = Vec::new();
    assert(views(r@) =~= Seq::<EndpointView>::empty());
    // The cache is label-filtered; this re-check also supports a watch that feeds
    // several capabilities.
    let carries = match svc.labels.get(&CAPABILITY_LABEL.to_owned()) {
        Some(own) => same(own.as_str(), capability),
        None => false,
    };
    if !carries || !selector_matches(query, offered) {
        return r;
    }
    let name = match &svc.name {
        Some(name) => name,
        None => {
            return r;
        },
    };
    let attributes = flatten(offered);
    // Explicit endpoint override (external / non-Service target).
    if let Some(url) = svc.annotations.get(&ENDPOINT_ANNOTATION.to_owned()) {
        if port_name.is_empty() {
            let e = Endpoint {
                url: url.clone(),
                port_name: String::new(),
                attributes,
                service: name.clone(),
                namespace: ns.to_owned(),
            };
            r.push(e);
            assert(views(r@) =~= seq![e@]);
        }
        return r;
    }
    // Derive from named ports, by cluster DNS.
    match &svc.ports {
        Some(ports) => named_ports(ports, name, ns, port_name, &attributes),
        None => r,
    }
}

/// Map one Service to its matching endpoints for a capability, a query and a port name.
pub fn service_endpoints(
    svc: &Service,
    ns: &str,
    capability: &str,
    query: &Table<String, String>,
    port_name: &str,
) -> (r: Vec<Endpoint>)
    ensures
        views(r@) == endpoints_of(svc@, ns@, capability@, deep(query@), port_name@),
{
    let offered = parse_selectors(svc.annotations.get(&SELECTORS_ANNOTATION.to_owned()));
    service_endpoints_advertising(svc, ns, capability, query, port_name, &offered)
}

/// The endpoints of the Services, one Service after the other.
pub open spec fn endpoints_in(
    services: Seq<ServiceView>,
    ns: Seq<char>,
    capability: Seq<char>,
    query: Map<Seq<char>, Seq<char>>,
    port_name: Seq<char>,
) -> Seq<EndpointView>
    decreases services.len(),
{
    if services.len() == 0 {
        Seq::empty()
    } else {
        endpoints_in(services.drop_last(), ns, capability, query, port_name) + endpoints_of(
            services.last(),
            ns,
            capability,
            query,
            port_name,
        )
    }
}

/// Resolve across all Services in the cache snapshot, in a stable order by url, so that
/// a watch can tell an unchanged snapshot cheaply.
pub fn resolve(
    services: &[Service],
    ns: &str,
    capability: &str,
    query: &Table<String, String>,
    port_name: &str,
) -> (r: Vec<Endpoint>)
    ensures
        stably_sorted::<Endpoint>(
            endpoints_in(views(services@), ns@, capability@, deep(query@), port_name@),
            views(r@),
        ),
{
    let ghost all = views(services@);
    let mut out: Vec<Endpoint> = Vec::new();
    assert(views(out@) =~= Seq::<EndpointView>::empty());
    let mut i: usize = 0;
    while i < services.len()
        invariant
            i <= services@.len(),
            all == views(services@),
            views(out@) == endpoints_in(
                all.take(i as int),
                ns@,
                capability@,
                deep(query@),
                port_name@,
            ),
        decreases services@.len() - i,
    {
        assert(all.take(i + 1).drop_last() =~= all.take(i as int));
        assert(all.take(i + 1).last() == services@[i as int]@);
        let mut found = service_endpoints(&services[i], ns, capability, query, port_name);
        let ghost before = out@;
        let ghost added = found@;
        out.append(&mut found);
        assert(views(out@) =~= views(before) + views(added));
        i = i + 1;
    }
    assert(all.take(i as int) =~= all);
    sort(out)
}

// ── ordering policies ───────────────────────────────────────────────────────

/// How the endpoints of a group are ordered.
#[derive(Debug, Clone, Copy, PartialEq, Eq, Structural)]
pub enum OrderingPolicy {
    /// By url, as they are resolved.
    Unordered,
    /// By the priority of the backing Service, the lowest number first.
    Priority,
}

/// An endpoint with its backing Service's priority.
pub struct Prioritized {
    pub priority: i64,
    pub endpoint: Endpoint,
}

/// A prioritized endpoint by its characters.
pub struct PrioritizedView {
    pub priority: int,
    pub endpoint: EndpointView,
}

impl View for Prioritized {
    type V = PrioritizedView;

    open spec fn view(&self) -> PrioritizedView {
        PrioritizedView { priority: self.priority as int, endpoint: self.endpoint@ }
    }
}

impl Ranked for Prioritized {
    open spec fn before_or_with(a: PrioritizedView, b: PrioritizedView) -> bool {
        a.priority <= b.priority
    }

    proof fn ranks_are_total(a: PrioritizedView, b: PrioritizedView) {
    }

    proof fn ranks_are_transitive(a: PrioritizedView, b: PrioritizedView, c: PrioritizedView) {
    }

    fn goes_before_or_with(&self, other: &Self) -> (r: bool) {
        self.priority <= other.priority
    }
}

/// The priority of an endpoint: that of its backing Service, or the last of all where
/// none is known.
pub open spec fn priority_of(e: EndpointView, priorities: Map<Seq<char>, i64>) -> int {
    if priorities.contains_key(e.service) {
        priorities[e.service] as int
    } else {
        i64::MAX as int
    }
}

/// The priority that a Service's annotation gives it, or the last of all where it gives
/// none.
pub open spec fn service_priority(svc: ServiceView, key: Seq<char>) -> i64 {
    match annotation(svc, key) {
        Some(text) => match signed_value(text) {
            Some(v) => if i64::MIN <= v <= i64::MAX {
                v as i64
            } else {
                i64::MAX
            },
            None => i64::MAX,
        },
        None => i64::MAX,
    }
}

/// The priorities of the Services by their names; of two Services of one name the later
/// counts.
pub open spec fn priorities_in(services: Seq<ServiceView>, key: Seq<char>) -> Map<Seq<char>, i64>
    decreases services.len(),
{
    if services.len() == 0 {
        Map::empty()
    } else {
        let before = priorities_in(services.drop_last(), key);
        match services.last().name {
            Some(name) => before.insert(name, service_priority(services.last(), key)),
            None => before,
        }
    }
}

/// The priority that a Service's annotation gives it.
pub fn priority_of_service(svc: &Service, key: &str) -> (r: i64)
    ensures
        r == service_priority(svc@, key@),
{
    match svc.annotations.get(&key.to_owned()) {
        Some(text) => match i64_of(text.as_str()) {
            Some(priority) => priority,
            None => i64::MAX,
        },
        None => i64::MAX,
    }
}

/// The priorities of the Services by their names.
pub fn priorities(services: &[Service], key: &str) -> (r: Table<String, i64>)
    ensures
        r@ == priorities_in(views(services@), key@),
{
    let ghost all = views(services@);
    let mut r: Table<String, i64> = Table::new();
    let mut i: usize = 0;
    while i < services.len()
        invariant
            i <= services@.len(),
            all == views(services@),
            r@ == priorities_in(all.take(i as int), key@),
        decreases services@.len() - i,
    {
        assert(all.take(i + 1).drop_last() =~= all.take(i as int));
        assert(all.take(i + 1).last() == services@[i as int]@);
        if let Some(name) = &services[i].name {
            r.insert(name.clone(), priority_of_service(&services[i], key));
        }
        i = i + 1;
    }
    assert(all.take(i as int) =~= all);
    r
}

/// The endpoints with their priorities.
pub open spec fn prioritized(s: Seq<EndpointView>, priorities: Map<Seq<char>, i64>) -> Seq<
    PrioritizedView,
> {
    s.map_values(
        |e: EndpointView| PrioritizedView { priority: priority_of(e, priorities), endpoint: e },
    )
}

/// `out` is `s` under the policy.
pub open spec fn ordered(
    s: Seq<EndpointView>,
    policy: OrderingPolicy,
    priorities: Map<Seq<char>, i64>,
    out: Seq<EndpointView>,
) -> bool {
    match policy {
        OrderingPolicy::Unordered => out == s,
        OrderingPolicy::Priority => stably_sorted::<Prioritized>(
            prioritized(s, priorities),
            prioritized(out, priorities),
        ),
    }
}

impl Plain for Endpoint {
    fn copied(&self) -> (r: Self) {
        Endpoint {
            url: self.url.clone(),
            port_name: self.port_name.clone(),
            attributes: self.attributes.copied(),
            service: self.service.clone(),
            namespace: self.namespace.clone(),
        }
    }

    fn same_as(&self, other: &Self) -> (r: bool) {
        self.url == other.url && self.port_name == other.port_name && self.attributes.same_as(
            &other.attributes,
        ) && self.service == other.service && self.namespace == other.namespace
    }
}

/// The endpoints with their priorities.
fn prioritize(endpoints: &Vec<Endpoint>, priorities: &Table<String, i64>) -> (r: Vec<Prioritized>)
    ensures
        views(r@) == prioritized(views(endpoints@), priorities@),
{
    let mut r: Vec<Prioritized> = Vec::new();
    let mut i: usize = 0;
    while i < endpoints.len()
        invariant
            i <= endpoints.len(),
            r@.len() == i,
            forall|j: int|
                0 <= j < i ==> (#[trigger] r@[j])@ == (PrioritizedView {
                    priority: priority_of(endpoints@[j]@, priorities@),
                    endpoint: endpoints@[j]@,
                }),
        decreases endpoints.len() - i,
    {
        let priority: i64 = match priorities.get(&endpoints[i].service) {
            Some(priority) => *priority,
            None => i64::MAX,
        };
        r.push(Prioritized { priority, endpoint: endpoints[i].copied() });
        i = i + 1;
    }
    assert(views(r@) =~= prioritized(views(endpoints@), priorities@));
    r
}

/// The endpoints without their priorities.
pub open spec fn without_priorities(s: Seq<PrioritizedView>) -> Seq<EndpointView> {
    s.map_values(|p: PrioritizedView| p.endpoint)
}

fn strip(v: &Vec<Prioritized>) -> (r: Vec<Endpoint>)
    ensures
        views(r@) == without_priorities(views(v@)),
{
    let mut r: Vec<Endpoint> = Vec::new();
    let mut i: usize = 0;
    while i < v.len()
        invariant
            i <= v.len(),
            r@.len() == i,
            forall|j: int| 0 <= j < i ==> (#[trigger] r@[j])@ == v@[j]@.endpoint,
        decreases v.len() - i,
    {
        r.push(v[i].endpoint.copied());
        i = i + 1;
    }
    assert(views(r@) =~= without_priorities(views(v@)));
    r
}

/// Sorted endpoints have the priorities that they had.
proof fn priorities_stay(
    s: Seq<EndpointView>,
    priorities: Map<Seq<char>, i64>,
    sorted: Seq<PrioritizedView>,
)
    requires
        stably_sorted::<Prioritized>(prioritized(s, priorities), sorted),
    ensures
        prioritized(without_priorities(sorted), priorities) == sorted,
{
    let keyed = prioritized(s, priorities);
    let again = prioritized(without_priorities(sorted), priorities);
    assert forall|i: int| 0 <= i < sorted.len() implies again[i] == #[trigger] sorted[i] by {
        let j = was_there::<Prioritized>(keyed, sorted, i);
        assert(keyed[j] == (PrioritizedView {
            priority: priority_of(s[j], priorities),
            endpoint: s[j],
        }));
    }
    assert(again =~= sorted);
}

/// The endpoints in the order of the policy.
pub fn order_endpoints(
    endpoints: Vec<Endpoint>,
    policy: OrderingPolicy,
    priorities: &Table<String, i64>,
) -> (r: Vec<Endpoint>)
    ensures
        ordered(views(endpoints@), policy, priorities@, views(r@)),
{
    match policy {
        OrderingPolicy::Unordered => endpoints,
        OrderingPolicy::Priority => {
            let sorted = sort(prioritize(&endpoints, priorities));
            proof {
                priorities_stay(views(endpoints@), priorities@, views(sorted@));
            }
            strip(&sorted)
        },
    }
}

// ── what resolving keeps ────────────────────────────────────────────────────

/// An empty query matches whatever is advertised.
pub proof fn empty_query_matches_all(advertised: Map<Seq<char>, Seq<Seq<char>>>)
    ensures
        matches_query(Map::empty(), advertised),
{
}

/// A query that asks for more is matched by no more: what matches it matches every part
/// of it.
pub proof fn narrower_query_matches_less(
    part: Map<Seq<char>, Seq<char>>,
    whole: Map<Seq<char>, Seq<char>>,
    advertised: Map<Seq<char>, Seq<Seq<char>>>,
)
    requires
        part.submap_of(whole),
        matches_query(whole, advertised),
    ensures
        matches_query(part, advertised),
{
    assert forall|k: Seq<char>| #[trigger] part.contains_key(k) implies advertised.contains_key(k)
        && advertised[k].contains(part[k]) by {
        assert(whole.contains_key(k));
        assert(whole[k] == part[k]);
    }
}

/// Every endpoint of a Service is that Service's: it carries the capability, matches the
/// query, and the endpoint names it and its namespace; and where a port was asked for,
/// it is that port.
pub proof fn endpoints_are_the_service_s(
    svc: ServiceView,
    ns: Seq<char>,
    capability: Seq<char>,
    query: Map<Seq<char>, Seq<char>>,
    port_name: Seq<char>,
    advertised: Map<Seq<char>, Seq<Seq<char>>>,
    i: int,
)
    requires
        0 <= i < endpoints_advertising(
            svc,
            ns,
            capability,
            query,
            port_name,
            advertised,
        ).len(),
    ensures
        svc.labels.contains_key(CAPABILITY_LABEL@),
        svc.labels[CAPABILITY_LABEL@] == capability,
        matches_query(query, advertised),
        ({
            let e = endpoints_advertising(
                svc,
                ns,
                capability,
                query,
                port_name,
                advertised,
            )[i];
            &&& svc.name == Some(e.service)
            &&& e.namespace == ns
            &&& e.attributes == flattened(advertised)
            &&& port_name.len() > 0 ==> e.port_name == port_name
        }),
{
    if let Some(ports) = svc.ports {
        let wanted = |p: ServicePortView| port_wanted(p, port_name);
        if !svc.annotations.contains_key(ENDPOINT_ANNOTATION@) {
            ports.lemma_filter_pred(wanted, i);
        }
    }
}

/// A pinned URL wins over the ports: without a port name it is the one endpoint, with
/// one there is none.
pub proof fn pinned_url_wins(
    svc: ServiceView,
    ns: Seq<char>,
    capability: Seq<char>,
    query: Map<Seq<char>, Seq<char>>,
    port_name: Seq<char>,
    advertised: Map<Seq<char>, Seq<Seq<char>>>,
)
    requires
        svc.annotations.contains_key(ENDPOINT_ANNOTATION@),
    ensures
        ({
            let found = endpoints_advertising(
                svc,
                ns,
                capability,
                query,
                port_name,
                advertised,
            );
            &&& found.len() == 1 <==> (port_name.len() == 0 && svc.name is Some && matches_query(
                query,
                advertised,
            ) && svc.labels.contains_key(CAPABILITY_LABEL@) && svc.labels[CAPABILITY_LABEL@]
                == capability)
            &&& found.len() <= 1
            &&& found.len() == 1 ==> found[0].url == svc.annotations[ENDPOINT_ANNOTATION@]
                && found[0].port_name.len() == 0
        }),
{
}

/// Asking for one port finds among the endpoints of all ports those of that name.
pub proof fn named_port_is_among_all(
    svc: ServiceView,
    ns: Seq<char>,
    capability: Seq<char>,
    query: Map<Seq<char>, Seq<char>>,
    port_name: Seq<char>,
    advertised: Map<Seq<char>, Seq<Seq<char>>>,
    e: EndpointView,
)
    requires
        port_name.len() > 0,
        endpoints_advertising(svc, ns, capability, query, port_name, advertised).contains(e),
    ensures
        endpoints_advertising(svc, ns, capability, query, Seq::empty(), advertised).contains(e),
{
    let found = endpoints_advertising(svc, ns, capability, query, port_name, advertised);
    let all = endpoints_advertising(svc, ns, capability, query, Seq::empty(), advertised);
    let i = choose|i: int| 0 <= i < found.len() && found[i] == e;
    let ports = svc.ports->0;
    let wanted = |p: ServicePortView| port_wanted(p, port_name);
    let named = |p: ServicePortView| port_wanted(p, Seq::empty());
    let made = |p: ServicePortView| port_endpoint(p, svc.name->0, ns, flattened(advertised));
    let port = ports.filter(wanted)[i];
    ports.lemma_filter_pred(wanted, i);
    let j = origin_of(ports, wanted, i);
    assert(named(ports[j]));
    ports.lemma_filter_contains(named, j);
    let k = choose|k: int| 0 <= k < ports.filter(named).len() && ports.filter(named)[k] == port;
    assert(all[k] == made(port));
    assert(all[k] == e);
}

/// The same Services and query resolve to the same endpoints in the same order, so an
/// unchanged snapshot is told by comparing.
pub proof fn resolving_is_repeatable(
    found: Seq<EndpointView>,
    once: Seq<EndpointView>,
    again: Seq<EndpointView>,
)
    requires
        stably_sorted::<Endpoint>(found, once),
        stably_sorted::<Endpoint>(found, again),
    ensures
        once == again,
{
    sorting_is_unique::<Endpoint>(found, once, again);
}

} // verus!
