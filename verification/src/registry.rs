//! The cache of capability-labeled Services.
//!
//! `resolve` is a pure in-memory lookup over the Services that the cache holds, never a
//! round-trip of its own.

use crate::groups::{GroupSpec, GroupSpecView};
use crate::resolver::{
    self, endpoints_in, order_endpoints, ordered, priorities_in, prioritized, Endpoint,
    EndpointView, OrderingPolicy, Prioritized, Service, ServiceView,
};
use crate::sorting::{sorting_is_unique, stably_sorted, views};
use crate::table::{deep, Table};
use vstd::prelude::*;

verus! {

/// The Services of a namespace, as the watch last saw them, and the key of the annotation
/// that holds a Service's priority.
pub struct Registry {
    services: Vec<Service>,
    ns: String,
    priority_annotation: String,
}

/// The cache by its characters.
pub struct RegistryView {
    pub services: Seq<ServiceView>,
    pub ns: Seq<char>,
    pub priority_annotation: Seq<char>,
}

impl View for Registry {
    type V = RegistryView;

    closed spec fn view(&self) -> RegistryView {
        RegistryView {
            services: views(self.services@),
            ns: self.ns@,
            priority_annotation: self.priority_annotation@,
        }
    }
}

impl RegistryView {
    /// `out` is what a query resolves to.
    pub open spec fn resolves(
        self,
        capability: Seq<char>,
        selector: Map<Seq<char>, Seq<char>>,
        port_name: Seq<char>,
        out: Seq<EndpointView>,
    ) -> bool {
        stably_sorted::<Endpoint>(
            endpoints_in(self.services, self.ns, capability, selector, port_name),
            out,
        )
    }

    /// The priorities of the Services by their names, from their annotations.
    pub open spec fn priorities(self) -> Map<Seq<char>, i64> {
        priorities_in(self.services, self.priority_annotation)
    }

    /// `out` is what a group's policy resolves to: what its query does, in its order.
    pub open spec fn resolves_group(self, policy: GroupSpecView, out: Seq<EndpointView>) -> bool {
        exists|found: Seq<EndpointView>| #[trigger]
            self.resolves(policy.capability, policy.selector, policy.port_name, found) && ordered(
                found,
                policy.ordering,
                self.priorities(),
                out,
            )
    }
}

impl Registry {
    pub fn new(ns: &str, priority_annotation: &str) -> (r: Self)
        ensures
            r@ == (RegistryView {
                services: Seq::empty(),
                ns: ns@,
                priority_annotation: priority_annotation@,
            }),
    {
        let r = Registry {
            services: Vec::new(),
            ns: ns.to_owned(),
            priority_annotation: priority_annotation.to_owned(),
        };
        assert(r@.services =~= Seq::<ServiceView>::empty());
        r
    }

    /// Takes over the Services that the watch now sees.
    pub fn replace(&mut self, services: Vec<Service>)
        ensures
            final(self)@ == (RegistryView { services: views(services@), ..old(self)@ }),
    {
        self.services = services;
    }

    /// Resolve the current matching endpoints.
    pub fn resolve(
        &self,
        capability: &str,
        selector: &Table<String, String>,
        port_name: &str,
    ) -> (r: Vec<Endpoint>)
        ensures
            self@.resolves(capability@, deep(selector@), port_name@, views(r@)),
    {
        resolver::resolve(
            self.services.as_slice(),
            self.ns.as_str(),
            capability,
            selector,
            port_name,
        )
    }

    /// Resolve a named EndpointGroup: match on its capability and selector, then apply its
    /// ordering policy, with the priority of each backing Service from its annotation.
    pub fn resolve_group(&self, policy: &GroupSpec) -> (r: Vec<Endpoint>)
        ensures
            self@.resolves_group(policy@, views(r@)),
    {
        let found = self.resolve(
            policy.capability.as_str(),
            &policy.selector,
            policy.port_name.as_str(),
        );
        assert(self@.resolves(
            policy@.capability,
            policy@.selector,
            policy@.port_name,
            views(found@),
        ));
        let priorities = resolver::priorities(
            self.services.as_slice(),
            self.priority_annotation.as_str(),
        );
        order_endpoints(found, policy.ordering, &priorities)
    }
}

/// The same cache resolves a query to the same endpoints every time.
pub proof fn resolving_twice(
    registry: RegistryView,
    capability: Seq<char>,
    selector: Map<Seq<char>, Seq<char>>,
    port_name: Seq<char>,
    once: Seq<EndpointView>,
    again: Seq<EndpointView>,
)
    requires
        registry.resolves(capability, selector, port_name, once),
        registry.resolves(capability, selector, port_name, again),
    ensures
        once == again,
{
    sorting_is_unique::<Endpoint>(
        endpoints_in(registry.services, registry.ns, capability, selector, port_name),
        once,
        again,
    );
}

/// The same cache resolves a group to the same endpoints every time.
pub proof fn resolving_group_twice(
    registry: RegistryView,
    policy: GroupSpecView,
    once: Seq<EndpointView>,
    again: Seq<EndpointView>,
)
    requires
        registry.resolves_group(policy, once),
        registry.resolves_group(policy, again),
    ensures
        once == again,
{
    let priorities = registry.priorities();
    let a = choose|found: Seq<EndpointView>| #[trigger]
        registry.resolves(policy.capability, policy.selector, policy.port_name, found) && ordered(
            found,
            policy.ordering,
            priorities,
            once,
        );
    let b = choose|found: Seq<EndpointView>| #[trigger]
        registry.resolves(policy.capability, policy.selector, policy.port_name, found) && ordered(
            found,
            policy.ordering,
            priorities,
            again,
        );
    resolving_twice(registry, policy.capability, policy.selector, policy.port_name, a, b);
    if let OrderingPolicy::Priority = policy.ordering {
        sorting_is_unique::<Prioritized>(
            prioritized(a, priorities),
            prioritized(once, priorities),
            prioritized(again, priorities),
        );
        assert forall|i: int| 0 <= i < once.len() implies once[i] == again[i] by {
            assert(prioritized(once, priorities)[i].endpoint == once[i]);
            assert(prioritized(again, priorities)[i].endpoint == again[i]);
        }
        assert(prioritized(once, priorities).len() == prioritized(again, priorities).len());
        assert(once =~= again);
    }
}

} // verus!
