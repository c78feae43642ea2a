//! The finder's surface over the registry and the groups.

use crate::groups::GroupCache;
use crate::registry::Registry;
use crate::resolver::{Endpoint, EndpointView};
use crate::sorting::views;
use crate::status::{Code, Status, StatusView};
use crate::table::{deep, Plain, Table};
use crate::text::{debug_text, quoted};
use vstd::prelude::*;

verus! {

/// A query for the endpoints of a capability.
pub struct ResolveRequest {
    pub capability: String,
    pub selector: Table<String, String>,
    pub port_name: String,
}

/// A query by its characters.
#[verifier::ext_equal]
pub struct ResolveRequestView {
    pub capability: Seq<char>,
    pub selector: Map<Seq<char>, Seq<char>>,
    pub port_name: Seq<char>,
}

impl View for ResolveRequest {
    type V = ResolveRequestView;

    open spec fn view(&self) -> ResolveRequestView {
        ResolveRequestView {
            capability: self.capability@,
            selector: deep(self.selector@),
            port_name: self.port_name@,
        }
    }
}

/// The finder: the Service cache and the group policies.
pub struct FinderService {
    pub reg: Registry,
    pub groups: GroupCache,
}

pub open spec fn required(what: Seq<char>) -> StatusView {
    StatusView { code: Code::InvalidArgument, message: what + " is required"@ }
}

/// What is watched: a query, or a group by its name.
pub enum Subject {
    Query(ResolveRequest),
    Group(String),
}

impl FinderService {
    pub fn new(reg: Registry, groups: GroupCache) -> (r: Self)
        ensures
            r.reg == reg,
            r.groups == groups,
    {
        FinderService { reg, groups }
    }

    /// The endpoints of a capability. Without a capability there is no query; no match is
    /// not a failure.
    pub fn resolve(&self, req: &ResolveRequest) -> (r: Result<Vec<Endpoint>, Status>)
        ensures
            match r {
                Err(status) => req.capability@.len() == 0 && status@ == required("capability"@),
                Ok(found) => req.capability@.len() > 0 && self.reg@.resolves(
                    req@.capability,
                    req@.selector,
                    req@.port_name,
                    views(found@),
                ),
            },
    {
        if req.capability.as_str().is_empty() {
            return Err(
                Status {
                    code: Code::InvalidArgument,
                    message: "capability".to_owned().concat(" is required"),
                },
            );
        }
        Ok(self.reg.resolve(req.capability.as_str(), &req.selector, req.port_name.as_str()))
    }

    /// The endpoints of a named group, in the group's order.
    pub fn resolve_group(&self, name: &str) -> (r: Result<Vec<Endpoint>, Status>)
        ensures
            match r {
                Err(status) => if name@.len() == 0 {
                    status@ == required("name"@)
                } else {
                    !self.groups@.contains_key(name@) && status@ == (StatusView {
                        code: Code::NotFound,
                        message: "no EndpointGroup "@ + debug_text(name@),
                    })
                },
                Ok(found) => name@.len() > 0 && self.groups@.contains_key(name@)
                    && self.reg@.resolves_group(self.groups@[name@], views(found@)),
            },
    {
        if name.is_empty() {
            return Err(
                Status {
                    code: Code::InvalidArgument,
                    message: "name".to_owned().concat(" is required"),
                },
            );
        }
        match self.groups.get(name) {
            None => Err(
                Status {
                    code: Code::NotFound,
                    message: "no EndpointGroup ".to_owned().concat(quoted(name).as_str()),
                },
            ),
            Some(policy) => Ok(self.reg.resolve_group(&policy)),
        }
    }

    /// `out` is what the subject resolves to now; a group that is not there has nothing.
    pub open spec fn sees(&self, subject: Subject, out: Seq<EndpointView>) -> bool {
        match subject {
            Subject::Query(req) => self.reg@.resolves(
                req@.capability,
                req@.selector,
                req@.port_name,
                out,
            ),
            Subject::Group(name) => if self.groups@.contains_key(name@) {
                self.reg@.resolves_group(self.groups@[name@], out)
            } else {
                out.len() == 0
            },
        }
    }

    fn look(&self, subject: &Subject) -> (r: Vec<Endpoint>)
        ensures
            self.sees(*subject, views(r@)),
    {
        match subject {
            Subject::Query(req) => self.reg.resolve(
                req.capability.as_str(),
                &req.selector,
                req.port_name.as_str(),
            ),
            Subject::Group(name) => match self.groups.get(name.as_str()) {
                Some(policy) => self.reg.resolve_group(&policy),
                None => Vec::new(),
            },
        }
    }

    /// Starts watching a query.
    pub fn watch(&self, req: ResolveRequest) -> (r: Result<(Watch, WatchEvent), Status>)
        ensures
            match r {
                Err(status) => req.capability@.len() == 0 && status@ == required("capability"@),
                Ok((watch, event)) => {
                    &&& req.capability@.len() > 0
                    &&& watch.subject() == Subject::Query(req)
                    &&& self.sees(Subject::Query(req), watch.last())
                    &&& event.kind == EventKind::Snapshot
                    &&& views(event.endpoints@) == watch.last()
                },
            },
    {
        if req.capability.as_str().is_empty() {
            return Err(
                Status {
                    code: Code::InvalidArgument,
                    message: "capability".to_owned().concat(" is required"),
                },
            );
        }
        Ok(self.begin(Subject::Query(req)))
    }

    /// Starts watching a group, which may appear, disappear or change later.
    pub fn watch_group(&self, name: String) -> (r: Result<(Watch, WatchEvent), Status>)
        ensures
            match r {
                Err(status) => name@.len() == 0 && status@ == required("name"@),
                Ok((watch, event)) => {
                    &&& name@.len() > 0
                    &&& watch.subject() == Subject::Group(name)
                    &&& self.sees(Subject::Group(name), watch.last())
                    &&& event.kind == EventKind::Snapshot
                    &&& views(event.endpoints@) == watch.last()
                },
            },
    {
        if name.as_str().is_empty() {
            return Err(
                Status {
                    code: Code::InvalidArgument,
                    message: "name".to_owned().concat(" is required"),
                },
            );
        }
        Ok(self.begin(Subject::Group(name)))
    }

    /// The initial full snapshot.
    fn begin(&self, subject: Subject) -> (r: (Watch, WatchEvent))
        ensures
            r.0.subject() == subject,
            self.sees(subject, r.0.last()),
            r.1.kind == EventKind::Snapshot,
            views(r.1.endpoints@) == r.0.last(),
    {
        let last = self.look(&subject);
        let event = WatchEvent { kind: EventKind::Snapshot, endpoints: copy_endpoints(&last) };
        (Watch { subject, last }, event)
    }
}

fn copy_endpoints(v: &Vec<Endpoint>) -> (r: Vec<Endpoint>)
    ensures
        views(r@) == views(v@),
{
    let mut r: Vec<Endpoint> = Vec::new();
    let mut i: usize = 0;
    while i < v.len()
        invariant
            i <= v.len(),
            r@.len() == i,
            forall|j: int| 0 <= j < i ==> (#[trigger] r@[j])@ == v@[j]@,
        decreases v.len() - i,
    {
        r.push(v[i].copied());
        i = i + 1;
    }
    assert(views(r@) =~= views(v@));
    r
}

fn same_endpoints(a: &Vec<Endpoint>, b: &Vec<Endpoint>) -> (r: bool)
    ensures
        r == (views(a@) == views(b@)),
{
    if a.len() != b.len() {
        assert(views(a@).len() != views(b@).len());
        return false;
    }
    let mut i: usize = 0;
    while i < a.len()
        invariant
            i <= a.len(),
            a@.len() == b@.len(),
            forall|j: int| 0 <= j < i ==> (#[trigger] a@[j])@ == b@[j]@,
        decreases a.len() - i,
    {
        if !a[i].same_as(&b[i]) {
            assert(views(a@)[i as int] != views(b@)[i as int]);
            return false;
        }
        i = i + 1;
    }
    assert(views(a@) =~= views(b@));
    true
}

// ── watching ────────────────────────────────────────────────────────────────

/// What an event brings.
#[derive(Debug, Clone, Copy, PartialEq, Eq, Structural)]
pub enum EventKind {
    /// The first full set.
    Snapshot,
    /// A new full set.
    Changed,
}

/// A full set of endpoints, for a subscriber.
pub struct WatchEvent {
    pub kind: EventKind,
    pub endpoints: Vec<Endpoint>,
}

/// A notification that a subscriber's watch wakes on.
#[derive(Debug, Clone, Copy, PartialEq, Eq, Structural)]
pub enum Wake {
    /// Something changed.
    Ping,
    /// Notifications were missed.
    Lagged,
    /// There will be no more notifications.
    Closed,
}

/// What a watch does when it wakes.
pub enum WatchAction {
    /// Send the event.
    Send(WatchEvent),
    /// Nothing changed for this subscriber.
    Wait,
    End,
}

/// One subscriber's watch.
pub struct Watch {
    subject: Subject,
    last: Vec<Endpoint>,
}

impl Watch {
    pub closed spec fn subject(&self) -> Subject {
        self.subject
    }

    /// The set that the subscriber was sent last.
    pub closed spec fn last(&self) -> Seq<EndpointView> {
        views(self.last@)
    }

    /// A change is sent in full; where nothing changed for this subscriber it is not
    /// woken, and a closed notifier ends the watch.
    pub fn wake(&mut self, wake: Wake, finder: &FinderService) -> (r: WatchAction)
        ensures
            final(self).subject() == old(self).subject(),
            match r {
                WatchAction::End => wake == Wake::Closed && final(self).last() == old(self).last(),
                WatchAction::Wait => {
                    &&& wake != Wake::Closed
                    &&& final(self).last() == old(self).last()
                    &&& finder.sees(old(self).subject(), old(self).last())
                },
                WatchAction::Send(event) => {
                    &&& wake != Wake::Closed
                    &&& event.kind == EventKind::Changed
                    &&& finder.sees(old(self).subject(), views(event.endpoints@))
                    &&& views(event.endpoints@) != old(self).last()
                    &&& final(self).last() == views(event.endpoints@)
                },
            },
    {
        if let Wake::Closed = wake {
            return WatchAction::End;
        }
        let current = finder.look(&self.subject);
        if same_endpoints(&current, &self.last) {
            return WatchAction::Wait;
        }
        let event = WatchEvent { kind: EventKind::Changed, endpoints: copy_endpoints(&current) };
        self.last = current;
        WatchAction::Send(event)
    }
}

} // verus!
