//! The finder's client side: what is asked, what is kept, and when to try again.

use crate::resolver::{Endpoint, EndpointView};
use crate::service::{ResolveRequest, ResolveRequestView};
use crate::sorting::views;
use crate::status::{Code, Status};
use crate::table::{deep, Table};
use vstd::prelude::*;

verus! {

/// The pairs as a table; of two pairs with one key the later counts.
pub open spec fn pairs_map(pairs: Seq<(&str, &str)>) -> Map<Seq<char>, Seq<char>>
    decreases pairs.len(),
{
    if pairs.len() == 0 {
        Map::empty()
    } else {
        pairs_map(pairs.drop_last()).insert(pairs.last().0@, pairs.last().1@)
    }
}

pub fn selector_map(pairs: &[(&str, &str)]) -> (r: Table<String, String>)
    ensures
        deep(r@) == pairs_map(pairs@),
{
    let mut r: Table<String, String> = Table::new();
    assert(deep(r@) =~= Map::<Seq<char>, Seq<char>>::empty());
    let mut i: usize = 0;
    while i < pairs.len()
        invariant
            i <= pairs@.len(),
            deep(r@) == pairs_map(pairs@.take(i as int)),
        decreases pairs@.len() - i,
    {
        let (k, v) = pairs[i];
        let ghost before = r@;
        assert(pairs@.take(i + 1).drop_last() =~= pairs@.take(i as int));
        r.insert(k.to_owned(), v.to_owned());
        assert(deep(r@) =~= deep(before).insert(k@, v@));
        i = i + 1;
    }
    assert(pairs@.take(i as int) =~= pairs@);
    r
}

/// A finder handle: where the finder is.
#[derive(Debug)]
pub struct Finder {
    endpoint: String,
}

impl View for Finder {
    type V = Seq<char>;

    closed spec fn view(&self) -> Seq<char> {
        self.endpoint@
    }
}

impl Clone for Finder {
    fn clone(&self) -> (r: Self)
        ensures
            r@ == self@,
    {
        Finder { endpoint: self.endpoint.clone() }
    }
}

impl Finder {
    /// Create a handle for the finder at `endpoint`. Connecting is left to the first use,
    /// so this never fails.
    pub fn connect(endpoint: String) -> (r: Self)
        ensures
            r@ == endpoint@,
    {
        Finder { endpoint }
    }

    /// Where the finder is.
    pub fn endpoint(&self) -> (r: &str)
        ensures
            r@ == self@,
    {
        self.endpoint.as_str()
    }

    /// The request for a capability.
    pub fn request(
        &self,
        capability: &str,
        selector: &[(&str, &str)],
        port_name: &str,
    ) -> (r: ResolveRequest)
        ensures
            r@ == (ResolveRequestView {
                capability: capability@,
                selector: pairs_map(selector@),
                port_name: port_name@,
            }),
    {
        ResolveRequest {
            capability: capability.to_owned(),
            selector: selector_map(selector),
            port_name: port_name.to_owned(),
        }
    }
}

/// What a resolve yields: what the finder answered, or the failure that it answered with.
/// A finder that is unavailable yields the empty set until it returns, and the caller falls
/// back to its own default.
pub fn resolved(reply: Result<Vec<Endpoint>, Status>) -> (r: Result<Vec<Endpoint>, Status>)
    ensures
        match reply {
            Ok(found) => r == Ok::<Vec<Endpoint>, Status>(found),
            Err(status) => if status@.code == Code::Unavailable {
                r matches Ok(none) && none@.len() == 0
            } else {
                r == Err::<Vec<Endpoint>, Status>(status)
            },
        },
{
    match reply {
        Ok(found) => Ok(found),
        Err(status) => if status.code() == Code::Unavailable {
            Ok(Vec::new())
        } else {
            Err(status)
        },
    }
}

/// The first endpoint's URL, if any.
pub fn first_url(endpoints: &Vec<Endpoint>) -> (r: Option<String>)
    ensures
        match r {
            Some(url) => endpoints@.len() > 0 && url@ == endpoints@[0].url@,
            None => endpoints@.len() == 0,
        },
{
    if endpoints.len() == 0 {
        None
    } else {
        Some(endpoints[0].url.clone())
    }
}

/// An always-populated view of a resolved capability: the last-known-good endpoint set,
/// empty until the first snapshot arrives.
pub struct Watched {
    latest: Vec<Endpoint>,
}

impl View for Watched {
    type V = Seq<EndpointView>;

    closed spec fn view(&self) -> Seq<EndpointView> {
        views(self.latest@)
    }
}

impl Watched {
    pub fn new() -> (r: Self)
        ensures
            r@.len() == 0,
    {
        Watched { latest: Vec::new() }
    }

    /// The last-known-good endpoint set.
    pub fn current(&self) -> (r: &Vec<Endpoint>)
        ensures
            views(r@) == self@,
    {
        &self.latest
    }

    /// The first endpoint's URL, if any.
    pub fn first_url(&self) -> (r: Option<String>)
        ensures
            match r {
                Some(url) => self@.len() > 0 && url@ == self@[0].url,
                None => self@.len() == 0,
            },
    {
        first_url(&self.latest)
    }

    /// What the finder's stream brings: a new set replaces the last one; a failed stream
    /// leaves the last one in place.
    pub fn observe(&mut self, event: Result<Vec<Endpoint>, String>) -> (r: Result<(), String>)
        ensures
            match event {
                Ok(endpoints) => final(self)@ == views(endpoints@) && r is Ok,
                Err(e) => final(self)@ == old(self)@ && r == Err::<(), String>(e),
            },
    {
        match event {
            Ok(endpoints) => {
                self.latest = endpoints;
                Ok(())
            },
            Err(e) => Err(e),
        }
    }
}

/// How long to wait before the next try.
pub struct Backoff {
    seconds: u64,
}

impl View for Backoff {
    type V = int;

    closed spec fn view(&self) -> int {
        self.seconds as int
    }
}

impl Backoff {
    pub open spec fn wf(&self) -> bool {
        1 <= self@ <= 30
    }

    pub fn new() -> (r: Self)
        ensures
            r.wf(),
            r@ == 1,
    {
        Backoff { seconds: 1 }
    }

    /// The seconds to wait after a watch ended, cleanly or not. A clean end starts over
    /// at one second; every wait doubles the next, up to half a minute.
    pub fn after(&mut self, clean: bool) -> (r: u64)
        requires
            old(self).wf(),
        ensures
            final(self).wf(),
            r == if clean {
                1
            } else {
                old(self)@
            },
            final(self)@ == doubled(r as int),
    {
        if clean {
            self.seconds = 1;
        }
        let wait: u64 = self.seconds;
        self.seconds = if wait * 2 <= 30 {
            wait * 2
        } else {
            30
        };
        wait
    }
}

/// Twice the wait, up to half a minute.
pub open spec fn doubled(wait: int) -> int {
    if wait * 2 <= 30 {
        wait * 2
    } else {
        30
    }
}

/// The wait before the try after `failures` failures in a row.
pub open spec fn wait_after(failures: nat) -> int
    decreases failures,
{
    if failures == 0 {
        1
    } else {
        doubled(wait_after((failures - 1) as nat))
    }
}

/// Waits in a row of failures never shrink and never pass half a minute.
pub proof fn waits_grow(failures: nat)
    ensures
        1 <= wait_after(failures) <= wait_after(failures + 1) <= 30,
    decreases failures,
{
    if failures > 0 {
        waits_grow((failures - 1) as nat);
    }
}

} // verus!
