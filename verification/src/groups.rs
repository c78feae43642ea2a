//! The EndpointGroup cache (the finder's policy layer).
//!
//! An EndpointGroup is a named, declarative match and ordering policy. It holds policy,
//! not endpoints: the finder still resolves live against its Service cache and applies
//! the ordering at request time.

use crate::json::{field_at, text_at, Json, JsonTree};
use crate::resolver::OrderingPolicy;
use crate::table::{deep, Plain, Table};
use crate::text::same;
use vstd::prelude::*;

verus! {

/// The resolved policy of one EndpointGroup.
pub struct GroupSpec {
    pub capability: String,
    pub selector: Table<String, String>,
    pub port_name: String,
    pub ordering: OrderingPolicy,
}

/// A policy by its characters.
#[verifier::ext_equal]
pub struct GroupSpecView {
    pub capability: Seq<char>,
    pub selector: Map<Seq<char>, Seq<char>>,
    pub port_name: Seq<char>,
    pub ordering: OrderingPolicy,
}

impl View for GroupSpec {
    type V = GroupSpecView;

    open spec fn view(&self) -> GroupSpecView {
        GroupSpecView {
            capability: self.capability@,
            selector: deep(self.selector@),
            port_name: self.port_name@,
            ordering: self.ordering,
        }
    }
}

impl Plain for GroupSpec {
    fn copied(&self) -> (r: Self) {
        GroupSpec {
            capability: self.capability.clone(),
            selector: self.selector.copied(),
            port_name: self.port_name.clone(),
            ordering: self.ordering,
        }
    }

    fn same_as(&self, other: &Self) -> (r: bool) {
        self.capability == other.capability && self.selector.same_as(&other.selector)
            && self.port_name == other.port_name && self.ordering == other.ordering
    }
}

// ── reading ─────────────────────────────────────────────────────────────────

/// The entries that are texts, by their keys.
pub open spec fn text_entries(entries: Seq<(Seq<char>, JsonTree)>) -> Map<Seq<char>, Seq<char>>
    decreases entries.len(),
{
    if entries.len() == 0 {
        Map::empty()
    } else {
        let before = text_entries(entries.drop_last());
        match entries.last().1.text() {
            Some(text) => before.insert(entries.last().0, text),
            None => before,
        }
    }
}

/// The policy that a group's data describe. Without a spec that names a capability there
/// is none.
pub open spec fn group_policy(data: JsonTree) -> Option<GroupSpecView> {
    match data.field("spec"@) {
        None => None,
        Some(policy) => match text_at(policy.field("capability"@)) {
            None => None,
            Some(capability) => Some(
                GroupSpecView {
                    capability,
                    selector: match policy.field("selector"@) {
                        Some(JsonTree::Entries(entries)) => text_entries(entries),
                        _ => Map::empty(),
                    },
                    port_name: match text_at(policy.field("portName"@)) {
                        Some(name) => name,
                        None => Seq::empty(),
                    },
                    ordering: if text_at(field_at(policy.field("ordering"@), "strategy"@))
                        == Some("Priority"@) {
                        OrderingPolicy::Priority
                    } else {
                        OrderingPolicy::Unordered
                    },
                },
            ),
        },
    }
}

fn read_selector(policy: &Json) -> (r: Table<String, String>)
    ensures
        deep(r@) == match policy.tree().field("selector"@) {
            Some(JsonTree::Entries(entries)) => text_entries(entries),
            _ => Map::empty(),
        },
{
    let mut r: Table<String, String> = Table::new();
    assert(deep(r@) =~= Map::<Seq<char>, Seq<char>>::empty());
    if let Some(selector) = policy.get("selector") {
        if let Some(entries) = selector.as_object() {
            let ghost all = crate::json::entry_trees(entries@);
            let mut i: usize = 0;
            while i < entries.len()
                invariant
                    i <= entries.len(),
                    all == crate::json::entry_trees(entries@),
                    deep(r@) == text_entries(all.take(i as int)),
                decreases entries.len() - i,
            {
                assert(all.take(i + 1).drop_last() =~= all.take(i as int));
                assert(all.take(i + 1).last() == (
                    entries@[i as int].0@,
                    entries@[i as int].1.tree(),
                ));
                if let Some(text) = entries[i].1.as_str() {
                    let ghost before = r@;
                    let ghost key = entries@[i as int].0@;
                    r.insert(entries[i].0.clone(), text.to_owned());
                    assert(deep(r@) =~= deep(before).insert(key, text@));
                }
                i = i + 1;
            }
            assert(all.take(i as int) =~= all);
        }
    }
    r
}

/// Parse one EndpointGroup's data into its policy. `None` if a required field is missing:
/// a malformed group is skipped, never fatal.
pub fn parse_policy(data: &Json) -> (r: Option<GroupSpec>)
    ensures
        match r {
            Some(policy) => group_policy(data.tree()) == Some(policy@),
            None => group_policy(data.tree()) is None,
        },
{
    let policy = match data.get("spec") {
        Some(policy) => policy,
        None => {
            return None;
        },
    };
    let capability = match policy.get_str("capability") {
        Some(capability) => capability.to_owned(),
        None => {
            return None;
        },
    };
    let strategy = match policy.get("ordering") {
        Some(ordering) => ordering.get_str("strategy"),
        None => None,
    };
    let ordering = match strategy {
        Some(strategy) => if same(strategy, "Priority") {
            OrderingPolicy::Priority
        } else {
            OrderingPolicy::Unordered
        },
        None => OrderingPolicy::Unordered,
    };
    Some(
        GroupSpec {
            capability,
            selector: read_selector(policy),
            port_name: match policy.get_str("portName") {
                Some(name) => name.to_owned(),
                None => String::new(),
            },
            ordering,
        },
    )
}

/// An EndpointGroup as it was listed.
pub struct GroupObject {
    pub name: Option<String>,
    pub data: Json,
}

/// A listed group by its characters.
pub struct GroupObjectView {
    pub name: Option<Seq<char>>,
    pub data: JsonTree,
}

impl View for GroupObject {
    type V = GroupObjectView;

    open spec fn view(&self) -> GroupObjectView {
        GroupObjectView { name: crate::messages::seen(self.name), data: self.data.tree() }
    }
}

/// A group by name, where it has a name and a policy.
pub open spec fn named_policy(obj: GroupObjectView) -> Option<(Seq<char>, GroupSpecView)> {
    match (obj.name, group_policy(obj.data)) {
        (Some(name), Some(policy)) => Some((name, policy)),
        _ => None,
    }
}

/// Parse one EndpointGroup into its name and policy.
pub fn parse_group(obj: &GroupObject) -> (r: Option<(String, GroupSpec)>)
    ensures
        match r {
            Some((name, policy)) => named_policy(obj@) == Some((name@, policy@)),
            None => named_policy(obj@) is None,
        },
{
    match (&obj.name, parse_policy(&obj.data)) {
        (Some(name), Some(policy)) => Some((name.clone(), policy)),
        _ => None,
    }
}

/// The policies of the listed groups by their names; of two groups of one name the later
/// counts.
pub open spec fn policies(listed: Seq<GroupObjectView>) -> Map<Seq<char>, GroupSpecView>
    decreases listed.len(),
{
    if listed.len() == 0 {
        Map::empty()
    } else {
        let before = policies(listed.drop_last());
        match named_policy(listed.last()) {
            Some((name, policy)) => before.insert(name, policy),
            None => before,
        }
    }
}

/// The policies of the listed groups; malformed ones are left out.
pub fn collect_groups(listed: &Vec<GroupObject>) -> (r: Table<String, GroupSpec>)
    ensures
        deep(r@) == policies(crate::sorting::views(listed@)),
{
    let ghost all = crate::sorting::views(listed@);
    let mut r: Table<String, GroupSpec> = Table::new();
    assert(deep(r@) =~= Map::<Seq<char>, GroupSpecView>::empty());
    let mut i: usize = 0;
    while i < listed.len()
        invariant
            i <= listed.len(),
            all == crate::sorting::views(listed@),
            deep(r@) == policies(all.take(i as int)),
        decreases listed.len() - i,
    {
        assert(all.take(i + 1).drop_last() =~= all.take(i as int));
        assert(all.take(i + 1).last() == listed@[i as int]@);
        if let Some((name, policy)) = parse_group(&listed[i]) {
            let ghost before = r@;
            let ghost key = name@;
            let ghost value = policy@;
            r.insert(name, policy);
            assert(deep(r@) =~= deep(before).insert(key, value));
        }
        i = i + 1;
    }
    assert(all.take(i as int) =~= all);
    r
}

// ── the cache ───────────────────────────────────────────────────────────────

/// The policies of the groups by name, as of the last poll.
pub struct GroupCache {
    groups: Table<String, GroupSpec>,
}

impl View for GroupCache {
    type V = Map<Seq<char>, GroupSpecView>;

    closed spec fn view(&self) -> Map<Seq<char>, GroupSpecView> {
        deep(self.groups@)
    }
}

impl GroupCache {
    /// The cache after the first poll.
    pub fn new(groups: Table<String, GroupSpec>) -> (r: Self)
        ensures
            r@ == deep(groups@),
    {
        GroupCache { groups }
    }

    /// The policy for a named group, if it exists.
    pub fn get(&self, name: &str) -> (r: Option<GroupSpec>)
        ensures
            match r {
                Some(policy) => self@.contains_key(name@) && self@[name@] == policy@,
                None => !self@.contains_key(name@),
            },
    {
        match self.groups.get(&name.to_owned()) {
            Some(policy) => Some(policy.copied()),
            None => None,
        }
    }

    /// Takes over what a poll found, and says whether that was a change.
    pub fn refresh(&mut self, next: Table<String, GroupSpec>) -> (r: bool)
        ensures
            final(self)@ == deep(next@),
            r == (old(self)@ != final(self)@),
    {
        if self.groups.same_as(&next) {
            false
        } else {
            self.groups = next;
            true
        }
    }
}

} // verus!
