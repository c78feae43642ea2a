//! What discovery finds: matching, endpoints, order, and the policies of groups.

use crate::client::{self, Finder};
use crate::groups::{
    collect_groups, parse_group, parse_policy, text_entries, GroupCache, GroupObject, GroupSpec,
};
use crate::json::{Json, JsonTree};
use crate::laws::json::{no_text, reading, says, says_text, silent};
use crate::messages::texts;
use crate::registry::Registry;
use crate::resolver::{self, Advertised, Endpoint, OrderingPolicy, Service, ServicePort};
use crate::service::{EventKind, FinderService, ResolveRequest, Subject, Watch, WatchEvent};
use crate::status::{Code, Status};
use crate::table::{deep, Table};
use vstd::prelude::*;

verus! {

// ── matching ────────────────────────────────────────────────────────────────

/// One of the values is the text.
pub open spec fn among(values: Vec<String>, text: Seq<char>) -> bool {
    exists|i: int| 0 <= i < values@.len() && (#[trigger] values@[i])@ == text
}

/// A query matches exactly where every value that it asks for is among the values that are
/// advertised under its key, at whatever place.
pub proof fn a_query_matches_any_advertised_value(
    query: &Table<String, String>,
    offered: &Advertised,
    r: bool,
)
    requires
        call_ensures(resolver::selector_matches, (query, offered), r),
    ensures
        r <==> forall|k: Seq<char>| #[trigger]
            query@.contains_key(k) ==> offered@.contains_key(k) && among(
                offered@[k],
                query@[k]@,
            ),
        forall|k: Seq<char>, i: int|
            #![trigger offered@[k]@[i]]
            offered@.contains_key(k) && 0 <= i < offered@[k]@.len() && query@.dom() =~= set![k]
                && query@[k]@ == offered@[k]@[i]@ ==> r,
{
    let wanted = deep(query@);
    let there = resolver::advertised_map(offered@);
    assert forall|k: Seq<char>| offered@.contains_key(k) && query@.contains_key(k) implies (
    there[k].contains(wanted[k]) <==> #[trigger] among(offered@[k], query@[k]@)) by {
        let values = offered@[k];
        let held = texts(values@);
        assert(held.len() == values@.len());
        if among(values, query@[k]@) {
            let i = choose|i: int| 0 <= i < values@.len() && (#[trigger] values@[i])@ == query@[k]@;
            assert(held[i] == query@[k]@);
        }
        if there[k].contains(wanted[k]) {
            let i = choose|i: int| 0 <= i < held.len() && held[i] == wanted[k];
            assert(values@[i]@ == query@[k]@);
        }
    }
    assert forall|k: Seq<char>| #[trigger] query@.contains_key(k) implies wanted.contains_key(
        k,
    ) by {}
    if r {
        assert forall|k: Seq<char>| #[trigger] query@.contains_key(k) implies offered@.contains_key(
            k,
        ) && among(offered@[k], query@[k]@) by {
            assert(wanted.contains_key(k));
            assert(there.contains_key(k));
        }
    }
    if forall|k: Seq<char>| #[trigger]
        query@.contains_key(k) ==> offered@.contains_key(k) && among(offered@[k], query@[k]@) {
        assert forall|k: Seq<char>| #[trigger] wanted.contains_key(k) implies there.contains_key(k)
            && there[k].contains(wanted[k]) by {
            assert(query@.contains_key(k));
        }
    }
    assert forall|k: Seq<char>, i: int|
        #![trigger offered@[k]@[i]]
        offered@.contains_key(k) && 0 <= i < offered@[k]@.len() && query@.dom() =~= set![k]
            && query@[k]@ == offered@[k]@[i]@ implies r by {
        assert(among(offered@[k], query@[k]@));
        assert forall|j: Seq<char>| #[trigger] query@.contains_key(j) implies offered@.contains_key(
            j,
        ) && among(offered@[j], query@[j]@) by {
            assert(set![k].contains(j));
        }
    }
}

/// A query that asks for what two others ask for together matches exactly where both match.
pub proof fn a_query_matches_where_its_parts_do(
    one: &Table<String, String>,
    other: &Table<String, String>,
    both: &Table<String, String>,
    offered: &Advertised,
    r: bool,
    s: bool,
    t: bool,
)
    requires
        call_ensures(resolver::selector_matches, (one, offered), r),
        call_ensures(resolver::selector_matches, (other, offered), s),
        call_ensures(resolver::selector_matches, (both, offered), t),
        both@.dom() =~= one@.dom().union(other@.dom()),
        forall|k: Seq<char>| #[trigger] one@.contains_key(k) ==> both@[k]@ == one@[k]@,
        forall|k: Seq<char>| #[trigger] other@.contains_key(k) ==> both@[k]@ == other@[k]@,
    ensures
        t <==> r && s,
{
    a_query_matches_any_advertised_value(one, offered, r);
    a_query_matches_any_advertised_value(other, offered, s);
    a_query_matches_any_advertised_value(both, offered, t);
    assert forall|k: Seq<char>| #[trigger] both@.contains_key(k) <==> one@.contains_key(k)
        || other@.contains_key(k) by {
        assert(both@.dom().contains(k) <==> one@.dom().union(other@.dom()).contains(k));
    }
    assert forall|k: Seq<char>| #[trigger] one@.contains_key(k) implies both@.contains_key(k) by {}
    assert forall|k: Seq<char>| #[trigger] other@.contains_key(k) implies both@.contains_key(
        k,
    ) by {}
}

// ── what is advertised ──────────────────────────────────────────────────────

/// The values that an attribute stands for, in their order.
pub open spec fn stands_for(v: JsonTree, values: Vec<String>) -> bool {
    match v {
        JsonTree::Text(s) => values@.len() == 1 && values@[0]@ == s,
        JsonTree::Number(n) => values@.len() == 1 && values@[0]@ == n,
        JsonTree::Flag(b) => values@.len() == 1 && values@[0]@ == if b {
            "true"@
        } else {
            "false"@
        },
        JsonTree::List(items) => texts(values@) == crate::json::texts_of(items),
        _ => false,
    }
}

/// An attribute that stands for nothing: no text, number, flag, or list with a text in it.
pub open spec fn worthless(v: JsonTree) -> bool {
    match v {
        JsonTree::Null => true,
        JsonTree::Entries(_) => true,
        JsonTree::List(items) => forall|i: int|
            0 <= i < items.len() ==> !((#[trigger] items[i]) is Text),
        _ => false,
    }
}

proof fn picks_nothing(items: Seq<JsonTree>)
    ensures
        crate::json::texts_of(items).len() == 0 <==> forall|i: int|
            0 <= i < items.len() ==> !((#[trigger] items[i]) is Text),
    decreases items.len(),
{
    if items.len() > 0 {
        let rest = items.drop_last();
        picks_nothing(rest);
        assert forall|i: int| 0 <= i < rest.len() implies #[trigger] rest[i] == items[i] by {}
        if crate::json::texts_of(items).len() == 0 {
            assert forall|i: int| 0 <= i < items.len() implies !((#[trigger] items[i]) is Text) by {
                if i < rest.len() {
                    assert(rest[i] == items[i]);
                }
            }
        } else if forall|i: int| 0 <= i < items.len() ==> !((#[trigger] items[i]) is Text) {
            assert forall|i: int| 0 <= i < rest.len() implies !((#[trigger] rest[i]) is Text) by {
                assert(items[i] == rest[i]);
            }
            assert(!(items[items.len() - 1] is Text));
        }
    }
}

proof fn worth(v: JsonTree)
    ensures
        worthless(v) <==> resolver::attribute_values(v).len() == 0,
{
    if let JsonTree::List(items) = v {
        picks_nothing(items);
    }
}

proof fn advertised_entry(entries: Seq<(Seq<char>, JsonTree)>, i: int)
    requires
        0 <= i < entries.len(),
        !worthless(entries[i].1),
        forall|j: int|
            i < j < entries.len() ==> (#[trigger] entries[j]).0 != entries[i].0 || worthless(
                entries[j].1,
            ),
    ensures
        resolver::advertised_by(entries).contains_key(entries[i].0),
        resolver::advertised_by(entries)[entries[i].0] == resolver::attribute_values(entries[i].1),
    decreases entries.len(),
{
    let rest = entries.drop_last();
    worth(entries.last().1);
    worth(entries[i].1);
    if i < rest.len() {
        assert forall|j: int| i < j < rest.len() implies (#[trigger] rest[j]).0 != rest[i].0
            || worthless(rest[j].1) by {
            assert(rest[j] == entries[j]);
        }
        advertised_entry(rest, i);
        assert(entries[entries.len() - 1].0 != entries[i].0 || worthless(
            entries[entries.len() - 1].1,
        ));
    }
}

proof fn advertised_key(entries: Seq<(Seq<char>, JsonTree)>, key: Seq<char>)
    requires
        resolver::advertised_by(entries).contains_key(key),
    ensures
        exists|i: int|
            0 <= i < entries.len() && (#[trigger] entries[i]).0 == key && !worthless(entries[i].1),
    decreases entries.len(),
{
    worth(entries.last().1);
    if !(entries.last().0 == key && !worthless(entries.last().1)) {
        let rest = entries.drop_last();
        advertised_key(rest, key);
        let i = choose|i: int|
            0 <= i < rest.len() && (#[trigger] rest[i]).0 == key && !worthless(rest[i].1);
        assert(entries[i] == rest[i]);
    } else {
        assert(entries[entries.len() - 1].0 == key);
    }
}

/// Every attribute of an annotation that stands for something is advertised with the values
/// that it stands for, unless it is repeated; nothing else is advertised; and what is no
/// object advertises nothing.
pub proof fn every_attribute_is_advertised(value: &Json, r: Advertised)
    requires
        call_ensures(resolver::advertise, (value,), r),
    ensures
        value.tree() matches JsonTree::Entries(entries) ==> (forall|i: int|
            #![trigger entries[i]]
            0 <= i < entries.len() && !worthless(entries[i].1) && (forall|j: int|
                i < j < entries.len() ==> (#[trigger] entries[j]).0 != entries[i].0) ==> (
            r@.contains_key(entries[i].0) && stands_for(entries[i].1, r@[entries[i].0]))),
        value.tree() matches JsonTree::Entries(entries) ==> (forall|k: Seq<char>| #[trigger]
            r@.contains_key(k) ==> exists|i: int|
                0 <= i < entries.len() && (#[trigger] entries[i]).0 == k && !worthless(
                    entries[i].1,
                )),
        !(value.tree() is Entries) ==> r@ == Map::<Seq<char>, Vec<String>>::empty(),
{
    let there = resolver::advertised_map(r@);
    if let JsonTree::Entries(entries) = value.tree() {
        assert forall|i: int|
            #![trigger entries[i]]
            0 <= i < entries.len() && !worthless(entries[i].1) && (forall|j: int|
                i < j < entries.len() ==> (#[trigger] entries[j]).0 != entries[i].0) implies (
        r@.contains_key(entries[i].0) && stands_for(entries[i].1, r@[entries[i].0])) by {
            advertised_entry(entries, i);
            let k = entries[i].0;
            assert(there.contains_key(k));
            let values = r@[k];
            assert(texts(values@) == resolver::attribute_values(entries[i].1));
            assert(texts(values@).len() == values@.len());
            if values@.len() > 0 {
                assert(texts(values@)[0] == values@[0]@);
            }
        }
        assert forall|k: Seq<char>| #[trigger] r@.contains_key(k) implies exists|i: int|
            0 <= i < entries.len() && (#[trigger] entries[i]).0 == k && !worthless(
                entries[i].1,
            ) by {
            assert(there.contains_key(k));
            advertised_key(entries, k);
        }
    } else {
        assert forall|k: Seq<char>| !r@.contains_key(k) by {
            assert(!there.contains_key(k));
        }
        assert(r@ =~= Map::<Seq<char>, Vec<String>>::empty());
    }
}

/// An annotation advertises what its document says; one that is not there, or is no
/// document, advertises nothing.
pub proof fn an_annotation_advertises_its_document(
    raw: Option<&String>,
    text: &str,
    parsed: Option<Json>,
    value: Json,
    offered: Advertised,
    r: Advertised,
)
    requires
        call_ensures(resolver::parse_selectors, (raw,), r),
        raw is Some ==> raw->0@ == text@,
        call_ensures(Json::parse, (text,), parsed),
        parsed is Some ==> parsed->0 == value,
        call_ensures(resolver::advertise, (&value,), offered),
    ensures
        raw is Some && parsed is Some ==> resolver::advertised_map(r@) == resolver::advertised_map(
            offered@,
        ),
        raw is None || parsed is None ==> r@ == Map::<Seq<char>, Vec<String>>::empty(),
{
    if raw is None || parsed is None {
        assert forall|k: Seq<char>| !r@.contains_key(k) by {
            assert(!resolver::advertised_map(r@).contains_key(k));
        }
        assert(r@ =~= Map::<Seq<char>, Vec<String>>::empty());
    }
}

/// The texts with commas between them, from the first on.
pub open spec fn comma_separated(parts: Seq<Seq<char>>) -> Seq<char>
    decreases parts.len(),
{
    if parts.len() == 0 {
        Seq::empty()
    } else if parts.len() == 1 {
        parts[0]
    } else {
        parts[0] + ","@ + comma_separated(parts.drop_first())
    }
}

proof fn joining_from_either_end(parts: Seq<Seq<char>>)
    ensures
        resolver::joined(parts, ","@) == comma_separated(parts),
    decreases parts.len(),
{
    if parts.len() >= 2 {
        let head = parts.drop_last();
        let tail = parts.drop_first();
        joining_from_either_end(head);
        joining_from_either_end(tail);
        if parts.len() == 2 {
            assert(head[0] == parts[0]);
            assert(tail[0] == parts[1]);
            reveal_with_fuel(resolver::joined, 2);
            reveal_with_fuel(comma_separated, 2);
        } else {
            let middle = head.drop_first();
            assert(middle =~= tail.drop_last());
            joining_from_either_end(middle);
            assert(head[0] == parts[0]);
            assert(tail.last() == parts.last());
            assert(parts[0] + ","@ + (resolver::joined(middle, ","@) + ","@ + parts.last()) =~= (
            parts[0] + ","@ + resolver::joined(middle, ","@)) + ","@ + parts.last());
        }
    }
}

/// An endpoint's attributes are the advertised ones, every value of each, with commas
/// between them.
pub proof fn attributes_keep_every_value(offered: &Advertised, r: Table<String, String>)
    requires
        call_ensures(resolver::flatten, (offered,), r),
    ensures
        forall|k: Seq<char>| #[trigger] r@.contains_key(k) <==> offered@.contains_key(k),
        forall|k: Seq<char>| #[trigger]
            r@.contains_key(k) ==> r@[k]@ == comma_separated(texts(offered@[k]@)),
{
    let there = resolver::advertised_map(offered@);
    let flat = deep(r@);
    assert forall|k: Seq<char>| #[trigger] r@.contains_key(k) <==> offered@.contains_key(k) by {
        assert(flat.contains_key(k) <==> there.contains_key(k));
    }
    assert forall|k: Seq<char>| #[trigger] r@.contains_key(k) implies r@[k]@ == comma_separated(
        texts(offered@[k]@),
    ) by {
        joining_from_either_end(there[k]);
        assert(flat[k] == r@[k]@);
    }
}

// ── groups ──────────────────────────────────────────────────────────────────

proof fn text_entry(entries: Seq<(Seq<char>, JsonTree)>, i: int)
    requires
        0 <= i < entries.len(),
        entries[i].1 is Text,
        forall|j: int|
            i < j < entries.len() ==> (#[trigger] entries[j]).0 != entries[i].0 || !(
            entries[j].1 is Text),
    ensures
        text_entries(entries).contains_key(entries[i].0),
        text_entries(entries)[entries[i].0] == entries[i].1->Text_0,
    decreases entries.len(),
{
    let rest = entries.drop_last();
    if i < rest.len() {
        assert forall|j: int| i < j < rest.len() implies (#[trigger] rest[j]).0 != rest[i].0 || !(
        rest[j].1 is Text) by {
            assert(rest[j] == entries[j]);
        }
        text_entry(rest, i);
        assert(entries[entries.len() - 1].0 != entries[i].0 || !(entries[entries.len()
            - 1].1 is Text));
    }
}

proof fn text_key(entries: Seq<(Seq<char>, JsonTree)>, key: Seq<char>)
    requires
        text_entries(entries).contains_key(key),
    ensures
        exists|i: int|
            0 <= i < entries.len() && (#[trigger] entries[i]).0 == key && entries[i].1 is Text,
    decreases entries.len(),
{
    if !(entries.last().0 == key && entries.last().1 is Text) {
        let rest = entries.drop_last();
        text_key(rest, key);
        let i = choose|i: int|
            0 <= i < rest.len() && (#[trigger] rest[i]).0 == key && rest[i].1 is Text;
        assert(entries[i] == rest[i]);
    } else {
        assert(entries[entries.len() - 1].0 == key);
    }
}

/// A policy selects by every text of its selector, under its key, unless the key is
/// repeated; and by nothing else.
pub proof fn a_policy_selects_by_all_its_texts(
    data: &Json,
    wanted: JsonTree,
    entries: Seq<(Seq<char>, JsonTree)>,
    r: Option<GroupSpec>,
)
    requires
        call_ensures(parse_policy, (data,), r),
        says(data.tree(), "spec"@, wanted),
        says(wanted, "selector"@, JsonTree::Entries(entries)),
    ensures
        r matches Some(policy) ==> (forall|i: int|
            #![trigger entries[i]]
            0 <= i < entries.len() && entries[i].1 is Text && (forall|j: int|
                i < j < entries.len() ==> (#[trigger] entries[j]).0 != entries[i].0) ==> (
            policy.selector@.contains_key(entries[i].0) && policy.selector@[entries[i].0]@
                == entries[i].1->Text_0)),
        r matches Some(policy) ==> (forall|k: Seq<char>| #[trigger]
            policy.selector@.contains_key(k) ==> exists|i: int|
                0 <= i < entries.len() && (#[trigger] entries[i]).0 == k && entries[i].1 is Text),
{
    reading();
    if let Some(policy) = r {
        let held = deep(policy.selector@);
        assert(held == text_entries(entries));
        assert forall|i: int|
            #![trigger entries[i]]
            0 <= i < entries.len() && entries[i].1 is Text && (forall|j: int|
                i < j < entries.len() ==> (#[trigger] entries[j]).0 != entries[i].0) implies (
        policy.selector@.contains_key(entries[i].0) && policy.selector@[entries[i].0]@
            == entries[i].1->Text_0) by {
            text_entry(entries, i);
            assert(held.contains_key(entries[i].0));
        }
        assert forall|k: Seq<char>| #[trigger] policy.selector@.contains_key(k) implies exists|
            i: int,
        |
            0 <= i < entries.len() && (#[trigger] entries[i]).0 == k && entries[i].1 is Text by {
            assert(held.contains_key(k));
            text_key(entries, k);
        }
    }
}

/// A group has a policy exactly where it has a spec that names a capability. The policy is of
/// that capability, of the port that the spec names or of any, without a selector where the
/// spec has none, and ordered by priority exactly where the spec says so.
pub proof fn a_policy_is_what_its_spec_says(data: &Json, r: Option<GroupSpec>)
    requires
        call_ensures(parse_policy, (data,), r),
    ensures
        silent(data.tree(), "spec"@) ==> r is None,
        forall|wanted: JsonTree| #[trigger]
            says(data.tree(), "spec"@, wanted) ==> {
                &&& no_text(wanted, "capability"@) ==> r is None
                &&& forall|capability: Seq<char>| #[trigger]
                    says_text(wanted, "capability"@, capability) ==> (r matches Some(p)
                        && p.capability@ == capability)
                &&& r matches Some(p) ==> (forall|port: Seq<char>| #[trigger]
                    says_text(wanted, "portName"@, port) ==> p.port_name@ == port)
                &&& r matches Some(p) ==> (no_text(wanted, "portName"@) ==> p.port_name@.len() == 0)
                &&& r matches Some(p) ==> (silent(wanted, "selector"@) ==> p.selector@ == Map::<
                    Seq<char>,
                    String,
                >::empty())
                &&& r matches Some(p) ==> (p.ordering == OrderingPolicy::Priority <==> exists|
                    ordering: JsonTree,
                | #[trigger]
                    says(wanted, "ordering"@, ordering) && says_text(
                        ordering,
                        "strategy"@,
                        "Priority"@,
                    ))
            },
{
    reading();
    if let Some(wanted) = data.tree().field("spec"@) {
        assert(says(data.tree(), "spec"@, wanted));
        if let Some(JsonTree::Text(capability)) = wanted.field("capability"@) {
            assert(says_text(wanted, "capability"@, capability));
        }
        if let Some(ordering) = wanted.field("ordering"@) {
            assert(says(wanted, "ordering"@, ordering));
        }
        if let Some(p) = r {
            if silent(wanted, "selector"@) {
                assert forall|k: Seq<char>| !p.selector@.contains_key(k) by {
                    assert(!deep(p.selector@).contains_key(k));
                }
                assert(p.selector@ =~= Map::<Seq<char>, String>::empty());
            }
        }
    }
}

/// A group is read as its name and its policy, where it has both.
pub proof fn a_group_is_its_name_and_policy(
    obj: &GroupObject,
    policy: Option<GroupSpec>,
    r: Option<(String, GroupSpec)>,
)
    requires
        call_ensures(parse_policy, (&obj.data,), policy),
        call_ensures(parse_group, (obj,), r),
    ensures
        r is Some <==> obj.name is Some && policy is Some,
        r matches Some(named) ==> named.0@ == obj.name->0@ && named.1@ == policy->0@,
{
}

proof fn policies_hold(listed: Seq<crate::groups::GroupObjectView>, i: int)
    requires
        0 <= i < listed.len(),
        crate::groups::named_policy(listed[i]) is Some,
        forall|j: int|
            i < j < listed.len() ==> (#[trigger] listed[j]).name != listed[i].name
                || crate::groups::named_policy(listed[j]) is None,
    ensures
        crate::groups::policies(listed).contains_pair(
            (crate::groups::named_policy(listed[i])->0).0,
            (crate::groups::named_policy(listed[i])->0).1,
        ),
    decreases listed.len(),
{
    let rest = listed.drop_last();
    if i < rest.len() {
        assert forall|j: int| i < j < rest.len() implies (#[trigger] rest[j]).name != rest[i].name
            || crate::groups::named_policy(rest[j]) is None by {
            assert(rest[j] == listed[j]);
        }
        policies_hold(rest, i);
        assert(listed[listed.len() - 1].name != listed[i].name || crate::groups::named_policy(
            listed[listed.len() - 1],
        ) is None);
    }
}

proof fn policies_only(listed: Seq<crate::groups::GroupObjectView>, name: Seq<char>)
    requires
        crate::groups::policies(listed).contains_key(name),
    ensures
        exists|i: int|
            0 <= i < listed.len() && (#[trigger] listed[i]).name == Some(name)
                && crate::groups::named_policy(listed[i]) is Some,
    decreases listed.len(),
{
    let rest = listed.drop_last();
    if listed.last().name == Some(name) && crate::groups::named_policy(listed.last()) is Some {
        assert(listed[listed.len() - 1].name == Some(name));
    } else {
        policies_only(rest, name);
        let i = choose|i: int|
            0 <= i < rest.len() && (#[trigger] rest[i]).name == Some(name)
                && crate::groups::named_policy(rest[i]) is Some;
        assert(listed[i] == rest[i]);
    }
}

/// Of the listed groups every one that can be read is kept under its name, unless another of
/// its name follows; a malformed one hides no other; and nothing else is kept.
pub proof fn every_readable_group_is_kept(
    listed: &Vec<GroupObject>,
    i: int,
    one: Option<(String, GroupSpec)>,
    r: Table<String, GroupSpec>,
)
    requires
        call_ensures(collect_groups, (listed,), r),
        0 <= i < listed@.len(),
        call_ensures(parse_group, (&listed@[i],), one),
    ensures
        one is Some && (forall|j: int|
            i < j < listed@.len() ==> (#[trigger] listed@[j]).name is None
                || listed@[j].name->0@ != listed@[i].name->0@) ==> r@.contains_key((one->0).0@)
            && r@[(one->0).0@]@ == (one->0).1@,
        forall|name: Seq<char>| #[trigger]
            r@.contains_key(name) ==> exists|j: int|
                0 <= j < listed@.len() && (#[trigger] listed@[j]).name is Some
                    && listed@[j].name->0@ == name,
{
    let seen = crate::sorting::views(listed@);
    let held = deep(r@);
    assert(seen.len() == listed@.len());
    if one is Some && (forall|j: int|
        i < j < listed@.len() ==> (#[trigger] listed@[j]).name is None || listed@[j].name->0@
            != listed@[i].name->0@) {
        assert(seen[i] == listed@[i]@);
        assert forall|j: int| i < j < seen.len() implies (#[trigger] seen[j]).name != seen[i].name
            || crate::groups::named_policy(seen[j]) is None by {
            assert(seen[j] == listed@[j]@);
            assert(listed@[j].name is None || listed@[j].name->0@ != listed@[i].name->0@);
        }
        policies_hold(seen, i);
        assert(held.contains_key((one->0).0@));
        assert(held[(one->0).0@] == r@[(one->0).0@]@);
    }
    assert forall|name: Seq<char>| #[trigger] r@.contains_key(name) implies exists|j: int|
        0 <= j < listed@.len() && (#[trigger] listed@[j]).name is Some && listed@[j].name->0@
            == name by {
        assert(held.contains_key(name));
        policies_only(seen, name);
        let j = choose|j: int|
            0 <= j < seen.len() && (#[trigger] seen[j]).name == Some(name)
                && crate::groups::named_policy(seen[j]) is Some;
        assert(seen[j] == listed@[j]@);
    }
}

// ── endpoints ───────────────────────────────────────────────────────────────

/// Only a named Service that carries the capability and matches the query has endpoints.
pub proof fn only_a_matching_service_has_endpoints(
    svc: &Service,
    ns: &str,
    capability: &str,
    query: &Table<String, String>,
    port_name: &str,
    offered: &Advertised,
    matched: bool,
    r: Vec<Endpoint>,
)
    requires
        call_ensures(resolver::selector_matches, (query, offered), matched),
        call_ensures(
            resolver::service_endpoints_advertising,
            (svc, ns, capability, query, port_name, offered),
            r,
        ),
        r@.len() > 0,
    ensures
        matched,
        svc.name is Some,
        svc.labels@.contains_key("finder.fastverk.dev/capability"@),
        svc.labels@["finder.fastverk.dev/capability"@]@ == capability@,
{
    assert(crate::sorting::views(r@).len() > 0);
    assert(deep(svc.labels@).contains_key("finder.fastverk.dev/capability"@));
}

/// The Service carries the capability, matches the query, and has this name.
pub open spec fn serves(
    svc: Service,
    capability: Seq<char>,
    matched: bool,
    name: Seq<char>,
) -> bool {
    &&& matched
    &&& svc.name is Some && svc.name->0@ == name
    &&& svc.labels@.contains_key("finder.fastverk.dev/capability"@)
    &&& svc.labels@["finder.fastverk.dev/capability"@]@ == capability
}

/// A URL that the Service pins is its one endpoint, and none where a port was asked for: the
/// ports do not count.
pub proof fn a_pinned_url_is_the_endpoint(
    svc: &Service,
    ns: &str,
    capability: &str,
    query: &Table<String, String>,
    port_name: &str,
    offered: &Advertised,
    matched: bool,
    name: Seq<char>,
    flat: Table<String, String>,
    r: Vec<Endpoint>,
)
    requires
        call_ensures(resolver::selector_matches, (query, offered), matched),
        call_ensures(resolver::flatten, (offered,), flat),
        call_ensures(
            resolver::service_endpoints_advertising,
            (svc, ns, capability, query, port_name, offered),
            r,
        ),
        serves(*svc, capability@, matched, name),
        svc.annotations@.contains_key("finder.fastverk.dev/endpoint"@),
    ensures
        port_name@.len() > 0 ==> r@.len() == 0,
        port_name@.len() == 0 ==> {
            &&& r@.len() == 1
            &&& r@[0].url@ == svc.annotations@["finder.fastverk.dev/endpoint"@]@
            &&& r@[0].port_name@.len() == 0
            &&& r@[0].service@ == name
            &&& r@[0].namespace@ == ns@
            &&& deep(r@[0].attributes@) == deep(flat@)
        },
{
    assert(deep(svc.labels@).contains_key("finder.fastverk.dev/capability"@));
    assert(deep(svc.annotations@).contains_key("finder.fastverk.dev/endpoint"@));
    let found = crate::sorting::views(r@);
    assert(found.len() == r@.len());
    if port_name@.len() == 0 {
        assert(found[0] == r@[0]@);
    }
}

/// The endpoint is that of the port, by cluster DNS.
pub open spec fn endpoint_of_port(
    e: Endpoint,
    port: ServicePort,
    name: Seq<char>,
    ns: Seq<char>,
) -> bool {
    &&& port.name is Some && e.port_name@ == port.name->0@
    &&& e.url@ == "http://"@ + name + "."@ + ns + ".svc.cluster.local:"@
        + crate::text::signed_decimal(port.port as int)
    &&& e.service@ == name
    &&& e.namespace@ == ns
}

/// Without a pinned URL a Service has an endpoint for every named port, or for every port of
/// the name that was asked for, in their order: one port more is one endpoint more where it
/// is wanted, and else changes nothing.
pub proof fn every_wanted_port_is_an_endpoint(
    svc: &Service,
    longer: &Service,
    ns: &str,
    capability: &str,
    query: &Table<String, String>,
    port_name: &str,
    offered: &Advertised,
    matched: bool,
    name: Seq<char>,
    flat: Table<String, String>,
    r: Vec<Endpoint>,
    s: Vec<Endpoint>,
)
    requires
        call_ensures(resolver::selector_matches, (query, offered), matched),
        call_ensures(resolver::flatten, (offered,), flat),
        call_ensures(
            resolver::service_endpoints_advertising,
            (svc, ns, capability, query, port_name, offered),
            r,
        ),
        call_ensures(
            resolver::service_endpoints_advertising,
            (longer, ns, capability, query, port_name, offered),
            s,
        ),
        serves(*svc, capability@, matched, name),
        serves(*longer, capability@, matched, name),
        !svc.annotations@.contains_key("finder.fastverk.dev/endpoint"@),
        !longer.annotations@.contains_key("finder.fastverk.dev/endpoint"@),
    ensures
        svc.ports is None || svc.ports->0@.len() == 0 ==> r@.len() == 0,
        svc.ports is Some && longer.ports is Some && longer.ports->0@.len() > 0
            && longer.ports->0@.drop_last() == svc.ports->0@ ==> {
            let port = longer.ports->0@.last();
            let wanted = port.name is Some && (port_name@.len() == 0
                || port.name->0@ == port_name@);
            &&& s@.len() == r@.len() + if wanted {
                1int
            } else {
                0int
            }
            &&& forall|i: int| 0 <= i < r@.len() ==> (#[trigger] s@[i])@ == r@[i]@
            &&& wanted ==> endpoint_of_port(s@.last(), port, name, ns@) && deep(
                s@.last().attributes@,
            ) == deep(flat@)
        },
{
    assert(deep(svc.labels@).contains_key("finder.fastverk.dev/capability"@));
    assert(deep(longer.labels@).contains_key("finder.fastverk.dev/capability"@));
    assert(!deep(svc.annotations@).contains_key("finder.fastverk.dev/endpoint"@));
    assert(!deep(longer.annotations@).contains_key("finder.fastverk.dev/endpoint"@));
    let found = crate::sorting::views(r@);
    let more = crate::sorting::views(s@);
    assert(found.len() == r@.len());
    assert(more.len() == s@.len());
    let p = |q: resolver::ServicePortView| resolver::port_wanted(q, port_name@);
    let made = |q: resolver::ServicePortView|
        resolver::port_endpoint(q, name, ns@, deep(flat@));
    reveal(Seq::filter);
    if svc.ports is Some {
        let few = crate::sorting::views(svc.ports->0@);
        assert(few.len() == svc.ports->0@.len());
        assert(found =~= few.filter(p).map_values(made));
        if few.len() == 0 {
            assert(few.filter(p).len() == 0);
        }
        if longer.ports is Some && longer.ports->0@.len() > 0 && longer.ports->0@.drop_last()
            == svc.ports->0@ {
            let many = crate::sorting::views(longer.ports->0@);
            let port = longer.ports->0@.last();
            assert(many.drop_last() =~= few);
            assert(many.last() == port@);
            assert(more =~= many.filter(p).map_values(made));
            assert forall|i: int| 0 <= i < r@.len() implies (#[trigger] s@[i])@ == r@[i]@ by {
                assert(more[i] == s@[i]@);
                assert(found[i] == r@[i]@);
            }
            if p(port@) {
                assert(more.last() == s@.last()@);
                assert(more.last() == made(port@));
            }
        }
    }
}

/// The endpoints of a Service are those that it has with what its own annotation advertises.
pub proof fn a_service_is_matched_by_its_own_annotation(
    svc: &Service,
    ns: &str,
    capability: &str,
    query: &Table<String, String>,
    port_name: &str,
    raw: Option<&String>,
    offered: Advertised,
    r: Vec<Endpoint>,
    s: Vec<Endpoint>,
)
    requires
        raw is Some <==> svc.annotations@.contains_key("finder.fastverk.dev/selectors"@),
        raw is Some ==> raw->0@ == svc.annotations@["finder.fastverk.dev/selectors"@]@,
        call_ensures(resolver::parse_selectors, (raw,), offered),
        call_ensures(
            resolver::service_endpoints_advertising,
            (svc, ns, capability, query, port_name, &offered),
            r,
        ),
        call_ensures(resolver::service_endpoints, (svc, ns, capability, query, port_name), s),
    ensures
        s@.len() == r@.len(),
        forall|i: int| 0 <= i < r@.len() ==> (#[trigger] s@[i])@ == r@[i]@,
{
    let a = crate::sorting::views(r@);
    let b = crate::sorting::views(s@);
    assert(deep(svc.annotations@).contains_key("finder.fastverk.dev/selectors"@)
        == svc.annotations@.contains_key("finder.fastverk.dev/selectors"@));
    assert(a.len() == r@.len());
    assert(b.len() == s@.len());
    assert forall|i: int| 0 <= i < r@.len() implies (#[trigger] s@[i])@ == r@[i]@ by {
        assert(a[i] == r@[i]@);
        assert(b[i] == s@[i]@);
    }
}

// ── order ───────────────────────────────────────────────────────────────────

/// The one text is the other, begins it, or has the smaller character where they first
/// differ.
pub open spec fn not_after(a: Seq<char>, b: Seq<char>) -> bool {
    exists|k: int|
        {
            &&& 0 <= k <= a.len() && k <= b.len()
            &&& #[trigger] a.take(k) == b.take(k)
            &&& k == a.len() || (k < b.len() && a[k] < b[k])
        }
}

proof fn lex_is_not_after(a: Seq<char>, b: Seq<char>)
    requires
        crate::text::lex_le(a, b),
    ensures
        not_after(a, b),
    decreases a.len(),
{
    if a.len() == 0 || b.len() == 0 || a[0] != b[0] {
        assert(a.take(0) =~= b.take(0));
    } else {
        let (x, y) = (a.drop_first(), b.drop_first());
        lex_is_not_after(x, y);
        let k = choose|k: int|
            {
                &&& 0 <= k <= x.len() && k <= y.len()
                &&& #[trigger] x.take(k) == y.take(k)
                &&& k == x.len() || (k < y.len() && x[k] < y[k])
            };
        assert(a.take(k + 1) =~= seq![a[0]] + x.take(k));
        assert(b.take(k + 1) =~= seq![b[0]] + y.take(k));
        assert(a.take(k + 1) == b.take(k + 1));
    }
}

/// The endpoints at a url, in their order.
pub open spec fn at_url(v: Seq<Endpoint>, url: Seq<char>) -> Seq<resolver::EndpointView> {
    crate::sorting::views(v).filter(|e: resolver::EndpointView| e.url == url)
}

proof fn sorting_keeps_urls(
    found: Seq<resolver::EndpointView>,
    out: Seq<resolver::EndpointView>,
    url: Seq<char>,
)
    requires
        crate::sorting::stably_sorted::<Endpoint>(found, out),
    ensures
        out.filter(|e: resolver::EndpointView| e.url == url) == found.filter(
            |e: resolver::EndpointView| e.url == url,
        ),
{
    let x = resolver::EndpointView {
        url,
        port_name: Seq::empty(),
        attributes: Map::empty(),
        service: Seq::empty(),
        namespace: Seq::empty(),
    };
    let p = |e: resolver::EndpointView| e.url == url;
    assert forall|e: resolver::EndpointView| #[trigger] p(e) == crate::sorting::same_rank::<
        Endpoint,
    >(e, x) by {
        if crate::sorting::same_rank::<Endpoint>(e, x) {
            crate::text::lex_antisymmetric(e.url, url);
        }
        if e.url == url {
            crate::text::lex_total(url, url);
        }
    }
    crate::sorted::ranked_with_picks::<Endpoint>(out, x, p);
    crate::sorted::ranked_with_picks::<Endpoint>(found, x, p);
    assert(crate::sorting::ranked_with::<Endpoint>(out, x) == crate::sorting::ranked_with::<
        Endpoint,
    >(found, x));
}

/// What is resolved is in the order of the urls.
pub proof fn resolved_endpoints_are_ordered_by_url(
    services: &[Service],
    ns: &str,
    capability: &str,
    query: &Table<String, String>,
    port_name: &str,
    r: Vec<Endpoint>,
)
    requires
        call_ensures(resolver::resolve, (services, ns, capability, query, port_name), r),
    ensures
        forall|i: int, j: int|
            0 <= i < j < r@.len() ==> not_after((#[trigger] r@[i]).url@, (#[trigger] r@[j]).url@),
{
    let out = crate::sorting::views(r@);
    assert forall|i: int, j: int| 0 <= i < j < r@.len() implies not_after(
        (#[trigger] r@[i]).url@,
        (#[trigger] r@[j]).url@,
    ) by {
        assert(out[i] == r@[i]@);
        assert(out[j] == r@[j]@);
        assert(<Endpoint as crate::sorting::Ranked>::before_or_with(out[i], out[j]));
        lex_is_not_after(r@[i].url@, r@[j].url@);
    }
}

/// What is resolved is what the Services have, all of it and nothing else: without Services
/// nothing is, and one Service more adds its endpoints, at every url behind those that are
/// there.
pub proof fn every_service_is_resolved(
    services: &[Service],
    longer: &[Service],
    ns: &str,
    capability: &str,
    query: &Table<String, String>,
    port_name: &str,
    own: Vec<Endpoint>,
    r: Vec<Endpoint>,
    s: Vec<Endpoint>,
    url: Seq<char>,
)
    requires
        longer@.len() > 0,
        longer@.drop_last() == services@,
        call_ensures(
            resolver::service_endpoints,
            (&longer@.last(), ns, capability, query, port_name),
            own,
        ),
        call_ensures(resolver::resolve, (services, ns, capability, query, port_name), r),
        call_ensures(resolver::resolve, (longer, ns, capability, query, port_name), s),
    ensures
        services@.len() == 0 ==> r@.len() == 0,
        s@.len() == r@.len() + own@.len(),
        at_url(s@, url) == at_url(r@, url) + at_url(own@, url),
{
    let few = crate::sorting::views(services@);
    let many = crate::sorting::views(longer@);
    assert(many.drop_last() =~= few);
    assert(many.last() == longer@.last()@);
    let p = |e: resolver::EndpointView| e.url == url;
    let before = resolver::endpoints_in(few, ns@, capability@, deep(query@), port_name@);
    let after = resolver::endpoints_in(many, ns@, capability@, deep(query@), port_name@);
    assert(after == before + crate::sorting::views(own@));
    sorting_keeps_urls(before, crate::sorting::views(r@), url);
    sorting_keeps_urls(after, crate::sorting::views(s@), url);
    Seq::filter_distributes_over_add(before, crate::sorting::views(own@), p);
    assert(crate::sorting::views(r@).len() == r@.len());
    assert(crate::sorting::views(s@).len() == s@.len());
    assert(crate::sorting::views(own@).len() == own@.len());
}

/// The priority of an endpoint's Service, or the last of all where none is known.
pub open spec fn rank(e: Endpoint, priorities: Table<String, i64>) -> int {
    if priorities@.contains_key(e.service@) {
        priorities@[e.service@] as int
    } else {
        0x7fff_ffff_ffff_ffff
    }
}

/// The endpoints of a rank, in their order.
pub open spec fn of_rank(
    v: Seq<resolver::EndpointView>,
    priorities: Map<Seq<char>, i64>,
    n: int,
) -> Seq<resolver::EndpointView> {
    v.filter(
        |e: resolver::EndpointView|
            n == if priorities.contains_key(e.service) {
                priorities[e.service] as int
            } else {
                0x7fff_ffff_ffff_ffff
            },
    )
}

proof fn filter_then_map<A, B>(
    s: Seq<A>,
    f: spec_fn(A) -> B,
    p: spec_fn(B) -> bool,
    q: spec_fn(A) -> bool,
)
    requires
        forall|a: A| #[trigger] q(a) == p(f(a)),
    ensures
        s.map_values(f).filter(p) == s.filter(q).map_values(f),
    decreases s.len(),
{
    reveal(Seq::filter);
    if s.len() > 0 {
        filter_then_map(s.drop_last(), f, p, q);
        assert(s.map_values(f).drop_last() =~= s.drop_last().map_values(f));
        assert(q(s.last()) == p(f(s.last())));
        if q(s.last()) {
            assert(s.filter(q) == s.drop_last().filter(q).push(s.last()));
            assert(s.drop_last().filter(q).push(s.last()).map_values(f)
                =~= s.drop_last().filter(q).map_values(f).push(f(s.last())));
        }
    } else {
        assert(s.map_values(f).filter(p) =~= s.filter(q).map_values(f));
    }
}

/// A group that is ordered by priority has the lowest number first, and what shares a
/// priority keeps the order that it had; nothing is lost and nothing is new. Without an order
/// the endpoints stay as they are.
pub proof fn priorities_order_a_group(
    endpoints: Vec<Endpoint>,
    policy: OrderingPolicy,
    priorities: &Table<String, i64>,
    r: Vec<Endpoint>,
    n: int,
)
    requires
        call_ensures(resolver::order_endpoints, (endpoints, policy, priorities), r),
    ensures
        r@.len() == endpoints@.len(),
        policy == OrderingPolicy::Unordered ==> forall|i: int|
            0 <= i < r@.len() ==> (#[trigger] r@[i])@ == endpoints@[i]@,
        policy == OrderingPolicy::Priority ==> forall|i: int, j: int|
            0 <= i < j < r@.len() ==> rank(#[trigger] r@[i], *priorities) <= rank(
                #[trigger] r@[j],
                *priorities,
            ),
        of_rank(crate::sorting::views(r@), priorities@, n) == of_rank(
            crate::sorting::views(endpoints@),
            priorities@,
            n,
        ),
{
    let before = crate::sorting::views(endpoints@);
    let after = crate::sorting::views(r@);
    assert(before.len() == endpoints@.len());
    assert(after.len() == r@.len());
    assert(resolver::prioritized(before, priorities@).len() == before.len());
    assert(resolver::prioritized(after, priorities@).len() == after.len());
    if policy == OrderingPolicy::Unordered {
        assert forall|i: int| 0 <= i < r@.len() implies (#[trigger] r@[i])@ == endpoints@[i]@ by {
            assert(after[i] == r@[i]@);
            assert(before[i] == endpoints@[i]@);
        }
    } else {
        let sorted = resolver::prioritized(after, priorities@);
        let unsorted = resolver::prioritized(before, priorities@);
        assert forall|i: int, j: int| 0 <= i < j < r@.len() implies rank(
            #[trigger] r@[i],
            *priorities,
        ) <= rank(#[trigger] r@[j], *priorities) by {
            assert(<resolver::Prioritized as crate::sorting::Ranked>::before_or_with(
                sorted[i],
                sorted[j],
            ));
            assert(after[i] == r@[i]@);
            assert(after[j] == r@[j]@);
        }
        let x = resolver::PrioritizedView {
            priority: n,
            endpoint: resolver::EndpointView {
                url: Seq::empty(),
                port_name: Seq::empty(),
                attributes: Map::empty(),
                service: Seq::empty(),
                namespace: Seq::empty(),
            },
        };
        let p = |e: resolver::PrioritizedView| e.priority == n;
        let q = |e: resolver::EndpointView|
            n == if priorities@.contains_key(e.service) {
                priorities@[e.service] as int
            } else {
                0x7fff_ffff_ffff_ffff
            };
        let f = |e: resolver::EndpointView|
            resolver::PrioritizedView {
                priority: resolver::priority_of(e, priorities@),
                endpoint: e,
            };
        crate::sorted::ranked_with_picks::<resolver::Prioritized>(sorted, x, p);
        crate::sorted::ranked_with_picks::<resolver::Prioritized>(unsorted, x, p);
        assert(crate::sorting::ranked_with::<resolver::Prioritized>(sorted, x)
            == crate::sorting::ranked_with::<resolver::Prioritized>(unsorted, x));
        assert forall|e: resolver::EndpointView| #[trigger] q(e) == p(f(e)) by {}
        filter_then_map(after, f, p, q);
        filter_then_map(before, f, p, q);
        assert(sorted =~= after.map_values(f));
        assert(unsorted =~= before.map_values(f));
        let (a, b) = (after.filter(q), before.filter(q));
        assert(a.map_values(f) == b.map_values(f));
        assert(a.map_values(f).len() == a.len());
        assert(b.map_values(f).len() == b.len());
        assert forall|i: int| 0 <= i < a.len() implies a[i] == b[i] by {
            assert(a.map_values(f)[i].endpoint == a[i]);
            assert(b.map_values(f)[i].endpoint == b[i]);
        }
        assert(a =~= b);
        assert(of_rank(after, priorities@, n) == a);
        assert(of_rank(before, priorities@, n) == b);
    }
}

/// A Service's priority is the whole number that its annotation holds; without one it goes
/// last.
pub proof fn a_priority_is_the_annotation_s_number(
    svc: &Service,
    key: &str,
    text: &str,
    number: Option<i64>,
    r: i64,
)
    requires
        call_ensures(resolver::priority_of_service, (svc, key), r),
        svc.annotations@.contains_key(key@) ==> text@ == svc.annotations@[key@]@,
        call_ensures(crate::text::i64_of, (text,), number),
    ensures
        svc.annotations@.contains_key(key@) && number is Some ==> r == number->0,
        svc.annotations@.contains_key(key@) && number is None ==> r == 0x7fff_ffff_ffff_ffff,
        !svc.annotations@.contains_key(key@) ==> r == 0x7fff_ffff_ffff_ffff,
{
    assert(deep(svc.annotations@).contains_key(key@) == svc.annotations@.contains_key(key@));
}

/// Every named Service has its priority under its name, the later of two of one name; one
/// Service more changes no other's.
pub proof fn every_service_has_its_priority(
    services: &[Service],
    longer: &[Service],
    key: &str,
    own: i64,
    r: Table<String, i64>,
    s: Table<String, i64>,
)
    requires
        longer@.len() > 0,
        longer@.drop_last() == services@,
        call_ensures(resolver::priority_of_service, (&longer@.last(), key), own),
        call_ensures(resolver::priorities, (services, key), r),
        call_ensures(resolver::priorities, (longer, key), s),
    ensures
        services@.len() == 0 ==> r@ == Map::<Seq<char>, i64>::empty(),
        match longer@.last().name {
            Some(name) => s@.contains_key(name@) && s@[name@] == own && forall|k: Seq<char>|
                k != name@ ==> #[trigger] s@.contains_key(k) == r@.contains_key(k) && (
                r@.contains_key(k) ==> s@[k] == r@[k]),
            None => s@ == r@,
        },
{
    let few = crate::sorting::views(services@);
    let many = crate::sorting::views(longer@);
    assert(many.drop_last() =~= few);
    assert(many.last() == longer@.last()@);
}

// ── the finder ──────────────────────────────────────────────────────────────

/// The cache resolves as the Services that it was given do.
pub proof fn the_cache_resolves_its_services(
    reg: &Registry,
    services: &[Service],
    ns: &str,
    capability: &str,
    query: &Table<String, String>,
    port_name: &str,
    r: Vec<Endpoint>,
    s: Vec<Endpoint>,
)
    requires
        reg@.services == crate::sorting::views(services@),
        reg@.ns == ns@,
        call_ensures(Registry::resolve, (reg, capability, query, port_name), r),
        call_ensures(resolver::resolve, (services, ns, capability, query, port_name), s),
    ensures
        crate::sorting::views(r@) == crate::sorting::views(s@),
{
    crate::sorting::sorting_is_unique::<Endpoint>(
        resolver::endpoints_in(reg@.services, ns@, capability@, deep(query@), port_name@),
        crate::sorting::views(r@),
        crate::sorting::views(s@),
    );
}

/// A group resolves to what its query does, in the order of its policy, with the priorities
/// of the Services that the cache holds.
pub proof fn a_group_resolves_as_its_query_in_its_order(
    reg: &Registry,
    policy: &GroupSpec,
    services: &[Service],
    key: &str,
    capability: &str,
    port_name: &str,
    priorities: Table<String, i64>,
    found: Vec<Endpoint>,
    ordered: Vec<Endpoint>,
    r: Vec<Endpoint>,
)
    requires
        reg@.services == crate::sorting::views(services@),
        reg@.priority_annotation == key@,
        capability@ == policy.capability@,
        port_name@ == policy.port_name@,
        call_ensures(resolver::priorities, (services, key), priorities),
        call_ensures(Registry::resolve, (reg, capability, &policy.selector, port_name), found),
        call_ensures(
            resolver::order_endpoints,
            (found, policy.ordering, &priorities),
            ordered,
        ),
        call_ensures(Registry::resolve_group, (reg, policy), r),
    ensures
        crate::sorting::views(r@) == crate::sorting::views(ordered@),
{
    assert(reg@.resolves(
        policy@.capability,
        policy@.selector,
        policy@.port_name,
        crate::sorting::views(found@),
    ));
    assert(reg@.resolves_group(policy@, crate::sorting::views(ordered@)));
    crate::registry::resolving_group_twice(
        reg@,
        policy@,
        crate::sorting::views(r@),
        crate::sorting::views(ordered@),
    );
}

/// The finder answers a query that names a capability with what the cache resolves, be it
/// nothing, and refuses one that names none.
pub proof fn the_finder_answers_queries(
    finder: &FinderService,
    req: &ResolveRequest,
    capability: &str,
    port_name: &str,
    found: Vec<Endpoint>,
    r: Result<Vec<Endpoint>, Status>,
)
    requires
        capability@ == req.capability@,
        port_name@ == req.port_name@,
        call_ensures(Registry::resolve, (&finder.reg, capability, &req.selector, port_name), found),
        call_ensures(FinderService::resolve, (finder, req), r),
    ensures
        capability@.len() > 0 ==> (r matches Ok(v) && crate::sorting::views(v@)
            == crate::sorting::views(found@)),
        capability@.len() == 0 ==> (r matches Err(s) && s.code == Code::InvalidArgument
            && s.message@ == "capability"@ + " is required"@),
{
    if let Ok(v) = r {
        crate::registry::resolving_twice(
            finder.reg@,
            req@.capability,
            req@.selector,
            req@.port_name,
            crate::sorting::views(v@),
            crate::sorting::views(found@),
        );
    }
}

/// The finder answers for a group that it knows with what the group resolves to, and tells a
/// caller that names none, or one that is not there.
pub proof fn the_finder_answers_for_groups(
    finder: &FinderService,
    name: &str,
    policy: Option<GroupSpec>,
    known: GroupSpec,
    found: Vec<Endpoint>,
    r: Result<Vec<Endpoint>, Status>,
)
    requires
        call_ensures(GroupCache::get, (&finder.groups, name), policy),
        policy is Some ==> known == policy->0,
        call_ensures(Registry::resolve_group, (&finder.reg, &known), found),
        call_ensures(FinderService::resolve_group, (finder, name), r),
    ensures
        name@.len() == 0 ==> (r matches Err(s) && s.code == Code::InvalidArgument && s.message@
            == "name"@ + " is required"@),
        name@.len() > 0 && policy is None ==> (r matches Err(s) && s.code == Code::NotFound
            && s.message@ == "no EndpointGroup "@ + crate::text::debug_text(name@)),
        name@.len() > 0 && policy is Some ==> (r matches Ok(v) && crate::sorting::views(v@)
            == crate::sorting::views(found@)),
{
    if let Ok(v) = r {
        crate::registry::resolving_group_twice(
            finder.reg@,
            known@,
            crate::sorting::views(v@),
            crate::sorting::views(found@),
        );
    }
}

/// A watch begins with a snapshot of what its query resolves to, and remembers it.
pub proof fn a_watch_begins_with_what_is_there(
    finder: &FinderService,
    req: ResolveRequest,
    found: Result<Vec<Endpoint>, Status>,
    r: Result<(Watch, WatchEvent), Status>,
)
    requires
        call_ensures(FinderService::resolve, (finder, &req), found),
        call_ensures(FinderService::watch, (finder, req), r),
    ensures
        found matches Ok(v) ==> {
            &&& r is Ok
            &&& (r->Ok_0).1.kind == EventKind::Snapshot
            &&& crate::sorting::views((r->Ok_0).1.endpoints@) == crate::sorting::views(v@)
            &&& (r->Ok_0).0.last() == crate::sorting::views(v@)
        },
        found matches Err(s) ==> (r matches Err(t) && t@ == s@),
{
    if found is Ok && r is Ok {
        crate::registry::resolving_twice(
            finder.reg@,
            req@.capability,
            req@.selector,
            req@.port_name,
            crate::sorting::views((found->Ok_0)@),
            (r->Ok_0).0.last(),
        );
    }
}

/// A watch of a group begins with what the group resolves to, or with nothing while it is
/// not there; only a nameless group is refused.
pub proof fn a_group_watch_begins_with_what_is_there(
    finder: &FinderService,
    name: String,
    text: &str,
    found: Result<Vec<Endpoint>, Status>,
    r: Result<(Watch, WatchEvent), Status>,
)
    requires
        text@ == name@,
        call_ensures(FinderService::resolve_group, (finder, text), found),
        call_ensures(FinderService::watch_group, (finder, name), r),
    ensures
        name@.len() > 0 ==> {
            &&& r is Ok
            &&& (r->Ok_0).1.kind == EventKind::Snapshot
            &&& (r->Ok_0).0.last() == crate::sorting::views((r->Ok_0).1.endpoints@)
            &&& found matches Ok(v) ==> crate::sorting::views((r->Ok_0).1.endpoints@)
                == crate::sorting::views(v@)
            &&& found is Err ==> (r->Ok_0).1.endpoints@.len() == 0
        },
        name@.len() == 0 ==> (r matches Err(s) && s.code == Code::InvalidArgument && s.message@
            == "name"@ + " is required"@),
{
    if r is Ok {
        assert(crate::sorting::views((r->Ok_0).1.endpoints@).len() == (r->Ok_0).1.endpoints@.len());
        if found is Ok {
            crate::registry::resolving_group_twice(
                finder.reg@,
                finder.groups@[name@],
                crate::sorting::views((found->Ok_0)@),
                (r->Ok_0).0.last(),
            );
        }
    }
}

/// What a watch is woken to is what the finder would answer: the one set that a query, or a
/// group that is there, resolves to, and nothing for a group that is not.
pub proof fn a_watch_sees_what_the_finder_answers(
    finder: &FinderService,
    req: ResolveRequest,
    name: String,
    text: &str,
    answered: Result<Vec<Endpoint>, Status>,
    grouped: Result<Vec<Endpoint>, Status>,
    out: Seq<resolver::EndpointView>,
    group: Seq<resolver::EndpointView>,
)
    requires
        text@ == name@,
        req.capability@.len() > 0,
        name@.len() > 0,
        call_ensures(FinderService::resolve, (finder, &req), answered),
        call_ensures(FinderService::resolve_group, (finder, text), grouped),
        finder.sees(Subject::Query(req), out),
        finder.sees(Subject::Group(name), group),
    ensures
        answered matches Ok(v) && out == crate::sorting::views(v@),
        grouped matches Ok(v) ==> group == crate::sorting::views(v@),
        grouped is Err ==> group.len() == 0,
{
    crate::registry::resolving_twice(
        finder.reg@,
        req@.capability,
        req@.selector,
        req@.port_name,
        crate::sorting::views((answered->Ok_0)@),
        out,
    );
    if grouped is Ok {
        crate::registry::resolving_group_twice(
            finder.reg@,
            finder.groups@[name@],
            crate::sorting::views((grouped->Ok_0)@),
            group,
        );
    }
}

// ── the client ──────────────────────────────────────────────────────────────

/// A request asks for the capability and the port, and by every pair of its selector, the
/// later of two with one key.
pub proof fn a_request_carries_every_pair(
    finder: &Finder,
    capability: &str,
    selector: &[(&str, &str)],
    port_name: &str,
    i: int,
    r: ResolveRequest,
)
    requires
        call_ensures(Finder::request, (finder, capability, selector, port_name), r),
    ensures
        r.capability@ == capability@,
        r.port_name@ == port_name@,
        0 <= i < selector@.len() && (forall|j: int|
            i < j < selector@.len() ==> (#[trigger] selector@[j]).0@ != selector@[i].0@)
            ==> r.selector@.contains_key(selector@[i].0@) && r.selector@[selector@[i].0@]@
            == selector@[i].1@,
        forall|k: Seq<char>| #[trigger]
            r.selector@.contains_key(k) ==> exists|j: int|
                0 <= j < selector@.len() && (#[trigger] selector@[j]).0@ == k,
{
    let held = deep(r.selector@);
    if 0 <= i < selector@.len() && (forall|j: int|
        i < j < selector@.len() ==> (#[trigger] selector@[j]).0@ != selector@[i].0@) {
        pair_is_held(selector@, i);
        assert(held.contains_key(selector@[i].0@));
    }
    assert forall|k: Seq<char>| #[trigger] r.selector@.contains_key(k) implies exists|j: int|
        0 <= j < selector@.len() && (#[trigger] selector@[j]).0@ == k by {
        assert(held.contains_key(k));
        held_is_pair(selector@, k);
    }
}

proof fn pair_is_held(pairs: Seq<(&str, &str)>, i: int)
    requires
        0 <= i < pairs.len(),
        forall|j: int| i < j < pairs.len() ==> (#[trigger] pairs[j]).0@ != pairs[i].0@,
    ensures
        client::pairs_map(pairs).contains_key(pairs[i].0@),
        client::pairs_map(pairs)[pairs[i].0@] == pairs[i].1@,
    decreases pairs.len(),
{
    let rest = pairs.drop_last();
    if i < rest.len() {
        assert forall|j: int| i < j < rest.len() implies (#[trigger] rest[j]).0@ != rest[i].0@ by {
            assert(rest[j] == pairs[j]);
        }
        pair_is_held(rest, i);
        assert(pairs[pairs.len() - 1].0@ != pairs[i].0@);
    }
}

proof fn held_is_pair(pairs: Seq<(&str, &str)>, k: Seq<char>)
    requires
        client::pairs_map(pairs).contains_key(k),
    ensures
        exists|j: int| 0 <= j < pairs.len() && (#[trigger] pairs[j]).0@ == k,
    decreases pairs.len(),
{
    if pairs.last().0@ == k {
        assert(pairs[pairs.len() - 1].0@ == k);
    } else {
        let rest = pairs.drop_last();
        held_is_pair(rest, k);
        let j = choose|j: int| 0 <= j < rest.len() && (#[trigger] rest[j]).0@ == k;
        assert(pairs[j] == rest[j]);
    }
}

/// What the finder answered is what is resolved. While it is unavailable that is nothing,
/// and no failure; any other failure is handed on.
pub proof fn only_an_unavailable_finder_resolves_to_nothing(
    reply: Result<Vec<Endpoint>, Status>,
    r: Result<Vec<Endpoint>, Status>,
)
    requires
        call_ensures(client::resolved, (reply,), r),
    ensures
        reply matches Ok(v) ==> r == reply,
        reply matches Err(s) ==> (s.code == Code::Unavailable ==> (r matches Ok(v) && v@.len()
            == 0)),
        reply matches Err(s) ==> (s.code != Code::Unavailable ==> r == reply),
{
}

/// The first url is that of the first endpoint, where there is one.
pub proof fn the_first_url_is_the_first_endpoint_s(endpoints: &Vec<Endpoint>, r: Option<String>)
    requires
        call_ensures(client::first_url, (endpoints,), r),
    ensures
        r is Some <==> endpoints@.len() > 0,
        r matches Some(url) ==> url@ == endpoints@[0].url@,
{
}

/// The wait doubles after every failure in a row, from one second up to thirty.
pub proof fn waits_double_up_to_half_a_minute(failures: nat)
    ensures
        client::wait_after(0) == 1,
        2 * client::wait_after(failures) <= 30 ==> client::wait_after(failures + 1) == 2
            * client::wait_after(failures),
        2 * client::wait_after(failures) > 30 ==> client::wait_after(failures + 1) == 30,
{
}

} // verus!
