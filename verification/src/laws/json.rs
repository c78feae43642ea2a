//! Reading a JSON document.

use crate::json::{collect_texts, under, Json, JsonTree};
use crate::search::{first_index, first_index_at, first_index_facts, first_index_none};
use vstd::prelude::*;

verus! {

/// The entry at `i` is the first under the key.
pub open spec fn first_under(entries: Seq<(Seq<char>, JsonTree)>, key: Seq<char>, i: int) -> bool {
    &&& 0 <= i < entries.len()
    &&& entries[i].0 == key
    &&& forall|j: int| 0 <= j < i ==> (#[trigger] entries[j]).0 != key
}

/// The document is an object that has the value under the key.
pub open spec fn says(t: JsonTree, key: Seq<char>, value: JsonTree) -> bool {
    t matches JsonTree::Entries(entries) && exists|i: int| #[trigger]
        first_under(entries, key, i) && entries[i].1 == value
}

/// The document is an object that has the text under the key.
pub open spec fn says_text(t: JsonTree, key: Seq<char>, text: Seq<char>) -> bool {
    says(t, key, JsonTree::Text(text))
}

/// The document has nothing under the key.
pub open spec fn silent(t: JsonTree, key: Seq<char>) -> bool {
    t matches JsonTree::Entries(entries) ==> (forall|i: int|
        0 <= i < entries.len() ==> (#[trigger] entries[i]).0 != key)
}

/// The document has no text under the key.
pub open spec fn no_text(t: JsonTree, key: Seq<char>) -> bool {
    forall|text: Seq<char>| !#[trigger] says_text(t, key, text)
}

/// The first entry under a key is what the object says there.
pub proof fn says_at(entries: Seq<(Seq<char>, JsonTree)>, key: Seq<char>, i: int)
    requires
        first_under(entries, key, i),
    ensures
        says(JsonTree::Entries(entries), key, entries[i].1),
{
    let t = JsonTree::Entries(entries);
    let value = entries[i].1;
    assert(t->Entries_0 == entries);
    assert(first_under(t->Entries_0, key, i) && t->Entries_0[i].1 == value);
    assert(says(t, key, value));
}

/// What a document says under a key is what is read there.
pub proof fn saying(t: JsonTree, key: Seq<char>)
    ensures
        match t.field(key) {
            Some(value) => says(t, key, value),
            None => silent(t, key),
        },
        forall|value: JsonTree| #[trigger] says(t, key, value) <==> t.field(key) == Some(value),
        silent(t, key) <==> t.field(key) is None,
{
    if let JsonTree::Entries(entries) = t {
        let p = under(key);
        first_index_facts(entries, p);
        if let Some(i) = first_index(entries, p) {
            assert(first_under(entries, key, i));
        }
        assert forall|value: JsonTree| #[trigger] says(t, key, value) implies t.field(key) == Some(
            value,
        ) by {
            let i = choose|i: int| #[trigger]
                first_under(entries, key, i) && entries[i].1 == value;
            first_index_at(entries, p, i);
        }
        if silent(t, key) {
            first_index_none(entries, p);
        }
    }
}

/// [`saying`] of every document and key.
pub proof fn reading()
    ensures
        forall|t: JsonTree, key: Seq<char>, value: JsonTree| #[trigger]
            says(t, key, value) <==> t.field(key) == Some(value),
        forall|t: JsonTree, key: Seq<char>| #[trigger] silent(t, key) <==> t.field(key) is None,
        forall|t: JsonTree, key: Seq<char>, text: Seq<char>| #[trigger]
            says_text(t, key, text) <==> t.field(key) == Some(JsonTree::Text(text)),
        forall|t: JsonTree, key: Seq<char>| #[trigger]
            no_text(t, key) <==> !(t.field(key) matches Some(JsonTree::Text(_))),
{
    assert forall|t: JsonTree, key: Seq<char>, value: JsonTree| #[trigger]
        says(t, key, value) <==> t.field(key) == Some(value) by {
        saying(t, key);
    }
    assert forall|t: JsonTree, key: Seq<char>| #[trigger] silent(t, key) <==> t.field(
        key,
    ) is None by {
        saying(t, key);
    }
    assert forall|t: JsonTree, key: Seq<char>| #[trigger] no_text(t, key) implies !(t.field(
        key,
    ) matches Some(JsonTree::Text(_))) by {
        if let Some(JsonTree::Text(text)) = t.field(key) {
            assert(says_text(t, key, text));
        }
    }
}

/// `get` gives the value of the first entry under the key of an object, and nothing where
/// there is no such entry or no object.
pub proof fn get_finds_the_first_entry(json: &Json, key: &str, r: Option<&Json>)
    requires
        call_ensures(Json::get, (json, key), r),
    ensures
        match r {
            Some(value) => says(json.tree(), key@, value.tree()),
            None => silent(json.tree(), key@),
        },
{
    saying(json.tree(), key@);
}

/// `get_str` gives the text of that value, where it is one.
pub proof fn get_str_finds_the_text(json: &Json, key: &str, r: Option<&str>)
    requires
        call_ensures(Json::get_str, (json, key), r),
    ensures
        match r {
            Some(text) => says_text(json.tree(), key@, text@),
            None => no_text(json.tree(), key@),
        },
{
    reading();
}

/// A value reads as what it is, and as nothing else.
pub proof fn values_read_as_they_are(
    json: &Json,
    text: Option<&str>,
    flag: Option<bool>,
    list: Option<&Vec<Json>>,
    entries: Option<&Vec<(String, Json)>>,
)
    requires
        call_ensures(Json::as_str, (json,), text),
        call_ensures(Json::as_bool, (json,), flag),
        call_ensures(Json::as_array, (json,), list),
        call_ensures(Json::as_object, (json,), entries),
    ensures
        match *json {
            Json::Text(s) => text matches Some(t) && t@ == s@,
            _ => text is None,
        },
        match *json {
            Json::Flag(b) => flag == Some(b),
            _ => flag is None,
        },
        match *json {
            Json::List(items) => list matches Some(v) && v@.len() == items@.len() && forall|i: int|
                0 <= i < items@.len() ==> (#[trigger] v@[i]).tree() == items@[i].tree(),
            _ => list is None,
        },
        match *json {
            Json::Entries(items) => entries matches Some(v) && v@.len() == items@.len() && forall|
                i: int,
            |
                0 <= i < items@.len() ==> (#[trigger] v@[i]).0@ == items@[i].0@ && v@[i].1.tree()
                    == items@[i].1.tree(),
            _ => entries is None,
        },
{
    if let Json::List(items) = *json {
        let held = json.tree()->List_0;
        let v = list->0;
        assert(held.len() == v@.len());
        assert forall|i: int| 0 <= i < items@.len() implies (#[trigger] v@[i]).tree()
            == items@[i].tree() by {
            assert(held[i] == v@[i].tree());
        }
    }
    if let Json::Entries(items) = *json {
        let held = json.tree()->Entries_0;
        let v = entries->0;
        assert(held.len() == v@.len());
        assert forall|i: int| 0 <= i < items@.len() implies (#[trigger] v@[i]).0@ == items@[i].0@
            && v@[i].1.tree() == items@[i].1.tree() by {
            assert(held[i] == (v@[i].0@, v@[i].1.tree()));
        }
    }
}

/// Of the values of a list, the texts are picked in their order: a list that is longer by
/// one value gives one text more where the value is a text, and else the same.
pub proof fn texts_are_picked_in_order(
    items: &Vec<Json>,
    longer: &Vec<Json>,
    r: Vec<String>,
    s: Vec<String>,
)
    requires
        call_ensures(collect_texts, (items,), r),
        call_ensures(collect_texts, (longer,), s),
        longer@.len() > 0,
        longer@.drop_last() == items@,
    ensures
        items@.len() == 0 ==> r@.len() == 0,
        match longer@.last() {
            Json::Text(text) => {
                &&& s@.len() == r@.len() + 1
                &&& s@.last()@ == text@
                &&& forall|i: int| 0 <= i < r@.len() ==> (#[trigger] s@[i])@ == r@[i]@
            },
            _ => s@.len() == r@.len() && forall|i: int|
                0 <= i < r@.len() ==> (#[trigger] s@[i])@ == r@[i]@,
        },
{
    let a = crate::json::trees(items@);
    let b = crate::json::trees(longer@);
    assert(b.drop_last() =~= a);
    assert(b.last() == longer@.last().tree());
    let ra = crate::messages::texts(r@);
    let rb = crate::messages::texts(s@);
    assert(ra.len() == r@.len());
    assert(rb.len() == s@.len());
    assert forall|i: int| 0 <= i < r@.len() implies (#[trigger] s@[i])@ == r@[i]@ by {
        assert(ra[i] == r@[i]@);
        assert(rb[i] == s@[i]@);
    }
    if let Json::Text(text) = longer@.last() {
        assert(rb.last() == s@.last()@);
        assert(rb == ra.push(text@));
    }
}

} // verus!
