//! JSON values, as the library reads and builds them.
//!
//! Reading a text is `serde_json`'s work; what it read is taken over node by node into
//! [`Json`], on which the rest of the library works.

use crate::messages::{seen, texts};
use crate::search::{first_index, first_index_at, first_index_none};
use crate::text::same;
use vstd::prelude::*;

verus! {

/// A JSON value. A number is kept by its text; entries are in the order in which they
/// were read.
#[derive(Debug)]
pub enum Json {
    Null,
    Flag(bool),
    Number(String),
    Text(String),
    List(Vec<Json>),
    Entries(Vec<(String, Json)>),
}

/// A JSON value by its characters.
pub enum JsonTree {
    Null,
    Flag(bool),
    Number(Seq<char>),
    Text(Seq<char>),
    List(Seq<JsonTree>),
    Entries(Seq<(Seq<char>, JsonTree)>),
}

impl Json {
    pub open spec fn tree(self) -> JsonTree
        decreases self,
    {
        match self {
            Json::Null => JsonTree::Null,
            Json::Flag(b) => JsonTree::Flag(b),
            Json::Number(n) => JsonTree::Number(n@),
            Json::Text(s) => JsonTree::Text(s@),
            Json::List(v) => JsonTree::List(
                Seq::new(
                    v@.len(),
                    |i: int|
                        if 0 <= i < v@.len() {
                            v[i].tree()
                        } else {
                            JsonTree::Null
                        },
                ),
            ),
            Json::Entries(v) => JsonTree::Entries(
                Seq::new(
                    v@.len(),
                    |i: int|
                        if 0 <= i < v@.len() {
                            (v[i].0@, v[i].1.tree())
                        } else {
                            (Seq::empty(), JsonTree::Null)
                        },
                ),
            ),
        }
    }
}

/// The entry stands under the key.
pub open spec fn under(key: Seq<char>) -> spec_fn((Seq<char>, JsonTree)) -> bool {
    |e: (Seq<char>, JsonTree)| e.0 == key
}

impl JsonTree {
    /// The value of an object's entry, where there is one.
    pub open spec fn field(self, key: Seq<char>) -> Option<JsonTree> {
        match self {
            JsonTree::Entries(entries) => match first_index(entries, under(key)) {
                Some(i) => Some(entries[i].1),
                None => None,
            },
            _ => None,
        }
    }

    pub open spec fn text(self) -> Option<Seq<char>> {
        match self {
            JsonTree::Text(s) => Some(s),
            _ => None,
        }
    }

    pub open spec fn flag(self) -> Option<bool> {
        match self {
            JsonTree::Flag(b) => Some(b),
            _ => None,
        }
    }

    pub open spec fn list(self) -> Option<Seq<JsonTree>> {
        match self {
            JsonTree::List(items) => Some(items),
            _ => None,
        }
    }

    pub open spec fn entries(self) -> Option<Seq<(Seq<char>, JsonTree)>> {
        match self {
            JsonTree::Entries(entries) => Some(entries),
            _ => None,
        }
    }
}

/// The entry of an entry, and so on down the keys.
pub open spec fn field_at(t: Option<JsonTree>, key: Seq<char>) -> Option<JsonTree> {
    match t {
        Some(t) => t.field(key),
        None => None,
    }
}

/// The text of a value, where there is one and it is a text.
pub open spec fn text_at(t: Option<JsonTree>) -> Option<Seq<char>> {
    match t {
        Some(t) => t.text(),
        None => None,
    }
}

/// The flag of a value, where there is one and it is a flag.
pub open spec fn flag_at(t: Option<JsonTree>) -> Option<bool> {
    match t {
        Some(t) => t.flag(),
        None => None,
    }
}

/// The items of a value, where there is one and it is a list.
pub open spec fn list_at(t: Option<JsonTree>) -> Option<Seq<JsonTree>> {
    match t {
        Some(t) => t.list(),
        None => None,
    }
}

/// The trees of a list of values.
pub open spec fn trees(v: Seq<Json>) -> Seq<JsonTree> {
    v.map_values(|j: Json| j.tree())
}

/// The trees of an object's entries.
pub open spec fn entry_trees(v: Seq<(String, Json)>) -> Seq<(Seq<char>, JsonTree)> {
    v.map_values(|e: (String, Json)| (e.0@, e.1.tree()))
}

impl Json {
    pub fn get(&self, key: &str) -> (r: Option<&Json>)
        ensures
            match r {
                Some(v) => self.tree().field(key@) == Some(v.tree()),
                None => self.tree().field(key@) is None,
            },
    {
        match self {
            Json::Entries(v) => {
                let ghost entries = self.tree()->Entries_0;
                let ghost p = under(key@);
                let mut i: usize = 0;
                while i < v.len()
                    invariant
                        i <= v.len(),
                        *self == Json::Entries(*v),
                        self.tree() == JsonTree::Entries(entries),
                        entries.len() == v@.len(),
                        p == under(key@),
                        forall|j: int| 0 <= j < i ==> !p(#[trigger] entries[j]),
                    decreases v.len() - i,
                {
                    assert(entries[i as int] == (v@[i as int].0@, v@[i as int].1.tree()));
                    if same(v[i].0.as_str(), key) {
                        proof {
                            first_index_at(entries, p, i as int);
                        }
                        return Some(&v[i].1);
                    }
                    i = i + 1;
                }
                proof {
                    first_index_none(entries, p);
                }
                None
            },
            _ => None,
        }
    }

    pub fn as_str(&self) -> (r: Option<&str>)
        ensures
            match r {
                Some(s) => self.tree().text() == Some(s@),
                None => self.tree().text() is None,
            },
    {
        match self {
            Json::Text(s) => Some(s.as_str()),
            _ => None,
        }
    }

    pub fn as_bool(&self) -> (r: Option<bool>)
        ensures
            r == self.tree().flag(),
    {
        match self {
            Json::Flag(b) => Some(*b),
            _ => None,
        }
    }

    pub fn as_array(&self) -> (r: Option<&Vec<Json>>)
        ensures
            match r {
                Some(v) => self.tree().list() == Some(trees(v@)),
                None => self.tree().list() is None,
            },
    {
        match self {
            Json::List(v) => {
                assert(self.tree()->List_0 =~= trees(v@));
                Some(v)
            },
            _ => None,
        }
    }

    pub fn as_object(&self) -> (r: Option<&Vec<(String, Json)>>)
        ensures
            match r {
                Some(v) => self.tree().entries() == Some(entry_trees(v@)),
                None => self.tree().entries() is None,
            },
    {
        match self {
            Json::Entries(v) => {
                assert(self.tree()->Entries_0 =~= entry_trees(v@));
                Some(v)
            },
            _ => None,
        }
    }

    /// The entry under `key`, as a text.
    pub fn get_str(&self, key: &str) -> (r: Option<&str>)
        ensures
            match r {
                Some(s) => text_at(self.tree().field(key@)) == Some(s@),
                None => text_at(self.tree().field(key@)) is None,
            },
    {
        match self.get(key) {
            Some(v) => v.as_str(),
            None => None,
        }
    }

    /// A text value.
    pub fn text(s: &str) -> (r: Json)
        ensures
            r.tree() == JsonTree::Text(s@),
    {
        Json::Text(s.to_owned())
    }

    /// A list of values.
    pub fn list(v: Vec<Json>) -> (r: Json)
        ensures
            r.tree() == JsonTree::List(trees(v@)),
    {
        let r = Json::List(v);
        assert(r.tree()->List_0 =~= trees(v@));
        r
    }

    /// An object with these entries.
    pub fn object(v: Vec<(String, Json)>) -> (r: Json)
        ensures
            r.tree() == JsonTree::Entries(entry_trees(v@)),
    {
        let r = Json::Entries(v);
        assert(r.tree()->Entries_0 =~= entry_trees(v@));
        r
    }
}

/// An object's entry.
pub fn entry(key: &str, value: Json) -> (r: (String, Json))
    ensures
        (r.0@, r.1.tree()) == (key@, value.tree()),
{
    (key.to_owned(), value)
}

/// The texts among the values.
pub open spec fn texts_of(items: Seq<JsonTree>) -> Seq<Seq<char>>
    decreases items.len(),
{
    if items.len() == 0 {
        Seq::empty()
    } else {
        match items.last().text() {
            Some(s) => texts_of(items.drop_last()).push(s),
            None => texts_of(items.drop_last()),
        }
    }
}

pub fn collect_texts(items: &Vec<Json>) -> (r: Vec<String>)
    ensures
        texts(r@) == texts_of(trees(items@)),
{
    let ghost all = trees(items@);
    let mut r: Vec<String> = Vec::new();
    let mut i: usize = 0;
    while i < items.len()
        invariant
            i <= items.len(),
            all == trees(items@),
            texts(r@) == texts_of(all.take(i as int)),
        decreases items.len() - i,
    {
        assert(all.take(i + 1).drop_last() =~= all.take(i as int));
        assert(all.take(i + 1).last() == items@[i as int].tree());
        if let Some(s) = items[i].as_str() {
            let ghost before = texts(r@);
            r.push(s.to_owned());
            assert(texts(r@) =~= before.push(s@));
        }
        i = i + 1;
    }
    assert(all.take(i as int) =~= all);
    r
}

// ── reading ─────────────────────────────────────────────────────────────────

#[verifier::external_type_specification]
#[verifier::external_body]
pub struct ExValue(serde_json::Value);

/// What a `serde_json` value holds.
pub uninterp spec fn contents(v: serde_json::Value) -> JsonTree;

/// What a text says as JSON, where `serde_json` can read it.
pub uninterp spec fn json_parse(text: Seq<char>) -> Option<JsonTree>;

/// `serde_json::from_str`: what the value that it reads holds is what the text says; it
/// fails where the text says nothing.
#[verifier::external_body]
fn read_value(text: &str) -> (r: Option<serde_json::Value>)
    ensures
        match r {
            Some(v) => json_parse(text@) == Some(contents(v)),
            None => json_parse(text@) is None,
        },
{
    serde_json::from_str(text).ok()
}

/// One level of a `serde_json` value.
enum Node<'a> {
    Null,
    Flag(bool),
    Number(String),
    Text(String),
    List(Vec<&'a serde_json::Value>),
    Entries(Vec<(String, &'a serde_json::Value)>),
}

/// The variants of `serde_json::Value`, a number by `Number::to_string`, an object's
/// entries in the order in which `Map::iter` gives them: what the value holds is what
/// the variant says of its parts.
#[verifier::external_body]
fn node(v: &serde_json::Value) -> (r: Node<'_>)
    ensures
        contents(*v) == match r {
            Node::Null => JsonTree::Null,
            Node::Flag(b) => JsonTree::Flag(b),
            Node::Number(n) => JsonTree::Number(n@),
            Node::Text(s) => JsonTree::Text(s@),
            Node::List(items) => JsonTree::List(
                items@.map_values(|v: &serde_json::Value| contents(*v)),
            ),
            Node::Entries(entries) => JsonTree::Entries(
                entries@.map_values(|e: (String, &serde_json::Value)| (e.0@, contents(*e.1))),
            ),
        },
{
    match v {
        serde_json::Value::Null => Node::Null,
        serde_json::Value::Bool(b) => Node::Flag(*b),
        serde_json::Value::Number(n) => Node::Number(n.to_string()),
        serde_json::Value::String(s) => Node::Text(s.clone()),
        serde_json::Value::Array(items) => Node::List(items.iter().collect()),
        serde_json::Value::Object(entries) => {
            Node::Entries(entries.iter().map(|(k, v)| (k.clone(), v)).collect())
        }
    }
}

impl Json {
    /// What a `serde_json` value holds.
    pub fn decode(v: &serde_json::Value) -> (r: Json)
        ensures
            r.tree() == contents(*v),
        decreases contents(*v),
    {
        match node(v) {
            Node::Null => Json::Null,
            Node::Flag(b) => Json::Flag(b),
            Node::Number(n) => Json::Number(n),
            Node::Text(s) => Json::Text(s),
            Node::List(items) => {
                let mut list: Vec<Json> = Vec::new();
                let ghost held = contents(*v)->List_0;
                let mut i: usize = 0;
                while i < items.len()
                    invariant
                        i <= items@.len(),
                        held == items@.map_values(|v: &serde_json::Value| contents(*v)),
                        contents(*v) == JsonTree::List(held),
                        list@.len() == i,
                        forall|j: int| 0 <= j < i ==> (#[trigger] list@[j]).tree() == held[j],
                    decreases items.len() - i,
                {
                    assert(held[i as int] == contents(*items@[i as int]));
                    assert(decreases_to!(contents(*v) => contents(*v)->List_0[i as int]));
                    list.push(Json::decode(items[i]));
                    i = i + 1;
                }
                assert(trees(list@) =~= held);
                Json::list(list)
            },
            Node::Entries(parts) => {
                let mut entries: Vec<(String, Json)> = Vec::new();
                let ghost held = contents(*v)->Entries_0;
                let mut i: usize = 0;
                while i < parts.len()
                    invariant
                        i <= parts@.len(),
                        held == parts@.map_values(
                            |e: (String, &serde_json::Value)| (e.0@, contents(*e.1)),
                        ),
                        contents(*v) == JsonTree::Entries(held),
                        entries@.len() == i,
                        forall|j: int|
                            0 <= j < i ==> ((#[trigger] entries@[j]).0@, entries@[j].1.tree())
                                == held[j],
                    decreases parts.len() - i,
                {
                    assert(held[i as int] == (
                        parts@[i as int].0@,
                        contents(*parts@[i as int].1),
                    ));
                    assert(decreases_to!(contents(*v) => contents(*v)->Entries_0[i as int].1));
                    let value = Json::decode(parts[i].1);
                    entries.push((parts[i].0.clone(), value));
                    i = i + 1;
                }
                assert(entry_trees(entries@) =~= held);
                Json::object(entries)
            },
        }
    }

    /// The value that a text says, where it says one.
    pub fn parse(text: &str) -> (r: Option<Json>)
        ensures
            match r {
                Some(j) => json_parse(text@) == Some(j.tree()),
                None => json_parse(text@) is None,
            },
    {
        match read_value(text) {
            Some(v) => Some(Json::decode(&v)),
            None => None,
        }
    }
}

/// The member of an object with this key, by `serde_json::Value::get`; nothing else has
/// members.
#[verifier::external_body]
fn member<'a>(v: &'a serde_json::Value, key: &str) -> (r: Option<&'a serde_json::Value>)
    ensures
        match r {
            Some(m) => contents(*v).field(key@) == Some(contents(*m)),
            None => contents(*v).field(key@) is None,
        },
{
    v.get(key)
}

/// What `serde_json` shows of a value: the value on one line.
pub uninterp spec fn json_text(tree: JsonTree) -> Seq<char>;

/// `serde_json::Value::to_string`. The contract says what is shown of a number: the text
/// that the number is kept by. Of anything else it names what is shown.
#[verifier::external_body]
fn shown(v: &serde_json::Value) -> (r: String)
    ensures
        r@ == json_text(contents(*v)),
        contents(*v) matches JsonTree::Number(n) ==> r@ == n,
{
    v.to_string()
}

/// A document, and its `id` as text, where it has one.
#[derive(Debug)]
pub struct Document {
    pub id: Option<String>,
    pub json: Json,
}

/// The `id` of a document as text: a number by its digits.
pub open spec fn id_text(t: JsonTree) -> Option<Seq<char>> {
    match t.field("id"@) {
        Some(id) => Some(json_text(id)),
        None => None,
    }
}

impl Document {
    /// The document that a `serde_json` value holds.
    pub fn decode(v: &serde_json::Value) -> (r: Self)
        ensures
            r.json.tree() == contents(*v),
            seen(r.id) == id_text(contents(*v)),
            contents(*v).field("id"@) matches Some(JsonTree::Number(n)) ==> seen(r.id) == Some(n),
    {
        let id = match member(v, "id") {
            Some(id) => Some(shown(id)),
            None => None,
        };
        Document { id, json: Json::decode(v) }
    }
}

} // verus!
