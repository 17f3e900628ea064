//! JSON documents as plain values, and the lookups that the library makes
//! in them.

use crate::text::same_text;
use vstd::prelude::*;
use vstd::string::StringExecFns;

verus! {

/// A JSON document. A number holds its text; an object holds its members
/// in order. A document read from a text has the members of each object
/// in the order of their keys, each key once.
#[derive(Debug)]
pub enum JsonValue {
    Null,
    Bool(bool),
    Number(String),
    Text(String),
    Array(Vec<JsonValue>),
    Object(Vec<(String, JsonValue)>),
}

/// The mathematical value of a `JsonValue`.
pub enum JsonView {
    Null,
    Bool(bool),
    Number(Seq<char>),
    Text(Seq<char>),
    Array(Seq<JsonView>),
    Object(Seq<(Seq<char>, JsonView)>),
}

/// The value of a document, part by part.
pub open spec fn value_of(doc: JsonValue) -> JsonView
    decreases doc,
{
    match doc {
        JsonValue::Null => JsonView::Null,
        JsonValue::Bool(b) => JsonView::Bool(b),
        JsonValue::Number(text) => JsonView::Number(text@),
        JsonValue::Text(text) => JsonView::Text(text@),
        JsonValue::Array(items) => JsonView::Array(
            Seq::new(
                items@.len(),
                |i: int|
                    if 0 <= i < items@.len() {
                        value_of(items@[i])
                    } else {
                        JsonView::Null
                    },
            ),
        ),
        JsonValue::Object(members) => JsonView::Object(
            Seq::new(
                members@.len(),
                |i: int|
                    if 0 <= i < members@.len() {
                        (members@[i].0@, value_of(members@[i].1))
                    } else {
                        (Seq::empty(), JsonView::Null)
                    },
            ),
        ),
    }
}

impl View for JsonValue {
    type V = JsonView;

    open spec fn view(&self) -> JsonView {
        value_of(*self)
    }
}

/// `serde_json::Value`: a document as the JSON reader hands it out, carried
/// through without a look inside.
#[verifier::external_type_specification]
#[verifier::external_body]
pub struct ExOutsideValue(serde_json::Value);

/// `serde_json::Error`: why the JSON reader refused a text; only that it
/// did is used.
#[verifier::external_type_specification]
#[verifier::external_body]
pub struct ExOutsideError(serde_json::Error);

/// What a `serde_json::Value` holds, as the value of a `JsonValue`: null,
/// boolean, the text of a number, the text of a string, the items of an
/// array, the members of an object in the order in which it gives them.
pub uninterp spec fn outside_value(value: serde_json::Value) -> JsonView;

/// The document that `serde_json::from_slice` reads from `bytes`, or none
/// where it refuses them.
pub uninterp spec fn json_document(bytes: Seq<u8>) -> Option<JsonView>;

/// `serde_json::from_slice` at the type `serde_json::Value`: what it
/// returns depends on the bytes alone, an error where they are no JSON
/// text.
#[verifier::external_body]
fn read_document(bytes: &[u8]) -> (r: Result<serde_json::Value, serde_json::Error>)
    ensures
        match r {
            Ok(value) => json_document(bytes@) == Some(outside_value(value)),
            Err(_) => json_document(bytes@) is None,
        },
{
    serde_json::from_slice::<serde_json::Value>(bytes)
}

/// Moves a `serde_json::Value` into a `JsonValue`, variant by variant; a
/// number becomes the text that `serde_json::Number` displays.
#[verifier::external_body]
fn from_outside(value: serde_json::Value) -> (r: JsonValue)
    ensures
        r@ == outside_value(value),
{
    match value {
        serde_json::Value::Null => JsonValue::Null,
        serde_json::Value::Bool(b) => JsonValue::Bool(b),
        serde_json::Value::Number(n) => JsonValue::Number(n.to_string()),
        serde_json::Value::String(s) => JsonValue::Text(s),
        serde_json::Value::Array(a) => JsonValue::Array(a.into_iter().map(from_outside).collect()),
        serde_json::Value::Object(m) => JsonValue::Object(
            m.into_iter().map(|(k, v)| (k, from_outside(v))).collect(),
        ),
    }
}

/// The value of the first of `members` whose key is `key`.
pub open spec fn find_member(members: Seq<(Seq<char>, JsonView)>, key: Seq<char>) -> Option<
    JsonView,
>
    decreases members.len(),
{
    if members.len() == 0 {
        None
    } else if members[0].0 == key {
        Some(members[0].1)
    } else {
        find_member(members.skip(1), key)
    }
}

/// The member `key` of `doc`, where `doc` is an object that has one.
pub open spec fn member(doc: JsonView, key: Seq<char>) -> Option<JsonView> {
    match doc {
        JsonView::Object(members) => find_member(members, key),
        _ => None,
    }
}

/// The text of `doc`, where `doc` is a string.
pub open spec fn text_of(doc: JsonView) -> Option<Seq<char>> {
    match doc {
        JsonView::Text(text) => Some(text),
        _ => None,
    }
}

/// The text of the member `key` of `doc`, where `doc` is an object whose
/// member `key` is a string.
pub open spec fn text_member(doc: JsonView, key: Seq<char>) -> Option<Seq<char>> {
    match member(doc, key) {
        Some(value) => text_of(value),
        None => None,
    }
}

/// The items of `doc`, where `doc` is an array.
pub open spec fn items_of(doc: JsonView) -> Option<Seq<JsonView>> {
    match doc {
        JsonView::Array(items) => Some(items),
        _ => None,
    }
}

/// The text of the member `key` of `doc`; the empty text where `doc` has
/// no such member or it is no string.
pub open spec fn text_or_empty(doc: JsonView, key: Seq<char>) -> Seq<char> {
    match text_member(doc, key) {
        Some(text) => text,
        None => Seq::empty(),
    }
}

/// The values of the documents of `docs`.
pub open spec fn values_view(docs: Seq<JsonValue>) -> Seq<JsonView> {
    docs.map_values(|doc: JsonValue| doc@)
}

/// The value of an array is the values of its items.
pub proof fn lemma_array_view(items: Vec<JsonValue>)
    ensures
        JsonValue::Array(items)@ == JsonView::Array(values_view(items@)),
{
    assert(JsonValue::Array(items)@->Array_0 =~= values_view(items@));
}

/// The value of an object is, member by member, the key and the value of
/// the member.
pub proof fn lemma_object_view(members: Vec<(String, JsonValue)>)
    ensures
        JsonValue::Object(members)@ is Object,
        JsonValue::Object(members)@->Object_0.len() == members@.len(),
        forall|i: int|
            0 <= i < members@.len() ==> #[trigger] JsonValue::Object(members)@->Object_0[i] == (
                members@[i].0@,
                members@[i].1@,
            ),
{
}

/// The keys and values of `members`.
pub open spec fn members_view(members: Seq<(String, JsonValue)>) -> Seq<(Seq<char>, JsonView)> {
    members.map_values(|m: (String, JsonValue)| (m.0@, m.1@))
}

impl JsonValue {
    /// The string that holds `text`.
    pub fn text(text: &str) -> (r: JsonValue)
        ensures
            r@ == JsonView::Text(text@),
    {
        JsonValue::Text(String::from_str(text))
    }

    /// The object with the members `members`.
    pub fn object(members: Vec<(String, JsonValue)>) -> (r: JsonValue)
        ensures
            r@ == JsonView::Object(members_view(members@)),
    {
        proof {
            lemma_object_view(members);
            assert(JsonValue::Object(members)@->Object_0 =~= members_view(members@));
        }
        JsonValue::Object(members)
    }

    /// Reads `bytes` as a JSON text: the document, or `None` where they
    /// are not one.
    pub fn parse(bytes: &[u8]) -> (r: Option<JsonValue>)
        ensures
            match r {
                Some(doc) => json_document(bytes@) == Some(doc@),
                None => json_document(bytes@) is None,
            },
    {
        match read_document(bytes) {
            Ok(value) => Some(from_outside(value)),
            Err(_) => None,
        }
    }

    /// The member `key` of an object.
    pub fn get(&self, key: &str) -> (r: Option<&JsonValue>)
        ensures
            match r {
                Some(value) => member(self@, key@) == Some(value@),
                None => member(self@, key@) is None,
            },
    {
        match self {
            JsonValue::Object(members) => {
                let ghost all = self@->Object_0;
                let mut i: usize = 0;
                proof {
                    assert(all.skip(0) =~= all);
                }
                while i < members.len()
                    invariant
                        i <= members.len(),
                        self@ == JsonView::Object(all),
                        all.len() == members@.len(),
                        forall|j: int|
                            0 <= j < members@.len() ==> #[trigger] all[j] == (
                                members@[j].0@,
                                members@[j].1@,
                            ),
                        find_member(all, key@) == find_member(all.skip(i as int), key@),
                    decreases members.len() - i,
                {
                    assert(all.skip(i as int)[0] == all[i as int]);
                    if same_text(members[i].0.as_str(), key) {
                        let found = &members[i].1;
                        assert(all[i as int].1 == found@);
                        assert(find_member(all.skip(i as int), key@) == Some(found@));
                        return Some(found);
                    }
                    assert(all.skip(i as int).skip(1) =~= all.skip(i + 1));
                    i = i + 1;
                }
                None
            },
            _ => None,
        }
    }

    /// The text of a string.
    pub fn as_str(&self) -> (r: Option<&str>)
        ensures
            match r {
                Some(text) => text_of(self@) == Some(text@),
                None => text_of(self@) is None,
            },
    {
        match self {
            JsonValue::Text(text) => Some(text.as_str()),
            _ => None,
        }
    }

    /// The text of the member `key` of an object, where it is a string.
    pub fn text_at(&self, key: &str) -> (r: Option<&str>)
        ensures
            match r {
                Some(text) => text_member(self@, key@) == Some(text@),
                None => text_member(self@, key@) is None,
            },
    {
        match self.get(key) {
            Some(value) => value.as_str(),
            None => None,
        }
    }

    /// The items of an array.
    pub fn as_array(&self) -> (r: Option<&Vec<JsonValue>>)
        ensures
            match r {
                Some(items) => items_of(self@) == Some(values_view(items@)),
                None => items_of(self@) is None,
            },
    {
        match self {
            JsonValue::Array(items) => {
                proof {
                    lemma_array_view(*items);
                }
                Some(items)
            },
            _ => None,
        }
    }

    /// The text of the member `key`, or the empty text.
    pub fn text_or_empty(&self, key: &str) -> (r: &str)
        ensures
            r@ == text_or_empty(self@, key@),
    {
        match self.text_at(key) {
            Some(text) => text,
            None => {
                proof {
                    reveal_strlit("");
                    assert(""@ =~= Seq::<char>::empty());
                }
                ""
            },
        }
    }
}

} // verus!
