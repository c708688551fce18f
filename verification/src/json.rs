//! JSON documents as the gateway reads them.

use vstd::prelude::*;

verus! {

/// A JSON document. A number is kept as the text that stands for it; the
/// members of an object are kept in the order in which the reader hands
/// them out.
#[derive(Debug, PartialEq, Eq)]
pub enum Json {
    Null,
    Bool(bool),
    Number(String),
    String(String),
    Array(Vec<Json>),
    Object(Vec<(String, Json)>),
}

/// The mathematical value of a [`Json`] document.
pub enum JsonValue {
    Null,
    Bool(bool),
    Number(Seq<char>),
    String(Seq<char>),
    Array(Seq<JsonValue>),
    Object(Seq<(Seq<char>, JsonValue)>),
}

/// The mathematical value of `json`.
pub open spec fn json_value(json: Json) -> JsonValue
    decreases json,
{
    match json {
        Json::Null => JsonValue::Null,
        Json::Bool(b) => JsonValue::Bool(b),
        Json::Number(text) => JsonValue::Number(text@),
        Json::String(text) => JsonValue::String(text@),
        Json::Array(items) => JsonValue::Array(
            Seq::new(
                items@.len(),
                |i: int|
                    if 0 <= i < items@.len() {
                        json_value(items@[i])
                    } else {
                        JsonValue::Null
                    },
            ),
        ),
        Json::Object(members) => JsonValue::Object(
            Seq::new(
                members@.len(),
                |i: int|
                    if 0 <= i < members@.len() {
                        (members@[i].0@, json_value(members@[i].1))
                    } else {
                        (Seq::empty(), JsonValue::Null)
                    },
            ),
        ),
    }
}

impl View for Json {
    type V = JsonValue;

    open spec fn view(&self) -> JsonValue {
        json_value(*self)
    }
}

/// A JSON value as `serde_json` reads it.
#[verifier::external_type_specification]
#[verifier::external_body]
pub struct ExJsonTree(serde_json::Value);

/// What `serde_json` makes of `bytes`: the document that it reads from
/// them, or the text that its error prints where it rejects them.
pub uninterp spec fn json_document(bytes: Seq<u8>) -> Result<JsonValue, Seq<char>>;

/// The document that a `serde_json::Value` holds.
pub uninterp spec fn value_model(value: serde_json::Value) -> JsonValue;

/// Calls `serde_json::from_slice` to read the bytes as one JSON value. The
/// contract names what comes back: the document on success; on failure the
/// text that the error's `Display` impl prints.
#[verifier::external_body]
fn read_value(bytes: &[u8]) -> (r: Result<serde_json::Value, String>)
    ensures
        match r {
            Ok(value) => json_document(bytes@) == Ok::<JsonValue, Seq<char>>(value_model(value)),
            Err(text) => json_document(bytes@) == Err::<JsonValue, Seq<char>>(text@),
        },
{
    serde_json::from_slice::<serde_json::Value>(bytes).map_err(|e| e.to_string())
}

/// Moves a `serde_json::Value` into a [`Json`], variant by variant: a
/// number as the text that `serde_json::Number` prints, the items of an
/// array and the members of an object in the order of their iterators.
#[verifier::external_body]
fn json_from_value(value: serde_json::Value) -> (json: Json)
    ensures
        json@ == value_model(value),
{
    match value {
        serde_json::Value::Null => Json::Null,
        serde_json::Value::Bool(b) => Json::Bool(b),
        serde_json::Value::Number(n) => Json::Number(n.to_string()),
        serde_json::Value::String(s) => Json::String(s),
        serde_json::Value::Array(a) => Json::Array(a.into_iter().map(json_from_value).collect()),
        serde_json::Value::Object(o) => Json::Object(
            o.into_iter().map(|(k, v)| (k, json_from_value(v))).collect(),
        ),
    }
}

/// Reads `bytes` as a JSON document.
pub fn parse_json(bytes: &[u8]) -> (r: Result<Json, String>)
    ensures
        match r {
            Ok(json) => json_document(bytes@) == Ok::<JsonValue, Seq<char>>(json@),
            Err(text) => json_document(bytes@) == Err::<JsonValue, Seq<char>>(text@),
        },
{
    match read_value(bytes) {
        Ok(value) => Ok(json_from_value(value)),
        Err(text) => Err(text),
    }
}

/// The value of the first member named `key`, if there is one.
pub open spec fn member_of(members: Seq<(Seq<char>, JsonValue)>, key: Seq<char>) -> Option<
    JsonValue,
>
    decreases members.len(),
{
    if members.len() == 0 {
        None
    } else if members[0].0 == key {
        Some(members[0].1)
    } else {
        member_of(members.drop_first(), key)
    }
}

/// The texts of `items`, where every one of them is a string.
pub open spec fn strings_of(items: Seq<JsonValue>) -> Option<Seq<Seq<char>>> {
    if forall|i: int| 0 <= i < items.len() ==> #[trigger] items[i] is String {
        Some(Seq::new(items.len(), |i: int| items[i]->String_0))
    } else {
        None
    }
}

/// The texts that `texts` hold, in order.
pub open spec fn texts_of(texts: Seq<String>) -> Seq<Seq<char>> {
    Seq::new(texts.len(), |i: int| texts[i]@)
}

impl Json {
    /// The value of the first member named `key`, where this is an object
    /// that has one.
    pub fn member(&self, key: &str) -> (r: Option<&Json>)
        ensures
            match r {
                Some(found) => self@ is Object && member_of(self@->Object_0, key@) == Some(
                    found@,
                ),
                None => !(self@ is Object) || member_of(self@->Object_0, key@) is None,
            },
    {
        match self {
            Json::Object(members) => {
                let wanted = key.to_owned();
                let ghost all = self@->Object_0;
                assert(all.skip(0) =~= all);
                let mut i: usize = 0;
                while i < members.len()
                    invariant
                        i <= members.len(),
                        wanted@ == key@,
                        self@ == JsonValue::Object(all),
                        all.len() == members@.len(),
                        forall|j: int|
                            0 <= j < members@.len() ==> #[trigger] all[j] == (
                                members@[j].0@,
                                members@[j].1@,
                            ),
                        member_of(all, key@) == member_of(all.skip(i as int), key@),
                    decreases members.len() - i,
                {
                    let ghost rest = all.skip(i as int);
                    assert(rest[0] == all[i as int]);
                    assert(rest.drop_first() =~= all.skip(i + 1));
                    if members[i].0 == wanted {
                        assert(member_of(rest, key@) == Some(rest[0].1));
                        return Some(&members[i].1);
                    }
                    assert(member_of(rest, key@) == member_of(rest.drop_first(), key@));
                    i += 1;
                }
                assert(all.skip(i as int).len() == 0);
                None
            },
            _ => None,
        }
    }

    /// The texts of the items, where this is an array of strings.
    pub fn strings(&self) -> (r: Option<Vec<String>>)
        ensures
            match r {
                Some(texts) => self@ is Array && strings_of(self@->Array_0) == Some(
                    texts_of(texts@),
                ),
                None => !(self@ is Array) || strings_of(self@->Array_0) is None,
            },
    {
        match self {
            Json::Array(items) => {
                let ghost all = self@->Array_0;
                let mut texts: Vec<String> = Vec::new();
                let mut i: usize = 0;
                while i < items.len()
                    invariant
                        i <= items.len(),
                        self@ == JsonValue::Array(all),
                        all.len() == items@.len(),
                        forall|j: int| 0 <= j < items@.len() ==> #[trigger] all[j] == items@[j]@,
                        texts@.len() == i,
                        forall|j: int|
                            0 <= j < i ==> all[j] == JsonValue::String(#[trigger] texts@[j]@),
                    decreases items.len() - i,
                {
                    match &items[i] {
                        Json::String(text) => {
                            texts.push(text.clone());
                        },
                        _ => {
                            assert(all[i as int] == items@[i as int]@);
                            assert(!(all[i as int] is String));
                            return None;
                        },
                    }
                    i += 1;
                }
                assert forall|j: int| 0 <= j < all.len() implies #[trigger] all[j] is String by {
                    assert(all[j] == JsonValue::String(texts@[j]@));
                }
                assert(strings_of(all)->0 =~= texts_of(texts@));
                Some(texts)
            },
            _ => None,
        }
    }
}

} // verus!
