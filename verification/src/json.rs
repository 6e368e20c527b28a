//! JSON documents as the services read them.
//!
//! Parsing and writing JSON text is `serde_json`'s work. What the client reads
//! out of a parsed document is done here, on a tree of plain values.

use vstd::prelude::*;
use crate::text::{str_eq, string_views};

verus! {

/// `serde_json::Value`: a parsed JSON value, carried through as it is.
#[verifier::external_type_specification]
#[verifier::external_body]
pub struct ExJsonValue(serde_json::Value);

/// `serde_json::Error`: why a text could not be read or a value not be
/// written.
#[verifier::external_type_specification]
#[verifier::external_body]
pub struct ExJsonError(serde_json::Error);

/// A parsed JSON document.
#[derive(Debug)]
pub enum Json {
    Null,
    Bool(bool),
    /// A number. The first field holds its value where it is a whole number
    /// from 0 to 2^64 - 1, the second where it is a whole number from -2^63
    /// to 2^63 - 1; a number with a fraction or an exponent has neither.
    Number(Option<u64>, Option<i64>),
    Text(String),
    List(Vec<Json>),
    /// The members of an object, each key once.
    Object(Vec<(String, Json)>),
}

/// The compact JSON text that `serde_json` writes for a value.
pub uninterp spec fn json_text(value: serde_json::Value) -> Seq<char>;

/// The compact JSON text of the value that `text` parses to; nothing where
/// `text` is not one JSON document.
pub uninterp spec fn canonical_json(text: Seq<char>) -> Option<Seq<char>>;

/// The document that `text` parses to; nothing where `text` is not one JSON
/// document.
pub uninterp spec fn json_document(text: Seq<char>) -> Option<Json>;

/// `serde_json::from_str` for a `serde_json::Value`. The value that comes back
/// is the one whose compact text `canonical_json` names; an error comes back
/// exactly where the text is not one JSON document.
#[verifier::external_body]
pub(crate) fn parse_value(text: &str) -> (r: Result<serde_json::Value, serde_json::Error>)
    ensures
        match r {
            Ok(value) => canonical_json(text@) == Some(json_text(value)),
            Err(_) => canonical_json(text@) is None,
        },
{
    serde_json::from_str::<serde_json::Value>(text)
}

/// `serde_json::to_string` on a `serde_json::Value`. It writes the value's
/// compact text. The call fails only where a `Serialize` impl fails or a map
/// has keys that are not strings; a `Value` writes itself out member by member
/// and its maps are keyed by strings, so the text always comes back.
#[verifier::external_body]
pub(crate) fn value_text(value: &serde_json::Value) -> (r: Result<String, serde_json::Error>)
    ensures
        r is Ok,
        r matches Ok(s) ==> s@ == json_text(*value),
{
    serde_json::to_string(value)
}

/// Copies a `serde_json::Value` into a `Json` tree, variant by variant. A
/// number hands over what `serde_json::Number::as_u64` and
/// `serde_json::Number::as_i64` give for it.
#[verifier::external_body]
fn json_of(value: &serde_json::Value) -> Json {
    match value {
        serde_json::Value::Null => Json::Null,
        serde_json::Value::Bool(b) => Json::Bool(*b),
        serde_json::Value::Number(n) => Json::Number(n.as_u64(), n.as_i64()),
        serde_json::Value::String(s) => Json::Text(s.clone()),
        serde_json::Value::Array(items) => Json::List(items.iter().map(json_of).collect()),
        serde_json::Value::Object(members) => Json::Object(
            members.iter().map(|(k, v)| (k.clone(), json_of(v))).collect(),
        ),
    }
}

/// `serde_json::from_str` for a `serde_json::Value`, handed over as a `Json`
/// tree: the document that `json_document` names, or nothing where the text
/// is not one JSON document.
#[verifier::external_body]
pub(crate) fn parse_document(text: &str) -> (r: Option<Json>)
    ensures
        r == json_document(text@),
{
    serde_json::from_str::<serde_json::Value>(text).ok().map(|value| json_of(&value))
}

/// The value stored under `key` among `members`, looking from position `i`.
pub open spec fn lookup(members: Seq<(String, Json)>, key: Seq<char>, i: int) -> Option<Json>
    decreases members.len() - i,
{
    if i < 0 || i >= members.len() {
        None
    } else if members[i].0@ == key {
        Some(members[i].1)
    } else {
        lookup(members, key, i + 1)
    }
}

/// The strings among `items`, in order; other values are left out.
pub open spec fn texts_among(items: Seq<Json>) -> Seq<Seq<char>>
    decreases items.len(),
{
    if items.len() == 0 {
        Seq::empty()
    } else {
        match items.last() {
            Json::Text(s) => texts_among(items.drop_last()).push(s@),
            _ => texts_among(items.drop_last()),
        }
    }
}

impl Json {
    /// The value under `key`, where this is an object that has the key.
    pub open spec fn member(self, key: Seq<char>) -> Option<Json> {
        match self {
            Json::Object(members) => lookup(members@, key, 0),
            _ => None,
        }
    }

    /// The item at position `i`, where this is an array that long.
    pub open spec fn element(self, i: int) -> Option<Json> {
        match self {
            Json::List(items) => if 0 <= i < items@.len() {
                Some(items@[i])
            } else {
                None
            },
            _ => None,
        }
    }

    /// The characters, where this is a string.
    pub open spec fn text(self) -> Option<Seq<char>> {
        match self {
            Json::Text(s) => Some(s@),
            _ => None,
        }
    }

    /// The items, where this is an array.
    pub open spec fn items(self) -> Option<Seq<Json>> {
        match self {
            Json::List(items) => Some(items@),
            _ => None,
        }
    }

    /// The value under `key`, where this is an object that has the key.
    pub fn get(&self, key: &str) -> (r: Option<&Json>)
        ensures
            match r {
                Some(found) => self.member(key@) == Some(*found),
                None => self.member(key@) is None,
            },
    {
        match self {
            Json::Object(members) => {
                let mut i: usize = 0;
                while i < members.len()
                    invariant
                        i <= members.len(),
                        self.member(key@) == lookup(members@, key@, i as int),
                    decreases members.len() - i,
                {
                    if str_eq(members[i].0.as_str(), key) {
                        return Some(&members[i].1);
                    }
                    i += 1;
                }
                None
            },
            _ => None,
        }
    }

    /// The item at position `i`, where this is an array that long.
    pub fn at(&self, i: usize) -> (r: Option<&Json>)
        ensures
            match r {
                Some(found) => self.element(i as int) == Some(*found),
                None => self.element(i as int) is None,
            },
    {
        match self {
            Json::List(items) => if i < items.len() {
                Some(&items[i])
            } else {
                None
            },
            _ => None,
        }
    }

    /// The characters, where this is a string.
    pub fn as_str(&self) -> (r: Option<&str>)
        ensures
            match r {
                Some(s) => self.text() == Some(s@),
                None => self.text() is None,
            },
    {
        match self {
            Json::Text(s) => Some(s.as_str()),
            _ => None,
        }
    }

    /// The items, where this is an array.
    pub fn as_array(&self) -> (r: Option<&Vec<Json>>)
        ensures
            match r {
                Some(items) => self.items() == Some(items@),
                None => self.items() is None,
            },
    {
        match self {
            Json::List(items) => Some(items),
            _ => None,
        }
    }
}

/// The strings among `items`, in order.
pub fn texts_of(items: &Vec<Json>) -> (out: Vec<String>)
    ensures
        string_views(out@) == texts_among(items@),
{
    let mut out: Vec<String> = Vec::new();
    let mut i: usize = 0;
    assert(items@.take(0) =~= Seq::<Json>::empty());
    assert(string_views(out@) =~= Seq::<Seq<char>>::empty());
    while i < items.len()
        invariant
            i <= items.len(),
            string_views(out@) == texts_among(items@.take(i as int)),
        decreases items.len() - i,
    {
        proof {
            assert(items@.take(i + 1).drop_last() =~= items@.take(i as int));
            assert(items@.take(i + 1).last() == items@[i as int]);
        }
        match &items[i] {
            Json::Text(s) => {
                let ghost before = out@;
                let copy = s.clone();
                out.push(copy);
                assert(string_views(out@) =~= string_views(before).push(s@));
            },
            _ => {},
        }
        i += 1;
    }
    assert(items@.take(items@.len() as int) =~= items@);
    out
}

/// The counter stored under `name` in an object: zero where the member is
/// missing, nothing where it is there and is not a whole number from 0 to
/// 2^32 - 1.
pub open spec fn count_field(doc: Json, name: Seq<char>) -> Option<u32> {
    match doc.member(name) {
        None => Some(0u32),
        Some(Json::Number(Some(n), _)) => if n <= u32::MAX {
            Some(n as u32)
        } else {
            None
        },
        Some(_) => None,
    }
}

/// The string stored under `name` in an object; nothing where the member is
/// missing or is no string.
pub open spec fn text_field(doc: Json, name: Seq<char>) -> Option<String> {
    match doc.member(name) {
        Some(Json::Text(s)) => Some(s),
        _ => None,
    }
}

/// The string stored under `name` in an object, which may be missing or
/// null; nothing where the member is anything but a string or null.
pub open spec fn optional_text_field(doc: Json, name: Seq<char>) -> Option<Option<String>> {
    match doc.member(name) {
        None => Some(None),
        Some(Json::Null) => Some(None),
        Some(Json::Text(s)) => Some(Some(s)),
        Some(_) => None,
    }
}

/// The member stored under `name`, where it is there and is not null.
pub open spec fn present_member(doc: Json, name: Seq<char>) -> Option<Json> {
    match doc.member(name) {
        Some(Json::Null) => None,
        other => other,
    }
}

/// Whether the document is a JSON object.
pub fn is_object(doc: &Json) -> (r: bool)
    ensures
        r == (*doc is Object),
{
    match doc {
        Json::Object(_) => true,
        _ => false,
    }
}

/// Reads the counter stored under `name`.
pub fn read_count(doc: &Json, name: &str) -> (r: Option<u32>)
    ensures
        r == count_field(*doc, name@),
{
    match doc.get(name) {
        None => Some(0),
        Some(Json::Number(Some(n), _)) => if *n <= 0xFFFF_FFFF {
            Some(*n as u32)
        } else {
            None
        },
        Some(_) => None,
    }
}

/// Reads the string stored under `name`.
pub fn read_text(doc: &Json, name: &str) -> (r: Option<String>)
    ensures
        r == text_field(*doc, name@),
{
    match doc.get(name) {
        Some(Json::Text(s)) => Some(s.clone()),
        _ => None,
    }
}

/// Reads the string stored under `name`, which may be missing or null.
pub fn read_optional_text(doc: &Json, name: &str) -> (r: Option<Option<String>>)
    ensures
        r == optional_text_field(*doc, name@),
{
    match doc.get(name) {
        None => Some(None),
        Some(Json::Null) => Some(None),
        Some(Json::Text(s)) => Some(Some(s.clone())),
        Some(_) => None,
    }
}

/// The member stored under `name`, where it is there and is not null.
pub fn read_present<'a>(doc: &'a Json, name: &str) -> (r: Option<&'a Json>)
    ensures
        match r {
            Some(found) => present_member(*doc, name@) == Some(*found),
            None => present_member(*doc, name@) is None,
        },
{
    match doc.get(name) {
        Some(Json::Null) => None,
        other => other,
    }
}

/// The document that a run of bytes parses to; nothing where the bytes are
/// not one JSON document.
pub uninterp spec fn json_document_in(bytes: Seq<u8>) -> Option<Json>;

/// `serde_json::from_slice` for a `serde_json::Value`, handed over as a
/// `Json` tree: the document that `json_document_in` names, or nothing where
/// the bytes are not one JSON document.
#[verifier::external_body]
pub(crate) fn parse_document_bytes(bytes: &[u8]) -> (r: Option<Json>)
    ensures
        r == json_document_in(bytes@),
{
    serde_json::from_slice::<serde_json::Value>(bytes).ok().map(|value| json_of(&value))
}

/// The number stored under `name` in an object: zero where the member is
/// missing, nothing where it is there and is not a whole number from 0 to
/// 2^64 - 1.
pub open spec fn number_field(doc: Json, name: Seq<char>) -> Option<u64> {
    match doc.member(name) {
        None => Some(0u64),
        Some(Json::Number(Some(n), _)) => Some(n),
        Some(_) => None,
    }
}

/// The number stored under `name` in an object, which may be missing or
/// null; nothing where the member is anything but such a number or null.
pub open spec fn optional_number_field(doc: Json, name: Seq<char>) -> Option<Option<u64>> {
    match doc.member(name) {
        None => Some(None),
        Some(Json::Null) => Some(None),
        Some(Json::Number(Some(n), _)) => Some(Some(n)),
        Some(_) => None,
    }
}

/// The characters stored under `name` in an object: none where the member is
/// missing, nothing where it is there and is no string.
pub open spec fn text_or_empty_field(doc: Json, name: Seq<char>) -> Option<Seq<char>> {
    match doc.member(name) {
        None => Some(Seq::empty()),
        Some(Json::Text(s)) => Some(s@),
        Some(_) => None,
    }
}

/// The truth value stored under `name` in an object: false where the member
/// is missing, nothing where it is there and is no truth value.
pub open spec fn flag_field(doc: Json, name: Seq<char>) -> Option<bool> {
    match doc.member(name) {
        None => Some(false),
        Some(Json::Bool(b)) => Some(b),
        Some(_) => None,
    }
}

/// Reads the number stored under `name`.
pub fn read_number(doc: &Json, name: &str) -> (r: Option<u64>)
    ensures
        r == number_field(*doc, name@),
{
    match doc.get(name) {
        None => Some(0),
        Some(Json::Number(Some(n), _)) => Some(*n),
        Some(_) => None,
    }
}

/// Reads the number stored under `name`, which may be missing or null.
pub fn read_optional_number(doc: &Json, name: &str) -> (r: Option<Option<u64>>)
    ensures
        r == optional_number_field(*doc, name@),
{
    match doc.get(name) {
        None => Some(None),
        Some(Json::Null) => Some(None),
        Some(Json::Number(Some(n), _)) => Some(Some(*n)),
        Some(_) => None,
    }
}

/// Reads the characters stored under `name`, which may be missing.
pub fn read_text_or_empty(doc: &Json, name: &str) -> (r: Option<String>)
    ensures
        match r {
            Some(s) => text_or_empty_field(*doc, name@) == Some(s@),
            None => text_or_empty_field(*doc, name@) is None,
        },
{
    match doc.get(name) {
        None => Some(String::new()),
        Some(Json::Text(s)) => Some(s.clone()),
        Some(_) => None,
    }
}

/// Reads the truth value stored under `name`, which may be missing.
pub fn read_flag(doc: &Json, name: &str) -> (r: Option<bool>)
    ensures
        r == flag_field(*doc, name@),
{
    match doc.get(name) {
        None => Some(false),
        Some(Json::Bool(b)) => Some(*b),
        Some(_) => None,
    }
}

/// The number stored under `name` in an object, which may be missing or
/// null; nothing where the member is anything but null or a whole number
/// from -2^31 to 2^31 - 1.
pub open spec fn optional_small_number_field(doc: Json, name: Seq<char>) -> Option<Option<i32>> {
    match doc.member(name) {
        None => Some(None),
        Some(Json::Null) => Some(None),
        Some(Json::Number(_, Some(n))) => if i32::MIN <= n <= i32::MAX {
            Some(Some(n as i32))
        } else {
            None
        },
        Some(_) => None,
    }
}

/// Reads the number stored under `name`, which may be missing or null.
pub fn read_optional_small_number(doc: &Json, name: &str) -> (r: Option<Option<i32>>)
    ensures
        r == optional_small_number_field(*doc, name@),
{
    match doc.get(name) {
        None => Some(None),
        Some(Json::Null) => Some(None),
        Some(Json::Number(_, Some(n))) => if -0x8000_0000 <= *n && *n <= 0x7FFF_FFFF {
            Some(Some(*n as i32))
        } else {
            None
        },
        Some(_) => None,
    }
}

} // verus!
