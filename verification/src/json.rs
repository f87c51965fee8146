//! A JSON document as a value of the library, with the lookups that the
//! platform adapters make in it.

use serde_json::Value;
use vstd::prelude::*;

verus! {

/// A JSON number: an integer where it is one, else the text of the number.
#[derive(Debug, Clone, PartialEq, Eq)]
pub enum JsonNumber {
    /// An integer that is not negative.
    PosInt(u64),
    /// A negative integer.
    NegInt(i64),
    /// A number with a fraction or an exponent, by its decimal text.
    Real(String),
}

/// A JSON value. The members of an object stand in the order in which the
/// document's reader hands them out; a lookup by key takes the first member
/// with that key.
#[derive(Debug, PartialEq, Eq)]
pub enum Json {
    Null,
    Bool(bool),
    Number(JsonNumber),
    Str(String),
    Array(Vec<Json>),
    Object(Vec<(String, Json)>),
}

/// The value of the first member at or after position `i` whose key is `key`.
pub open spec fn lookup(members: Seq<(String, Json)>, key: Seq<char>, i: int) -> Option<Json>
    decreases members.len() - i,
{
    if i < 0 || i >= members.len() {
        None
    } else if members[i].0@ == key {
        Some(members[i].1)
    } else {
        lookup(members, key, i + 1)
    }
}

/// The member `key` of an object; `None` for every other value.
pub open spec fn member(o: Option<Json>, key: Seq<char>) -> Option<Json> {
    match o {
        Some(Json::Object(members)) => lookup(members@, key, 0),
        _ => None,
    }
}

/// The element at position `i` of an array; `None` for every other value.
pub open spec fn element(o: Option<Json>, i: int) -> Option<Json> {
    match o {
        Some(Json::Array(items)) => if 0 <= i < items@.len() {
            Some(items@[i])
        } else {
            None
        },
        _ => None,
    }
}

/// What the pointer token `0` selects: the first element of an array, or
/// the member `"0"` of an object.
pub open spec fn first_slot(o: Option<Json>) -> Option<Json> {
    match o {
        Some(Json::Array(items)) => element(o, 0),
        Some(Json::Object(members)) => member(o, "0"@),
        _ => None,
    }
}

/// The text of a string value.
pub open spec fn text_of(o: Option<Json>) -> Option<Seq<char>> {
    match o {
        Some(Json::Str(s)) => Some(s@),
        _ => None,
    }
}

/// The text of a string value, or the empty text.
pub open spec fn text_or_empty(o: Option<Json>) -> Seq<char> {
    match text_of(o) {
        Some(s) => s,
        None => Seq::empty(),
    }
}

/// The elements of an array.
pub open spec fn items_of(o: Option<Json>) -> Option<Seq<Json>> {
    match o {
        Some(Json::Array(items)) => Some(items@),
        _ => None,
    }
}

/// The members of an object.
pub open spec fn members_of(o: Option<Json>) -> Option<Seq<(String, Json)>> {
    match o {
        Some(Json::Object(members)) => Some(members@),
        _ => None,
    }
}

/// The number as a `u64`: for an integer that is not negative.
pub open spec fn u64_of(o: Option<Json>) -> Option<u64> {
    match o {
        Some(Json::Number(JsonNumber::PosInt(n))) => Some(n),
        _ => None,
    }
}

/// The number as an `i64`: for an integer in the range of `i64`.
pub open spec fn i64_of(o: Option<Json>) -> Option<i64> {
    match o {
        Some(Json::Number(JsonNumber::PosInt(n))) => if n <= i64::MAX {
            Some(n as i64)
        } else {
            None
        },
        Some(Json::Number(JsonNumber::NegInt(n))) => Some(n),
        _ => None,
    }
}

/// The truth value of a boolean.
pub open spec fn bool_of(o: Option<Json>) -> Option<bool> {
    match o {
        Some(Json::Bool(b)) => Some(b),
        _ => None,
    }
}

/// An optional reference as an optional value.
pub open spec fn plain(o: Option<&Json>) -> Option<Json> {
    match o {
        Some(j) => Some(*j),
        None => None,
    }
}

/// `a` where it is there, else `b`.
pub open spec fn or(a: Option<Json>, b: Option<Json>) -> Option<Json> {
    match a {
        Some(_) => a,
        None => b,
    }
}

/// `a` where it is there, else `b`.
pub fn either<'a>(a: Option<&'a Json>, b: Option<&'a Json>) -> (r: Option<&'a Json>)
    ensures
        plain(r) == or(plain(a), plain(b)),
{
    match a {
        Some(_) => a,
        None => b,
    }
}

/// A value that is there and is not `null`.
pub open spec fn present(o: Option<Json>) -> Option<Json> {
    match o {
        Some(Json::Null) => None,
        _ => o,
    }
}

/// `o` where it is there and is not `null`.
pub fn not_null<'a>(o: Option<&'a Json>) -> (r: Option<&'a Json>)
    ensures
        plain(r) == present(plain(o)),
{
    match o {
        Some(Json::Null) => None,
        _ => o,
    }
}

/// The member `key` of the object `o`.
pub fn get<'a>(o: Option<&'a Json>, key: &str) -> (r: Option<&'a Json>)
    ensures
        plain(r) == member(plain(o), key@),
{
    match o {
        Some(Json::Object(members)) => {
            let wanted = key.to_owned();
            let mut i: usize = 0;
            while i < members.len()
                invariant
                    i <= members@.len(),
                    wanted@ == key@,
                    member(plain(o), key@) == lookup(members@, key@, i as int),
                decreases members@.len() - i,
            {
                if members[i].0 == wanted {
                    return Some(&members[i].1);
                }
                i += 1;
            }
            None
        },
        _ => None,
    }
}

/// The element at position `i` of the array `o`.
pub fn at<'a>(o: Option<&'a Json>, i: usize) -> (r: Option<&'a Json>)
    ensures
        plain(r) == element(plain(o), i as int),
{
    match o {
        Some(Json::Array(items)) => {
            if i < items.len() {
                Some(&items[i])
            } else {
                None
            }
        },
        _ => None,
    }
}

/// What the pointer token `0` selects in `o`.
pub fn first<'a>(o: Option<&'a Json>) -> (r: Option<&'a Json>)
    ensures
        plain(r) == first_slot(plain(o)),
{
    match o {
        Some(Json::Array(_)) => at(o, 0),
        Some(Json::Object(_)) => get(o, "0"),
        _ => None,
    }
}

/// The text of the string value `o`.
pub fn text<'a>(o: Option<&'a Json>) -> (r: Option<&'a String>)
    ensures
        match r {
            Some(s) => text_of(plain(o)) == Some(s@),
            None => text_of(plain(o)) is None,
        },
{
    match o {
        Some(Json::Str(s)) => Some(s),
        _ => None,
    }
}

/// The text of the string value `o`, or the empty string.
pub fn string_or_empty(o: Option<&Json>) -> (r: String)
    ensures
        r@ == text_or_empty(plain(o)),
{
    match text(o) {
        Some(s) => s.clone(),
        None => String::new(),
    }
}

/// The elements of the array `o`.
pub fn items<'a>(o: Option<&'a Json>) -> (r: Option<&'a Vec<Json>>)
    ensures
        match r {
            Some(v) => items_of(plain(o)) == Some(v@),
            None => items_of(plain(o)) is None,
        },
{
    match o {
        Some(Json::Array(items)) => Some(items),
        _ => None,
    }
}

/// The members of the object `o`.
pub fn members<'a>(o: Option<&'a Json>) -> (r: Option<&'a Vec<(String, Json)>>)
    ensures
        match r {
            Some(v) => members_of(plain(o)) == Some(v@),
            None => members_of(plain(o)) is None,
        },
{
    match o {
        Some(Json::Object(members)) => Some(members),
        _ => None,
    }
}

/// The number `o` as a `u64`.
pub fn as_u64(o: Option<&Json>) -> (r: Option<u64>)
    ensures
        r == u64_of(plain(o)),
{
    match o {
        Some(Json::Number(JsonNumber::PosInt(n))) => Some(*n),
        _ => None,
    }
}

/// The number `o` as an `i64`.
pub fn as_i64(o: Option<&Json>) -> (r: Option<i64>)
    ensures
        r == i64_of(plain(o)),
{
    match o {
        Some(Json::Number(JsonNumber::PosInt(n))) => {
            if *n <= 0x7fff_ffff_ffff_ffff {
                Some(*n as i64)
            } else {
                None
            }
        },
        Some(Json::Number(JsonNumber::NegInt(n))) => Some(*n),
        _ => None,
    }
}

/// The truth value of the boolean `o`.
pub fn as_bool(o: Option<&Json>) -> (r: Option<bool>)
    ensures
        r == bool_of(plain(o)),
{
    match o {
        Some(Json::Bool(b)) => Some(*b),
        _ => None,
    }
}


#[verifier::external_type_specification]
#[verifier::external_body]
pub struct ExValue(serde_json::Value);

/// The value that `serde_json` reads a text as, where the text is JSON.
pub uninterp spec fn json_value(text: Seq<char>) -> Option<serde_json::Value>;

/// A value of `serde_json` as a `Json`: the same variants, the members of
/// an object in the order in which its map hands them out.
pub uninterp spec fn json_model(value: serde_json::Value) -> Json;

/// The document that a text is read as, where it is JSON.
pub open spec fn json_parse(text: Seq<char>) -> Option<Json> {
    match json_value(text) {
        Some(value) => Some(json_model(value)),
        None => None,
    }
}

/// Calls `serde_json::from_str` for a `serde_json::Value`. The contract
/// names what the text is read as and claims that the result is that
/// value, `None` where the text is refused; nothing is claimed about which
/// texts are JSON or what they hold.
#[verifier::external_body]
fn read_value(text: &str) -> (r: Option<serde_json::Value>)
    ensures
        r == json_value(text@),
{
    match serde_json::from_str::<serde_json::Value>(text) {
        Ok(value) => Some(value),
        Err(_) => None,
    }
}

/// Copies a `serde_json::Value` into a `Json`, variant by variant. The
/// three forms of a number are told apart by `Number::as_u64` and
/// `Number::as_i64`; of a number that is neither, the text that its
/// `Display` writes is kept. The contract names the copy and claims that
/// the result is that copy; nothing is claimed about what it holds.
#[verifier::external_body]
fn copy_value(v: &serde_json::Value) -> (r: Json)
    ensures
        r == json_model(*v),
{
    match v {
        Value::Null => Json::Null,
        Value::Bool(b) => Json::Bool(*b),
        Value::Number(n) => Json::Number(match (n.as_u64(), n.as_i64()) {
            (Some(u), _) => JsonNumber::PosInt(u),
            (_, Some(i)) => JsonNumber::NegInt(i),
            _ => JsonNumber::Real(n.to_string()),
        }),
        Value::String(s) => Json::Str(s.clone()),
        Value::Array(a) => Json::Array(a.iter().map(copy_value).collect()),
        Value::Object(m) => Json::Object(m.iter().map(|(k, x)| (k.clone(), copy_value(x))).collect()),
    }
}

/// The JSON text of the value that `pointer`, a JSON Pointer, selects in
/// `value`.
pub uninterp spec fn json_text_at(value: serde_json::Value, pointer: Seq<char>) -> Option<Seq<char>>;

/// Calls `Value::pointer` and the `to_string` of the selected `Value`. The
/// contract names the JSON text of the selected value and claims that the
/// result is that text, `None` where the pointer selects nothing; nothing
/// is claimed about the text itself.
#[verifier::external_body]
fn write_member(value: &serde_json::Value, pointer: &str) -> (r: Option<String>)
    ensures
        crate::models::text_view(r) == json_text_at(*value, pointer@),
{
    value.pointer(pointer).map(|member| member.to_string())
}

/// A JSON document as it was read: the value of the reader, which can
/// write any part of the document as JSON text again, and the same value
/// for the lookups of the library.
pub struct Document {
    value: serde_json::Value,
    root: Json,
}

impl Document {
    /// The value of the reader.
    pub closed spec fn value(self) -> serde_json::Value {
        self.value
    }

    /// The document for the lookups of the library.
    pub closed spec fn json(self) -> Json {
        self.root
    }

    /// The document for the lookups of the library.
    pub fn root(&self) -> (r: &Json)
        ensures
            *r == self.json(),
    {
        &self.root
    }

    /// Reads `text` as a JSON document.
    pub fn read(text: &str) -> (r: Option<Document>)
        ensures
            match r {
                Some(document) => json_value(text@) == Some(document.value()) && document.json()
                    == json_model(document.value()),
                None => json_value(text@) is None,
            },
    {
        match read_value(text) {
            Some(value) => {
                let root = copy_value(&value);
                Some(Document { value, root })
            },
            None => None,
        }
    }

    /// The JSON text of the value that the JSON Pointer `pointer` selects
    /// in the document.
    pub fn text_at(&self, pointer: &str) -> (r: Option<String>)
        ensures
            crate::models::text_view(r) == json_text_at(self.value(), pointer@),
    {
        write_member(&self.value, pointer)
    }
}

impl Json {
    /// Reads `text` as a JSON document.
    pub fn parse(text: &str) -> (r: Option<Json>)
        ensures
            r == json_parse(text@),
    {
        match read_value(text) {
            Some(value) => Some(copy_value(&value)),
            None => None,
        }
    }
}

} // verus!
