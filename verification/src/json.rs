//! A plain-value model of the JSON documents the settings daemon sends.

use vstd::prelude::*;

verus! {

/// A JSON number, kept in the three forms a JSON reader distinguishes:
/// a non-negative integer, a negative integer, or a finite float held
/// by its IEEE-754 bit pattern.
#[derive(Debug, Clone, Copy, PartialEq, Eq, Structural)]
pub enum JsonNumber {
    PosInt(u64),
    NegInt(i64),
    FloatBits(u64),
}

/// One `key: value` member of a JSON object.
#[derive(Debug)]
pub struct JsonEntry {
    pub key: String,
    pub value: JsonValue,
}

/// A JSON document.
#[derive(Debug)]
pub enum JsonValue {
    Null,
    Bool(bool),
    Number(JsonNumber),
    Str(String),
    Array(Vec<JsonValue>),
    Object(Vec<JsonEntry>),
}

/// How many members `v` has; every value but an object has none.
pub open spec fn member_count(v: JsonValue) -> nat {
    match v {
        JsonValue::Object(entries) => entries@.len(),
        _ => 0,
    }
}

/// The value stored under `key` in a list of object members: the first
/// member whose key is `key`.
pub open spec fn entries_get(entries: Seq<JsonEntry>, key: Seq<char>) -> Option<JsonValue>
    decreases entries.len(),
{
    if entries.len() == 0 {
        None
    } else if entries[0].key@ == key {
        Some(entries[0].value)
    } else {
        entries_get(entries.drop_first(), key)
    }
}

/// The member `key` of `v` when `v` is an object that has one; nothing
/// for every other value.
pub open spec fn spec_get(v: JsonValue, key: Seq<char>) -> Option<JsonValue> {
    match v {
        JsonValue::Object(entries) => entries_get(entries@, key),
        _ => None,
    }
}

/// The characters of `v` when it is a string.
pub open spec fn spec_as_str(v: JsonValue) -> Option<Seq<char>> {
    match v {
        JsonValue::Str(s) => Some(s@),
        _ => None,
    }
}

/// The value of `v` when it is a non-negative integer.
pub open spec fn spec_as_u64(v: JsonValue) -> Option<u64> {
    match v {
        JsonValue::Number(JsonNumber::PosInt(n)) => Some(n),
        _ => None,
    }
}

/// The number `v` holds, in whatever form, when it is a number.
pub open spec fn spec_as_number(v: JsonValue) -> Option<JsonNumber> {
    match v {
        JsonValue::Number(n) => Some(n),
        _ => None,
    }
}

/// The value of `v` when it is a boolean.
pub open spec fn spec_as_bool(v: JsonValue) -> Option<bool> {
    match v {
        JsonValue::Bool(b) => Some(b),
        _ => None,
    }
}

/// The items of `v` when it is an array.
pub open spec fn spec_as_array(v: JsonValue) -> Option<Seq<JsonValue>> {
    match v {
        JsonValue::Array(items) => Some(items@),
        _ => None,
    }
}

/// The string stored under `key` in `v`, when there is one.
pub open spec fn field_str(v: JsonValue, key: Seq<char>) -> Option<Seq<char>> {
    match spec_get(v, key) {
        Some(x) => spec_as_str(x),
        None => None,
    }
}

/// The non-negative integer stored under `key` in `v`, when there is one.
pub open spec fn field_u64(v: JsonValue, key: Seq<char>) -> Option<u64> {
    match spec_get(v, key) {
        Some(x) => spec_as_u64(x),
        None => None,
    }
}

/// The number stored under `key` in `v`, when there is one.
pub open spec fn field_number(v: JsonValue, key: Seq<char>) -> Option<JsonNumber> {
    match spec_get(v, key) {
        Some(x) => spec_as_number(x),
        None => None,
    }
}

/// The boolean stored under `key` in `v`, when there is one.
pub open spec fn field_bool(v: JsonValue, key: Seq<char>) -> Option<bool> {
    match spec_get(v, key) {
        Some(x) => spec_as_bool(x),
        None => None,
    }
}

/// The position of the first member whose key is `key`.
pub fn find_key(entries: &Vec<JsonEntry>, key: &str) -> (r: Option<usize>)
    ensures
        match r {
            Some(i) => i < entries@.len() && entries@[i as int].key@ == key@ && entries_get(
                entries@,
                key@,
            ) == Some(entries@[i as int].value),
            None => entries_get(entries@, key@) is None,
        },
{
    let n = entries.len();
    let mut i: usize = 0;
    assert(entries@.skip(0) =~= entries@);
    while i < n
        invariant
            n == entries@.len(),
            i <= n,
            entries_get(entries@, key@) == entries_get(entries@.skip(i as int), key@),
        decreases n - i,
    {
        assert(entries@.skip(i as int)[0] == entries@[i as int]);
        assert(entries@.skip(i as int).drop_first() =~= entries@.skip(i + 1));
        if text_eq(entries[i].key.as_str(), key) {
            return Some(i);
        }
        i = i + 1;
    }
    None
}

impl JsonValue {
    /// Looks up the member `key`; every value but an object has none.
    pub fn get(&self, key: &str) -> (r: Option<&JsonValue>)
        ensures
            match r {
                Some(x) => spec_get(*self, key@) == Some(*x),
                None => spec_get(*self, key@) is None,
            },
    {
        match self {
            JsonValue::Object(entries) => match find_key(entries, key) {
                Some(i) => Some(&entries[i].value),
                None => None,
            },
            _ => None,
        }
    }

    /// How many members this value has.
    pub fn member_count(&self) -> (r: usize)
        ensures
            r == member_count(*self),
    {
        match self {
            JsonValue::Object(entries) => entries.len(),
            _ => 0,
        }
    }

    pub fn as_str(&self) -> (r: Option<&String>)
        ensures
            match r {
                Some(s) => spec_as_str(*self) == Some(s@),
                None => spec_as_str(*self) is None,
            },
    {
        match self {
            JsonValue::Str(s) => Some(s),
            _ => None,
        }
    }

    pub fn as_u64(&self) -> (r: Option<u64>)
        ensures
            r == spec_as_u64(*self),
    {
        match self {
            JsonValue::Number(JsonNumber::PosInt(n)) => Some(*n),
            _ => None,
        }
    }

    pub fn as_number(&self) -> (r: Option<JsonNumber>)
        ensures
            r == spec_as_number(*self),
    {
        match self {
            JsonValue::Number(n) => Some(*n),
            _ => None,
        }
    }

    pub fn as_bool(&self) -> (r: Option<bool>)
        ensures
            r == spec_as_bool(*self),
    {
        match self {
            JsonValue::Bool(b) => Some(*b),
            _ => None,
        }
    }

    pub fn as_array(&self) -> (r: Option<&Vec<JsonValue>>)
        ensures
            match r {
                Some(items) => spec_as_array(*self) == Some(items@),
                None => spec_as_array(*self) is None,
            },
    {
        match self {
            JsonValue::Array(items) => Some(items),
            _ => None,
        }
    }

    pub fn is_null(&self) -> (r: bool)
        ensures
            r == (*self is Null),
    {
        match self {
            JsonValue::Null => true,
            _ => false,
        }
    }

    /// A copy of the string stored under `key`, when there is one.
    pub fn field_str(&self, key: &str) -> (r: Option<String>)
        ensures
            r.deep_view() == field_str(*self, key@),
    {
        match self.get(key) {
            Some(x) => match x.as_str() {
                Some(s) => Some(s.clone()),
                None => None,
            },
            None => None,
        }
    }

    /// The non-negative integer stored under `key`, when there is one.
    pub fn field_u64(&self, key: &str) -> (r: Option<u64>)
        ensures
            r == field_u64(*self, key@),
    {
        match self.get(key) {
            Some(x) => x.as_u64(),
            None => None,
        }
    }

    /// The number stored under `key`, when there is one.
    pub fn field_number(&self, key: &str) -> (r: Option<JsonNumber>)
        ensures
            r == field_number(*self, key@),
    {
        match self.get(key) {
            Some(x) => x.as_number(),
            None => None,
        }
    }

    /// The boolean stored under `key`, when there is one.
    pub fn field_bool(&self, key: &str) -> (r: Option<bool>)
        ensures
            r == field_bool(*self, key@),
    {
        match self.get(key) {
            Some(x) => x.as_bool(),
            None => None,
        }
    }
}

// ---------------------------------------------------------------------------
// JSON text, through serde_json
// ---------------------------------------------------------------------------

#[verifier::external_type_specification]
#[verifier::external_body]
pub struct ExSerdeJsonValue(serde_json::Value);

/// The JSON document a text holds, as serde_json reads it; nothing when
/// the text is not JSON.
pub uninterp spec fn json_document(text: Seq<char>) -> Option<JsonValue>;

/// The JSON text serde_json writes for a value.
pub uninterp spec fn json_text(v: JsonValue) -> Seq<char>;

#[verifier::external_type_specification]
#[verifier::external_body]
pub struct ExSerdeJsonNumber(serde_json::Number);

/// Moves a serde_json number over to a `JsonNumber`, in the form serde_json
/// holds it: a non-negative integer, a negative integer, or a float.
#[verifier::external_body]
fn from_serde_number(n: &serde_json::Number) -> JsonNumber {
    match (n.as_u64(), n.as_i64()) {
        (Some(u), _) => JsonNumber::PosInt(u),
        (None, Some(i)) => JsonNumber::NegInt(i),
        (None, None) => JsonNumber::FloatBits(n.as_f64().map_or(0, |x| x.to_bits())),
    }
}

/// Moves a serde_json value over to a `JsonValue`, variant by variant.
#[verifier::external_body]
fn from_serde_value(value: serde_json::Value) -> JsonValue {
    match value {
        serde_json::Value::Null => JsonValue::Null,
        serde_json::Value::Bool(b) => JsonValue::Bool(b),
        serde_json::Value::Number(n) => JsonValue::Number(from_serde_number(&n)),
        serde_json::Value::String(s) => JsonValue::Str(s),
        serde_json::Value::Array(items) => JsonValue::Array(items.into_iter().map(from_serde_value).collect()),
        serde_json::Value::Object(map) => JsonValue::Object(
            map.into_iter().map(|(key, v)| JsonEntry { key, value: from_serde_value(v) }).collect(),
        ),
    }
}

/// Whether `v` holds no float anywhere.
pub open spec fn float_free(v: JsonValue) -> bool
    decreases v,
{
    match v {
        JsonValue::Number(n) => !(n is FloatBits),
        JsonValue::Array(items) => forall|i: int|
            0 <= i < items.len() ==> float_free(#[trigger] items[i]),
        JsonValue::Object(entries) => forall|i: int|
            0 <= i < entries.len() ==> float_free(#[trigger] entries[i].value),
        _ => true,
    }
}

/// Moves a `JsonValue` that holds no float over to a serde_json value,
/// variant by variant.
#[verifier::external_body]
fn to_serde_value(value: &JsonValue) -> serde_json::Value {
    match value {
        JsonValue::Null => serde_json::Value::Null,
        JsonValue::Bool(b) => serde_json::Value::Bool(*b),
        JsonValue::Number(JsonNumber::PosInt(u)) => serde_json::Value::from(*u),
        JsonValue::Number(JsonNumber::NegInt(i)) => serde_json::Value::from(*i),
        JsonValue::Number(JsonNumber::FloatBits(_)) => serde_json::Value::Null,
        JsonValue::Str(s) => serde_json::Value::String(s.clone()),
        JsonValue::Array(items) => serde_json::Value::Array(items.iter().map(to_serde_value).collect()),
        JsonValue::Object(entries) => serde_json::Value::Object(
            entries.iter().map(|e| (e.key.clone(), to_serde_value(&e.value))).collect(),
        ),
    }
}

/// Calls `serde_json::from_str` on one line of text. The document it
/// reads is named `json_document`; when there is none the result is the
/// parser's error message, of which nothing is stated.
#[verifier::external_body]
pub(crate) fn parse_json_line(line: &str) -> (r: Result<JsonValue, String>)
    ensures
        match json_document(line@) {
            Some(v) => r == Ok::<JsonValue, String>(v),
            None => r is Err,
        },
{
    match serde_json::from_str::<serde_json::Value>(line) {
        Ok(value) => Ok(from_serde_value(value)),
        Err(e) => Err(e.to_string()),
    }
}

/// Calls `serde_json::Value::to_string`: the JSON text of `value`, named
/// `json_text`. Only values without floats are written.
#[verifier::external_body]
pub(crate) fn write_json(value: &JsonValue) -> (r: String)
    requires
        float_free(*value),
    ensures
        r@ == json_text(*value),
{
    to_serde_value(value).to_string()
}

/// Whether two strings hold the same characters.
pub fn text_eq(a: &str, b: &str) -> (r: bool)
    ensures
        r == (a@ == b@),
{
    let n = a.unicode_len();
    if n != b.unicode_len() {
        return false;
    }
    let mut i: usize = 0;
    while i < n
        invariant
            n == a@.len(),
            n == b@.len(),
            i <= n,
            forall|j: int| 0 <= j < i ==> a@[j] == b@[j],
        decreases n - i,
    {
        if a.get_char(i) != b.get_char(i) {
            return false;
        }
        i = i + 1;
    }
    assert(a@ =~= b@);
    true
}

} // verus!
