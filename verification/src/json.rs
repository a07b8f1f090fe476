//! A plain model of JSON documents (the shape `serde_json::Value` has), with
//! the accessors that the normalisers read through.

use vstd::prelude::*;

verus! {

/// A JSON number, kept as the text `serde_json` prints for it together with
/// its integer readings, when it has them.
#[derive(Clone, Debug, PartialEq, Eq)]
pub struct JsonNumber {
    pub text: String,
    pub as_i64: Option<i64>,
    pub as_u64: Option<u64>,
}

/// A JSON value. Object members keep their order; keys are unique.
#[derive(Debug)]
pub enum JsonValue {
    Null,
    Bool(bool),
    Number(JsonNumber),
    String(String),
    Array(Vec<JsonValue>),
    Object(Vec<(String, JsonValue)>),
}

/// The value stored under `key` among `members` (the first match).
pub open spec fn member_get(members: Seq<(String, JsonValue)>, key: Seq<char>) -> Option<JsonValue>
    decreases members.len(),
{
    if members.len() == 0 {
        None
    } else if members[0].0@ == key {
        Some(members[0].1)
    } else {
        member_get(members.drop_first(), key)
    }
}

impl JsonValue {
    /// `Value::get(key)`: the member of an object, `None` for other values.
    pub open spec fn field(self, key: Seq<char>) -> Option<JsonValue> {
        match self {
            JsonValue::Object(members) => member_get(members@, key),
            _ => None,
        }
    }

    /// `Value::as_str`.
    pub open spec fn str_of(self) -> Option<Seq<char>> {
        match self {
            JsonValue::String(s) => Some(s@),
            _ => None,
        }
    }

    pub open spec fn is_object(self) -> bool {
        self is Object
    }

    pub fn get(&self, key: &str) -> (r: Option<&JsonValue>)
        ensures
            match r {
                Some(v) => self.field(key@) == Some(*v),
                None => self.field(key@) is None,
            },
    {
        match self {
            JsonValue::Object(members) => {
                let kv = crate::text::chars_of(key);
                let mut i: usize = 0;
                assert(members@.subrange(0, members@.len() as int) =~= members@);
                while i < members.len()
                    invariant
                        i <= members.len(),
                        kv@ == key@,
                        self.field(key@) == member_get(members@, key@),
                        member_get(members@, key@) == member_get(
                            members@.subrange(i as int, members@.len() as int),
                            key@,
                        ),
                    decreases members.len() - i,
                {
                    let ghost rest = members@.subrange(i as int, members@.len() as int);
                    let kc = crate::text::chars_of(members[i].0.as_str());
                    if crate::text::chars_eq(kc.as_slice(), kv.as_slice()) {
                        assert(rest[0] == members@[i as int]);
                        assert(rest[0].0@ == key@);
                        assert(member_get(rest, key@) == Some(rest[0].1));
                        return Some(&members[i].1);
                    }
                    assert(rest.drop_first() =~= members@.subrange(i + 1, members@.len() as int));
                    i += 1;
                }
                None
            },
            _ => None,
        }
    }

    pub fn as_str(&self) -> (r: Option<&String>)
        ensures
            match r {
                Some(s) => self.str_of() == Some(s@),
                None => self.str_of() is None,
            },
    {
        match self {
            JsonValue::String(s) => Some(s),
            _ => None,
        }
    }

    pub fn as_array(&self) -> (r: Option<&Vec<JsonValue>>)
        ensures
            match r {
                Some(a) => *self == JsonValue::Array(*a),
                None => !(self is Array),
            },
    {
        match self {
            JsonValue::Array(a) => Some(a),
            _ => None,
        }
    }
}

/// The string stored under `key`, when `value` is an object holding one.
pub open spec fn str_field_of(value: JsonValue, key: Seq<char>) -> Option<Seq<char>> {
    match value.field(key) {
        Some(v) => v.str_of(),
        None => None,
    }
}

/// `value.get(key).and_then(Value::as_str)`.
pub fn str_field<'a>(value: &'a JsonValue, key: &str) -> (r: Option<&'a String>)
    ensures
        match r {
            Some(s) => str_field_of(*value, key@) == Some(s@),
            None => str_field_of(*value, key@) is None,
        },
{
    match value.get(key) {
        Some(v) => v.as_str(),
        None => None,
    }
}

/// The field `key` of `value` when `value` is present.
pub open spec fn field_of(value: Option<JsonValue>, key: Seq<char>) -> Option<JsonValue> {
    match value {
        Some(v) => v.field(key),
        None => None,
    }
}

/// The text of a scalar: a string as it stands, a number as printed, a
/// boolean as `true` / `false`; empty for anything else.
pub open spec fn scalar_text(value: Option<JsonValue>) -> Seq<char> {
    match value {
        Some(JsonValue::String(s)) => s@,
        Some(JsonValue::Number(n)) => n.text@,
        Some(JsonValue::Bool(b)) => if b {
            seq!['t', 'r', 'u', 'e']
        } else {
            seq!['f', 'a', 'l', 's', 'e']
        },
        _ => Seq::empty(),
    }
}

pub fn text_of(value: Option<&JsonValue>) -> (r: String)
    ensures
        r@ == scalar_text(match value {
            Some(v) => Some(*v),
            None => None,
        }),
{
    match value {
        Some(JsonValue::String(s)) => s.clone(),
        Some(JsonValue::Number(n)) => n.text.clone(),
        Some(JsonValue::Bool(b)) => {
            let v: Vec<char> = if *b {
                vec!['t', 'r', 'u', 'e']
            } else {
                vec!['f', 'a', 'l', 's', 'e']
            };
            let s = crate::text::string_from_chars(v.as_slice());
            assert(v@ =~= scalar_text(Some(JsonValue::Bool(*b))));
            s
        },
        _ => String::new(),
    }
}

/// The document that `serde_json` reads from `text`, `None` when `text` is
/// not valid JSON.
pub uninterp spec fn parsed_json(text: Seq<char>) -> Option<JsonValue>;

/// Wrapper of `serde_json::from_str::<serde_json::Value>`: the result is
/// the parsed document, converted member for member into `JsonValue`, or
/// `None` when `serde_json` reports an error. Nothing more is claimed of
/// what `serde_json` accepts.
#[verifier::external_body]
pub(crate) fn parse_json(text: &str) -> (r: Option<JsonValue>)
    ensures
        r == parsed_json(text@),
{
    serde_json::from_str::<serde_json::Value>(text).ok().map(json_from_serde)
}

/// `serde_json::Value`, carried through opaquely.
#[verifier::external_type_specification]
#[verifier::external_body]
pub struct ExSerdeJsonValue(serde_json::Value);

/// The conversion of a `serde_json::Value` into `JsonValue`, one variant
/// for one variant; object members in the map's iteration order.
#[verifier::external_body]
fn json_from_serde(value: serde_json::Value) -> JsonValue {
    match value {
        serde_json::Value::Null => JsonValue::Null,
        serde_json::Value::Bool(b) => JsonValue::Bool(b),
        serde_json::Value::Number(n) => JsonValue::Number(
            JsonNumber { text: n.to_string(), as_i64: n.as_i64(), as_u64: n.as_u64() },
        ),
        serde_json::Value::String(s) => JsonValue::String(s),
        serde_json::Value::Array(a) => JsonValue::Array(a.into_iter().map(json_from_serde).collect()),
        serde_json::Value::Object(m) => JsonValue::Object(
            m.into_iter().map(|(k, v)| (k, json_from_serde(v))).collect(),
        ),
    }
}

/// The compact text that `serde_json` writes for a document.
pub uninterp spec fn serialized_json(value: JsonValue) -> Seq<char>;

/// Wrapper of `serde_json::Value::to_string`: the document, converted member
/// for member into a `serde_json::Value`, written compactly. The text is only
/// named, not described.
#[verifier::external_body]
pub(crate) fn json_to_string(value: &JsonValue) -> (r: String)
    ensures
        r@ == serialized_json(*value),
{
    json_to_serde(value).to_string()
}

/// The conversion of a `JsonValue` into `serde_json::Value`, one variant for
/// one variant; a number is read back from its text.
#[verifier::external_body]
fn json_to_serde(value: &JsonValue) -> serde_json::Value {
    match value {
        JsonValue::Null => serde_json::Value::Null,
        JsonValue::Bool(b) => serde_json::Value::Bool(*b),
        JsonValue::Number(n) => n.text.parse::<serde_json::Number>().map(serde_json::Value::Number).unwrap_or(serde_json::Value::Null),
        JsonValue::String(s) => serde_json::Value::String(s.clone()),
        JsonValue::Array(a) => serde_json::Value::Array(a.iter().map(json_to_serde).collect()),
        JsonValue::Object(m) => serde_json::Value::Object(
            m.iter().map(|(k, v)| (k.clone(), json_to_serde(v))).collect(),
        ),
    }
}

/// The message `serde_json` gives for text that is not valid JSON.
pub uninterp spec fn json_error_text(text: Seq<char>) -> Seq<char>;

/// Wrapper of `serde_json::from_str::<serde_json::Value>` that keeps the
/// error: the parsed document, converted into `JsonValue`, or the text of
/// `serde_json`'s error.
#[verifier::external_body]
pub(crate) fn parse_json_or_error(text: &str) -> (r: Result<JsonValue, String>)
    ensures
        match r {
            Ok(v) => parsed_json(text@) == Some(v),
            Err(m) => parsed_json(text@) is None && m@ == json_error_text(text@),
        },
{
    match serde_json::from_str::<serde_json::Value>(text) {
        Ok(v) => Ok(json_from_serde(v)),
        Err(e) => Err(e.to_string()),
    }
}

/// A JSON document read from text: the document `serde_json` reads, or
/// its message when the text is not JSON.
pub fn parse_json_document(text: &str) -> (r: Result<JsonValue, String>)
    ensures
        match parsed_json(text@) {
            Some(v) => r == Ok::<JsonValue, String>(v),
            None => r matches Err(m) && m@ == json_error_text(text@),
        },
{
    parse_json_or_error(text)
}

} // verus!
