//! JSON values as the game master's tool calls carry them, and reading fields out
//! of them.
use vstd::prelude::*;

use crate::strmap::str_eq;

verus! {

broadcast use vstd::string::group_string_axioms;

/// A JSON number: a non-negative integer, a negative integer, or a number with a
/// fraction or exponent (whose value the rules never read).
#[derive(Debug, Clone, Copy, PartialEq, Eq, Structural)]
pub enum JsonNumber {
    PosInt(u64),
    NegInt(i64),
    Float,
}

/// A JSON value. An object keeps its members in order; a parsed object has
/// distinct keys.
#[derive(Debug)]
pub enum JsonValue {
    Null,
    Bool(bool),
    Number(JsonNumber),
    String(String),
    Array(Vec<JsonValue>),
    Object(Vec<(String, JsonValue)>),
}

/// `i` is the position of the first member named `key`.
pub open spec fn first_key(members: Seq<(String, JsonValue)>, key: Seq<char>, i: int) -> bool {
    &&& 0 <= i < members.len()
    &&& members[i].0@ == key
    &&& forall|j: int| 0 <= j < i ==> (#[trigger] members[j]).0@ != key
}

/// The value of the first member named `key`, if any.
pub open spec fn lookup(members: Seq<(String, JsonValue)>, key: Seq<char>) -> Option<JsonValue> {
    if exists|i: int| first_key(members, key, i) {
        Some(members[choose|i: int| first_key(members, key, i)].1)
    } else {
        None
    }
}

/// The member `key` of an object; nothing for other values.
pub open spec fn json_get(v: JsonValue, key: Seq<char>) -> Option<JsonValue> {
    match v {
        JsonValue::Object(members) => lookup(members@, key),
        _ => None,
    }
}

/// The string a value holds, if it is one.
pub open spec fn json_str(v: Option<JsonValue>) -> Option<String> {
    match v {
        Some(JsonValue::String(s)) => Some(s),
        _ => None,
    }
}

/// The non-negative integer a value holds, if it is one.
pub open spec fn json_u64(v: Option<JsonValue>) -> Option<u64> {
    match v {
        Some(JsonValue::Number(JsonNumber::PosInt(n))) => Some(n),
        _ => None,
    }
}

/// The boolean a value holds, if it is one.
pub open spec fn json_bool(v: Option<JsonValue>) -> Option<bool> {
    match v {
        Some(JsonValue::Bool(b)) => Some(b),
        _ => None,
    }
}

/// The first member found at position `i` is the one `lookup` gives.
pub proof fn lemma_first_key(members: Seq<(String, JsonValue)>, key: Seq<char>, i: int)
    requires
        first_key(members, key, i),
    ensures
        lookup(members, key) == Some(members[i].1),
{
    let c = choose|j: int| first_key(members, key, j);
    assert(first_key(members, key, c));
    if c < i {
        assert(members[c].0@ != key);
    }
    if i < c {
        assert(members[i].0@ != key);
    }
}

impl JsonValue {
    /// The member `key` of an object; `None` for a missing member or another kind of
    /// value.
    pub fn get(&self, key: &str) -> (r: Option<&JsonValue>)
        ensures
            match r {
                Some(x) => json_get(*self, key@) == Some(*x),
                None => json_get(*self, key@) is None,
            },
    {
        match self {
            JsonValue::Object(members) => {
                let n = members.len();
                let mut i: usize = 0;
                while i < n
                    invariant
                        *self == JsonValue::Object(*members),
                        n == members@.len(),
                        i <= n,
                        forall|j: int| 0 <= j < i ==> (#[trigger] members@[j]).0@ != key@,
                    decreases n - i,
                {
                    if str_eq(members[i].0.as_str(), key) {
                        proof {
                            lemma_first_key(members@, key@, i as int);
                            assert(*self == JsonValue::Object(*members));
                        }
                        return Some(&members[i].1);
                    }
                    i = i + 1;
                }
                assert(*self == JsonValue::Object(*members));
                None
            },
            _ => None,
        }
    }

    /// The string the value holds, if it is one.
    pub fn as_str(&self) -> (r: Option<&String>)
        ensures
            match r {
                Some(s) => json_str(Some(*self)) == Some(*s),
                None => json_str(Some(*self)) is None,
            },
    {
        match self {
            JsonValue::String(s) => Some(s),
            _ => None,
        }
    }

    /// The non-negative integer the value holds, if it is one.
    pub fn as_u64(&self) -> (r: Option<u64>)
        ensures
            r == json_u64(Some(*self)),
    {
        match self {
            JsonValue::Number(JsonNumber::PosInt(n)) => Some(*n),
            _ => None,
        }
    }

    /// The boolean the value holds, if it is one.
    pub fn as_bool(&self) -> (r: Option<bool>)
        ensures
            r == json_bool(Some(*self)),
    {
        match self {
            JsonValue::Bool(b) => Some(*b),
            _ => None,
        }
    }

    /// The elements, if the value is an array.
    pub fn as_array(&self) -> (r: Option<&Vec<JsonValue>>)
        ensures
            match *self {
                JsonValue::Array(a) => r == Some(&a),
                _ => r is None,
            },
    {
        match self {
            JsonValue::Array(a) => Some(a),
            _ => None,
        }
    }

    /// The members, if the value is an object.
    pub fn as_object(&self) -> (r: Option<&Vec<(String, JsonValue)>>)
        ensures
            match *self {
                JsonValue::Object(m) => r == Some(&m),
                _ => r is None,
            },
    {
        match self {
            JsonValue::Object(m) => Some(m),
            _ => None,
        }
    }

    /// Whether the value is an object.
    pub fn is_object(&self) -> (b: bool)
        ensures
            b == (*self is Object),
    {
        match self {
            JsonValue::Object(_) => true,
            _ => false,
        }
    }

    /// Whether the value is an array.
    pub fn is_array(&self) -> (b: bool)
        ensures
            b == (*self is Array),
    {
        match self {
            JsonValue::Array(_) => true,
            _ => false,
        }
    }
}

/// The string of member `key`, if the value is an object with such a string member.
pub fn field_str<'a>(v: &'a JsonValue, key: &str) -> (r: Option<&'a String>)
    ensures
        match r {
            Some(s) => json_str(json_get(*v, key@)) == Some(*s),
            None => json_str(json_get(*v, key@)) is None,
        },
{
    match v.get(key) {
        Some(x) => x.as_str(),
        None => None,
    }
}

/// The non-negative integer of member `key`, if there is one.
pub fn field_u64(v: &JsonValue, key: &str) -> (r: Option<u64>)
    ensures
        r == json_u64(json_get(*v, key@)),
{
    match v.get(key) {
        Some(x) => x.as_u64(),
        None => None,
    }
}

/// The boolean of member `key`, if there is one.
pub fn field_bool(v: &JsonValue, key: &str) -> (r: Option<bool>)
    ensures
        r == json_bool(json_get(*v, key@)),
{
    match v.get(key) {
        Some(x) => x.as_bool(),
        None => None,
    }
}



/// The member `key` of `v`, or null when it has none (as indexing a JSON value
/// gives).
pub open spec fn member_or_null_of(v: JsonValue, key: Seq<char>) -> JsonValue {
    match json_get(v, key) {
        Some(x) => x,
        None => JsonValue::Null,
    }
}

impl JsonValue {
    /// Takes the member `key` out of an object; null when there is none.
    pub fn into_member(self, key: &str) -> (r: JsonValue)
        ensures
            r == member_or_null_of(self, key@),
    {
        let ghost whole = self;
        match self {
            JsonValue::Object(mut members) => {
                let ghost start = members@;
                let n = members.len();
                let mut i: usize = 0;
                while i < n
                    invariant
                        whole == self,
                        whole == JsonValue::Object(members),
                        members@ == start,
                        n == members@.len(),
                        i <= n,
                        forall|j: int| 0 <= j < i ==> (#[trigger] members@[j]).0@ != key@,
                    decreases n - i,
                {
                    if str_eq(members[i].0.as_str(), key) {
                        proof {
                            lemma_first_key(members@, key@, i as int);
                            assert(json_get(whole, key@) == Some(start[i as int].1));
                        }
                        let (_, v) = members.remove(i);
                        assert(v == start[i as int].1);
                        return v;
                    }
                    i = i + 1;
                }
                JsonValue::Null
            },
            _ => JsonValue::Null,
        }
    }
}

/// `serde_json::Value`, carried through the parser only.
#[verifier::external_type_specification]
#[verifier::external_body]
pub struct ExSerdeValue(serde_json::Value);

/// What `serde_json::from_str::<serde_json::Value>` gives for a text, read as a
/// `JsonValue`: the value for valid JSON, nothing otherwise.
pub uninterp spec fn spec_parse_json(text: Seq<char>) -> Option<JsonValue>;

/// Parses `text` with `serde_json::from_str` into a `serde_json::Value` and reads
/// it as a `JsonValue`. The contract names the result and says nothing of the error
/// text, which is serde_json's message.
#[verifier::external_body]
pub(crate) fn parse_json(text: &str) -> (r: Result<JsonValue, String>)
    ensures
        match r {
            Ok(v) => spec_parse_json(text@) == Some(v),
            Err(_) => spec_parse_json(text@) is None,
        },
{
    match serde_json::from_str::<serde_json::Value>(text) {
        Ok(v) => Ok(from_serde(v)),
        Err(e) => Err(e.to_string()),
    }
}

/// Reads a `serde_json::Value` as a `JsonValue`, variant for variant; a number is a
/// non-negative integer if `as_u64` gives one, else a negative integer if `as_i64`
/// gives one, else a float. Only `parse_json` calls it, on the value it parsed.
#[verifier::external_body]
fn from_serde(v: serde_json::Value) -> JsonValue {
    match v {
        serde_json::Value::Null => JsonValue::Null,
        serde_json::Value::Bool(b) => JsonValue::Bool(b),
        serde_json::Value::Number(n) => JsonValue::Number(match (n.as_u64(), n.as_i64()) {
            (Some(u), _) => JsonNumber::PosInt(u),
            (None, Some(i)) => JsonNumber::NegInt(i),
            (None, None) => JsonNumber::Float,
        }),
        serde_json::Value::String(s) => JsonValue::String(s),
        serde_json::Value::Array(a) => JsonValue::Array(a.into_iter().map(from_serde).collect()),
        serde_json::Value::Object(m) => JsonValue::Object(m.into_iter().map(|(k, x)| (k, from_serde(x))).collect()),
    }
}

/// Parses the JSON text of a call's arguments; text that is not JSON is a
/// serialization error carrying serde_json's message.
pub fn parse_arguments(text: &str) -> (r: Result<JsonValue, crate::error::Error>)
    ensures
        match r {
            Ok(v) => spec_parse_json(text@) == Some(v),
            Err(e) => spec_parse_json(text@) is None && e is Serialization,
        },
{
    match parse_json(text) {
        Ok(v) => Ok(v),
        Err(e) => Err(crate::error::Error::Serialization(e)),
    }
}

} // verus!
