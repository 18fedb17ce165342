//! Reading the sheet's records out of JSON values, with the rules of the records'
//! JSON format: a record is an object whose members name its fields (unknown
//! members are ignored, a missing field is an error, an optional field may be
//! missing or null) or an array of exactly its fields in order; a byte or a
//! quantity is a non-negative integer that fits; a list is an array; a map is an
//! object.
use vstd::prelude::*;

use crate::character::{Contact, Item, MatrixAttributes, Quality, Skill, Skills};
use crate::json::{json_bool, json_get, json_str, json_u64, JsonNumber, JsonValue};
use crate::strmap::StrMap;
use crate::text::{concat3, owned};

verus! {

broadcast use vstd::string::group_string_axioms;

/// The field `name`, the `i`-th of `n`, of a record written as `v`.
pub open spec fn record_field(v: JsonValue, name: Seq<char>, i: int, n: int) -> Option<JsonValue> {
    match v {
        JsonValue::Object(_) => json_get(v, name),
        JsonValue::Array(a) => if a@.len() == n {
            Some(a@[i])
        } else {
            None
        },
        _ => None,
    }
}

/// Whether `v` can hold a record of `n` fields: an object, or an array of `n`.
pub open spec fn record_shape(v: JsonValue, n: int) -> bool {
    match v {
        JsonValue::Object(_) => true,
        JsonValue::Array(a) => a@.len() == n,
        _ => false,
    }
}

/// A byte written as `v`.
pub open spec fn spec_u8(v: Option<JsonValue>) -> Option<u8> {
    match json_u64(v) {
        Some(n) => if n <= 255 {
            Some(n as u8)
        } else {
            None
        },
        None => None,
    }
}

/// A quantity written as `v`.
pub open spec fn spec_u32(v: Option<JsonValue>) -> Option<u32> {
    match json_u64(v) {
        Some(n) => if n <= u32::MAX {
            Some(n as u32)
        } else {
            None
        },
        None => None,
    }
}

/// An optional byte: missing or null is `None`.
pub open spec fn spec_opt_u8(v: Option<JsonValue>) -> Option<Option<u8>> {
    match v {
        None => Some(None),
        Some(JsonValue::Null) => Some(None),
        Some(x) => match spec_u8(Some(x)) {
            Some(b) => Some(Some(b)),
            None => None,
        },
    }
}

/// An optional string: missing or null is `None`.
pub open spec fn spec_opt_str(v: Option<JsonValue>) -> Option<Option<String>> {
    match v {
        None => Some(None),
        Some(JsonValue::Null) => Some(None),
        Some(JsonValue::String(s)) => Some(Some(s)),
        _ => None,
    }
}

/// The item written as `v`: name, quantity, description.
pub open spec fn spec_item(v: JsonValue) -> Option<Item> {
    let name = json_str(record_field(v, "name"@, 0, 3));
    let quantity = spec_u32(record_field(v, "quantity"@, 1, 3));
    let description = json_str(record_field(v, "description"@, 2, 3));
    if record_shape(v, 3) && name is Some && quantity is Some && description is Some {
        Some(Item { name: name->0, quantity: quantity->0, description: description->0 })
    } else {
        None
    }
}

/// The quality written as `v`: name, positive.
pub open spec fn spec_quality(v: JsonValue) -> Option<Quality> {
    let name = json_str(record_field(v, "name"@, 0, 2));
    let positive = json_bool(record_field(v, "positive"@, 1, 2));
    if record_shape(v, 2) && name is Some && positive is Some {
        Some(Quality { name: name->0, positive: positive->0 })
    } else {
        None
    }
}

/// The contact written as `v`: name, description, loyalty, connection.
pub open spec fn spec_contact(v: JsonValue) -> Option<Contact> {
    let name = json_str(record_field(v, "name"@, 0, 4));
    let description = json_str(record_field(v, "description"@, 1, 4));
    let loyalty = spec_u8(record_field(v, "loyalty"@, 2, 4));
    let connection = spec_u8(record_field(v, "connection"@, 3, 4));
    if record_shape(v, 4) && name is Some && description is Some && loyalty is Some
        && connection is Some {
        Some(
            Contact {
                name: name->0,
                description: description->0,
                loyalty: loyalty->0,
                connection: connection->0,
            },
        )
    } else {
        None
    }
}

/// The matrix attributes written as `v`: attack, sleaze, data processing, firewall.
pub open spec fn spec_matrix(v: JsonValue) -> Option<MatrixAttributes> {
    let attack = spec_u8(record_field(v, "attack"@, 0, 4));
    let sleaze = spec_u8(record_field(v, "sleaze"@, 1, 4));
    let data_processing = spec_u8(record_field(v, "data_processing"@, 2, 4));
    let firewall = spec_u8(record_field(v, "firewall"@, 3, 4));
    if record_shape(v, 4) && attack is Some && sleaze is Some && data_processing is Some
        && firewall is Some {
        Some(
            MatrixAttributes {
                attack: attack->0,
                sleaze: sleaze->0,
                data_processing: data_processing->0,
                firewall: firewall->0,
            },
        )
    } else {
        None
    }
}

/// Optional matrix attributes: null is `None`.
pub open spec fn spec_opt_matrix(v: JsonValue) -> Option<Option<MatrixAttributes>> {
    match v {
        JsonValue::Null => Some(None),
        _ => match spec_matrix(v) {
            Some(m) => Some(Some(m)),
            None => None,
        },
    }
}

/// Every element of `s` read with `f`, or nothing if one fails.
pub open spec fn decode_all<T>(s: Seq<JsonValue>, f: spec_fn(JsonValue) -> Option<T>) -> Option<Seq<T>>
    decreases s.len(),
{
    if s.len() == 0 {
        Some(Seq::empty())
    } else {
        match decode_all(s.drop_last(), f) {
            Some(prefix) => match f(s.last()) {
                Some(x) => Some(prefix.push(x)),
                None => None,
            },
            None => None,
        }
    }
}

/// The list written as the array `v`, each element read with `f`.
pub open spec fn spec_list<T>(v: JsonValue, f: spec_fn(JsonValue) -> Option<T>) -> Option<Seq<T>> {
    match v {
        JsonValue::Array(a) => decode_all(a@, f),
        _ => None,
    }
}

/// A string element.
pub open spec fn string_reader() -> spec_fn(JsonValue) -> Option<String> {
    |v: JsonValue| json_str(Some(v))
}

/// A quality element.
pub open spec fn quality_reader() -> spec_fn(JsonValue) -> Option<Quality> {
    |v: JsonValue| spec_quality(v)
}

/// A contact element.
pub open spec fn contact_reader() -> spec_fn(JsonValue) -> Option<Contact> {
    |v: JsonValue| spec_contact(v)
}

/// An item element.
pub open spec fn item_reader() -> spec_fn(JsonValue) -> Option<Item> {
    |v: JsonValue| spec_item(v)
}

/// A byte element.
pub open spec fn u8_reader() -> spec_fn(JsonValue) -> Option<u8> {
    |v: JsonValue| spec_u8(Some(v))
}

/// Every member of an object read with `f`, later members winning for a repeated
/// name; nothing if one fails.
pub open spec fn decode_members<T>(
    members: Seq<(String, JsonValue)>,
    f: spec_fn(JsonValue) -> Option<T>,
) -> Option<Map<Seq<char>, T>>
    decreases members.len(),
{
    if members.len() == 0 {
        Some(Map::empty())
    } else {
        match decode_members(members.drop_last(), f) {
            Some(prefix) => match f(members.last().1) {
                Some(x) => Some(prefix.insert(members.last().0@, x)),
                None => None,
            },
            None => None,
        }
    }
}

/// The map written as the object `v`, each value read with `f`.
pub open spec fn spec_map<T>(v: JsonValue, f: spec_fn(JsonValue) -> Option<T>) -> Option<Map<Seq<char>, T>> {
    match v {
        JsonValue::Object(m) => decode_members(m@, f),
        _ => None,
    }
}

/// The groups of skills written as `v`: combat, physical, social, technical, each a
/// map of ratings.
pub open spec fn skills_read(v: JsonValue, s: Skills) -> bool {
    &&& record_shape(v, 4)
    &&& record_field(v, "combat"@, 0, 4) matches Some(c) && spec_map(c, u8_reader()) == Some(
        s.combat.view(),
    )
    &&& record_field(v, "physical"@, 1, 4) matches Some(p) && spec_map(p, u8_reader()) == Some(
        s.physical.view(),
    )
    &&& record_field(v, "social"@, 2, 4) matches Some(x) && spec_map(x, u8_reader()) == Some(
        s.social.view(),
    )
    &&& record_field(v, "technical"@, 3, 4) matches Some(t) && spec_map(t, u8_reader()) == Some(
        s.technical.view(),
    )
}

/// Whether `v` holds groups of skills.
pub open spec fn skills_readable(v: JsonValue) -> bool {
    &&& record_shape(v, 4)
    &&& record_field(v, "combat"@, 0, 4) matches Some(c) && spec_map(c, u8_reader()) is Some
    &&& record_field(v, "physical"@, 1, 4) matches Some(p) && spec_map(p, u8_reader()) is Some
    &&& record_field(v, "social"@, 2, 4) matches Some(x) && spec_map(x, u8_reader()) is Some
    &&& record_field(v, "technical"@, 3, 4) matches Some(t) && spec_map(t, u8_reader()) is Some
}

/// A failed prefix fails the whole list.
pub proof fn lemma_decode_all_prefix<T>(s: Seq<JsonValue>, f: spec_fn(JsonValue) -> Option<T>, k: int)
    requires
        0 <= k <= s.len(),
        decode_all(s.take(k), f) is None,
    ensures
        decode_all(s, f) is None,
    decreases s.len() - k,
{
    if k < s.len() {
        assert(s.take(k + 1).drop_last() =~= s.take(k));
        lemma_decode_all_prefix(s, f, k + 1);
    } else {
        assert(s.take(k) =~= s);
    }
}

/// A failed prefix fails the whole map.
pub proof fn lemma_decode_members_prefix<T>(
    s: Seq<(String, JsonValue)>,
    f: spec_fn(JsonValue) -> Option<T>,
    k: int,
)
    requires
        0 <= k <= s.len(),
        decode_members(s.take(k), f) is None,
    ensures
        decode_members(s, f) is None,
    decreases s.len() - k,
{
    if k < s.len() {
        assert(s.take(k + 1).drop_last() =~= s.take(k));
        lemma_decode_members_prefix(s, f, k + 1);
    } else {
        assert(s.take(k) =~= s);
    }
}

fn missing(field: &str) -> (e: String)
    ensures
        e@ == "missing field `"@ + field@ + "`"@,
{
    concat3("missing field `", field, "`")
}

/// The field `name`, the `i`-th of `n`, of a record written as `v`.
pub fn record_member<'a>(v: &'a JsonValue, name: &str, i: usize, n: usize) -> (r: Option<&'a JsonValue>)
    requires
        i < n,
    ensures
        match r {
            Some(x) => record_field(*v, name@, i as int, n as int) == Some(*x),
            None => record_field(*v, name@, i as int, n as int) is None,
        },
{
    match v {
        JsonValue::Object(_) => v.get(name),
        JsonValue::Array(a) => if a.len() == n {
            Some(&a[i])
        } else {
            None
        },
        _ => None,
    }
}

fn check_shape(v: &JsonValue, n: usize) -> (b: bool)
    ensures
        b == record_shape(*v, n as int),
{
    match v {
        JsonValue::Object(_) => true,
        JsonValue::Array(a) => a.len() == n,
        _ => false,
    }
}

/// A byte, if `v` writes one.
pub fn read_u8(v: Option<&JsonValue>) -> (r: Option<u8>)
    ensures
        r == spec_u8(match v {
            Some(x) => Some(*x),
            None => None,
        }),
{
    match v {
        Some(JsonValue::Number(JsonNumber::PosInt(n))) => if *n <= 255 {
            Some(*n as u8)
        } else {
            None
        },
        _ => None,
    }
}

/// A quantity, if `v` writes one.
pub fn read_u32(v: Option<&JsonValue>) -> (r: Option<u32>)
    ensures
        r == spec_u32(match v {
            Some(x) => Some(*x),
            None => None,
        }),
{
    match v {
        Some(JsonValue::Number(JsonNumber::PosInt(n))) => if *n <= 0xffff_ffffu64 {
            Some(*n as u32)
        } else {
            None
        },
        _ => None,
    }
}

/// A copy of the string, if `v` writes one.
pub fn read_string(v: Option<&JsonValue>) -> (r: Option<String>)
    ensures
        r == json_str(match v {
            Some(x) => Some(*x),
            None => None,
        }),
{
    match v {
        Some(JsonValue::String(s)) => Some(s.clone()),
        _ => None,
    }
}

/// The boolean, if `v` writes one.
pub fn read_bool(v: Option<&JsonValue>) -> (r: Option<bool>)
    ensures
        r == json_bool(match v {
            Some(x) => Some(*x),
            None => None,
        }),
{
    match v {
        Some(JsonValue::Bool(b)) => Some(*b),
        _ => None,
    }
}

/// An optional byte: missing or null is `None`; `Err` for another value.
pub fn read_opt_u8(v: Option<&JsonValue>) -> (r: Result<Option<u8>, ()>)
    ensures
        match r {
            Ok(x) => spec_opt_u8(match v {
                Some(x) => Some(*x),
                None => None,
            }) == Some(x),
            Err(_) => spec_opt_u8(match v {
                Some(x) => Some(*x),
                None => None,
            }) is None,
        },
{
    match v {
        None => Ok(None),
        Some(JsonValue::Null) => Ok(None),
        Some(x) => match read_u8(Some(x)) {
            Some(b) => Ok(Some(b)),
            None => Err(()),
        },
    }
}

/// An optional string: missing or null is `None`; `Err` for another value.
pub fn read_opt_string(v: Option<&JsonValue>) -> (r: Result<Option<String>, ()>)
    ensures
        match r {
            Ok(x) => spec_opt_str(match v {
                Some(x) => Some(*x),
                None => None,
            }) == Some(x),
            Err(_) => spec_opt_str(match v {
                Some(x) => Some(*x),
                None => None,
            }) is None,
        },
{
    match v {
        None => Ok(None),
        Some(JsonValue::Null) => Ok(None),
        Some(JsonValue::String(s)) => Ok(Some(s.clone())),
        Some(_) => Err(()),
    }
}

/// Reads an item.
pub fn decode_item(v: &JsonValue) -> (r: Result<Item, String>)
    ensures
        match r {
            Ok(x) => spec_item(*v) == Some(x),
            Err(_) => spec_item(*v) is None,
        },
{
    if !check_shape(v, 3) {
        return Err(owned("invalid type: expected struct Item"));
    }
    let name = match read_string(record_member(v, "name", 0, 3)) {
        Some(s) => s,
        None => return Err(missing("name")),
    };
    let quantity = match read_u32(record_member(v, "quantity", 1, 3)) {
        Some(q) => q,
        None => return Err(missing("quantity")),
    };
    let description = match read_string(record_member(v, "description", 2, 3)) {
        Some(s) => s,
        None => return Err(missing("description")),
    };
    Ok(Item { name, quantity, description })
}

/// Reads a quality.
pub fn decode_quality(v: &JsonValue) -> (r: Result<Quality, String>)
    ensures
        match r {
            Ok(x) => spec_quality(*v) == Some(x),
            Err(_) => spec_quality(*v) is None,
        },
{
    if !check_shape(v, 2) {
        return Err(owned("invalid type: expected struct Quality"));
    }
    let name = match read_string(record_member(v, "name", 0, 2)) {
        Some(s) => s,
        None => return Err(missing("name")),
    };
    let positive = match read_bool(record_member(v, "positive", 1, 2)) {
        Some(b) => b,
        None => return Err(missing("positive")),
    };
    Ok(Quality { name, positive })
}

/// Reads a contact.
pub fn decode_contact(v: &JsonValue) -> (r: Result<Contact, String>)
    ensures
        match r {
            Ok(x) => spec_contact(*v) == Some(x),
            Err(_) => spec_contact(*v) is None,
        },
{
    if !check_shape(v, 4) {
        return Err(owned("invalid type: expected struct Contact"));
    }
    let name = match read_string(record_member(v, "name", 0, 4)) {
        Some(s) => s,
        None => return Err(missing("name")),
    };
    let description = match read_string(record_member(v, "description", 1, 4)) {
        Some(s) => s,
        None => return Err(missing("description")),
    };
    let loyalty = match read_u8(record_member(v, "loyalty", 2, 4)) {
        Some(b) => b,
        None => return Err(missing("loyalty")),
    };
    let connection = match read_u8(record_member(v, "connection", 3, 4)) {
        Some(b) => b,
        None => return Err(missing("connection")),
    };
    Ok(Contact { name, description, loyalty, connection })
}

/// Reads matrix attributes.
pub fn decode_matrix(v: &JsonValue) -> (r: Result<MatrixAttributes, String>)
    ensures
        match r {
            Ok(x) => spec_matrix(*v) == Some(x),
            Err(_) => spec_matrix(*v) is None,
        },
{
    if !check_shape(v, 4) {
        return Err(owned("invalid type: expected struct MatrixAttributes"));
    }
    let attack = match read_u8(record_member(v, "attack", 0, 4)) {
        Some(b) => b,
        None => return Err(missing("attack")),
    };
    let sleaze = match read_u8(record_member(v, "sleaze", 1, 4)) {
        Some(b) => b,
        None => return Err(missing("sleaze")),
    };
    let data_processing = match read_u8(record_member(v, "data_processing", 2, 4)) {
        Some(b) => b,
        None => return Err(missing("data_processing")),
    };
    let firewall = match read_u8(record_member(v, "firewall", 3, 4)) {
        Some(b) => b,
        None => return Err(missing("firewall")),
    };
    Ok(MatrixAttributes { attack, sleaze, data_processing, firewall })
}

/// Reads optional matrix attributes: null is `None`.
pub fn decode_opt_matrix(v: &JsonValue) -> (r: Result<Option<MatrixAttributes>, String>)
    ensures
        match r {
            Ok(x) => spec_opt_matrix(*v) == Some(x),
            Err(_) => spec_opt_matrix(*v) is None,
        },
{
    match v {
        JsonValue::Null => Ok(None),
        _ => match decode_matrix(v) {
            Ok(m) => Ok(Some(m)),
            Err(e) => Err(e),
        },
    }
}

fn not_a_list() -> (e: String)
    ensures
        e@ == "invalid type: expected a sequence"@,
{
    owned("invalid type: expected a sequence")
}

fn not_a_map() -> (e: String)
    ensures
        e@ == "invalid type: expected a map"@,
{
    owned("invalid type: expected a map")
}

/// Reads a list of strings.
pub fn decode_string_list(v: &JsonValue) -> (r: Result<Vec<String>, String>)
    ensures
        match r {
            Ok(x) => spec_list(*v, string_reader()) == Some(x@),
            Err(_) => spec_list(*v, string_reader()) is None,
        },
{
    let a = match v {
        JsonValue::Array(a) => a,
        _ => return Err(not_a_list()),
    };
    let n = a.len();
    let mut out: Vec<String> = Vec::new();
    let mut i: usize = 0;
    assert(a@.take(0) =~= Seq::<JsonValue>::empty());
    while i < n
        invariant
            *v == JsonValue::Array(*a),
            n == a@.len(),
            i <= n,
            decode_all(a@.take(i as int), string_reader()) == Some(out@),
        decreases n - i,
    {
        assert(a@.take(i + 1).drop_last() =~= a@.take(i as int));
        match read_string(Some(&a[i])) {
            Some(s) => {
                out.push(s);
            },
            None => {
                proof {
                    lemma_decode_all_prefix(a@, string_reader(), i + 1);
                }
                return Err(owned("invalid type: expected a string"));
            },
        }
        i = i + 1;
    }
    assert(a@.take(n as int) =~= a@);
    Ok(out)
}

/// Reads a list of qualities.
pub fn decode_quality_list(v: &JsonValue) -> (r: Result<Vec<Quality>, String>)
    ensures
        match r {
            Ok(x) => spec_list(*v, quality_reader()) == Some(x@),
            Err(_) => spec_list(*v, quality_reader()) is None,
        },
{
    let a = match v {
        JsonValue::Array(a) => a,
        _ => return Err(not_a_list()),
    };
    let n = a.len();
    let mut out: Vec<Quality> = Vec::new();
    let mut i: usize = 0;
    assert(a@.take(0) =~= Seq::<JsonValue>::empty());
    while i < n
        invariant
            *v == JsonValue::Array(*a),
            n == a@.len(),
            i <= n,
            decode_all(a@.take(i as int), quality_reader()) == Some(out@),
        decreases n - i,
    {
        assert(a@.take(i + 1).drop_last() =~= a@.take(i as int));
        match decode_quality(&a[i]) {
            Ok(q) => {
                out.push(q);
            },
            Err(e) => {
                proof {
                    lemma_decode_all_prefix(a@, quality_reader(), i + 1);
                }
                return Err(e);
            },
        }
        i = i + 1;
    }
    assert(a@.take(n as int) =~= a@);
    Ok(out)
}

/// Reads a list of contacts.
pub fn decode_contact_list(v: &JsonValue) -> (r: Result<Vec<Contact>, String>)
    ensures
        match r {
            Ok(x) => spec_list(*v, contact_reader()) == Some(x@),
            Err(_) => spec_list(*v, contact_reader()) is None,
        },
{
    let a = match v {
        JsonValue::Array(a) => a,
        _ => return Err(not_a_list()),
    };
    let n = a.len();
    let mut out: Vec<Contact> = Vec::new();
    let mut i: usize = 0;
    assert(a@.take(0) =~= Seq::<JsonValue>::empty());
    while i < n
        invariant
            *v == JsonValue::Array(*a),
            n == a@.len(),
            i <= n,
            decode_all(a@.take(i as int), contact_reader()) == Some(out@),
        decreases n - i,
    {
        assert(a@.take(i + 1).drop_last() =~= a@.take(i as int));
        match decode_contact(&a[i]) {
            Ok(c) => {
                out.push(c);
            },
            Err(e) => {
                proof {
                    lemma_decode_all_prefix(a@, contact_reader(), i + 1);
                }
                return Err(e);
            },
        }
        i = i + 1;
    }
    assert(a@.take(n as int) =~= a@);
    Ok(out)
}

/// Reads a map of ratings.
pub fn decode_rating_map(v: &JsonValue) -> (r: Result<Skill, String>)
    ensures
        match r {
            Ok(x) => spec_map(*v, u8_reader()) == Some(x.view()),
            Err(_) => spec_map(*v, u8_reader()) is None,
        },
{
    let m = match v {
        JsonValue::Object(m) => m,
        _ => return Err(not_a_map()),
    };
    let n = m.len();
    let mut out: Skill = StrMap::new();
    let mut i: usize = 0;
    assert(m@.take(0) =~= Seq::<(String, JsonValue)>::empty());
    while i < n
        invariant
            *v == JsonValue::Object(*m),
            n == m@.len(),
            i <= n,
            decode_members(m@.take(i as int), u8_reader()) == Some(out.view()),
        decreases n - i,
    {
        assert(m@.take(i + 1).drop_last() =~= m@.take(i as int));
        match read_u8(Some(&m[i].1)) {
            Some(b) => {
                out.insert(m[i].0.clone(), b);
            },
            None => {
                proof {
                    lemma_decode_members_prefix(m@, u8_reader(), i + 1);
                }
                return Err(owned("invalid value: expected u8"));
            },
        }
        i = i + 1;
    }
    assert(m@.take(n as int) =~= m@);
    Ok(out)
}

/// Reads a map of items.
pub fn decode_item_map(v: &JsonValue) -> (r: Result<StrMap<Item>, String>)
    ensures
        match r {
            Ok(x) => spec_map(*v, item_reader()) == Some(x.view()),
            Err(_) => spec_map(*v, item_reader()) is None,
        },
{
    let m = match v {
        JsonValue::Object(m) => m,
        _ => return Err(not_a_map()),
    };
    let n = m.len();
    let mut out: StrMap<Item> = StrMap::new();
    let mut i: usize = 0;
    assert(m@.take(0) =~= Seq::<(String, JsonValue)>::empty());
    while i < n
        invariant
            *v == JsonValue::Object(*m),
            n == m@.len(),
            i <= n,
            decode_members(m@.take(i as int), item_reader()) == Some(out.view()),
        decreases n - i,
    {
        assert(m@.take(i + 1).drop_last() =~= m@.take(i as int));
        match decode_item(&m[i].1) {
            Ok(x) => {
                out.insert(m[i].0.clone(), x);
            },
            Err(e) => {
                proof {
                    lemma_decode_members_prefix(m@, item_reader(), i + 1);
                }
                return Err(e);
            },
        }
        i = i + 1;
    }
    assert(m@.take(n as int) =~= m@);
    Ok(out)
}

/// Reads a map of contacts.
pub fn decode_contact_map(v: &JsonValue) -> (r: Result<StrMap<Contact>, String>)
    ensures
        match r {
            Ok(x) => spec_map(*v, contact_reader()) == Some(x.view()),
            Err(_) => spec_map(*v, contact_reader()) is None,
        },
{
    let m = match v {
        JsonValue::Object(m) => m,
        _ => return Err(not_a_map()),
    };
    let n = m.len();
    let mut out: StrMap<Contact> = StrMap::new();
    let mut i: usize = 0;
    assert(m@.take(0) =~= Seq::<(String, JsonValue)>::empty());
    while i < n
        invariant
            *v == JsonValue::Object(*m),
            n == m@.len(),
            i <= n,
            decode_members(m@.take(i as int), contact_reader()) == Some(out.view()),
        decreases n - i,
    {
        assert(m@.take(i + 1).drop_last() =~= m@.take(i as int));
        match decode_contact(&m[i].1) {
            Ok(x) => {
                out.insert(m[i].0.clone(), x);
            },
            Err(e) => {
                proof {
                    lemma_decode_members_prefix(m@, contact_reader(), i + 1);
                }
                return Err(e);
            },
        }
        i = i + 1;
    }
    assert(m@.take(n as int) =~= m@);
    Ok(out)
}

/// Reads the groups of skills.
pub fn decode_skills(v: &JsonValue) -> (r: Result<Skills, String>)
    ensures
        match r {
            Ok(s) => skills_read(*v, s),
            Err(_) => !skills_readable(*v),
        },
{
    if !check_shape(v, 4) {
        return Err(owned("invalid type: expected struct Skills"));
    }
    let combat = match record_member(v, "combat", 0, 4) {
        Some(x) => decode_rating_map(x)?,
        None => return Err(missing("combat")),
    };
    let physical = match record_member(v, "physical", 1, 4) {
        Some(x) => decode_rating_map(x)?,
        None => return Err(missing("physical")),
    };
    let social = match record_member(v, "social", 2, 4) {
        Some(x) => decode_rating_map(x)?,
        None => return Err(missing("social")),
    };
    let technical = match record_member(v, "technical", 3, 4) {
        Some(x) => decode_rating_map(x)?,
        None => return Err(missing("technical")),
    };
    Ok(Skills { combat, physical, social, technical })
}

} // verus!
