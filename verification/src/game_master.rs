//! What the game master's tool calls do to the game: creating a character from
//! the call's JSON arguments, and the fallback character used when that fails.
use vstd::prelude::*;

use crate::character::{
    check_buildable, derived_consistent, race_modified, race_modifiable, race_named, derivable,
    starting_essence, Attributes, CharacterSheet, CharacterSheetBuilder, Contact, Item, Magic,
    Quality, Race, Resonance, Skill, Skills,
};
use crate::error::{AIError, Error};
use crate::json::{field_bool, field_str, field_u64, json_bool, json_get, json_str, json_u64, JsonValue};
use crate::json_decode::{decode_all, lemma_decode_all_prefix, spec_u8};
use crate::strmap::StrMap;
use crate::text::{concat, owned};

verus! {

broadcast use vstd::string::group_string_axioms;

/// The string member `field` of `v`.
pub open spec fn arg_string(v: JsonValue, field: Seq<char>) -> Option<String> {
    json_str(json_get(v, field))
}

/// The member `field` of `v` when it is a non-negative integer that fits in a byte.
pub open spec fn arg_byte(v: JsonValue, field: Seq<char>) -> Option<u8> {
    spec_u8(json_get(v, field))
}

/// The member `field` of `v` when it is a non-negative integer, cut to its low
/// byte.
pub open spec fn arg_low_byte(v: JsonValue, field: Seq<char>) -> Option<u8> {
    match json_u64(json_get(v, field)) {
        Some(n) => Some(n as u8),
        None => None,
    }
}

/// `e` reports arguments that could not be read.
pub open spec fn is_parse_error(e: Error) -> bool {
    e matches Error::AI(AIError::GameStateParseError(_))
}

/// The text of a parse error.
pub open spec fn parse_error_text(e: Error) -> Option<Seq<char>> {
    match e {
        Error::AI(AIError::GameStateParseError(m)) => Some(m@),
        _ => None,
    }
}

fn parse_error(msg: String) -> (e: Error)
    ensures
        is_parse_error(e),
        parse_error_text(e) == Some(msg@),
{
    Error::AI(AIError::GameStateParseError(msg))
}

fn extract_str(args: &JsonValue, field: &str) -> (r: Result<String, Error>)
    ensures
        match r {
            Ok(s) => arg_string(*args, field@) == Some(s),
            Err(e) => arg_string(*args, field@) is None && parse_error_text(e) == Some(
                "Missing or invalid "@ + field@,
            ),
        },
{
    match field_str(args, field) {
        Some(s) => Ok(s.clone()),
        None => Err(parse_error(concat("Missing or invalid ", field))),
    }
}

/// Why the member `field` of `v` is not a byte: it is missing or not a
/// non-negative integer, or it is out of a byte's range.
pub open spec fn byte_fault_text(v: JsonValue, field: Seq<char>) -> Seq<char> {
    if json_u64(json_get(v, field)) is None {
        "Missing or invalid "@ + field
    } else {
        field + " out of range"@
    }
}

fn extract_u8(args: &JsonValue, field: &str) -> (r: Result<u8, Error>)
    ensures
        match r {
            Ok(b) => arg_byte(*args, field@) == Some(b),
            Err(e) => arg_byte(*args, field@) is None && parse_error_text(e) == Some(
                byte_fault_text(*args, field@),
            ),
        },
{
    match field_u64(args, field) {
        Some(n) => if n <= 255 {
            Ok(n as u8)
        } else {
            Err(parse_error(concat(field, " out of range")))
        },
        None => Err(parse_error(concat("Missing or invalid ", field))),
    }
}

fn extract_u8_opt(args: &JsonValue, field: &str) -> (r: Option<u8>)
    ensures
        r == arg_byte(*args, field@),
{
    match field_u64(args, field) {
        Some(n) => if n <= 255 {
            Some(n as u8)
        } else {
            None
        },
        None => None,
    }
}

/// A skill of a list: its name and rating. A strict reading asks for a rating that
/// fits in a byte; a loose one keeps the low byte of any non-negative integer.
pub open spec fn rating_entry(v: JsonValue, strict: bool) -> Option<(String, u8)> {
    let rating = if strict {
        arg_byte(v, "rating"@)
    } else {
        arg_low_byte(v, "rating"@)
    };
    match (arg_string(v, "name"@), rating) {
        (Some(n), Some(r)) => Some((n, r)),
        _ => None,
    }
}

/// Reads a skill of a list.
pub open spec fn rating_reader(strict: bool) -> spec_fn(JsonValue) -> Option<(String, u8)> {
    |v: JsonValue| rating_entry(v, strict)
}

/// `base` with every named entry of `s` read with `f` inserted in order (a later
/// entry of the same name wins); nothing if one entry cannot be read.
pub open spec fn with_named<T>(
    base: Map<Seq<char>, T>,
    s: Seq<JsonValue>,
    f: spec_fn(JsonValue) -> Option<(String, T)>,
) -> Option<Map<Seq<char>, T>>
    decreases s.len(),
{
    if s.len() == 0 {
        Some(base)
    } else {
        match with_named(base, s.drop_last(), f) {
            Some(m) => match f(s.last()) {
                Some(e) => Some(m.insert(e.0@, e.1)),
                None => None,
            },
            None => None,
        }
    }
}

/// A list that fails on a prefix fails.
pub proof fn lemma_with_named_prefix<T>(
    base: Map<Seq<char>, T>,
    s: Seq<JsonValue>,
    f: spec_fn(JsonValue) -> Option<(String, T)>,
    k: int,
)
    requires
        0 <= k <= s.len(),
        with_named(base, s.take(k), f) is None,
    ensures
        with_named(base, s, f) is None,
    decreases s.len() - k,
{
    if k < s.len() {
        assert(s.take(k + 1).drop_last() =~= s.take(k));
        lemma_with_named_prefix(base, s, f, k + 1);
    } else {
        assert(s.take(k) =~= s);
    }
}

/// The first element of `s` that `ok` refuses.
pub open spec fn first_failing(s: Seq<JsonValue>, ok: spec_fn(JsonValue) -> bool) -> Option<JsonValue>
    decreases s.len(),
{
    if s.len() == 0 {
        None
    } else {
        match first_failing(s.drop_last(), ok) {
            Some(v) => Some(v),
            None => if ok(s.last()) {
                None
            } else {
                Some(s.last())
            },
        }
    }
}

/// The first element refused in a prefix is the first refused in the whole.
pub proof fn lemma_first_failing_prefix(s: Seq<JsonValue>, ok: spec_fn(JsonValue) -> bool, k: int)
    requires
        0 <= k <= s.len(),
        first_failing(s.take(k), ok) is Some,
    ensures
        first_failing(s, ok) == first_failing(s.take(k), ok),
    decreases s.len() - k,
{
    if k < s.len() {
        assert(s.take(k + 1).drop_last() =~= s.take(k));
        lemma_first_failing_prefix(s, ok, k + 1);
    } else {
        assert(s.take(k) =~= s);
    }
}

/// A skill entry can be read.
pub open spec fn rating_ok(strict: bool) -> spec_fn(JsonValue) -> bool {
    |v: JsonValue| rating_entry(v, strict) is Some
}

/// Why a skill entry cannot be read: its name first, then its rating.
pub open spec fn rating_fault_of(v: JsonValue) -> RatingFault {
    if arg_string(v, "name"@) is None {
        RatingFault::Name
    } else {
        RatingFault::Rating
    }
}

/// The skills of group `category` of `skills` added onto `base`: the group, when
/// it is an array, is read entry by entry; a missing group or another value adds
/// nothing.
pub open spec fn rating_group_onto(
    base: Map<Seq<char>, u8>,
    skills: JsonValue,
    category: Seq<char>,
    strict: bool,
) -> Option<Map<Seq<char>, u8>> {
    match json_get(skills, category) {
        Some(JsonValue::Array(a)) => with_named(base, a@, rating_reader(strict)),
        _ => Some(base),
    }
}

/// How an entry of a skill list failed: no name, or no usable rating.
pub enum RatingFault {
    Name,
    Rating,
}

/// Inserts into `m` every skill of the list `a`; stops at the first entry that
/// cannot be read.
pub fn read_ratings(m: &mut Skill, a: &Vec<JsonValue>, strict: bool) -> (r: Result<(), RatingFault>)
    ensures
        match r {
            Ok(()) => with_named(old(m).view(), a@, rating_reader(strict)) == Some(final(m).view()),
            Err(f) => {
                &&& with_named(old(m).view(), a@, rating_reader(strict)) is None
                &&& first_failing(a@, rating_ok(strict)) matches Some(v)
                &&& f == rating_fault_of(v)
            },
        },
{
    let ghost base = m.view();
    let n = a.len();
    let mut i: usize = 0;
    assert(a@.take(0) =~= Seq::<JsonValue>::empty());
    while i < n
        invariant
            n == a@.len(),
            i <= n,
            base == old(m).view(),
            with_named(base, a@.take(i as int), rating_reader(strict)) == Some(m.view()),
            first_failing(a@.take(i as int), rating_ok(strict)) is None,
        decreases n - i,
    {
        assert(a@.take(i + 1).drop_last() =~= a@.take(i as int));
        assert(a@.take(i + 1).last() == a@[i as int]);
        let name = match field_str(&a[i], "name") {
            Some(s) => s,
            None => {
                proof {
                    lemma_with_named_prefix(base, a@, rating_reader(strict), i + 1);
                    lemma_first_failing_prefix(a@, rating_ok(strict), i + 1);
                }
                return Err(RatingFault::Name);
            },
        };
        let rating: u8 = match field_u64(&a[i], "rating") {
            Some(x) => if strict {
                if x <= 255 {
                    x as u8
                } else {
                    proof {
                        lemma_with_named_prefix(base, a@, rating_reader(strict), i + 1);
                        lemma_first_failing_prefix(a@, rating_ok(strict), i + 1);
                    }
                    return Err(RatingFault::Rating);
                }
            } else {
                x as u8
            },
            None => {
                proof {
                    lemma_with_named_prefix(base, a@, rating_reader(strict), i + 1);
                    lemma_first_failing_prefix(a@, rating_ok(strict), i + 1);
                }
                return Err(RatingFault::Rating);
            },
        };
        m.insert(name.clone(), rating);
        i = i + 1;
    }
    assert(a@.take(n as int) =~= a@);
    Ok(())
}

/// The skills of group `category` in a creation request.
pub open spec fn rating_group(skills: JsonValue, category: Seq<char>) -> Option<Map<Seq<char>, u8>> {
    rating_group_onto(Map::empty(), skills, category, true)
}

/// Why the group `category` of a creation request's skills cannot be read: the
/// first entry without a name, or without a rating that fits in a byte.
pub open spec fn rating_fault_text(skills: JsonValue, category: Seq<char>) -> Seq<char> {
    match json_get(skills, category) {
        Some(JsonValue::Array(a)) => match first_failing(a@, rating_ok(true)) {
            Some(v) => if rating_fault_of(v) is Name {
                "Missing or invalid name"@
            } else {
                "Missing or invalid rating"@
            },
            None => Seq::empty(),
        },
        _ => Seq::empty(),
    }
}

fn rating_group_of(skills: &JsonValue, category: &str) -> (r: Result<Skill, Error>)
    ensures
        match r {
            Ok(m) => rating_group(*skills, category@) == Some(m.view()),
            Err(e) => rating_group(*skills, category@) is None && parse_error_text(e) == Some(
                rating_fault_text(*skills, category@),
            ),
        },
{
    let mut m: Skill = StrMap::new();
    match skills.get(category) {
        Some(JsonValue::Array(a)) => match read_ratings(&mut m, a, true) {
            Ok(()) => Ok(m),
            Err(RatingFault::Name) => Err(parse_error(owned("Missing or invalid name"))),
            Err(RatingFault::Rating) => Err(parse_error(owned("Missing or invalid rating"))),
        },
        _ => Ok(m),
    }
}

/// A quality of a creation request: a name and whether it is positive.
pub open spec fn quality_entry(v: JsonValue) -> Option<Quality> {
    match (arg_string(v, "name"@), json_bool(json_get(v, "positive"@))) {
        (Some(n), Some(p)) => Some(Quality { name: n, positive: p }),
        _ => None,
    }
}

/// Reads a quality of a creation request.
pub open spec fn quality_entry_reader() -> spec_fn(JsonValue) -> Option<Quality> {
    |v: JsonValue| quality_entry(v)
}

/// The qualities of a creation request: an array of qualities, each readable.
pub open spec fn requested_qualities(args: JsonValue) -> Option<Seq<Quality>> {
    match json_get(args, "qualities"@) {
        Some(JsonValue::Array(q)) => decode_all(q@, quality_entry_reader()),
        _ => None,
    }
}

/// A quality of a creation request can be read.
pub open spec fn quality_ok() -> spec_fn(JsonValue) -> bool {
    |v: JsonValue| quality_entry(v) is Some
}

/// Why the qualities of a creation request cannot be read: they are missing or
/// not an array, or the first unreadable quality lacks its name or its sign.
pub open spec fn qualities_fault_text(args: JsonValue) -> Seq<char> {
    match json_get(args, "qualities"@) {
        Some(JsonValue::Array(q)) => match first_failing(q@, quality_ok()) {
            Some(v) => if arg_string(v, "name"@) is None {
                "Missing or invalid name"@
            } else {
                "Missing or invalid 'positive' in quality"@
            },
            None => Seq::empty(),
        },
        _ => "Missing qualities"@,
    }
}

fn read_qualities(args: &JsonValue) -> (r: Result<Vec<Quality>, Error>)
    ensures
        match r {
            Ok(q) => requested_qualities(*args) == Some(q@),
            Err(e) => requested_qualities(*args) is None && parse_error_text(e) == Some(
                qualities_fault_text(*args),
            ),
        },
{
    let a = match args.get("qualities") {
        Some(JsonValue::Array(a)) => a,
        _ => return Err(parse_error(owned("Missing qualities"))),
    };
    let n = a.len();
    let mut out: Vec<Quality> = Vec::new();
    let mut i: usize = 0;
    assert(a@.take(0) =~= Seq::<JsonValue>::empty());
    while i < n
        invariant
            json_get(*args, "qualities"@) == Some(JsonValue::Array(*a)),
            n == a@.len(),
            i <= n,
            decode_all(a@.take(i as int), quality_entry_reader()) == Some(out@),
            first_failing(a@.take(i as int), quality_ok()) is None,
        decreases n - i,
    {
        assert(a@.take(i + 1).drop_last() =~= a@.take(i as int));
        assert(a@.take(i + 1).last() == a@[i as int]);
        let name = match field_str(&a[i], "name") {
            Some(s) => s.clone(),
            None => {
                proof {
                    lemma_decode_all_prefix(a@, quality_entry_reader(), i + 1);
                    lemma_first_failing_prefix(a@, quality_ok(), i + 1);
                }
                return Err(parse_error(owned("Missing or invalid name")));
            },
        };
        let positive = match field_bool(&a[i], "positive") {
            Some(p) => p,
            None => {
                proof {
                    lemma_decode_all_prefix(a@, quality_entry_reader(), i + 1);
                    lemma_first_failing_prefix(a@, quality_ok(), i + 1);
                }
                return Err(parse_error(owned("Missing or invalid 'positive' in quality")));
            },
        };
        out.push(Quality { name, positive });
        i = i + 1;
    }
    assert(a@.take(n as int) =~= a@);
    Ok(out)
}

/// The named entries of `s` that `f` can read, inserted in order (a later entry of
/// the same name wins); the others are skipped.
pub open spec fn kept_named<T>(s: Seq<JsonValue>, f: spec_fn(JsonValue) -> Option<(String, T)>) -> Map<
    Seq<char>,
    T,
>
    decreases s.len(),
{
    if s.len() == 0 {
        Map::empty()
    } else {
        let m = kept_named(s.drop_last(), f);
        match f(s.last()) {
            Some(e) => m.insert(e.0@, e.1),
            None => m,
        }
    }
}

/// An item of a creation request: name, quantity cut to 32 bits, description.
pub open spec fn item_entry(v: JsonValue) -> Option<(String, Item)> {
    match (arg_string(v, "name"@), json_u64(json_get(v, "quantity"@)), arg_string(v, "description"@)) {
        (Some(n), Some(q), Some(d)) => Some((n, Item { name: n, quantity: q as u32, description: d })),
        _ => None,
    }
}

/// Reads an item of a creation request.
pub open spec fn item_entry_reader() -> spec_fn(JsonValue) -> Option<(String, Item)> {
    |v: JsonValue| item_entry(v)
}

/// A contact of a creation request: name, description, and loyalty and
/// connection cut to a byte.
pub open spec fn contact_entry(v: JsonValue) -> Option<(String, Contact)> {
    match (
        arg_string(v, "name"@),
        arg_string(v, "description"@),
        arg_low_byte(v, "loyalty"@),
        arg_low_byte(v, "connection"@),
    ) {
        (Some(n), Some(d), Some(l), Some(c)) => Some(
            (n, Contact { name: n, description: d, loyalty: l, connection: c }),
        ),
        _ => None,
    }
}

/// Reads a contact of a creation request.
pub open spec fn contact_entry_reader() -> spec_fn(JsonValue) -> Option<(String, Contact)> {
    |v: JsonValue| contact_entry(v)
}

/// The items of a creation request: the readable entries of the array
/// `inventory.items`; none when it is missing.
pub open spec fn requested_inventory(args: JsonValue) -> Map<Seq<char>, Item> {
    match json_get(args, "inventory"@) {
        Some(inv) => match json_get(inv, "items"@) {
            Some(JsonValue::Array(a)) => kept_named(a@, item_entry_reader()),
            _ => Map::empty(),
        },
        None => Map::empty(),
    }
}

/// The contacts of a creation request: the readable entries of the array
/// `contacts`; none when it is missing.
pub open spec fn requested_contacts(args: JsonValue) -> Map<Seq<char>, Contact> {
    match json_get(args, "contacts"@) {
        Some(JsonValue::Array(a)) => kept_named(a@, contact_entry_reader()),
        _ => Map::empty(),
    }
}

fn read_items(args: &JsonValue) -> (m: StrMap<Item>)
    ensures
        m.view() == requested_inventory(*args),
{
    let mut m: StrMap<Item> = StrMap::new();
    let a = match args.get("inventory") {
        Some(inv) => match inv.get("items") {
            Some(JsonValue::Array(a)) => a,
            _ => return m,
        },
        None => return m,
    };
    let ghost inv = json_get(*args, "inventory"@)->0;
    let n = a.len();
    let mut i: usize = 0;
    assert(a@.take(0) =~= Seq::<JsonValue>::empty());
    while i < n
        invariant
            json_get(*args, "inventory"@) == Some(inv),
            json_get(inv, "items"@) == Some(JsonValue::Array(*a)),
            n == a@.len(),
            i <= n,
            kept_named(a@.take(i as int), item_entry_reader()) == m.view(),
        decreases n - i,
    {
        assert(a@.take(i + 1).drop_last() =~= a@.take(i as int));
        assert(a@.take(i + 1).last() == a@[i as int]);
        let x = &a[i];
        match (field_str(x, "name"), field_u64(x, "quantity"), field_str(x, "description")) {
            (Some(name), Some(q), Some(d)) => {
                let item = Item { name: name.clone(), quantity: q as u32, description: d.clone() };
                m.insert(name.clone(), item);
            },
            _ => {},
        }
        i = i + 1;
    }
    assert(a@.take(n as int) =~= a@);
    m
}

fn read_contacts(args: &JsonValue) -> (m: StrMap<Contact>)
    ensures
        m.view() == requested_contacts(*args),
{
    let mut m: StrMap<Contact> = StrMap::new();
    let a = match args.get("contacts") {
        Some(JsonValue::Array(a)) => a,
        _ => return m,
    };
    let n = a.len();
    let mut i: usize = 0;
    assert(a@.take(0) =~= Seq::<JsonValue>::empty());
    while i < n
        invariant
            json_get(*args, "contacts"@) == Some(JsonValue::Array(*a)),
            n == a@.len(),
            i <= n,
            kept_named(a@.take(i as int), contact_entry_reader()) == m.view(),
        decreases n - i,
    {
        assert(a@.take(i + 1).drop_last() =~= a@.take(i as int));
        assert(a@.take(i + 1).last() == a@[i as int]);
        let x = &a[i];
        match (
            field_str(x, "name"),
            field_str(x, "description"),
            field_u64(x, "loyalty"),
            field_u64(x, "connection"),
        ) {
            (Some(name), Some(d), Some(l), Some(c)) => {
                let contact = Contact {
                    name: name.clone(),
                    description: d.clone(),
                    loyalty: l as u8,
                    connection: c as u8,
                };
                m.insert(name.clone(), contact);
            },
            _ => {},
        }
        i = i + 1;
    }
    assert(a@.take(n as int) =~= a@);
    m
}

/// The attributes of a creation request, each a byte.
pub open spec fn requested_attributes(attrs: JsonValue) -> Option<Attributes> {
    let body = arg_byte(attrs, "body"@);
    let agility = arg_byte(attrs, "agility"@);
    let reaction = arg_byte(attrs, "reaction"@);
    let strength = arg_byte(attrs, "strength"@);
    let willpower = arg_byte(attrs, "willpower"@);
    let logic = arg_byte(attrs, "logic"@);
    let intuition = arg_byte(attrs, "intuition"@);
    let charisma = arg_byte(attrs, "charisma"@);
    let edge = arg_byte(attrs, "edge"@);
    if body is Some && agility is Some && reaction is Some && strength is Some && willpower is Some
        && logic is Some && intuition is Some && charisma is Some && edge is Some {
        Some(
            Attributes {
                body: body->0,
                agility: agility->0,
                strength: strength->0,
                reaction: reaction->0,
                willpower: willpower->0,
                intuition: intuition->0,
                charisma: charisma->0,
                logic: logic->0,
                edge: edge->0,
            },
        )
    } else {
        None
    }
}

/// A creation request can be read: a name, a metatype among the five, a gender, a
/// backstory, the nine attributes as bytes, a skills object whose lists can be
/// read, and an array of readable qualities.
pub open spec fn creation_valid(args: JsonValue) -> bool {
    &&& arg_string(args, "name"@) is Some
    &&& arg_string(args, "race"@) is Some
    &&& race_named(arg_string(args, "race"@)->0@) is Some
    &&& arg_string(args, "gender"@) is Some
    &&& arg_string(args, "backstory"@) is Some
    &&& json_get(args, "attributes"@) is Some
    &&& requested_attributes(json_get(args, "attributes"@)->0) is Some
    &&& json_get(args, "skills"@) is Some
    &&& rating_group(json_get(args, "skills"@)->0, "combat"@) is Some
    &&& rating_group(json_get(args, "skills"@)->0, "physical"@) is Some
    &&& rating_group(json_get(args, "skills"@)->0, "social"@) is Some
    &&& rating_group(json_get(args, "skills"@)->0, "technical"@) is Some
    &&& rating_group(json_get(args, "skills"@)->0, "knowledge"@) is Some
    &&& requested_qualities(args) is Some
}

/// The metatype of a readable creation request.
pub open spec fn requested_race(args: JsonValue) -> Race {
    race_named(arg_string(args, "race"@)->0@)->0
}

/// The sheet of a readable creation request can be built within a byte
/// everywhere: initiative, the metatype's bonuses and the derived values.
pub open spec fn creation_fits(args: JsonValue) -> bool {
    let a = requested_attributes(json_get(args, "attributes"@)->0)->0;
    let race = requested_race(args);
    &&& a.reaction + a.intuition <= 255
    &&& race_modifiable(a, race)
    &&& derivable(race_modified(a, race), starting_essence())
}

/// A byte, 0 when absent.
pub open spec fn byte_or_zero(b: Option<u8>) -> u8 {
    match b {
        Some(x) => x,
        None => 0,
    }
}

/// The nuyen of a creation request: a non-negative integer cut to 32 bits, 0 when
/// absent.
pub open spec fn requested_nuyen(args: JsonValue) -> u32 {
    match json_u64(json_get(args, "nuyen"@)) {
        Some(n) => n as u32,
        None => 0,
    }
}

/// The sheet `s` is the character a readable creation request describes: its
/// identity, the attributes after the metatype's adjustments, Magic and Resonance
/// (0 when absent or out of range), the skill groups, qualities, nuyen, items and
/// contacts read from the request, and the fresh values of a new sheet.
pub open spec fn created_from(args: JsonValue, s: CharacterSheet) -> bool {
    let attrs = json_get(args, "attributes"@)->0;
    let skills = json_get(args, "skills"@)->0;
    let race = requested_race(args);
    &&& s.name@ == arg_string(args, "name"@)->0@
    &&& s.race == race
    &&& s.gender@ == arg_string(args, "gender"@)->0@
    &&& s.backstory@ == arg_string(args, "backstory"@)->0@
    &&& s.main == (json_bool(json_get(args, "main"@)) == Some(true))
    &&& s.attributes == race_modified(requested_attributes(attrs)->0, race)
    &&& s.magic == (Magic { magic: Some(byte_or_zero(arg_byte(attrs, "magic"@))) })
    &&& s.resonance == (Resonance { resonance: Some(byte_or_zero(arg_byte(attrs, "resonance"@))) })
    &&& s.derived_attributes.essence == starting_essence()
    &&& s.derived_attributes.edge_points == s.attributes.edge
    &&& s.derived_attributes.armor == 0
    &&& derived_consistent(s.attributes, s.derived_attributes)
    &&& s.skills.combat.view() == rating_group(skills, "combat"@)->0
    &&& s.skills.physical.view() == rating_group(skills, "physical"@)->0
    &&& s.skills.social.view() == rating_group(skills, "social"@)->0
    &&& s.skills.technical.view() == rating_group(skills, "technical"@)->0
    &&& s.knowledge_skills.view() == rating_group(skills, "knowledge"@)->0
    &&& s.qualities@ == requested_qualities(args)->0
    &&& s.nuyen == requested_nuyen(args)
    &&& s.lifestyle@ == "Street"@
    &&& s.cyberware@.len() == 0
    &&& s.bioware@.len() == 0
    &&& s.inventory.view() == requested_inventory(args)
    &&& s.contacts.view() == requested_contacts(args)
    &&& s.matrix_attributes is None
}

/// Why a creation request cannot be read: the first of its checks to fail, in the
/// order of the request's fields (identity, metatype, attributes, skill groups,
/// qualities); nothing when it can be read.
pub open spec fn creation_error(args: JsonValue) -> Option<Seq<char>> {
    let attrs = json_get(args, "attributes"@)->0;
    let skills = json_get(args, "skills"@)->0;
    if arg_string(args, "name"@) is None {
        Some("Missing or invalid "@ + "name"@)
    } else if arg_string(args, "race"@) is None {
        Some("Missing or invalid "@ + "race"@)
    } else if arg_string(args, "gender"@) is None {
        Some("Missing or invalid "@ + "gender"@)
    } else if arg_string(args, "backstory"@) is None {
        Some("Missing or invalid "@ + "backstory"@)
    } else if race_named(arg_string(args, "race"@)->0@) is None {
        Some("Invalid race"@)
    } else if json_get(args, "attributes"@) is None {
        Some("Missing attributes"@)
    } else if arg_byte(attrs, "body"@) is None {
        Some(byte_fault_text(attrs, "body"@))
    } else if arg_byte(attrs, "agility"@) is None {
        Some(byte_fault_text(attrs, "agility"@))
    } else if arg_byte(attrs, "reaction"@) is None {
        Some(byte_fault_text(attrs, "reaction"@))
    } else if arg_byte(attrs, "strength"@) is None {
        Some(byte_fault_text(attrs, "strength"@))
    } else if arg_byte(attrs, "willpower"@) is None {
        Some(byte_fault_text(attrs, "willpower"@))
    } else if arg_byte(attrs, "logic"@) is None {
        Some(byte_fault_text(attrs, "logic"@))
    } else if arg_byte(attrs, "intuition"@) is None {
        Some(byte_fault_text(attrs, "intuition"@))
    } else if arg_byte(attrs, "charisma"@) is None {
        Some(byte_fault_text(attrs, "charisma"@))
    } else if arg_byte(attrs, "edge"@) is None {
        Some(byte_fault_text(attrs, "edge"@))
    } else if json_get(args, "skills"@) is None {
        Some("Missing skills"@)
    } else if rating_group(skills, "combat"@) is None {
        Some(rating_fault_text(skills, "combat"@))
    } else if rating_group(skills, "physical"@) is None {
        Some(rating_fault_text(skills, "physical"@))
    } else if rating_group(skills, "social"@) is None {
        Some(rating_fault_text(skills, "social"@))
    } else if rating_group(skills, "technical"@) is None {
        Some(rating_fault_text(skills, "technical"@))
    } else if rating_group(skills, "knowledge"@) is None {
        Some(rating_fault_text(skills, "knowledge"@))
    } else if requested_qualities(args) is None {
        Some(qualities_fault_text(args))
    } else {
        None
    }
}

/// Creates a character from the arguments of a creation call: the identity, the
/// metatype, the attributes, the skill lists, the qualities (all required), and the
/// nuyen, items and contacts (optional; unreadable items and contacts are
/// skipped). An unreadable request is a parse error that names its first faulty
/// field; a request whose sheet would not fit in a byte is an overflow error.
pub fn create_character(args: &JsonValue) -> (r: Result<CharacterSheet, Error>)
    ensures
        !creation_valid(*args) ==> r is Err && parse_error_text(r->Err_0) == creation_error(*args),
        creation_valid(*args) && !creation_fits(*args) ==> r is Err && r->Err_0 is Overflow,
        creation_valid(*args) && creation_fits(*args) ==> r is Ok && created_from(*args, r->Ok_0),
{
    let name = extract_str(args, "name")?;
    let race_str = extract_str(args, "race")?;
    let gender = extract_str(args, "gender")?;
    let backstory = extract_str(args, "backstory")?;
    let main = match field_bool(args, "main") {
        Some(b) => b,
        None => false,
    };
    let race = match Race::from_name(race_str.as_str()) {
        Some(r) => r,
        None => return Err(parse_error(owned("Invalid race"))),
    };
    let attributes = match args.get("attributes") {
        Some(a) => a,
        None => return Err(parse_error(owned("Missing attributes"))),
    };
    let body = extract_u8(attributes, "body")?;
    let agility = extract_u8(attributes, "agility")?;
    let reaction = extract_u8(attributes, "reaction")?;
    let strength = extract_u8(attributes, "strength")?;
    let willpower = extract_u8(attributes, "willpower")?;
    let logic = extract_u8(attributes, "logic")?;
    let intuition = extract_u8(attributes, "intuition")?;
    let charisma = extract_u8(attributes, "charisma")?;
    let edge = extract_u8(attributes, "edge")?;
    let magic = extract_u8_opt(attributes, "magic");
    let resonance = extract_u8_opt(attributes, "resonance");
    let skills_obj = match args.get("skills") {
        Some(s) => s,
        None => return Err(parse_error(owned("Missing skills"))),
    };
    let combat = rating_group_of(skills_obj, "combat")?;
    let physical = rating_group_of(skills_obj, "physical")?;
    let social = rating_group_of(skills_obj, "social")?;
    let technical = rating_group_of(skills_obj, "technical")?;
    let knowledge_skills = rating_group_of(skills_obj, "knowledge")?;
    let qualities = read_qualities(args)?;
    let nuyen: u32 = match field_u64(args, "nuyen") {
        Some(n) => n as u32,
        None => 0,
    };
    let inventory = read_items(args);
    let contacts = read_contacts(args);
    let builder = CharacterSheetBuilder::new(name, race, gender, backstory, main).body(body).agility(
        agility,
    ).reaction(reaction).strength(strength).willpower(willpower).logic(logic).intuition(
        intuition,
    ).charisma(charisma).edge(edge).magic(
        match magic {
            Some(m) => m,
            None => 0,
        },
    ).resonance(
        match resonance {
            Some(x) => x,
            None => 0,
        },
    ).skills(Skills { combat, physical, social, technical }).knowledge_skills(
        knowledge_skills,
    ).qualities(qualities).nuyen(nuyen).inventory(inventory).contacts(contacts);
    if !check_buildable(&builder) {
        return Err(Error::Overflow(owned("character attributes")));
    }
    Ok(builder.build())
}

/// Every name that `kept_named` keeps comes from an entry of `s` that `f` reads
/// with that name and the value kept.
proof fn lemma_kept_named_source<T>(
    s: Seq<JsonValue>,
    f: spec_fn(JsonValue) -> Option<(String, T)>,
    k: Seq<char>,
)
    requires
        kept_named(s, f).contains_key(k),
    ensures
        exists|j: int|
            0 <= j < s.len() && (#[trigger] f(s[j])) is Some && (f(s[j])->0).0@ == k
                && (f(s[j])->0).1 == kept_named(s, f)[k],
    decreases s.len(),
{
    let m = kept_named(s.drop_last(), f);
    let j = s.len() - 1;
    if f(s.last()) is Some && (f(s.last())->0).0@ == k {
        assert(f(s[j]) == f(s.last()));
    } else {
        assert(m.contains_key(k) && m[k] == kept_named(s, f)[k]);
        lemma_kept_named_source(s.drop_last(), f, k);
        let i = choose|i: int|
            0 <= i < s.drop_last().len() && (#[trigger] f(s.drop_last()[i])) is Some && (f(s.drop_last()[i])->0).0@ == k
                && (f(s.drop_last()[i])->0).1 == m[k];
        assert(s.drop_last()[i] == s[i]);
    }
}

/// Every entry of `s` that `f` reads has its name kept.
proof fn lemma_kept_named_has<T>(s: Seq<JsonValue>, f: spec_fn(JsonValue) -> Option<(String, T)>, j: int)
    requires
        0 <= j < s.len(),
        f(s[j]) is Some,
    ensures
        kept_named(s, f).contains_key((f(s[j])->0).0@),
    decreases s.len(),
{
    if j < s.len() - 1 {
        lemma_kept_named_has(s.drop_last(), f, j);
        assert(s.drop_last()[j] == s[j]);
    }
}

/// The contacts of a character created from a request are the entries of the
/// request's `contacts` array that carry a name, a description, and a loyalty and a
/// connection as non-negative integers: each contact is such an entry, with that
/// name and description and the low byte of that loyalty and that connection; and
/// every such entry's name is a contact.
pub proof fn law_created_contacts_come_from_the_request(args: JsonValue, s: CharacterSheet)
    requires
        created_from(args, s),
    ensures
        forall|k: Seq<char>|
            #[trigger] s.contacts.view().contains_key(k) ==> (json_get(args, "contacts"@) matches Some(
                JsonValue::Array(a),
            ) && exists|j: int|
                0 <= j < a@.len() && {
                    let e = #[trigger] a@[j];
                    let c = s.contacts.view()[k];
                    &&& json_str(json_get(e, "name"@)) == Some(c.name)
                    &&& c.name@ == k
                    &&& json_str(json_get(e, "description"@)) == Some(c.description)
                    &&& json_u64(json_get(e, "loyalty"@)) is Some
                    &&& c.loyalty == (json_u64(json_get(e, "loyalty"@))->0) as u8
                    &&& json_u64(json_get(e, "connection"@)) is Some
                    &&& c.connection == (json_u64(json_get(e, "connection"@))->0) as u8
                }),
        json_get(args, "contacts"@) matches Some(JsonValue::Array(a)) ==> forall|j: int|
            0 <= j < a@.len() && json_str(json_get(#[trigger] a@[j], "name"@)) is Some && json_str(
                json_get(a@[j], "description"@),
            ) is Some && json_u64(json_get(a@[j], "loyalty"@)) is Some && json_u64(
                json_get(a@[j], "connection"@),
            ) is Some ==> s.contacts.view().contains_key(
                json_str(json_get(a@[j], "name"@))->0@,
            ),
{
    let f = contact_entry_reader();
    assert forall|k: Seq<char>| #[trigger] s.contacts.view().contains_key(k) implies (json_get(
        args,
        "contacts"@,
    ) matches Some(JsonValue::Array(a)) && exists|j: int|
        0 <= j < a@.len() && {
            let e = #[trigger] a@[j];
            let c = s.contacts.view()[k];
            &&& json_str(json_get(e, "name"@)) == Some(c.name)
            &&& c.name@ == k
            &&& json_str(json_get(e, "description"@)) == Some(c.description)
            &&& json_u64(json_get(e, "loyalty"@)) is Some
            &&& c.loyalty == (json_u64(json_get(e, "loyalty"@))->0) as u8
            &&& json_u64(json_get(e, "connection"@)) is Some
            &&& c.connection == (json_u64(json_get(e, "connection"@))->0) as u8
        }) by {
        match json_get(args, "contacts"@) {
            Some(JsonValue::Array(a)) => {
                lemma_kept_named_source(a@, f, k);
                let j = choose|j: int|
                    0 <= j < a@.len() && (#[trigger] f(a@[j])) is Some && (f(a@[j])->0).0@ == k
                        && (f(a@[j])->0).1 == kept_named(a@, f)[k];
                assert(f(a@[j]) == contact_entry(a@[j]));
            },
            _ => {},
        }
    }
    match json_get(args, "contacts"@) {
        Some(JsonValue::Array(a)) => {
            assert forall|j: int|
                0 <= j < a@.len() && json_str(json_get(#[trigger] a@[j], "name"@)) is Some
                    && json_str(json_get(a@[j], "description"@)) is Some && json_u64(
                    json_get(a@[j], "loyalty"@),
                ) is Some && json_u64(json_get(a@[j], "connection"@)) is Some implies s.contacts.view().contains_key(
                json_str(json_get(a@[j], "name"@))->0@,
            ) by {
                assert(f(a@[j]) == contact_entry(a@[j]));
                lemma_kept_named_has(a@, f, j);
            }
        },
        _ => {},
    }
}

/// The items of a character created from a request are the entries of the
/// request's `inventory.items` array that carry a name, a non-negative integer
/// quantity and a description: each item is such an entry, with that name and
/// description and the quantity cut to 32 bits; and every such entry's name is
/// carried.
pub proof fn law_created_items_come_from_the_request(args: JsonValue, s: CharacterSheet)
    requires
        created_from(args, s),
    ensures
        forall|k: Seq<char>|
            #[trigger] s.inventory.view().contains_key(k) ==> (json_get(args, "inventory"@) matches Some(inv)
                && json_get(inv, "items"@) matches Some(JsonValue::Array(a)) && exists|j: int|
                0 <= j < a@.len() && {
                    let e = #[trigger] a@[j];
                    let it = s.inventory.view()[k];
                    &&& json_str(json_get(e, "name"@)) == Some(it.name)
                    &&& it.name@ == k
                    &&& json_str(json_get(e, "description"@)) == Some(it.description)
                    &&& json_u64(json_get(e, "quantity"@)) is Some
                    &&& it.quantity == (json_u64(json_get(e, "quantity"@))->0) as u32
                }),
        json_get(args, "inventory"@) matches Some(inv) ==> (json_get(inv, "items"@) matches Some(
            JsonValue::Array(a),
        ) ==> forall|j: int|
            0 <= j < a@.len() && json_str(json_get(#[trigger] a@[j], "name"@)) is Some && json_u64(
                json_get(a@[j], "quantity"@),
            ) is Some && json_str(json_get(a@[j], "description"@)) is Some
                ==> s.inventory.view().contains_key(json_str(json_get(a@[j], "name"@))->0@)),
{
    let f = item_entry_reader();
    assert forall|k: Seq<char>| #[trigger] s.inventory.view().contains_key(k) implies (json_get(
        args,
        "inventory"@,
    ) matches Some(inv) && json_get(inv, "items"@) matches Some(JsonValue::Array(a)) && exists|
        j: int,
    |
        0 <= j < a@.len() && {
            let e = #[trigger] a@[j];
            let it = s.inventory.view()[k];
            &&& json_str(json_get(e, "name"@)) == Some(it.name)
            &&& it.name@ == k
            &&& json_str(json_get(e, "description"@)) == Some(it.description)
            &&& json_u64(json_get(e, "quantity"@)) is Some
            &&& it.quantity == (json_u64(json_get(e, "quantity"@))->0) as u32
        }) by {
        match json_get(args, "inventory"@) {
            Some(inv) => match json_get(inv, "items"@) {
                Some(JsonValue::Array(a)) => {
                    lemma_kept_named_source(a@, f, k);
                    let j = choose|j: int|
                        0 <= j < a@.len() && (#[trigger] f(a@[j])) is Some && (f(a@[j])->0).0@ == k
                            && (f(a@[j])->0).1 == kept_named(a@, f)[k];
                    assert(f(a@[j]) == item_entry(a@[j]));
                },
                _ => {},
            },
            _ => {},
        }
    }
    match json_get(args, "inventory"@) {
        Some(inv) => match json_get(inv, "items"@) {
            Some(JsonValue::Array(a)) => {
                assert forall|j: int|
                    0 <= j < a@.len() && json_str(json_get(#[trigger] a@[j], "name"@)) is Some
                        && json_u64(json_get(a@[j], "quantity"@)) is Some && json_str(
                        json_get(a@[j], "description"@),
                    ) is Some implies s.inventory.view().contains_key(
                    json_str(json_get(a@[j], "name"@))->0@,
                ) by {
                    assert(f(a@[j]) == item_entry(a@[j]));
                    lemma_kept_named_has(a@, f, j);
                }
            },
            _ => {},
        },
        _ => {},
    }
}

} // verus!
