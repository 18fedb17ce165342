//! The game master's calls that set attributes and skills: reading a value for a
//! named attribute, setting several basic attributes at once, and merging skill
//! ratings.
use vstd::prelude::*;

use crate::character::{
    copy_ratings, race_named, CharacterSheet, CharacterSheetUpdate, CharacterValue, Skills,
    UpdateOperation,
};
use crate::error::{Error, ShadowrunError};
use crate::game_master::{
    arg_string, first_failing, rating_fault_of, rating_group_onto, rating_ok, rating_reader,
    read_ratings, with_named, RatingFault,
};
use crate::game_state::{has_named, is_first_named, GameState};
use crate::json::{field_str, json_get, json_str, json_u64, JsonNumber, JsonValue};
use crate::json_decode::{
    contact_reader, decode_contact_map, decode_item_map, decode_opt_matrix, decode_quality_list,
    decode_rating_map, decode_skills, decode_string_list, item_reader, quality_reader,
    skills_read, skills_readable, spec_list, spec_map, spec_opt_matrix, string_reader, u8_reader,
};
use crate::sheet_update::{refusal, update_accepted, update_ok, updated_sheet};
use crate::strmap::str_eq;
use crate::text::{concat, concat3, owned};
use crate::tool_calls::{
    character_index, game_error, is_game_error, is_not_found, lemma_first_named_unique,
    member_or_null, refresh_main, same_session, session_after,
};
use crate::update_check::update_fits;
use crate::character::Race;

verus! {

broadcast use vstd::string::group_string_axioms;

/// `e` reports JSON that does not hold the expected value.
pub open spec fn is_serialization_error(e: Error) -> bool {
    e matches Error::Shadowrun(ShadowrunError::Serialization(_))
}

/// The attributes set with a byte.
pub open spec fn byte_attribute(a: Seq<char>) -> bool {
    ||| a == "body"@
    ||| a == "agility"@
    ||| a == "reaction"@
    ||| a == "strength"@
    ||| a == "willpower"@
    ||| a == "logic"@
    ||| a == "intuition"@
    ||| a == "charisma"@
    ||| a == "edge"@
}

/// What reading the JSON value `v` for the attribute `attr` gives: a string for the
/// identity and lifestyle, a metatype by name, a byte (the low byte of a
/// non-negative integer) for a basic attribute, an optional byte for Magic and
/// Resonance, a 32-bit amount for nuyen, and the collections read as their JSON
/// form; an error for a value of the wrong kind or an attribute of another name.
pub open spec fn parse_outcome(attr: Seq<char>, v: JsonValue, r: Result<CharacterValue, Error>) -> bool {
    if attr == "name"@ || attr == "gender"@ || attr == "backstory"@ || attr == "lifestyle"@ {
        match json_str(Some(v)) {
            Some(s) => r == Ok::<CharacterValue, Error>(CharacterValue::String(s)),
            None => r is Err && is_game_error(r->Err_0, "Invalid string value"@),
        }
    } else if attr == "race"@ {
        match json_str(Some(v)) {
            Some(s) => match race_named(s@) {
                Some(race) => r == Ok::<CharacterValue, Error>(CharacterValue::Race(race)),
                None => r is Err && is_game_error(r->Err_0, "Invalid race"@),
            },
            None => r is Err && is_game_error(r->Err_0, "Invalid race value"@),
        }
    } else if byte_attribute(attr) {
        match json_u64(Some(v)) {
            Some(n) => r == Ok::<CharacterValue, Error>(CharacterValue::U8(n as u8)),
            None => r is Err && is_game_error(r->Err_0, "Invalid u8 value"@),
        }
    } else if attr == "magic"@ || attr == "resonance"@ {
        r == Ok::<CharacterValue, Error>(
            CharacterValue::OptionU8(
                match json_u64(Some(v)) {
                    Some(n) => Some(n as u8),
                    None => None,
                },
            ),
        )
    } else if attr == "nuyen"@ {
        match json_u64(Some(v)) {
            Some(n) => r == Ok::<CharacterValue, Error>(CharacterValue::Nuyen(n as u32)),
            None => r is Err && is_game_error(r->Err_0, "Invalid u32 value for nuyen"@),
        }
    } else if attr == "skills"@ {
        match r {
            Ok(CharacterValue::Skills(s)) => skills_read(v, s),
            Ok(_) => false,
            Err(e) => !skills_readable(v) && is_serialization_error(e),
        }
    } else if attr == "knowledge_skills"@ {
        match r {
            Ok(CharacterValue::HashMapStringU8(m)) => spec_map(v, u8_reader()) == Some(m.view()),
            Ok(_) => false,
            Err(e) => spec_map(v, u8_reader()) is None && is_serialization_error(e),
        }
    } else if attr == "contacts"@ {
        match r {
            Ok(CharacterValue::HashMapStringContact(m)) => spec_map(v, contact_reader()) == Some(
                m.view(),
            ),
            Ok(_) => false,
            Err(e) => spec_map(v, contact_reader()) is None && is_serialization_error(e),
        }
    } else if attr == "qualities"@ {
        match r {
            Ok(CharacterValue::VecQuality(q)) => spec_list(v, quality_reader()) == Some(q@),
            Ok(_) => false,
            Err(e) => spec_list(v, quality_reader()) is None && is_serialization_error(e),
        }
    } else if attr == "cyberware"@ || attr == "bioware"@ {
        match r {
            Ok(CharacterValue::VecString(q)) => spec_list(v, string_reader()) == Some(q@),
            Ok(_) => false,
            Err(e) => spec_list(v, string_reader()) is None && is_serialization_error(e),
        }
    } else if attr == "inventory"@ {
        match r {
            Ok(CharacterValue::HashMapStringItem(m)) => spec_map(v, item_reader()) == Some(m.view()),
            Ok(_) => false,
            Err(e) => spec_map(v, item_reader()) is None && is_serialization_error(e),
        }
    } else if attr == "matrix_attributes"@ {
        match r {
            Ok(CharacterValue::OptionMatrixAttributes(m)) => spec_opt_matrix(v) == Some(m),
            Ok(_) => false,
            Err(e) => spec_opt_matrix(v) is None && is_serialization_error(e),
        }
    } else {
        r is Err && is_game_error(r->Err_0, "Unsupported attribute: "@ + attr)
    }
}

fn serialization(e: String) -> (r: Error)
    ensures
        is_serialization_error(r),
{
    Error::Shadowrun(ShadowrunError::Serialization(e))
}

fn is_byte_attribute(a: &str) -> (b: bool)
    ensures
        b == byte_attribute(a@),
{
    str_eq(a, "body") || str_eq(a, "agility") || str_eq(a, "reaction") || str_eq(a, "strength")
        || str_eq(a, "willpower") || str_eq(a, "logic") || str_eq(a, "intuition") || str_eq(
        a,
        "charisma",
    ) || str_eq(a, "edge")
}

/// Reads the JSON value `value` as a value for the attribute `attribute`.
pub fn parse_value(attribute: &str, value: &JsonValue) -> (r: Result<CharacterValue, Error>)
    ensures
        parse_outcome(attribute@, *value, r),
{
    if str_eq(attribute, "name") || str_eq(attribute, "gender") || str_eq(attribute, "backstory")
        || str_eq(attribute, "lifestyle") {
        match value.as_str() {
            Some(s) => Ok(CharacterValue::String(s.clone())),
            None => Err(game_error("Invalid string value")),
        }
    } else if str_eq(attribute, "race") {
        match value.as_str() {
            Some(s) => match Race::from_name(s.as_str()) {
                Some(race) => Ok(CharacterValue::Race(race)),
                None => Err(game_error("Invalid race")),
            },
            None => Err(game_error("Invalid race value")),
        }
    } else if is_byte_attribute(attribute) {
        match value.as_u64() {
            Some(n) => Ok(CharacterValue::U8(n as u8)),
            None => Err(game_error("Invalid u8 value")),
        }
    } else if str_eq(attribute, "magic") || str_eq(attribute, "resonance") {
        Ok(
            CharacterValue::OptionU8(
                match value.as_u64() {
                    Some(n) => Some(n as u8),
                    None => None,
                },
            ),
        )
    } else if str_eq(attribute, "nuyen") {
        match value.as_u64() {
            Some(n) => Ok(CharacterValue::Nuyen(n as u32)),
            None => Err(game_error("Invalid u32 value for nuyen")),
        }
    } else if str_eq(attribute, "skills") {
        match decode_skills(value) {
            Ok(s) => Ok(CharacterValue::Skills(s)),
            Err(e) => Err(serialization(e)),
        }
    } else if str_eq(attribute, "knowledge_skills") {
        match decode_rating_map(value) {
            Ok(m) => Ok(CharacterValue::HashMapStringU8(m)),
            Err(e) => Err(serialization(e)),
        }
    } else if str_eq(attribute, "contacts") {
        match decode_contact_map(value) {
            Ok(m) => Ok(CharacterValue::HashMapStringContact(m)),
            Err(e) => Err(serialization(e)),
        }
    } else if str_eq(attribute, "qualities") {
        match decode_quality_list(value) {
            Ok(q) => Ok(CharacterValue::VecQuality(q)),
            Err(e) => Err(serialization(e)),
        }
    } else if str_eq(attribute, "cyberware") || str_eq(attribute, "bioware") {
        match decode_string_list(value) {
            Ok(q) => Ok(CharacterValue::VecString(q)),
            Err(e) => Err(serialization(e)),
        }
    } else if str_eq(attribute, "inventory") {
        match decode_item_map(value) {
            Ok(m) => Ok(CharacterValue::HashMapStringItem(m)),
            Err(e) => Err(serialization(e)),
        }
    } else if str_eq(attribute, "matrix_attributes") {
        match decode_opt_matrix(value) {
            Ok(m) => Ok(CharacterValue::OptionMatrixAttributes(m)),
            Err(e) => Err(serialization(e)),
        }
    } else {
        Err(Error::Shadowrun(ShadowrunError::Game(concat("Unsupported attribute: ", attribute))))
    }
}

/// The modification that sets the attribute a member names to the value read
/// from the member.
pub open spec fn basic_update(m: (String, JsonValue), u: CharacterSheetUpdate) -> bool {
    u matches CharacterSheetUpdate::Attribute {
        attribute,
        operation: UpdateOperation::Modify(cv),
    } && attribute@ == m.0@ && parse_outcome(m.0@, m.1, Ok(cv))
}

/// Applying member `m` takes `before` to `after`.
pub open spec fn basic_step(m: (String, JsonValue), before: CharacterSheet, after: CharacterSheet) -> bool {
    exists|u: CharacterSheetUpdate|
        #[trigger] basic_update(m, u) && update_ok(before, u) && update_accepted(u)
            && updated_sheet(before, u, after)
}

/// Applying member `m` to `before` fails with `e`: its value cannot be read, or
/// its modification does not fit, or the sheet refuses it.
pub open spec fn basic_failure(m: (String, JsonValue), before: CharacterSheet, e: Error) -> bool {
    ||| parse_outcome(m.0@, m.1, Err(e))
    ||| exists|u: CharacterSheetUpdate| #[trigger] basic_update(m, u) && !update_ok(before, u) && e is Overflow
    ||| exists|u: CharacterSheetUpdate|
        #[trigger] basic_update(m, u) && update_ok(before, u) && !update_accepted(u) && refusal(
            u,
            Err(e),
        )
}

/// `chain` steps through the first `k` members, one sheet after each.
pub open spec fn basic_chain(members: Seq<(String, JsonValue)>, chain: Seq<CharacterSheet>, k: int) -> bool {
    &&& 0 <= k <= members.len()
    &&& chain.len() == k + 1
    &&& forall|j: int| 0 <= j < k ==> #[trigger] basic_step(members[j], chain[j], chain[j + 1])
}

/// The session after the character at `i` became `c`, the main sheet untouched.
pub open spec fn partly_updated(old: GameState, i: int, c: CharacterSheet, new: GameState) -> bool {
    &&& new.characters@ == old.characters@.update(i, c)
    &&& new.main_character_sheet == old.main_character_sheet
    &&& new.assistant_id == old.assistant_id
    &&& new.thread_id == old.thread_id
    &&& new.save_name == old.save_name
    &&& new.save_path == old.save_path
    &&& new.image_path == old.image_path
}

/// The members of an object; none for another value.
pub open spec fn members_of(v: JsonValue) -> Seq<(String, JsonValue)> {
    match v {
        JsonValue::Object(m) => m@,
        _ => Seq::empty(),
    }
}

/// What a basic attributes call gives: an error for a missing name, an unknown
/// character or updates that are not an object; otherwise the members of `updates`
/// applied in order as modifications, stopping at the first that fails with its
/// error (the earlier ones stay applied), else the answer with the main sheet
/// following the character.
pub open spec fn basic_outcome(args: JsonValue, old: GameState, r: Result<String, Error>, new: GameState) -> bool {
    let name = arg_string(args, "character_name"@);
    let updates = member_or_null(args, "updates"@);
    let members = members_of(updates);
    if name is None {
        r is Err && is_game_error(r->Err_0, "Missing character_name"@) && same_session(old, new)
    } else if !has_named(old.characters@, name->0@) {
        r is Err && is_not_found(r->Err_0, name->0@) && same_session(old, new)
    } else if !(updates is Object) {
        r is Err && is_game_error(r->Err_0, "Value should be an object"@) && same_session(old, new)
    } else {
        forall|i: int|
            #[trigger] is_first_named(old.characters@, name->0@, i) ==> exists|
                chain: Seq<CharacterSheet>,
            |
                chain.len() > 0 && chain[0] == old.characters@[i] && {
                    ||| r is Ok && r->Ok_0@ == "Updated basic attributes for character: "@
                        + name->0@ && basic_chain(members, chain, members.len() as int)
                        && session_after(old, i, chain.last(), name->0@, new)
                    ||| r is Err && exists|k: int|
                        0 <= k < members.len() && basic_chain(members, chain, k)
                            && basic_failure(members[k], chain[k], r->Err_0) && partly_updated(
                            old,
                            i,
                            chain[k],
                            new,
                        )
                }
    }
}

/// A call that stopped at member `k` with `e` has the outcome `basic_outcome`
/// describes.
proof fn lemma_basic_stopped(
    args: JsonValue,
    old: GameState,
    new: GameState,
    e: Error,
    i: int,
    chain: Seq<CharacterSheet>,
    k: int,
)
    requires
        arg_string(args, "character_name"@) is Some,
        has_named(old.characters@, arg_string(args, "character_name"@)->0@),
        member_or_null(args, "updates"@) is Object,
        is_first_named(old.characters@, arg_string(args, "character_name"@)->0@, i),
        chain.len() > 0,
        chain[0] == old.characters@[i],
        0 <= k < members_of(member_or_null(args, "updates"@)).len(),
        basic_chain(members_of(member_or_null(args, "updates"@)), chain, k),
        basic_failure(members_of(member_or_null(args, "updates"@))[k], chain[k], e),
        partly_updated(old, i, chain[k], new),
    ensures
        basic_outcome(args, old, Err(e), new),
{
    let name = arg_string(args, "character_name"@)->0@;
    let members = members_of(member_or_null(args, "updates"@));
    assert forall|j: int| #[trigger] is_first_named(old.characters@, name, j) implies exists|
        c: Seq<CharacterSheet>,
    |
        c.len() > 0 && c[0] == old.characters@[j] && {
            ||| Err::<String, Error>(e) is Ok && false
            ||| exists|kk: int|
                0 <= kk < members.len() && basic_chain(members, c, kk) && basic_failure(
                    members[kk],
                    c[kk],
                    e,
                ) && partly_updated(old, j, c[kk], new)
        } by {
        lemma_first_named_unique(old.characters@, name, i, j);
        assert(0 <= k < members.len() && basic_chain(members, chain, k) && basic_failure(
            members[k],
            chain[k],
            e,
        ) && partly_updated(old, j, chain[k], new));
    }
}

/// Sets several basic attributes of a character. The arguments name the character
/// (`character_name`) and give the attributes to set (`updates`, an object from
/// attribute names to values).
pub fn handle_update_basic_attributes(args: &JsonValue, game_state: &mut GameState) -> (r: Result<String, Error>)
    ensures
        basic_outcome(*args, *old(game_state), r, *final(game_state)),
{
    let name = match field_str(args, "character_name") {
        Some(s) => s,
        None => return Err(game_error("Missing character_name")),
    };
    let null = JsonValue::Null;
    let updates = match args.get("updates") {
        Some(v) => v,
        None => &null,
    };
    let i = character_index(game_state, name.as_str())?;
    let members = match updates {
        JsonValue::Object(m) => m,
        _ => return Err(game_error("Value should be an object")),
    };
    let ghost g0 = *game_state;
    let ghost name_arg = name@;
    assert(member_or_null(*args, "updates"@) == *updates);
    let mut c = game_state.characters.remove(i);
    let ghost mut chain: Seq<CharacterSheet> = seq![c];
    let n = members.len();
    let mut k: usize = 0;
    while k < n
        invariant
            n == members@.len(),
            k <= n,
            i < g0.characters@.len(),
            g0 == *old(game_state),
            arg_string(*args, "character_name"@) == Some(*name),
            has_named(g0.characters@, name@),
            is_first_named(g0.characters@, name@, i as int),
            member_or_null(*args, "updates"@) == JsonValue::Object(*members),
            basic_chain(members@, chain, k as int),
            chain[0] == g0.characters@[i as int],
            chain.last() == c,
            game_state.characters@ == g0.characters@.remove(i as int),
            game_state.main_character_sheet == g0.main_character_sheet,
            game_state.assistant_id == g0.assistant_id,
            game_state.thread_id == g0.thread_id,
            game_state.save_name == g0.save_name,
            game_state.save_path == g0.save_path,
            game_state.image_path == g0.image_path,
        decreases n - k,
    {
        let member = &members[k];
        let cv = match parse_value(member.0.as_str(), &member.1) {
            Ok(cv) => cv,
            Err(e) => {
                game_state.characters.insert(i, c);
                proof {
                    assert(game_state.characters@ =~= g0.characters@.update(i as int, chain[k as int]));
                    assert(basic_failure(members@[k as int], chain[k as int], e));
                    lemma_basic_stopped(*args, g0, *game_state, e, i as int, chain, k as int);
                }
                return Err(e);
            },
        };
        let u = CharacterSheetUpdate::Attribute {
            attribute: member.0.clone(),
            operation: UpdateOperation::Modify(cv),
        };
        assert(basic_update(members@[k as int], u));
        if !update_fits(&c, &u) {
            game_state.characters.insert(i, c);
            let e = Error::Overflow(owned("character sheet update"));
            proof {
                assert(game_state.characters@ =~= g0.characters@.update(i as int, chain[k as int]));
                assert(basic_failure(members@[k as int], chain[k as int], e));
                lemma_basic_stopped(*args, g0, *game_state, e, i as int, chain, k as int);
            }
            return Err(e);
        }
        let ghost before = c;
        match c.apply_update(&u) {
            Ok(()) => {},
            Err(e) => {
                game_state.characters.insert(i, c);
                proof {
                    assert(game_state.characters@ =~= g0.characters@.update(i as int, chain[k as int]));
                    assert(basic_failure(members@[k as int], chain[k as int], e));
                    lemma_basic_stopped(*args, g0, *game_state, e, i as int, chain, k as int);
                }
                return Err(e);
            },
        }
        proof {
            let longer = chain.push(c);
            assert(basic_step(members@[k as int], before, c));
            assert forall|j: int| 0 <= j < k + 1 implies #[trigger] basic_step(
                members@[j],
                longer[j],
                longer[j + 1],
            ) by {
                if j < k {
                    assert(longer[j] == chain[j]);
                    assert(longer[j + 1] == chain[j + 1]);
                }
            }
            chain = longer;
        }
        k = k + 1;
    }
    game_state.characters.insert(i, c);
    assert(game_state.characters@ =~= g0.characters@.update(i as int, c));
    refresh_main(game_state, name.as_str(), i);
    let msg = concat("Updated basic attributes for character: ", name.as_str());
    let r = Ok(msg);
    proof {
        assert forall|j: int| #[trigger] is_first_named(g0.characters@, name_arg, j) implies j == i by {
            lemma_first_named_unique(g0.characters@, name_arg, i as int, j);
        }
        assert(session_after(g0, i as int, chain.last(), name_arg, *game_state));
    }
    r
}

/// The skill lists of a skills call: `updates.skills`, null when missing.
pub open spec fn skills_arg(args: JsonValue) -> JsonValue {
    member_or_null(member_or_null(args, "updates"@), "skills"@)
}

/// The ratings of group `category` after a skills call: the character's, with the
/// listed skills (loosely read) inserted.
pub open spec fn group_after(base: crate::character::Skill, upd: JsonValue, category: Seq<char>) -> Option<
    Map<Seq<char>, u8>,
> {
    rating_group_onto(base.view(), upd, category, false)
}

/// Why group `category` of a skills call cannot be read: its first entry without a
/// name, or without a non-negative rating.
pub open spec fn group_fault_text(upd: JsonValue, category: Seq<char>) -> Seq<char> {
    match json_get(upd, category) {
        Some(JsonValue::Array(a)) => match first_failing(a@, rating_ok(false)) {
            Some(v) => if rating_fault_of(v) is Name {
                "Missing skill name in "@ + category + " category"@
            } else {
                "Invalid skill rating in "@ + category + " category"@
            },
            None => Seq::empty(),
        },
        _ => Seq::empty(),
    }
}

/// Why the active skills of a skills call cannot be read for `c`: the first group,
/// in the order combat, physical, social, technical, that cannot.
pub open spec fn groups_fault_text(c: CharacterSheet, upd: JsonValue) -> Seq<char> {
    if group_after(c.skills.combat, upd, "combat"@) is None {
        group_fault_text(upd, "combat"@)
    } else if group_after(c.skills.physical, upd, "physical"@) is None {
        group_fault_text(upd, "physical"@)
    } else if group_after(c.skills.social, upd, "social"@) is None {
        group_fault_text(upd, "social"@)
    } else {
        group_fault_text(upd, "technical"@)
    }
}

/// Why the knowledge skills of a skills call cannot be read: the first entry
/// without a name, or without a non-negative rating.
pub open spec fn knowledge_fault_text(upd: JsonValue) -> Seq<char> {
    match json_get(upd, "knowledge"@) {
        Some(JsonValue::Array(a)) => match first_failing(a@, rating_ok(false)) {
            Some(v) => if rating_fault_of(v) is Name {
                "Missing knowledge skill name"@
            } else {
                "Invalid knowledge skill rating"@
            },
            None => Seq::empty(),
        },
        _ => Seq::empty(),
    }
}

/// Every group of the skills call can be read for character `c`.
pub open spec fn groups_readable(c: CharacterSheet, upd: JsonValue) -> bool {
    &&& group_after(c.skills.combat, upd, "combat"@) is Some
    &&& group_after(c.skills.physical, upd, "physical"@) is Some
    &&& group_after(c.skills.social, upd, "social"@) is Some
    &&& group_after(c.skills.technical, upd, "technical"@) is Some
}

/// The modification of the active skills that a skills call asks for.
pub open spec fn groups_update(c: CharacterSheet, upd: JsonValue, u: CharacterSheetUpdate) -> bool {
    u matches CharacterSheetUpdate::Attribute {
        attribute,
        operation: UpdateOperation::Modify(CharacterValue::Skills(s)),
    } && attribute@ == "skills"@ && group_after(c.skills.combat, upd, "combat"@) == Some(
        s.combat.view(),
    ) && group_after(c.skills.physical, upd, "physical"@) == Some(s.physical.view())
        && group_after(c.skills.social, upd, "social"@) == Some(s.social.view()) && group_after(
        c.skills.technical,
        upd,
        "technical"@,
    ) == Some(s.technical.view())
}

/// The knowledge skills after a skills call that lists `knowledge`: the
/// character's, with the listed ones inserted when the list is an array.
pub open spec fn knowledge_after(c: CharacterSheet, upd: JsonValue) -> Option<Map<Seq<char>, u8>> {
    match json_get(upd, "knowledge"@) {
        Some(JsonValue::Array(a)) => with_named(c.knowledge_skills.view(), a@, rating_reader(false)),
        _ => Some(c.knowledge_skills.view()),
    }
}

/// The modification of the knowledge skills that a skills call asks for.
pub open spec fn knowledge_update(k: Map<Seq<char>, u8>, u: CharacterSheetUpdate) -> bool {
    u matches CharacterSheetUpdate::Attribute {
        attribute,
        operation: UpdateOperation::Modify(CharacterValue::HashMapStringU8(m)),
    } && attribute@ == "knowledge_skills"@ && m.view() == k
}

/// What a skills call gives once the active skills of the character at `i` became
/// `c1`: done, unless it lists knowledge skills, which are read and applied in turn.
pub open spec fn knowledge_outcome(
    old: GameState,
    i: int,
    c1: CharacterSheet,
    upd: JsonValue,
    name: Seq<char>,
    r: Result<String, Error>,
    new: GameState,
) -> bool {
    let msg = "Updated skills for character: "@ + name;
    if json_get(upd, "knowledge"@) is None {
        r is Ok && r->Ok_0@ == msg && session_after(old, i, c1, name, new)
    } else if knowledge_after(c1, upd) is None {
        r is Err && is_game_error(r->Err_0, knowledge_fault_text(upd)) && partly_updated(
            old,
            i,
            c1,
            new,
        )
    } else {
        exists|u2: CharacterSheetUpdate|
            #[trigger] knowledge_update(knowledge_after(c1, upd)->0, u2) && if !update_ok(c1, u2) {
                r is Err && r->Err_0 is Overflow && partly_updated(old, i, c1, new)
            } else {
                &&& r is Ok
                &&& r->Ok_0@ == msg
                &&& updated_sheet(c1, u2, new.characters@[i])
                &&& session_after(old, i, new.characters@[i], name, new)
            }
    }
}

/// What a skills call gives: an error for a missing name or an unknown character;
/// a game error naming the first listed skill without a name or rating; otherwise the active
/// skills merged with the listed ones (an overflow error, the session unchanged,
/// when the sheet's derived values do not fit), then the knowledge skills in turn.
pub open spec fn skills_outcome(args: JsonValue, old: GameState, r: Result<String, Error>, new: GameState) -> bool {
    let name = arg_string(args, "character_name"@);
    let upd = skills_arg(args);
    if name is None {
        r is Err && is_game_error(r->Err_0, "Missing character_name"@) && same_session(old, new)
    } else if !has_named(old.characters@, name->0@) {
        r is Err && is_not_found(r->Err_0, name->0@) && same_session(old, new)
    } else {
        forall|i: int|
            #[trigger] is_first_named(old.characters@, name->0@, i) ==> {
                let c = old.characters@[i];
                if !groups_readable(c, upd) {
                    r is Err && is_game_error(r->Err_0, groups_fault_text(c, upd)) && same_session(
                        old,
                        new,
                    )
                } else {
                    exists|u1: CharacterSheetUpdate|
                        #[trigger] groups_update(c, upd, u1) && if !update_ok(c, u1) {
                            r is Err && r->Err_0 is Overflow && same_session(old, new)
                        } else {
                            exists|c1: CharacterSheet|
                                #[trigger] updated_sheet(c, u1, c1) && knowledge_outcome(
                                    old,
                                    i,
                                    c1,
                                    upd,
                                    name->0@,
                                    r,
                                    new,
                                )
                        }
                }
            }
    }
}

fn group_onto(base: &crate::character::Skill, upd: &JsonValue, category: &str) -> (r: Result<crate::character::Skill, Error>)
    ensures
        match r {
            Ok(m) => group_after(*base, *upd, category@) == Some(m.view()),
            Err(e) => group_after(*base, *upd, category@) is None && is_game_error(
                e,
                group_fault_text(*upd, category@),
            ),
        },
{
    let mut m = copy_ratings(base);
    match upd.get(category) {
        Some(JsonValue::Array(a)) => match read_ratings(&mut m, a, false) {
            Ok(()) => Ok(m),
            Err(RatingFault::Name) => Err(
                Error::Shadowrun(
                    ShadowrunError::Game(concat3("Missing skill name in ", category, " category")),
                ),
            ),
            Err(RatingFault::Rating) => Err(
                Error::Shadowrun(
                    ShadowrunError::Game(concat3("Invalid skill rating in ", category, " category")),
                ),
            ),
        },
        _ => Ok(m),
    }
}

/// Merges skill ratings into a character's. The arguments name the character
/// (`character_name`) and list the skills (`updates.skills`: arrays of named
/// ratings under `combat`, `physical`, `social`, `technical`, and optionally
/// `knowledge`).
pub fn handle_update_skills(args: &JsonValue, game_state: &mut GameState) -> (r: Result<String, Error>)
    ensures
        skills_outcome(*args, *old(game_state), r, *final(game_state)),
{
    let name = match field_str(args, "character_name") {
        Some(s) => s,
        None => return Err(game_error("Missing character_name")),
    };
    let null = JsonValue::Null;
    let updates = match args.get("updates") {
        Some(v) => v,
        None => &null,
    };
    let upd = match updates.get("skills") {
        Some(v) => v,
        None => &null,
    };
    let i = character_index(game_state, name.as_str())?;
    let ghost g0 = *game_state;
    let ghost name_arg = name@;
    assert(skills_arg(*args) == *upd);
    proof {
        assert forall|j: int| #[trigger] is_first_named(g0.characters@, name_arg, j) implies j == i by {
            lemma_first_named_unique(g0.characters@, name_arg, i as int, j);
        }
    }
    let mut c = game_state.characters.remove(i);
    let ghost c0 = c;
    let combat = match group_onto(&c.skills.combat, upd, "combat") {
        Ok(m) => m,
        Err(e) => {
            game_state.characters.insert(i, c);
            assert(game_state.characters@ =~= g0.characters@);
            return Err(e);
        },
    };
    let physical = match group_onto(&c.skills.physical, upd, "physical") {
        Ok(m) => m,
        Err(e) => {
            game_state.characters.insert(i, c);
            assert(game_state.characters@ =~= g0.characters@);
            return Err(e);
        },
    };
    let social = match group_onto(&c.skills.social, upd, "social") {
        Ok(m) => m,
        Err(e) => {
            game_state.characters.insert(i, c);
            assert(game_state.characters@ =~= g0.characters@);
            return Err(e);
        },
    };
    let technical = match group_onto(&c.skills.technical, upd, "technical") {
        Ok(m) => m,
        Err(e) => {
            game_state.characters.insert(i, c);
            assert(game_state.characters@ =~= g0.characters@);
            return Err(e);
        },
    };
    let u1 = CharacterSheetUpdate::Attribute {
        attribute: owned("skills"),
        operation: UpdateOperation::Modify(
            CharacterValue::Skills(Skills { combat, physical, social, technical }),
        ),
    };
    assert(groups_update(c0, *upd, u1));
    if !update_fits(&c, &u1) {
        game_state.characters.insert(i, c);
        assert(game_state.characters@ =~= g0.characters@);
        return Err(Error::Overflow(owned("character sheet update")));
    }
    let _ = c.apply_update(&u1);
    let ghost c1 = c;
    assert(updated_sheet(c0, u1, c1));
    let msg = concat("Updated skills for character: ", name.as_str());
    match upd.get("knowledge") {
        None => {
            game_state.characters.insert(i, c);
            assert(game_state.characters@ =~= g0.characters@.update(i as int, c1));
            refresh_main(game_state, name.as_str(), i);
            let r = Ok(msg);
            assert(knowledge_outcome(g0, i as int, c1, *upd, name_arg, r, *game_state));
            r
        },
        Some(k) => {
            let mut km = copy_ratings(&c.knowledge_skills);
            match k {
                JsonValue::Array(a) => match read_ratings(&mut km, a, false) {
                    Ok(()) => {},
                    Err(f) => {
                        game_state.characters.insert(i, c);
                        assert(game_state.characters@ =~= g0.characters@.update(i as int, c1));
                        let e = match f {
                            RatingFault::Name => game_error("Missing knowledge skill name"),
                            RatingFault::Rating => game_error("Invalid knowledge skill rating"),
                        };
                        assert(knowledge_outcome(g0, i as int, c1, *upd, name_arg, Err(e), *game_state));
                        return Err(e);
                    },
                },
                _ => {},
            }
            let u2 = CharacterSheetUpdate::Attribute {
                attribute: owned("knowledge_skills"),
                operation: UpdateOperation::Modify(CharacterValue::HashMapStringU8(km)),
            };
            assert(knowledge_update(knowledge_after(c1, *upd)->0, u2));
            if !update_fits(&c, &u2) {
                game_state.characters.insert(i, c);
                assert(game_state.characters@ =~= g0.characters@.update(i as int, c1));
                let e = Error::Overflow(owned("character sheet update"));
                assert(knowledge_outcome(g0, i as int, c1, *upd, name_arg, Err(e), *game_state));
                return Err(e);
            }
            let _ = c.apply_update(&u2);
            game_state.characters.insert(i, c);
            assert(game_state.characters@ =~= g0.characters@.update(i as int, c));
            refresh_main(game_state, name.as_str(), i);
            let r = Ok(msg);
            assert(knowledge_outcome(g0, i as int, c1, *upd, name_arg, r, *game_state));
            r
        },
    }
}

} // verus!
