//! The game master's calls that change a character sheet: each reads its JSON
//! arguments, finds the character by name, builds the update and applies it, and
//! keeps the main sheet in step with the character it names.
use vstd::prelude::*;

use crate::character::{
    same_sheet, CharacterSheet, CharacterSheetUpdate, CharacterValue, Contact, Item,
    UpdateOperation,
};
use crate::strmap::StrMap;
use crate::error::{Error, GameError, ShadowrunError};
use crate::game_master::arg_string;
use crate::game_state::{find_character, has_named, is_first_named, GameState};
use crate::json::{field_str, field_u64, json_get, json_str, json_u64, JsonValue};
use crate::json_decode::{
    contact_reader, decode_contact_list, decode_item, decode_matrix, decode_quality_list, decode_string_list,
    quality_reader, spec_item, spec_list, spec_matrix, string_reader,
};
use crate::sheet_update::{refusal, update_accepted, update_ok, updated_sheet};
use crate::strmap::str_eq;
use crate::text::{concat, owned};
use crate::update_check::update_fits;

verus! {

broadcast use vstd::string::group_string_axioms;

/// Only one position holds the first character of a name.
pub proof fn lemma_first_named_unique(chars: Seq<CharacterSheet>, name: Seq<char>, i: int, j: int)
    requires
        is_first_named(chars, name, i),
        is_first_named(chars, name, j),
    ensures
        i == j,
{
    if i < j {
        assert(chars[i].name@ != name);
    }
    if j < i {
        assert(chars[j].name@ != name);
    }
}

/// `e` is the game error with text `msg`.
pub open spec fn is_game_error(e: Error, msg: Seq<char>) -> bool {
    e matches Error::Shadowrun(ShadowrunError::Game(s)) && s@ == msg
}

pub(crate) fn game_error(msg: &str) -> (e: Error)
    ensures
        is_game_error(e, msg@),
{
    Error::Shadowrun(ShadowrunError::Game(owned(msg)))
}

/// `e` reports that no character has the name `name`.
pub open spec fn is_not_found(e: Error, name: Seq<char>) -> bool {
    e matches Error::Game(GameError::CharacterNotFound(n)) && n@ == name
}

/// The member `field` of `args`, or null when it is missing (as indexing a JSON
/// value gives).
pub open spec fn member_or_null(args: JsonValue, field: Seq<char>) -> JsonValue {
    match json_get(args, field) {
        Some(v) => v,
        None => JsonValue::Null,
    }
}

/// The session is unchanged.
pub open spec fn same_session(old: GameState, new: GameState) -> bool {
    &&& new.characters@ == old.characters@
    &&& new.main_character_sheet == old.main_character_sheet
    &&& new.assistant_id == old.assistant_id
    &&& new.thread_id == old.thread_id
    &&& new.save_name == old.save_name
    &&& new.save_path == old.save_path
    &&& new.image_path == old.image_path
}

/// The session after the character at `i` became `c`: the others are untouched,
/// and the main sheet follows `c` when it bears the name `name`.
pub open spec fn session_after(old: GameState, i: int, c: CharacterSheet, name: Seq<char>, new: GameState) -> bool {
    &&& new.characters@ == old.characters@.update(i, c)
    &&& new.assistant_id == old.assistant_id
    &&& new.thread_id == old.thread_id
    &&& new.save_name == old.save_name
    &&& new.save_path == old.save_path
    &&& new.image_path == old.image_path
    &&& match old.main_character_sheet {
        Some(m) => if m.name@ == name {
            new.main_character_sheet matches Some(x) && same_sheet(x, c)
        } else {
            new.main_character_sheet == old.main_character_sheet
        },
        None => new.main_character_sheet is None,
    }
}

/// What applying `u` to the first character named `name` gives: an overflow error
/// when the update does not fit, the refusal when the sheet does not take it (the
/// session unchanged either way), else `msg` with the character updated.
pub open spec fn update_outcome(
    old: GameState,
    name: Seq<char>,
    u: CharacterSheetUpdate,
    msg: Seq<char>,
    r: Result<String, Error>,
    new: GameState,
) -> bool {
    forall|i: int|
        #[trigger] is_first_named(old.characters@, name, i) ==> {
            let c = old.characters@[i];
            if !update_ok(c, u) {
                r is Err && r->Err_0 is Overflow && same_session(old, new)
            } else if !update_accepted(u) {
                r is Err && refusal(u, Err(r->Err_0)) && same_session(old, new)
            } else {
                &&& r is Ok
                &&& r->Ok_0@ == msg
                &&& updated_sheet(c, u, new.characters@[i])
                &&& session_after(old, i, new.characters@[i], name, new)
            }
        }
}

/// Applies `u` to the character at `i`: refused when it does not fit or the sheet
/// does not take it, leaving the session unchanged.
pub(crate) fn apply_at(gs: &mut GameState, i: usize, u: &CharacterSheetUpdate) -> (r: Result<(), Error>)
    requires
        i < old(gs).characters@.len(),
    ensures
        ({
            let c = old(gs).characters@[i as int];
            if !update_ok(c, *u) {
                r is Err && r->Err_0 is Overflow && same_session(*old(gs), *final(gs))
            } else if !update_accepted(*u) {
                r is Err && refusal(*u, r) && same_session(*old(gs), *final(gs))
            } else {
                &&& r is Ok
                &&& updated_sheet(c, *u, final(gs).characters@[i as int])
                &&& final(gs).characters@ == old(gs).characters@.update(
                    i as int,
                    final(gs).characters@[i as int],
                )
                &&& final(gs).main_character_sheet == old(gs).main_character_sheet
                &&& final(gs).assistant_id == old(gs).assistant_id
                &&& final(gs).thread_id == old(gs).thread_id
                &&& final(gs).save_name == old(gs).save_name
                &&& final(gs).save_path == old(gs).save_path
                &&& final(gs).image_path == old(gs).image_path
            }
        }),
{
    let ghost before = gs.characters@;
    let mut c = gs.characters.remove(i);
    if !update_fits(&c, u) {
        gs.characters.insert(i, c);
        assert(gs.characters@ =~= before);
        return Err(Error::Overflow(owned("character sheet update")));
    }
    let r = c.apply_update(u);
    gs.characters.insert(i, c);
    if r.is_err() {
        assert(gs.characters@ =~= before);
    } else {
        assert(gs.characters@ =~= before.update(i as int, c));
    }
    r
}

/// Makes the main sheet a copy of the character at `i` when it bears `name`.
pub(crate) fn refresh_main(gs: &mut GameState, name: &str, i: usize)
    requires
        i < old(gs).characters@.len(),
    ensures
        final(gs).characters@ == old(gs).characters@,
        final(gs).assistant_id == old(gs).assistant_id,
        final(gs).thread_id == old(gs).thread_id,
        final(gs).save_name == old(gs).save_name,
        final(gs).save_path == old(gs).save_path,
        final(gs).image_path == old(gs).image_path,
        match old(gs).main_character_sheet {
            Some(m) => if m.name@ == name@ {
                final(gs).main_character_sheet matches Some(x) && same_sheet(
                    x,
                    old(gs).characters@[i as int],
                )
            } else {
                final(gs).main_character_sheet == old(gs).main_character_sheet
            },
            None => final(gs).main_character_sheet is None,
        },
{
    let follows = match &gs.main_character_sheet {
        Some(m) => str_eq(m.name.as_str(), name),
        None => false,
    };
    if follows {
        gs.main_character_sheet = Some(gs.characters[i].clone());
    }
}

/// Finds the first character named `name`.
pub(crate) fn character_index(gs: &GameState, name: &str) -> (r: Result<usize, Error>)
    ensures
        match r {
            Ok(i) => is_first_named(gs.characters@, name@, i as int),
            Err(e) => !has_named(gs.characters@, name@) && is_not_found(e, name@),
        },
{
    match find_character(&gs.characters, name) {
        Some(i) => Ok(i),
        None => Err(Error::Game(GameError::CharacterNotFound(owned(name)))),
    }
}

/// Applies `u` to the character at `i`, the first named `name`, and then keeps the
/// main sheet in step; answers `msg`.
pub(crate) fn update_named(gs: &mut GameState, name: &str, i: usize, u: &CharacterSheetUpdate, msg: String) -> (r: Result<String, Error>)
    requires
        is_first_named(old(gs).characters@, name@, i as int),
    ensures
        update_outcome(*old(gs), name@, *u, msg@, r, *final(gs)),
{
    let ghost g0 = *gs;
    let applied = apply_at(gs, i, u);
    let r = match applied {
        Ok(()) => {
            refresh_main(gs, name, i);
            Ok(msg)
        },
        Err(e) => Err(e),
    };
    assert forall|j: int| #[trigger] is_first_named(g0.characters@, name@, j) implies j == i by {
        lemma_first_named_unique(g0.characters@, name@, i as int, j);
    }
    r
}

/// What applying `u` to the character named `name` gives, for the application's own
/// updates: nothing when no character has the name; the overflow or the refusal
/// with the session unchanged; else the character updated, the main sheet following
/// it when it is the main character, and a save asked for (`Ok(true)`).
pub open spec fn named_update_outcome(
    old: GameState,
    name: Seq<char>,
    u: CharacterSheetUpdate,
    r: Result<bool, Error>,
    new: GameState,
) -> bool {
    if !has_named(old.characters@, name) {
        r == Ok::<bool, Error>(false) && same_session(old, new)
    } else {
        forall|i: int|
            #[trigger] is_first_named(old.characters@, name, i) ==> {
                let c = old.characters@[i];
                if !update_ok(c, u) {
                    r is Err && r->Err_0 is Overflow && same_session(old, new)
                } else if !update_accepted(u) {
                    r is Err && refusal(u, Err(r->Err_0)) && same_session(old, new)
                } else {
                    let n = new.characters@[i];
                    &&& r == Ok::<bool, Error>(true)
                    &&& updated_sheet(c, u, n)
                    &&& new.characters@ == old.characters@.update(i, n)
                    &&& if n.main {
                        new.main_character_sheet matches Some(m) && same_sheet(m, n)
                    } else {
                        new.main_character_sheet == old.main_character_sheet
                    }
                    &&& new.assistant_id == old.assistant_id
                    &&& new.thread_id == old.thread_id
                    &&& new.save_name == old.save_name
                    &&& new.save_path == old.save_path
                    &&& new.image_path == old.image_path
                }
            }
    }
}

/// Applies an update that the game asked for to the first character named `name`;
/// says whether the session changed and should be saved.
pub fn apply_named_update(gs: &mut GameState, u: &CharacterSheetUpdate, name: &str) -> (r: Result<bool, Error>)
    ensures
        named_update_outcome(*old(gs), name@, *u, r, *final(gs)),
{
    let ghost g0 = *gs;
    match find_character(&gs.characters, name) {
        None => Ok(false),
        Some(i) => {
            let applied = apply_at(gs, i, u);
            let r = match applied {
                Ok(()) => {
                    if gs.characters[i].main {
                        let copy = gs.characters[i].clone();
                        gs.main_character_sheet = Some(copy);
                    }
                    Ok(true)
                },
                Err(e) => Err(e),
            };
            assert forall|j: int| #[trigger] is_first_named(g0.characters@, name@, j) implies j
                == i by {
                lemma_first_named_unique(g0.characters@, name@, i as int, j);
            }
            r
        },
    }
}

/// The session after adding `sheet`: the main sheet when it is the main character,
/// and in place of the first character of the same name or, if none, at the end.
pub open spec fn added_character(old: GameState, sheet: CharacterSheet, new: GameState) -> bool {
    &&& if sheet.main {
        new.main_character_sheet matches Some(m) && same_sheet(m, sheet)
    } else {
        new.main_character_sheet == old.main_character_sheet
    }
    &&& new.assistant_id == old.assistant_id
    &&& new.thread_id == old.thread_id
    &&& new.save_name == old.save_name
    &&& new.save_path == old.save_path
    &&& new.image_path == old.image_path
    &&& if has_named(old.characters@, sheet.name@) {
        exists|i: int|
            is_first_named(old.characters@, sheet.name@, i) && new.characters@
                == old.characters@.update(i, sheet)
    } else {
        new.characters@ == old.characters@.push(sheet)
    }
}

/// After a character is added, looking its name up finds that very sheet.
pub proof fn law_added_character_is_found(old: GameState, sheet: CharacterSheet, new: GameState)
    requires
        added_character(old, sheet, new),
    ensures
        exists|i: int| is_first_named(new.characters@, sheet.name@, i) && new.characters@[i] == sheet,
{
    let name = sheet.name@;
    if has_named(old.characters@, name) {
        let i = choose|i: int|
            is_first_named(old.characters@, name, i) && new.characters@ == old.characters@.update(
                i,
                sheet,
            );
        assert forall|j: int| 0 <= j < i implies (#[trigger] new.characters@[j]).name@ != name by {
            assert(old.characters@[j].name@ != name);
        }
        assert(is_first_named(new.characters@, name, i));
    } else {
        let n = old.characters@.len() as int;
        assert forall|j: int| 0 <= j < n implies (#[trigger] new.characters@[j]).name@ != name by {
            assert(new.characters@[j] == old.characters@[j]);
            if old.characters@[j].name@ == name {
                assert(has_named(old.characters@, name));
            }
        }
        assert(is_first_named(new.characters@, name, n));
    }
}

/// Adds a character to the session, or replaces the one of the same name.
pub fn add_character(gs: &mut GameState, sheet: CharacterSheet)
    ensures
        added_character(*old(gs), sheet, *final(gs)),
{
    if sheet.main {
        gs.main_character_sheet = Some(sheet.clone());
    }
    match find_character(&gs.characters, sheet.name.as_str()) {
        Some(i) => {
            gs.characters.set(i, sheet);
        },
        None => {
            gs.characters.push(sheet);
        },
    }
}

/// The update a qualities call asks for: the qualities added or removed.
pub open spec fn qualities_update(operation: Seq<char>, list: Seq<crate::character::Quality>, u: CharacterSheetUpdate) -> bool {
    u matches CharacterSheetUpdate::Attribute { attribute, operation: op } && attribute@
        == "qualities"@ && if operation == "Add"@ {
        op matches UpdateOperation::Add(CharacterValue::VecQuality(v)) && v@ == list
    } else {
        op matches UpdateOperation::Remove(CharacterValue::VecQuality(v)) && v@ == list
    }
}

/// What a qualities call gives, in this order: an error for a missing name or
/// operation, for an unknown character, for unreadable qualities, for an operation
/// other than `Add` or `Remove`; otherwise the outcome of applying the update.
pub open spec fn qualities_outcome(args: JsonValue, old: GameState, r: Result<String, Error>, new: GameState) -> bool {
    let name = arg_string(args, "character_name"@);
    let operation = arg_string(args, "operation"@);
    let list = spec_list(member_or_null(args, "qualities"@), quality_reader());
    if name is None {
        r is Err && is_game_error(r->Err_0, "Missing character_name"@) && same_session(old, new)
    } else if operation is None {
        r is Err && is_game_error(r->Err_0, "Missing operation"@) && same_session(old, new)
    } else if !has_named(old.characters@, name->0@) {
        r is Err && is_not_found(r->Err_0, name->0@) && same_session(old, new)
    } else if list is None {
        r is Err && r->Err_0 is Serialization && same_session(old, new)
    } else if operation->0@ != "Add"@ && operation->0@ != "Remove"@ {
        r is Err && is_game_error(r->Err_0, "Invalid qualities operation"@) && same_session(old, new)
    } else {
        exists|u: CharacterSheetUpdate|
            qualities_update(operation->0@, list->0, u) && update_outcome(
                old,
                name->0@,
                u,
                "Updated qualities for character: "@ + name->0@,
                r,
                new,
            )
    }
}

/// Adds or removes qualities of a character. The arguments name the character
/// (`character_name`), the operation (`Add` or `Remove`) and the qualities (an
/// array).
pub fn handle_update_qualities(args: &JsonValue, game_state: &mut GameState) -> (r: Result<String, Error>)
    ensures
        qualities_outcome(*args, *old(game_state), r, *final(game_state)),
{
    let name = match field_str(args, "character_name") {
        Some(s) => s,
        None => return Err(game_error("Missing character_name")),
    };
    let operation = match field_str(args, "operation") {
        Some(s) => s,
        None => return Err(game_error("Missing operation")),
    };
    let null = JsonValue::Null;
    let qualities = match args.get("qualities") {
        Some(v) => v,
        None => &null,
    };
    let i = character_index(game_state, name.as_str())?;
    let list = match decode_quality_list(qualities) {
        Ok(l) => l,
        Err(e) => return Err(Error::Serialization(e)),
    };
    let op = if str_eq(operation.as_str(), "Add") {
        UpdateOperation::Add(CharacterValue::VecQuality(list))
    } else if str_eq(operation.as_str(), "Remove") {
        UpdateOperation::Remove(CharacterValue::VecQuality(list))
    } else {
        return Err(game_error("Invalid qualities operation"));
    };
    let u = CharacterSheetUpdate::Attribute { attribute: owned("qualities"), operation: op };
    let msg = concat("Updated qualities for character: ", name.as_str());
    let r = update_named(game_state, name.as_str(), i, &u, msg);
    proof {
        let name_arg = arg_string(*args, "character_name"@)->0@;
        let listed = spec_list(member_or_null(*args, "qualities"@), quality_reader())->0;
        assert(qualities_update(arg_string(*args, "operation"@)->0@, listed, u));
        assert(update_outcome(
            *old(game_state),
            name_arg,
            u,
            "Updated qualities for character: "@ + name_arg,
            r,
            *game_state,
        ));
    }
    r
}

/// The contacts of a list by name; a later contact of the same name wins.
pub open spec fn contacts_by_name(s: Seq<Contact>) -> Map<Seq<char>, Contact>
    decreases s.len(),
{
    if s.len() == 0 {
        Map::empty()
    } else {
        contacts_by_name(s.drop_last()).insert(s.last().name@, s.last())
    }
}

fn index_contacts(list: &Vec<Contact>) -> (m: StrMap<Contact>)
    ensures
        m.view() == contacts_by_name(list@),
{
    let mut m: StrMap<Contact> = StrMap::new();
    let n = list.len();
    let mut i: usize = 0;
    assert(list@.take(0) =~= Seq::<Contact>::empty());
    while i < n
        invariant
            n == list@.len(),
            i <= n,
            m.view() == contacts_by_name(list@.take(i as int)),
        decreases n - i,
    {
        assert(list@.take(i + 1).drop_last() =~= list@.take(i as int));
        let c = list[i].clone();
        m.insert(c.name.clone(), c);
        i = i + 1;
    }
    assert(list@.take(n as int) =~= list@);
    m
}

/// The update a contacts call asks for: the contacts, by name, added, removed or
/// replacing the character's.
pub open spec fn contacts_update(operation: Seq<char>, by_name: Map<Seq<char>, Contact>, u: CharacterSheetUpdate) -> bool {
    u matches CharacterSheetUpdate::Attribute { attribute, operation: op } && attribute@
        == "contacts"@ && if operation == "Add"@ {
        op matches UpdateOperation::Add(CharacterValue::HashMapStringContact(v)) && v.view()
            == by_name
    } else if operation == "Remove"@ {
        op matches UpdateOperation::Remove(CharacterValue::HashMapStringContact(v)) && v.view()
            == by_name
    } else {
        op matches UpdateOperation::Modify(CharacterValue::HashMapStringContact(v)) && v.view()
            == by_name
    }
}

/// What a contacts call gives, in this order: an error for a missing name or
/// operation, for an unknown character, for unreadable contacts, for an operation
/// other than `Add`, `Remove` or `Modify`; otherwise the outcome of applying the
/// update.
pub open spec fn contacts_outcome(args: JsonValue, old: GameState, r: Result<String, Error>, new: GameState) -> bool {
    let name = arg_string(args, "character_name"@);
    let operation = arg_string(args, "operation"@);
    let list = spec_list(member_or_null(args, "contacts"@), contact_reader());
    if name is None {
        r is Err && is_game_error(r->Err_0, "Missing character_name"@) && same_session(old, new)
    } else if operation is None {
        r is Err && is_game_error(r->Err_0, "Missing operation"@) && same_session(old, new)
    } else if !has_named(old.characters@, name->0@) {
        r is Err && is_not_found(r->Err_0, name->0@) && same_session(old, new)
    } else if list is None {
        r is Err && r->Err_0 is Serialization && same_session(old, new)
    } else if operation->0@ != "Add"@ && operation->0@ != "Remove"@ && operation->0@ != "Modify"@ {
        r is Err && is_game_error(r->Err_0, "Invalid contacts operation"@) && same_session(old, new)
    } else {
        exists|u: CharacterSheetUpdate|
            contacts_update(operation->0@, contacts_by_name(list->0), u) && update_outcome(
                old,
                name->0@,
                u,
                "Updated contacts for character: "@ + name->0@,
                r,
                new,
            )
    }
}

/// Adds, removes or replaces contacts of a character. The arguments name the
/// character (`character_name`), the operation (`Add`, `Remove` or `Modify`) and
/// the contacts (an array).
pub fn handle_update_contacts(args: &JsonValue, game_state: &mut GameState) -> (r: Result<String, Error>)
    ensures
        contacts_outcome(*args, *old(game_state), r, *final(game_state)),
{
    let name = match field_str(args, "character_name") {
        Some(s) => s,
        None => return Err(game_error("Missing character_name")),
    };
    let operation = match field_str(args, "operation") {
        Some(s) => s,
        None => return Err(game_error("Missing operation")),
    };
    let null = JsonValue::Null;
    let contacts = match args.get("contacts") {
        Some(v) => v,
        None => &null,
    };
    let i = character_index(game_state, name.as_str())?;
    let list = match decode_contact_list(contacts) {
        Ok(l) => l,
        Err(e) => return Err(Error::Serialization(e)),
    };
    let by_name = index_contacts(&list);
    let op = if str_eq(operation.as_str(), "Add") {
        UpdateOperation::Add(CharacterValue::HashMapStringContact(by_name))
    } else if str_eq(operation.as_str(), "Remove") {
        UpdateOperation::Remove(CharacterValue::HashMapStringContact(by_name))
    } else if str_eq(operation.as_str(), "Modify") {
        UpdateOperation::Modify(CharacterValue::HashMapStringContact(by_name))
    } else {
        return Err(game_error("Invalid contacts operation"));
    };
    let u = CharacterSheetUpdate::Attribute { attribute: owned("contacts"), operation: op };
    let msg = concat("Updated contacts for character: ", name.as_str());
    let r = update_named(game_state, name.as_str(), i, &u, msg);
    proof {
        let name_arg = arg_string(*args, "character_name"@)->0@;
        let listed = spec_list(member_or_null(*args, "contacts"@), contact_reader())->0;
        assert(contacts_update(arg_string(*args, "operation"@)->0@, contacts_by_name(listed), u));
        assert(update_outcome(
            *old(game_state),
            name_arg,
            u,
            "Updated contacts for character: "@ + name_arg,
            r,
            *game_state,
        ));
    }
    r
}

/// The update an augmentations call asks for: the augmentations added to or
/// removed from the list the call names.
pub open spec fn augmentations_update(
    kind: Seq<char>,
    operation: Seq<char>,
    list: Seq<String>,
    u: CharacterSheetUpdate,
) -> bool {
    u matches CharacterSheetUpdate::Attribute { attribute, operation: op } && attribute@ == kind
        && if operation == "Add"@ {
        op matches UpdateOperation::Add(CharacterValue::VecString(v)) && v@ == list
    } else {
        op matches UpdateOperation::Remove(CharacterValue::VecString(v)) && v@ == list
    }
}

/// What an augmentations call gives, in this order: an error for a missing name,
/// operation or kind of augmentation, for an unknown character, for an unreadable
/// list, for an operation other than `Add` or `Remove`; otherwise the outcome of
/// applying the update, whose answer names the kind, the character and the
/// operation.
pub open spec fn augmentations_outcome(args: JsonValue, old: GameState, r: Result<String, Error>, new: GameState) -> bool {
    let name = arg_string(args, "character_name"@);
    let operation = arg_string(args, "operation"@);
    let kind = arg_string(args, "augmentation_type"@);
    let list = spec_list(member_or_null(args, "augmentations"@), string_reader());
    if name is None {
        r is Err && is_game_error(r->Err_0, "Missing character_name"@) && same_session(old, new)
    } else if operation is None {
        r is Err && is_game_error(r->Err_0, "Missing operation"@) && same_session(old, new)
    } else if kind is None {
        r is Err && is_game_error(r->Err_0, "Missing augmentation_type"@) && same_session(old, new)
    } else if !has_named(old.characters@, name->0@) {
        r is Err && is_not_found(r->Err_0, name->0@) && same_session(old, new)
    } else if list is None {
        r is Err && r->Err_0 is Serialization && same_session(old, new)
    } else if operation->0@ != "Add"@ && operation->0@ != "Remove"@ {
        r is Err && is_game_error(r->Err_0, "Invalid augmentations operation"@) && same_session(
            old,
            new,
        )
    } else {
        exists|u: CharacterSheetUpdate|
            augmentations_update(kind->0@, operation->0@, list->0, u) && update_outcome(
                old,
                name->0@,
                u,
                kind->0@ + " updated for character '"@ + name->0@ + "'. Operation: "@
                    + operation->0@,
                r,
                new,
            )
    }
}

/// Adds or removes cyberware or bioware of a character. The arguments name the
/// character (`character_name`), the operation (`Add` or `Remove`), the list
/// (`augmentation_type`) and the augmentations (an array of strings).
pub fn handle_update_augmentations(args: &JsonValue, game_state: &mut GameState) -> (r: Result<String, Error>)
    ensures
        augmentations_outcome(*args, *old(game_state), r, *final(game_state)),
{
    let name = match field_str(args, "character_name") {
        Some(s) => s,
        None => return Err(game_error("Missing character_name")),
    };
    let operation = match field_str(args, "operation") {
        Some(s) => s,
        None => return Err(game_error("Missing operation")),
    };
    let kind = match field_str(args, "augmentation_type") {
        Some(s) => s,
        None => return Err(game_error("Missing augmentation_type")),
    };
    let null = JsonValue::Null;
    let augmentations = match args.get("augmentations") {
        Some(v) => v,
        None => &null,
    };
    let i = character_index(game_state, name.as_str())?;
    let list = match decode_string_list(augmentations) {
        Ok(l) => l,
        Err(e) => return Err(Error::Serialization(e)),
    };
    let op = if str_eq(operation.as_str(), "Add") {
        UpdateOperation::Add(CharacterValue::VecString(list))
    } else if str_eq(operation.as_str(), "Remove") {
        UpdateOperation::Remove(CharacterValue::VecString(list))
    } else {
        return Err(game_error("Invalid augmentations operation"));
    };
    let u = CharacterSheetUpdate::Attribute { attribute: kind.clone(), operation: op };
    let mut msg = concat(kind.as_str(), " updated for character '");
    msg.append(name.as_str());
    msg.append("'. Operation: ");
    msg.append(operation.as_str());
    let r = update_named(game_state, name.as_str(), i, &u, msg);
    proof {
        let name_arg = arg_string(*args, "character_name"@)->0@;
        let op_arg = arg_string(*args, "operation"@)->0@;
        let kind_arg = arg_string(*args, "augmentation_type"@)->0@;
        let listed = spec_list(member_or_null(*args, "augmentations"@), string_reader())->0;
        assert(augmentations_update(kind_arg, op_arg, listed, u));
        assert(update_outcome(
            *old(game_state),
            name_arg,
            u,
            kind_arg + " updated for character '"@ + name_arg + "'. Operation: "@ + op_arg,
            r,
            *game_state,
        ));
    }
    r
}

/// The update a matrix call asks for: the matrix attributes replaced.
pub open spec fn matrix_update(m: crate::character::MatrixAttributes, u: CharacterSheetUpdate) -> bool {
    u matches CharacterSheetUpdate::Attribute { attribute, operation: op } && attribute@
        == "matrix_attributes"@ && op == UpdateOperation::Modify(
        CharacterValue::OptionMatrixAttributes(Some(m)),
    )
}

/// What a matrix call gives, in this order: an error for a missing name, for an
/// unknown character, for unreadable attributes; otherwise the outcome of applying
/// the update.
pub open spec fn matrix_outcome(args: JsonValue, old: GameState, r: Result<String, Error>, new: GameState) -> bool {
    let name = arg_string(args, "character_name"@);
    let m = spec_matrix(member_or_null(args, "matrix_attributes"@));
    if name is None {
        r is Err && is_game_error(r->Err_0, "Missing character_name"@) && same_session(old, new)
    } else if !has_named(old.characters@, name->0@) {
        r is Err && is_not_found(r->Err_0, name->0@) && same_session(old, new)
    } else if m is None {
        r is Err && r->Err_0 is Serialization && same_session(old, new)
    } else {
        exists|u: CharacterSheetUpdate|
            matrix_update(m->0, u) && update_outcome(
                old,
                name->0@,
                u,
                "Updated matrix attributes for character: "@ + name->0@,
                r,
                new,
            )
    }
}

/// Replaces the matrix attributes of a character. The arguments name the
/// character (`character_name`) and give the attributes (`matrix_attributes`:
/// attack, sleaze, data processing, firewall).
pub fn handle_update_matrix_attributes(args: &JsonValue, game_state: &mut GameState) -> (r: Result<String, Error>)
    ensures
        matrix_outcome(*args, *old(game_state), r, *final(game_state)),
{
    let name = match field_str(args, "character_name") {
        Some(s) => s,
        None => return Err(game_error("Missing character_name")),
    };
    let null = JsonValue::Null;
    let value = match args.get("matrix_attributes") {
        Some(v) => v,
        None => &null,
    };
    let i = character_index(game_state, name.as_str())?;
    let m = match decode_matrix(value) {
        Ok(m) => m,
        Err(e) => return Err(Error::Serialization(e)),
    };
    let u = CharacterSheetUpdate::Attribute {
        attribute: owned("matrix_attributes"),
        operation: UpdateOperation::Modify(CharacterValue::OptionMatrixAttributes(Some(m))),
    };
    let msg = concat("Updated matrix attributes for character: ", name.as_str());
    let r = update_named(game_state, name.as_str(), i, &u, msg);
    proof {
        let name_arg = arg_string(*args, "character_name"@)->0@;
        assert(matrix_update(spec_matrix(member_or_null(*args, "matrix_attributes"@))->0, u));
        assert(update_outcome(
            *old(game_state),
            name_arg,
            u,
            "Updated matrix attributes for character: "@ + name_arg,
            r,
            *game_state,
        ));
    }
    r
}

/// The name, quantity and description of an item.
pub open spec fn item_view(i: Item) -> (Seq<char>, u32, Seq<char>) {
    (i.name@, i.quantity, i.description@)
}

/// The items of `v` are, name for name, those `want` lists.
pub open spec fn changes_as(
    v: Map<Seq<char>, Item>,
    want: Map<Seq<char>, (Seq<char>, u32, Seq<char>)>,
) -> bool {
    &&& v.dom() == want.dom()
    &&& forall|k: Seq<char>| #[trigger] v.contains_key(k) ==> item_view(v[k]) == want[k]
}

/// Inserting the same item on both sides keeps the items as listed.
pub proof fn lemma_changes_insert(
    v: Map<Seq<char>, Item>,
    want: Map<Seq<char>, (Seq<char>, u32, Seq<char>)>,
    k: Seq<char>,
    it: Item,
)
    requires
        changes_as(v, want),
    ensures
        changes_as(v.insert(k, it), want.insert(k, item_view(it))),
{
    assert(v.insert(k, it).dom() =~= want.insert(k, item_view(it)).dom());
}

/// One of each named item, to take away.
pub open spec fn removal_of(names: Seq<Seq<char>>) -> Map<Seq<char>, (Seq<char>, u32, Seq<char>)>
    decreases names.len(),
{
    if names.len() == 0 {
        Map::empty()
    } else {
        removal_of(names.drop_last()).insert(names.last(), (names.last(), 1u32, Seq::empty()))
    }
}

/// An item listed under `key` in an object of items: its quantity (1 when absent,
/// cut to 32 bits) and description (empty when absent).
pub open spec fn listed_item(key: Seq<char>, v: JsonValue) -> (Seq<char>, u32, Seq<char>) {
    (
        key,
        match json_u64(json_get(v, "quantity"@)) {
            Some(n) => n as u32,
            None => 1,
        },
        match json_str(json_get(v, "description"@)) {
            Some(s) => s@,
            None => Seq::empty(),
        },
    )
}

/// The items of an object of items, each an object; nothing if one is not.
pub open spec fn listed_items(members: Seq<(String, JsonValue)>) -> Option<
    Map<Seq<char>, (Seq<char>, u32, Seq<char>)>,
>
    decreases members.len(),
{
    if members.len() == 0 {
        Some(Map::empty())
    } else {
        match listed_items(members.drop_last()) {
            Some(m) => if members.last().1 is Object {
                Some(m.insert(members.last().0@, listed_item(members.last().0@, members.last().1)))
            } else {
                None
            },
            None => None,
        }
    }
}

/// The names of strings.
pub open spec fn names_of(s: Seq<String>) -> Seq<Seq<char>> {
    s.map_values(|x: String| x@)
}

/// The keys of an object's members.
pub open spec fn keys_of(members: Seq<(String, JsonValue)>) -> Seq<Seq<char>> {
    members.map_values(|p: (String, JsonValue)| p.0@)
}

/// The items of an inventory call: `items`, else `item`.
pub open spec fn items_arg(args: JsonValue) -> Option<JsonValue> {
    match json_get(args, "items"@) {
        Some(v) => Some(v),
        None => json_get(args, "item"@),
    }
}

/// The changes an inventory call lists for `operation`, or its error: `Err(None)`
/// for unreadable JSON, `Err(Some(text))` for a game error. A removal takes an
/// array of names, one item, or an object of items (by key); an addition or
/// modification takes one item or an object of items.
pub open spec fn inventory_changes(operation: Seq<char>, items: JsonValue) -> Result<
    Map<Seq<char>, (Seq<char>, u32, Seq<char>)>,
    Option<Seq<char>>,
> {
    if operation == "Remove"@ {
        match items {
            JsonValue::Array(_) => match spec_list(items, string_reader()) {
                Some(l) => Ok(removal_of(names_of(l))),
                None => Err(None),
            },
            JsonValue::Object(members) => if json_get(items, "name"@) is Some {
                match json_str(json_get(items, "name"@)) {
                    Some(n) => Ok(removal_of(seq![n@])),
                    None => Err(Some("Not a String"@)),
                }
            } else {
                Ok(removal_of(keys_of(members@)))
            },
            _ => Err(Some("Invalid items format for removal"@)),
        }
    } else if operation == "Add"@ || operation == "Modify"@ {
        match items {
            JsonValue::Object(members) => if json_get(items, "name"@) is Some {
                match spec_item(items) {
                    Some(it) => Ok(map![it.name@ => item_view(it)]),
                    None => Err(None),
                }
            } else {
                match listed_items(members@) {
                    Some(m) => Ok(m),
                    None => Err(Some("Invalid item format"@)),
                }
            },
            _ => Err(Some("Invalid inventory operation"@)),
        }
    } else {
        Err(Some("Invalid inventory operation"@))
    }
}

/// The update an inventory call asks for: the listed items added, removed or
/// modified.
pub open spec fn inventory_update(
    operation: Seq<char>,
    changes: Map<Seq<char>, (Seq<char>, u32, Seq<char>)>,
    u: CharacterSheetUpdate,
) -> bool {
    u matches CharacterSheetUpdate::Attribute { attribute, operation: op } && attribute@
        == "inventory"@ && if operation == "Add"@ {
        op matches UpdateOperation::Add(CharacterValue::HashMapStringItem(v)) && changes_as(
            v.view(),
            changes,
        )
    } else if operation == "Remove"@ {
        op matches UpdateOperation::Remove(CharacterValue::HashMapStringItem(v)) && changes_as(
            v.view(),
            changes,
        )
    } else {
        op matches UpdateOperation::Modify(CharacterValue::HashMapStringItem(v)) && changes_as(
            v.view(),
            changes,
        )
    }
}

/// What an inventory call gives, in this order: an error for a missing name,
/// operation or items, for an unknown character, for changes that cannot be read;
/// otherwise the outcome of applying the update.
pub open spec fn inventory_outcome(args: JsonValue, old: GameState, r: Result<String, Error>, new: GameState) -> bool {
    let name = arg_string(args, "character_name"@);
    let operation = arg_string(args, "operation"@);
    let items = items_arg(args);
    if name is None {
        r is Err && is_game_error(r->Err_0, "Missing character_name"@) && same_session(old, new)
    } else if operation is None {
        r is Err && is_game_error(r->Err_0, "Missing operation"@) && same_session(old, new)
    } else if items is None {
        r is Err && is_game_error(r->Err_0, "No items or item for add/modify"@) && same_session(
            old,
            new,
        )
    } else if !has_named(old.characters@, name->0@) {
        r is Err && is_not_found(r->Err_0, name->0@) && same_session(old, new)
    } else {
        match inventory_changes(operation->0@, items->0) {
            Err(None) => r is Err && r->Err_0 is Serialization && same_session(old, new),
            Err(Some(msg)) => r is Err && is_game_error(r->Err_0, msg) && same_session(old, new),
            Ok(changes) => exists|u: CharacterSheetUpdate|
                inventory_update(operation->0@, changes, u) && update_outcome(
                    old,
                    name->0@,
                    u,
                    "Updated inventory for character: "@ + name->0@,
                    r,
                    new,
                ),
        }
    }
}

fn removal_from_names(names: &Vec<String>) -> (m: StrMap<Item>)
    ensures
        changes_as(m.view(), removal_of(names_of(names@))),
{
    let ghost all = names_of(names@);
    let mut m: StrMap<Item> = StrMap::new();
    let n = names.len();
    let mut i: usize = 0;
    assert(m.view().dom() =~= removal_of(all.take(0)).dom());
    while i < n
        invariant
            n == names@.len(),
            all == names_of(names@),
            i <= n,
            changes_as(m.view(), removal_of(all.take(i as int))),
        decreases n - i,
    {
        assert(all.take(i + 1).drop_last() =~= all.take(i as int));
        assert(all.take(i + 1).last() == names@[i as int]@);
        let it = Item { name: names[i].clone(), quantity: 1, description: String::new() };
        proof {
            lemma_changes_insert(m.view(), removal_of(all.take(i as int)), names@[i as int]@, it);
        }
        m.insert(names[i].clone(), it);
        i = i + 1;
    }
    assert(all.take(n as int) =~= all);
    m
}

fn removal_from_keys(members: &Vec<(String, JsonValue)>) -> (m: StrMap<Item>)
    ensures
        changes_as(m.view(), removal_of(keys_of(members@))),
{
    let ghost all = keys_of(members@);
    let mut m: StrMap<Item> = StrMap::new();
    let n = members.len();
    let mut i: usize = 0;
    assert(m.view().dom() =~= removal_of(all.take(0)).dom());
    while i < n
        invariant
            n == members@.len(),
            all == keys_of(members@),
            i <= n,
            changes_as(m.view(), removal_of(all.take(i as int))),
        decreases n - i,
    {
        assert(all.take(i + 1).drop_last() =~= all.take(i as int));
        assert(all.take(i + 1).last() == members@[i as int].0@);
        let it = Item { name: members[i].0.clone(), quantity: 1, description: String::new() };
        proof {
            lemma_changes_insert(
                m.view(),
                removal_of(all.take(i as int)),
                members@[i as int].0@,
                it,
            );
        }
        m.insert(members[i].0.clone(), it);
        i = i + 1;
    }
    assert(all.take(n as int) =~= all);
    m
}

/// A failing prefix fails the object of items.
pub proof fn lemma_listed_items_prefix(members: Seq<(String, JsonValue)>, k: int)
    requires
        0 <= k <= members.len(),
        listed_items(members.take(k)) is None,
    ensures
        listed_items(members) is None,
    decreases members.len() - k,
{
    if k < members.len() {
        assert(members.take(k + 1).drop_last() =~= members.take(k));
        lemma_listed_items_prefix(members, k + 1);
    } else {
        assert(members.take(k) =~= members);
    }
}

fn items_from_members(members: &Vec<(String, JsonValue)>) -> (r: Option<StrMap<Item>>)
    ensures
        match r {
            Some(m) => listed_items(members@) matches Some(want) && changes_as(m.view(), want),
            None => listed_items(members@) is None,
        },
{
    let mut m: StrMap<Item> = StrMap::new();
    let n = members.len();
    let mut i: usize = 0;
    assert(members@.take(0) =~= Seq::<(String, JsonValue)>::empty());
    assert(m.view().dom() =~= Map::<Seq<char>, (Seq<char>, u32, Seq<char>)>::empty().dom());
    while i < n
        invariant
            n == members@.len(),
            i <= n,
            listed_items(members@.take(i as int)) matches Some(want) && changes_as(m.view(), want),
        decreases n - i,
    {
        assert(members@.take(i + 1).drop_last() =~= members@.take(i as int));
        assert(members@.take(i + 1).last() == members@[i as int]);
        let value = &members[i].1;
        if !value.is_object() {
            proof {
                lemma_listed_items_prefix(members@, i + 1);
            }
            return None;
        }
        let quantity: u32 = match field_u64(value, "quantity") {
            Some(q) => q as u32,
            None => 1,
        };
        let description = match field_str(value, "description") {
            Some(d) => d.clone(),
            None => String::new(),
        };
        let it = Item { name: members[i].0.clone(), quantity, description };
        proof {
            let want = listed_items(members@.take(i as int))->0;
            lemma_changes_insert(m.view(), want, members@[i as int].0@, it);
        }
        m.insert(members[i].0.clone(), it);
        i = i + 1;
    }
    assert(members@.take(n as int) =~= members@);
    Some(m)
}

/// Adds, removes or modifies items of a character. The arguments name the
/// character (`character_name`), the operation (`Add`, `Remove` or `Modify`) and
/// the items (`items`, else `item`).
pub fn handle_update_inventory(args: &JsonValue, game_state: &mut GameState) -> (r: Result<String, Error>)
    ensures
        inventory_outcome(*args, *old(game_state), r, *final(game_state)),
{
    let name = match field_str(args, "character_name") {
        Some(s) => s,
        None => return Err(game_error("Missing character_name")),
    };
    let operation = match field_str(args, "operation") {
        Some(s) => s,
        None => return Err(game_error("Missing operation")),
    };
    let items = match args.get("items") {
        Some(v) => v,
        None => match args.get("item") {
            Some(v) => v,
            None => return Err(game_error("No items or item for add/modify")),
        },
    };
    let i = character_index(game_state, name.as_str())?;
    let op = operation.as_str();
    let changes: StrMap<Item> = if str_eq(op, "Remove") {
        match items {
            JsonValue::Array(_) => match decode_string_list(items) {
                Ok(names) => removal_from_names(&names),
                Err(e) => return Err(Error::Serialization(e)),
            },
            JsonValue::Object(members) => match items.get("name") {
                Some(n) => match n.as_str() {
                    Some(n) => {
                        let mut names: Vec<String> = Vec::new();
                        names.push(n.clone());
                        assert(names_of(names@) =~= seq![n@]);
                        removal_from_names(&names)
                    },
                    None => return Err(game_error("Not a String")),
                },
                None => removal_from_keys(members),
            },
            _ => return Err(game_error("Invalid items format for removal")),
        }
    } else if str_eq(op, "Add") || str_eq(op, "Modify") {
        match items {
            JsonValue::Object(members) => match items.get("name") {
                Some(_) => match decode_item(items) {
                    Ok(it) => {
                        let mut m: StrMap<Item> = StrMap::new();
                        let ghost want = map![it.name@ => item_view(it)];
                        proof {
                            lemma_changes_insert(
                                m.view(),
                                Map::<Seq<char>, (Seq<char>, u32, Seq<char>)>::empty(),
                                it.name@,
                                it,
                            );
                            assert(m.view().dom() =~= Map::<
                                Seq<char>,
                                (Seq<char>, u32, Seq<char>),
                            >::empty().dom());
                            assert(Map::<Seq<char>, (Seq<char>, u32, Seq<char>)>::empty().insert(
                                it.name@,
                                item_view(it),
                            ) =~= want);
                        }
                        m.insert(it.name.clone(), it);
                        m
                    },
                    Err(e) => return Err(Error::Serialization(e)),
                },
                None => match items_from_members(members) {
                    Some(m) => m,
                    None => return Err(game_error("Invalid item format")),
                },
            },
            _ => return Err(game_error("Invalid inventory operation")),
        }
    } else {
        return Err(game_error("Invalid inventory operation"));
    };
    let ghost changes_view = changes.view();
    let value = CharacterValue::HashMapStringItem(changes);
    let update_op = if str_eq(op, "Add") {
        UpdateOperation::Add(value)
    } else if str_eq(op, "Remove") {
        UpdateOperation::Remove(value)
    } else {
        UpdateOperation::Modify(value)
    };
    let u = CharacterSheetUpdate::Attribute { attribute: owned("inventory"), operation: update_op };
    let msg = concat("Updated inventory for character: ", name.as_str());
    let r = update_named(game_state, name.as_str(), i, &u, msg);
    proof {
        let name_arg = arg_string(*args, "character_name"@)->0@;
        let op_arg = arg_string(*args, "operation"@)->0@;
        let want = inventory_changes(op_arg, items_arg(*args)->0)->Ok_0;
        assert(changes_as(changes_view, want));
        assert(inventory_update(op_arg, want, u));
        assert(update_outcome(
            *old(game_state),
            name_arg,
            u,
            "Updated inventory for character: "@ + name_arg,
            r,
            *game_state,
        ));
    }
    r
}

} // verus!
