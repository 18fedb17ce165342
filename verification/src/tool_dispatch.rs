//! Answering the game master's tool calls: the fallback character, creating a
//! character sheet, rolling dice for a character, and choosing the handler by the
//! called function's name.
use vstd::prelude::*;

use crate::character::{
    derived_consistent, starting_essence, Attributes, CharacterSheet, CharacterSheetBuilder,
    Magic, Race, Resonance, Skill, Skills, same_sheet,
};
use crate::character::{dice_pool, limit_named};
use crate::dice::{
    answers, edge_named, parse_edge, perform_dice_roll, roll_fits, roll_outcome, DiceRollRequest,
    DiceRollResponse, EdgeAction,
};
use crate::error::{Error, ShadowrunError};
use crate::game_master::{create_character, created_from, creation_fits, creation_valid};
use crate::game_state::{find_character, has_named, is_first_named, GameState};
use crate::json::{json_str, member_or_null_of, parse_json, spec_parse_json, JsonValue};
use crate::json_decode::{
    read_opt_string, read_opt_u8, read_string, record_field, record_member, record_shape,
    spec_opt_str, spec_opt_u8,
};
use crate::strmap::StrMap;
use crate::strmap::str_eq;
use crate::text::{concat, owned};
use crate::attribute_calls::{
    basic_outcome, handle_update_basic_attributes, handle_update_skills, skills_outcome,
};
use crate::tool_calls::{
    augmentations_outcome, contacts_outcome, handle_update_augmentations, handle_update_contacts,
    handle_update_inventory, handle_update_matrix_attributes, handle_update_qualities,
    inventory_outcome, is_game_error, lemma_first_named_unique, matrix_outcome, member_or_null,
    qualities_outcome, same_session,
};

verus! {

broadcast use vstd::string::group_string_axioms;

/// The skills of the fallback character: one point in two skills of each group.
pub open spec fn dummy_skills(s: Skills) -> bool {
    &&& s.combat.view() == map!["Unarmed Combat"@ => 1u8, "Pistols"@ => 1u8]
    &&& s.physical.view() == map!["Running"@ => 1u8, "Sneaking"@ => 1u8]
    &&& s.social.view() == map!["Etiquette"@ => 1u8, "Negotiation"@ => 1u8]
    &&& s.technical.view() == map!["Computer"@ => 1u8, "First Aid"@ => 1u8]
}

/// The fallback character: a human with every attribute at 3, no Magic or
/// Resonance, a point in two skills of each group, 5000 nuyen and nothing else.
pub open spec fn dummy_sheet(s: CharacterSheet) -> bool {
    &&& s.name@ == "Dummy Character"@
    &&& s.race == Race::Human
    &&& s.gender@ == "Unspecified"@
    &&& s.backstory@ == "This is a dummy character created as a fallback."@
    &&& !s.main
    &&& s.attributes == (Attributes {
        body: 3,
        agility: 3,
        strength: 3,
        reaction: 3,
        willpower: 3,
        intuition: 3,
        charisma: 3,
        logic: 3,
        edge: 3,
    })
    &&& s.magic == (Magic { magic: Some(0) })
    &&& s.resonance == (Resonance { resonance: Some(0) })
    &&& s.derived_attributes.essence == starting_essence()
    &&& s.derived_attributes.edge_points == s.attributes.edge
    &&& s.derived_attributes.armor == 0
    &&& derived_consistent(s.attributes, s.derived_attributes)
    &&& dummy_skills(s.skills)
    &&& s.knowledge_skills.view() == Map::<Seq<char>, u8>::empty()
    &&& s.qualities@.len() == 0
    &&& s.nuyen == 5000
    &&& s.lifestyle@ == "Street"@
    &&& s.cyberware@.len() == 0
    &&& s.bioware@.len() == 0
    &&& s.inventory.view() == Map::<Seq<char>, crate::character::Item>::empty()
    &&& s.contacts.view() == Map::<Seq<char>, crate::character::Contact>::empty()
    &&& s.matrix_attributes is None
}

fn pair_of_skills(a: &str, b: &str) -> (m: Skill)
    ensures
        m.view() == map![a@ => 1u8, b@ => 1u8],
{
    let mut m: Skill = StrMap::new();
    m.insert(owned(a), 1);
    m.insert(owned(b), 1);
    assert(m.view() =~= map![a@ => 1u8, b@ => 1u8]);
    m
}

/// The character used when a creation call cannot be read.
pub fn create_dummy_character() -> (s: CharacterSheet)
    ensures
        dummy_sheet(s),
{
    let skills = Skills {
        combat: pair_of_skills("Unarmed Combat", "Pistols"),
        physical: pair_of_skills("Running", "Sneaking"),
        social: pair_of_skills("Etiquette", "Negotiation"),
        technical: pair_of_skills("Computer", "First Aid"),
    };
    let b = CharacterSheetBuilder::new(
        owned("Dummy Character"),
        Race::Human,
        owned("Unspecified"),
        owned("This is a dummy character created as a fallback."),
        false,
    ).body(3).agility(3).reaction(3).strength(3).willpower(3).logic(3).intuition(3).charisma(
        3,
    ).edge(3).magic(0).resonance(0).skills(skills).knowledge_skills(StrMap::new()).qualities(
        Vec::new(),
    ).nuyen(5000).inventory(StrMap::new()).contacts(StrMap::new());
    b.build()
}

/// The sheet a creation call makes: the character its arguments describe, or the
/// fallback character when they cannot be read or would not fit.
pub open spec fn created_sheet(args: JsonValue, s: CharacterSheet) -> bool {
    if creation_valid(args) && creation_fits(args) {
        created_from(args, s)
    } else {
        dummy_sheet(s)
    }
}

/// The session after adding the sheet `s`: it joins the characters and becomes
/// the main sheet.
pub open spec fn sheet_added(old: GameState, s: CharacterSheet, new: GameState) -> bool {
    &&& new.characters@.len() == old.characters@.len() + 1
    &&& new.characters@.drop_last() == old.characters@
    &&& same_sheet(new.characters@.last(), s)
    &&& new.main_character_sheet matches Some(m) && same_sheet(m, s)
    &&& new.assistant_id == old.assistant_id
    &&& new.thread_id == old.thread_id
    &&& new.save_name == old.save_name
    &&& new.save_path == old.save_path
    &&& new.image_path == old.image_path
}

/// Creates the character a creation call describes (the fallback character when
/// the arguments cannot be read), adds it to the session and makes it the main
/// sheet. Returns the sheet, which is the call's answer.
pub fn handle_create_character_sheet(args: &JsonValue, game_state: &mut GameState) -> (s: CharacterSheet)
    ensures
        created_sheet(*args, s),
        sheet_added(*old(game_state), s, *final(game_state)),
{
    let sheet = match create_character(args) {
        Ok(s) => s,
        Err(_) => create_dummy_character(),
    };
    if sheet.main {
        game_state.main_character_sheet = Some(sheet.clone());
    }
    let ghost before = game_state.characters@;
    game_state.characters.push(sheet.clone());
    assert(game_state.characters@.drop_last() =~= before);
    game_state.main_character_sheet = Some(sheet.clone());
    sheet
}

/// The roll request written as `v`: an object with the fields by name, or an
/// array of the seven fields in order; the threshold and the extra dice are bytes,
/// and they and the Edge action may be missing or null.
pub open spec fn spec_dice_request(v: JsonValue) -> Option<DiceRollRequest> {
    let character_name = json_str(record_field(v, "character_name"@, 0, 7));
    let attribute = json_str(record_field(v, "attribute"@, 1, 7));
    let skill = json_str(record_field(v, "skill"@, 2, 7));
    let limit_type = json_str(record_field(v, "limit_type"@, 3, 7));
    let threshold = spec_opt_u8(record_field(v, "threshold"@, 4, 7));
    let edge_action = spec_opt_str(record_field(v, "edge_action"@, 5, 7));
    let extra_dice = spec_opt_u8(record_field(v, "extra_dice"@, 6, 7));
    if record_shape(v, 7) && character_name is Some && attribute is Some && skill is Some
        && limit_type is Some && threshold is Some && edge_action is Some && extra_dice is Some {
        Some(
            DiceRollRequest {
                character_name: character_name->0,
                attribute: attribute->0,
                skill: skill->0,
                limit_type: limit_type->0,
                threshold: threshold->0,
                edge_action: edge_action->0,
                extra_dice: extra_dice->0,
            },
        )
    } else {
        None
    }
}

fn unreadable_request() -> (e: Error)
    ensures
        e is Serialization,
{
    Error::Serialization(owned("invalid roll request"))
}

/// Reads a roll request.
pub fn decode_dice_request(v: &JsonValue) -> (r: Result<DiceRollRequest, Error>)
    ensures
        match r {
            Ok(req) => spec_dice_request(*v) == Some(req),
            Err(e) => spec_dice_request(*v) is None && e is Serialization,
        },
{
    if !(match v {
        JsonValue::Object(_) => true,
        JsonValue::Array(a) => a.len() == 7,
        _ => false,
    }) {
        return Err(unreadable_request());
    }
    let character_name = match read_string(record_member(v, "character_name", 0, 7)) {
        Some(s) => s,
        None => return Err(unreadable_request()),
    };
    let attribute = match read_string(record_member(v, "attribute", 1, 7)) {
        Some(s) => s,
        None => return Err(unreadable_request()),
    };
    let skill = match read_string(record_member(v, "skill", 2, 7)) {
        Some(s) => s,
        None => return Err(unreadable_request()),
    };
    let limit_type = match read_string(record_member(v, "limit_type", 3, 7)) {
        Some(s) => s,
        None => return Err(unreadable_request()),
    };
    let threshold = match read_opt_u8(record_member(v, "threshold", 4, 7)) {
        Ok(t) => t,
        Err(()) => return Err(unreadable_request()),
    };
    let edge_action = match read_opt_string(record_member(v, "edge_action", 5, 7)) {
        Ok(t) => t,
        Err(()) => return Err(unreadable_request()),
    };
    let extra_dice = match read_opt_u8(record_member(v, "extra_dice", 6, 7)) {
        Ok(t) => t,
        Err(()) => return Err(unreadable_request()),
    };
    Ok(DiceRollRequest { character_name, attribute, skill, limit_type, threshold, edge_action, extra_dice })
}

/// Whether a roll request can be rolled without overflow: true when nobody has the
/// name; otherwise the pool must fit in a byte and, when the Edge action is known,
/// the threshold must double within a byte.
pub fn check_roll_fits(request: &DiceRollRequest, game_state: &GameState) -> (b: bool)
    ensures
        b == roll_fits(*request, *game_state),
{
    match find_character(&game_state.characters, request.character_name.as_str()) {
        None => true,
        Some(i) => {
            proof {
                assert forall|j: int|
                    #[trigger] is_first_named(
                        game_state.characters@,
                        request.character_name@,
                        j,
                    ) implies j == i by {
                    lemma_first_named_unique(
                        game_state.characters@,
                        request.character_name@,
                        i as int,
                        j,
                    );
                }
            }
            let pool_fits = game_state.characters[i].checked_dice_pool(
                request.attribute.as_str(),
                request.skill.as_str(),
            ).is_some();
            let threshold_fits = match request.threshold {
                Some(t) => t <= 127,
                None => true,
            };
            let edge_known = parse_edge(&request.edge_action, request.extra_dice).is_ok();
            pool_fits && (!edge_known || threshold_fits)
        },
    }
}

/// The answer to a roll that could not be made: no dice, no hits, no success.
pub open spec fn empty_response(r: DiceRollResponse) -> bool {
    &&& r.dice_results@.len() == 0
    &&& r.hits == 0
    &&& !r.success
    &&& !r.glitch
    &&& !r.critical_glitch
    &&& !r.critical_success
}

/// What a roll call answers for the arguments `args`: an error for an unreadable
/// request; the empty answer when no character has the name; an error when the
/// character's pool, or the threshold of a known Edge action, would overflow; the
/// empty answer when the Edge action is unknown; otherwise the roll of the first
/// character of that name.
pub open spec fn roll_answer(args: JsonValue, game_state: GameState, r: Result<DiceRollResponse, Error>) -> bool {
    match spec_dice_request(args) {
        None => r is Err && r->Err_0 is Serialization,
        Some(req) => if !has_named(game_state.characters@, req.character_name@) {
            r is Ok && empty_response(r->Ok_0)
        } else if !roll_fits(req, game_state) {
            r is Err && r->Err_0 is Overflow
        } else if edge_named(req.edge_action, req.extra_dice) is Err {
            r is Ok && empty_response(r->Ok_0)
        } else {
            r is Ok && exists|i: int|
                is_first_named(game_state.characters@, req.character_name@, i) && answers(
                    r->Ok_0,
                    req,
                    game_state,
                    i,
                    edge_named(req.edge_action, req.extra_dice)->Ok_0,
                )
        },
    }
}

/// Rolls the test a roll call asks for. A request that cannot be rolled (unknown
/// character or Edge action) gets the empty answer.
pub fn handle_perform_dice_roll(args: &JsonValue, game_state: &GameState) -> (r: Result<
    DiceRollResponse,
    Error,
>)
    ensures
        roll_answer(*args, *game_state, r),
{
    let request = decode_dice_request(args)?;
    if !check_roll_fits(&request, game_state) {
        return Err(Error::Overflow(owned("dice pool")));
    }
    let ghost req = request;
    match perform_dice_roll(request, game_state) {
        Ok(response) => Ok(response),
        Err(_) => Ok(
            DiceRollResponse {
                hits: 0,
                glitch: false,
                critical_glitch: false,
                critical_success: false,
                dice_results: Vec::new(),
                success: false,
            },
        ),
    }
}

/// What a tool call answers.
#[derive(Debug)]
pub enum ToolOutput {
    /// A message for the game master.
    Text(String),
    /// The sheet created, sent back as JSON.
    Sheet(CharacterSheet),
    /// The outcome of a roll, sent back as JSON.
    Roll(DiceRollResponse),
    /// A portrait to draw from the given prompt; the call is answered that it
    /// started.
    Image(JsonValue),
}

/// The text answer or the error of a call, if that is what `r` is.
pub open spec fn text_result(r: Result<ToolOutput, Error>) -> Option<Result<String, Error>> {
    match r {
        Ok(ToolOutput::Text(s)) => Some(Ok(s)),
        Err(e) => Some(Err(e)),
        _ => None,
    }
}

/// The functions a tool call may name.
pub open spec fn known_function(f: Seq<char>) -> bool {
    ||| f == "create_character_sheet"@
    ||| f == "perform_dice_roll"@
    ||| f == "generate_character_image"@
    ||| f == "update_basic_attributes"@
    ||| f == "update_skills"@
    ||| f == "update_inventory"@
    ||| f == "update_qualities"@
    ||| f == "update_matrix_attributes"@
    ||| f == "update_contacts"@
    ||| f == "update_augmentations"@
}

/// What a call of the known function `f` with the parsed arguments `args` gives.
pub open spec fn call_outcome(
    f: Seq<char>,
    args: JsonValue,
    old: GameState,
    r: Result<ToolOutput, Error>,
    new: GameState,
) -> bool {
    if f == "create_character_sheet"@ {
        r matches Ok(ToolOutput::Sheet(s)) && created_sheet(args, s) && sheet_added(old, s, new)
    } else if f == "perform_dice_roll"@ {
        &&& same_session(old, new)
        &&& match r {
            Ok(ToolOutput::Roll(resp)) => roll_answer(args, old, Ok(resp)),
            Err(e) => roll_answer(args, old, Err(e)),
            _ => false,
        }
    } else if f == "generate_character_image"@ {
        r == Ok::<ToolOutput, Error>(
            ToolOutput::Image(member_or_null_of(args, "image_generation_prompt"@)),
        ) && same_session(old, new)
    } else if f == "update_basic_attributes"@ {
        text_result(r) matches Some(t) && basic_outcome(args, old, t, new)
    } else if f == "update_skills"@ {
        text_result(r) matches Some(t) && skills_outcome(args, old, t, new)
    } else if f == "update_inventory"@ {
        text_result(r) matches Some(t) && inventory_outcome(args, old, t, new)
    } else if f == "update_qualities"@ {
        text_result(r) matches Some(t) && qualities_outcome(args, old, t, new)
    } else if f == "update_matrix_attributes"@ {
        text_result(r) matches Some(t) && matrix_outcome(args, old, t, new)
    } else if f == "update_contacts"@ {
        text_result(r) matches Some(t) && contacts_outcome(args, old, t, new)
    } else {
        text_result(r) matches Some(t) && augmentations_outcome(args, old, t, new)
    }
}

fn text_answer(r: Result<String, Error>) -> (t: Result<ToolOutput, Error>)
    ensures
        text_result(t) == Some(r),
{
    match r {
        Ok(s) => Ok(ToolOutput::Text(s)),
        Err(e) => Err(e),
    }
}

/// Answers a tool call: the function named `function` with the JSON text
/// `arguments`. An unknown function is a game error naming it; arguments that are
/// not JSON are a serialization error (a `ShadowrunError` one for a portrait);
/// otherwise the function's handler answers.
pub fn handle_tool_call(function: &str, arguments: &str, game_state: &mut GameState) -> (r: Result<
    ToolOutput,
    Error,
>)
    ensures
        !known_function(function@) ==> r is Err && is_game_error(
            r->Err_0,
            "Unknown function: "@ + function@,
        ) && same_session(*old(game_state), *final(game_state)),
        known_function(function@) && spec_parse_json(arguments@) is None ==> r is Err && (
        r->Err_0 is Serialization || r->Err_0 == Error::Shadowrun(ShadowrunError::Serialization(
            r->Err_0->Shadowrun_0->Serialization_0,
        ))) && same_session(*old(game_state), *final(game_state)),
        known_function(function@) && spec_parse_json(arguments@) is Some ==> call_outcome(
            function@,
            spec_parse_json(arguments@)->0,
            *old(game_state),
            r,
            *final(game_state),
        ),
{
    if !(str_eq(function, "create_character_sheet") || str_eq(function, "perform_dice_roll")
        || str_eq(function, "generate_character_image") || str_eq(
        function,
        "update_basic_attributes",
    ) || str_eq(function, "update_skills") || str_eq(function, "update_inventory") || str_eq(
        function,
        "update_qualities",
    ) || str_eq(function, "update_matrix_attributes") || str_eq(function, "update_contacts")
        || str_eq(function, "update_augmentations")) {
        return Err(
            Error::Shadowrun(ShadowrunError::Game(concat("Unknown function: ", function))),
        );
    }
    let args = match parse_json(arguments) {
        Ok(v) => v,
        Err(e) => {
            if str_eq(function, "generate_character_image") {
                return Err(Error::Shadowrun(ShadowrunError::Serialization(e)));
            }
            return Err(Error::Serialization(e));
        },
    };
    if str_eq(function, "create_character_sheet") {
        Ok(ToolOutput::Sheet(handle_create_character_sheet(&args, game_state)))
    } else if str_eq(function, "perform_dice_roll") {
        match handle_perform_dice_roll(&args, game_state) {
            Ok(resp) => Ok(ToolOutput::Roll(resp)),
            Err(e) => Err(e),
        }
    } else if str_eq(function, "generate_character_image") {
        Ok(ToolOutput::Image(args.into_member("image_generation_prompt")))
    } else if str_eq(function, "update_basic_attributes") {
        text_answer(handle_update_basic_attributes(&args, game_state))
    } else if str_eq(function, "update_skills") {
        text_answer(handle_update_skills(&args, game_state))
    } else if str_eq(function, "update_inventory") {
        text_answer(handle_update_inventory(&args, game_state))
    } else if str_eq(function, "update_qualities") {
        text_answer(handle_update_qualities(&args, game_state))
    } else if str_eq(function, "update_matrix_attributes") {
        text_answer(handle_update_matrix_attributes(&args, game_state))
    } else if str_eq(function, "update_contacts") {
        text_answer(handle_update_contacts(&args, game_state))
    } else {
        text_answer(handle_update_augmentations(&args, game_state))
    }
}

} // verus!
