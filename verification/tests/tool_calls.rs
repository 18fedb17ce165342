use sharad_ratatui::error::AppError;
use sharad_ratatui::run_flow::{check_required_action, run_step, RunStatus, RunStep};
use sharad_ratatui::character::{CharacterValue, Race};
use sharad_ratatui::attribute_calls::{
    handle_update_basic_attributes, handle_update_skills, parse_value,
};
use sharad_ratatui::error::{AIError, Error, GameError, ShadowrunError};
use sharad_ratatui::game_master::create_character;
use sharad_ratatui::game_state::GameState;
use sharad_ratatui::json::{parse_arguments, JsonValue};
use sharad_ratatui::character::{CharacterSheetUpdate, UpdateOperation};
use sharad_ratatui::tool_calls::{
    add_character, apply_named_update, handle_update_augmentations, handle_update_contacts, handle_update_inventory,
    handle_update_matrix_attributes, handle_update_qualities,
};
use sharad_ratatui::tool_dispatch::{
    create_dummy_character, handle_create_character_sheet, handle_perform_dice_roll,
    handle_tool_call, ToolOutput,
};

fn args(text: &str) -> JsonValue {
    parse_arguments(text).expect("valid JSON")
}

const RAVEN: &str = r#"{
  "name": "Raven", "race": "Elf", "gender": "Female", "backstory": "A decker.", "main": true,
  "attributes": {"body": 3, "agility": 6, "reaction": 4, "strength": 2, "willpower": 3,
                 "logic": 5, "intuition": 4, "charisma": 5, "edge": 3, "magic": 300},
  "skills": {"combat": [{"name": "Pistols", "rating": 3}],
             "technical": [{"name": "Hacking", "rating": 6}, {"name": "Hacking", "rating": 5}],
             "knowledge": [{"name": "Matrix Lore", "rating": 4}]},
  "qualities": [{"name": "Codeslinger", "positive": true}],
  "nuyen": 4294967301,
  "inventory": {"items": [{"name": "Deck", "quantity": 1, "description": "Cyberdeck"},
                          {"name": "Broken", "quantity": "many", "description": "x"}]},
  "contacts": [{"name": "Fixer", "description": "Knows people", "loyalty": 258, "connection": 4}]
}"#;

fn game_with_raven() -> GameState {
    let mut game = GameState::new("asst".to_string(), "thread".to_string(), "save".to_string());
    handle_create_character_sheet(&args(RAVEN), &mut game);
    game
}

#[test]
fn create_character_reads_every_field() {
    let sheet = create_character(&args(RAVEN)).expect("a sheet");
    assert_eq!(sheet.name, "Raven");
    assert_eq!(sheet.race, Race::Elf);
    assert!(sheet.main);
    // An elf gains one agility (capped at 7) and two charisma (capped at 8).
    assert_eq!(sheet.attributes.agility, 7);
    assert_eq!(sheet.attributes.charisma, 7);
    // A magic rating out of a byte's range reads as absent, hence 0.
    assert_eq!(sheet.magic.magic, Some(0));
    // The later entry of a repeated skill wins.
    assert_eq!(sheet.skills.technical.get("Hacking"), Some(&5));
    assert_eq!(sheet.knowledge_skills.get("Matrix Lore"), Some(&4));
    // Nuyen are cut to 32 bits: 2^32 + 5 becomes 5.
    assert_eq!(sheet.nuyen, 5);
    // An item without a numeric quantity is skipped.
    assert!(sheet.inventory.contains_key("Deck"));
    assert!(!sheet.inventory.contains_key("Broken"));
    // Loyalty is cut to a byte: 258 becomes 2.
    assert_eq!(sheet.contacts.get("Fixer").map(|c| c.loyalty), Some(2));
    assert_eq!(sheet.lifestyle, "Street");
    // Derived values: initiative is reaction + intuition.
    assert_eq!(sheet.derived_attributes.initiative, (8, 1));
}

#[test]
fn create_character_refuses_unknown_race() {
    let text = RAVEN.replace("\"Elf\"", "\"Dragon\"");
    match create_character(&args(&text)) {
        Err(Error::AI(AIError::GameStateParseError(msg))) => assert_eq!(msg, "Invalid race"),
        other => panic!("unexpected {:?}", other),
    }
}

#[test]
fn create_character_refuses_attribute_out_of_range() {
    let text = RAVEN.replace("\"body\": 3", "\"body\": 300");
    match create_character(&args(&text)) {
        Err(Error::AI(AIError::GameStateParseError(msg))) => assert_eq!(msg, "body out of range"),
        other => panic!("unexpected {:?}", other),
    }
}

#[test]
fn create_character_reports_overflowing_sheet() {
    let text = RAVEN.replace("\"reaction\": 4", "\"reaction\": 250");
    assert!(matches!(create_character(&args(&text)), Err(Error::Overflow(_))));
}

#[test]
fn creation_falls_back_to_dummy_character() {
    let mut game = GameState::new("a".to_string(), "t".to_string(), "s".to_string());
    let sheet = handle_create_character_sheet(&args("{\"name\": 3}"), &mut game);
    assert_eq!(sheet.name, "Dummy Character");
    assert_eq!(sheet.nuyen, 5000);
    assert_eq!(game.characters.len(), 1);
    assert_eq!(
        game.main_character_sheet.as_ref().map(|s| s.name.clone()),
        Some("Dummy Character".to_string())
    );
    let dummy = create_dummy_character();
    assert_eq!(dummy.attributes.body, 3);
    assert_eq!(dummy.skills.combat.get("Pistols"), Some(&1));
    assert_eq!(dummy.skills.technical.get("First Aid"), Some(&1));
}

#[test]
fn qualities_are_added_and_removed() {
    let mut game = game_with_raven();
    let r = handle_update_qualities(
        &args(r#"{"character_name": "Raven", "operation": "Add",
                  "qualities": [{"name": "Lucky", "positive": true}]}"#),
        &mut game,
    );
    assert_eq!(r.unwrap(), "Updated qualities for character: Raven");
    assert_eq!(game.characters[0].qualities.len(), 2);
    let main = game.main_character_sheet.as_ref().unwrap();
    assert_eq!(main.qualities.len(), 2);
    let r = handle_update_qualities(
        &args(r#"{"character_name": "Raven", "operation": "Remove",
                  "qualities": [{"name": "Codeslinger", "positive": true}]}"#),
        &mut game,
    );
    assert!(r.is_ok());
    assert_eq!(game.characters[0].qualities.len(), 1);
    assert_eq!(game.characters[0].qualities[0].name, "Lucky");
}

#[test]
fn qualities_errors_come_in_order() {
    let mut game = game_with_raven();
    match handle_update_qualities(&args(r#"{"operation": "Add"}"#), &mut game) {
        Err(Error::Shadowrun(ShadowrunError::Game(m))) => assert_eq!(m, "Missing character_name"),
        other => panic!("unexpected {:?}", other),
    }
    match handle_update_qualities(&args(r#"{"character_name": "Nobody", "operation": "Add"}"#), &mut game) {
        Err(Error::Game(GameError::CharacterNotFound(n))) => assert_eq!(n, "Nobody"),
        other => panic!("unexpected {:?}", other),
    }
    assert!(matches!(
        handle_update_qualities(&args(r#"{"character_name": "Raven", "operation": "Add"}"#), &mut game),
        Err(Error::Serialization(_))
    ));
    match handle_update_qualities(
        &args(r#"{"character_name": "Raven", "operation": "Swap", "qualities": []}"#),
        &mut game,
    ) {
        Err(Error::Shadowrun(ShadowrunError::Game(m))) => assert_eq!(m, "Invalid qualities operation"),
        other => panic!("unexpected {:?}", other),
    }
}

#[test]
fn contacts_are_merged_by_name() {
    let mut game = game_with_raven();
    let r = handle_update_contacts(
        &args(r#"{"character_name": "Raven", "operation": "Add",
                  "contacts": [{"name": "Doc", "description": "Street doc", "loyalty": 2, "connection": 3}]}"#),
        &mut game,
    );
    assert_eq!(r.unwrap(), "Updated contacts for character: Raven");
    assert!(game.characters[0].contacts.contains_key("Doc"));
    assert!(game.characters[0].contacts.contains_key("Fixer"));
    handle_update_contacts(
        &args(r#"{"character_name": "Raven", "operation": "Remove",
                  "contacts": [{"name": "Fixer", "description": "", "loyalty": 0, "connection": 0}]}"#),
        &mut game,
    )
    .unwrap();
    assert!(!game.characters[0].contacts.contains_key("Fixer"));
}

#[test]
fn augmentations_answer_names_kind_and_operation() {
    let mut game = game_with_raven();
    let r = handle_update_augmentations(
        &args(r#"{"character_name": "Raven", "operation": "Add", "augmentation_type": "cyberware",
                  "augmentations": ["Datajack"]}"#),
        &mut game,
    );
    assert_eq!(r.unwrap(), "cyberware updated for character 'Raven'. Operation: Add");
    assert_eq!(game.characters[0].cyberware, vec!["Datajack".to_string()]);
    // An unknown list is refused by the sheet and leaves it unchanged.
    let r = handle_update_augmentations(
        &args(r#"{"character_name": "Raven", "operation": "Add", "augmentation_type": "nanoware",
                  "augmentations": ["Nanites"]}"#),
        &mut game,
    );
    match r {
        Err(e @ Error::InvalidAttributeValue { .. }) => {
            assert_eq!(e.message(), "Invalid attribute-value pair for addition: nanoware")
        }
        other => panic!("unexpected {:?}", other),
    }
}

#[test]
fn matrix_attributes_are_replaced() {
    let mut game = game_with_raven();
    let r = handle_update_matrix_attributes(
        &args(r#"{"character_name": "Raven",
                  "matrix_attributes": {"attack": 4, "sleaze": 5, "data_processing": 6, "firewall": 3}}"#),
        &mut game,
    );
    assert_eq!(r.unwrap(), "Updated matrix attributes for character: Raven");
    let m = game.characters[0].matrix_attributes.expect("matrix attributes");
    assert_eq!((m.attack, m.sleaze, m.data_processing, m.firewall), (4, 5, 6, 3));
}

#[test]
fn inventory_add_modify_remove() {
    let mut game = game_with_raven();
    handle_update_inventory(
        &args(r#"{"character_name": "Raven", "operation": "Add",
                  "items": {"name": "Deck", "quantity": 2, "description": "Cyberdeck"}}"#),
        &mut game,
    )
    .unwrap();
    assert_eq!(game.characters[0].inventory.get("Deck").map(|i| i.quantity), Some(3));
    handle_update_inventory(
        &args(r#"{"character_name": "Raven", "operation": "Add",
                  "item": {"Medkit": {"description": "Heals"}}}"#),
        &mut game,
    )
    .unwrap();
    assert_eq!(game.characters[0].inventory.get("Medkit").map(|i| i.quantity), Some(1));
    handle_update_inventory(
        &args(r#"{"character_name": "Raven", "operation": "Remove", "items": ["Deck", "Medkit"]}"#),
        &mut game,
    )
    .unwrap();
    assert_eq!(game.characters[0].inventory.get("Deck").map(|i| i.quantity), Some(2));
    assert!(!game.characters[0].inventory.contains_key("Medkit"));
    let r = handle_update_inventory(
        &args(r#"{"character_name": "Raven", "operation": "Remove", "items": 3}"#),
        &mut game,
    );
    match r {
        Err(Error::Shadowrun(ShadowrunError::Game(m))) => {
            assert_eq!(m, "Invalid items format for removal")
        }
        other => panic!("unexpected {:?}", other),
    }
    let r = handle_update_inventory(&args(r#"{"character_name": "Raven", "operation": "Add"}"#), &mut game);
    match r {
        Err(Error::Shadowrun(ShadowrunError::Game(m))) => {
            assert_eq!(m, "No items or item for add/modify")
        }
        other => panic!("unexpected {:?}", other),
    }
}

#[test]
fn skills_are_merged() {
    let mut game = game_with_raven();
    let r = handle_update_skills(
        &args(r#"{"character_name": "Raven", "updates": {"skills": {
                  "combat": [{"name": "Blades", "rating": 2}],
                  "knowledge": [{"name": "Matrix Lore", "rating": 261}]}}}"#),
        &mut game,
    );
    assert_eq!(r.unwrap(), "Updated skills for character: Raven");
    let c = &game.characters[0];
    assert_eq!(c.skills.combat.get("Blades"), Some(&2));
    assert_eq!(c.skills.combat.get("Pistols"), Some(&3));
    // Ratings are cut to a byte: 261 becomes 5.
    assert_eq!(c.knowledge_skills.get("Matrix Lore"), Some(&5));
    let r = handle_update_skills(
        &args(r#"{"character_name": "Raven", "updates": {"skills": {"social": [{"rating": 2}]}}}"#),
        &mut game,
    );
    match r {
        Err(Error::Shadowrun(ShadowrunError::Game(m))) => {
            assert_eq!(m, "Missing skill name in social category")
        }
        other => panic!("unexpected {:?}", other),
    }
}

#[test]
fn basic_attributes_apply_in_order_and_stop_at_an_error() {
    let mut game = game_with_raven();
    let r = handle_update_basic_attributes(
        &args(r#"{"character_name": "Raven", "updates": {"body": 5, "lifestyle": "Middle"}}"#),
        &mut game,
    );
    assert_eq!(r.unwrap(), "Updated basic attributes for character: Raven");
    assert_eq!(game.characters[0].attributes.body, 5);
    assert_eq!(game.characters[0].lifestyle, "Middle");
    // The physical monitor follows BODY: 8 + ceil(5 / 2).
    assert_eq!(game.characters[0].derived_attributes.monitors.physical, 11);
    let r = handle_update_basic_attributes(
        &args(r#"{"character_name": "Raven", "updates": {"agility": 6, "zeal": 2}}"#),
        &mut game,
    );
    match r {
        Err(Error::Shadowrun(ShadowrunError::Game(m))) => {
            assert_eq!(m, "Unsupported attribute: zeal")
        }
        other => panic!("unexpected {:?}", other),
    }
    // The update before the failing one stays applied.
    assert_eq!(game.characters[0].attributes.agility, 6);
    let r = handle_update_basic_attributes(
        &args(r#"{"character_name": "Raven", "updates": 3}"#),
        &mut game,
    );
    match r {
        Err(Error::Shadowrun(ShadowrunError::Game(m))) => assert_eq!(m, "Value should be an object"),
        other => panic!("unexpected {:?}", other),
    }
}

#[test]
fn parse_value_reads_by_attribute() {
    assert!(matches!(parse_value("race", &args("\"Ork\"")), Ok(CharacterValue::Race(Race::Ork))));
    assert!(matches!(parse_value("body", &args("260")), Ok(CharacterValue::U8(4))));
    assert!(matches!(parse_value("magic", &args("null")), Ok(CharacterValue::OptionU8(None))));
    assert!(matches!(parse_value("nuyen", &args("12")), Ok(CharacterValue::Nuyen(12))));
    assert!(matches!(
        parse_value("qualities", &args("[{\"name\": \"A\"}]")),
        Err(Error::Shadowrun(ShadowrunError::Serialization(_)))
    ));
    match parse_value("race", &args("\"Dragon\"")) {
        Err(Error::Shadowrun(ShadowrunError::Game(m))) => assert_eq!(m, "Invalid race"),
        other => panic!("unexpected {:?}", other),
    }
}

#[test]
fn dice_roll_for_a_character() {
    let game = game_with_raven();
    let resp = handle_perform_dice_roll(
        &args(r#"{"character_name": "Raven", "attribute": "Agility", "skill": "Pistols",
                  "limit_type": "physical", "threshold": 2}"#),
        &game,
    )
    .unwrap();
    // AGILITY 7 plus Pistols 3: at least ten dice, each 1 to 6.
    assert!(resp.dice_results.len() >= 10);
    assert!(resp.dice_results.iter().all(|d| (1..=6).contains(d)));
    assert_eq!(resp.success, resp.hits >= 2);
    let physical_limit = game.characters[0].derived_attributes.limits.physical;
    assert!(resp.hits <= physical_limit);
}

#[test]
fn dice_roll_for_nobody_is_empty() {
    let game = game_with_raven();
    let resp = handle_perform_dice_roll(
        &args(r#"{"character_name": "Nobody", "attribute": "Agility", "skill": "Pistols",
                  "limit_type": "physical"}"#),
        &game,
    )
    .unwrap();
    assert!(resp.dice_results.is_empty());
    assert_eq!(resp.hits, 0);
    assert!(!resp.success);
    assert!(matches!(
        handle_perform_dice_roll(&args(r#"{"character_name": "Raven"}"#), &game),
        Err(Error::Serialization(_))
    ));
    assert!(matches!(
        handle_perform_dice_roll(
            &args(r#"{"character_name": "Raven", "attribute": "a", "skill": "s",
                      "limit_type": "l", "threshold": 200}"#),
            &game
        ),
        Err(Error::Overflow(_))
    ));
}

#[test]
fn tool_calls_are_dispatched_by_name() {
    let mut game = game_with_raven();
    match handle_tool_call("cast_spell", "{}", &mut game) {
        Err(Error::Shadowrun(ShadowrunError::Game(m))) => assert_eq!(m, "Unknown function: cast_spell"),
        other => panic!("unexpected {:?}", other),
    }
    assert!(matches!(
        handle_tool_call("update_qualities", "not json", &mut game),
        Err(Error::Serialization(_))
    ));
    assert!(matches!(
        handle_tool_call("generate_character_image", "not json", &mut game),
        Err(Error::Shadowrun(ShadowrunError::Serialization(_)))
    ));
    match handle_tool_call(
        "generate_character_image",
        r#"{"image_generation_prompt": "a rainy street"}"#,
        &mut game,
    ) {
        Ok(ToolOutput::Image(JsonValue::String(p))) => assert_eq!(p, "a rainy street"),
        other => panic!("unexpected {:?}", other),
    }
    match handle_tool_call(
        "update_augmentations",
        r#"{"character_name": "Raven", "operation": "Add", "augmentation_type": "bioware",
            "augmentations": ["Muscle Toner"]}"#,
        &mut game,
    ) {
        Ok(ToolOutput::Text(t)) => {
            assert_eq!(t, "bioware updated for character 'Raven'. Operation: Add")
        }
        other => panic!("unexpected {:?}", other),
    }
    match handle_tool_call("create_character_sheet", RAVEN, &mut game) {
        Ok(ToolOutput::Sheet(s)) => assert_eq!(s.name, "Raven"),
        other => panic!("unexpected {:?}", other),
    }
    assert_eq!(game.characters.len(), 2);
}

#[test]
fn game_update_follows_the_main_character() {
    let mut game = game_with_raven();
    let update = CharacterSheetUpdate::Attribute {
        attribute: "nuyen".to_string(),
        operation: UpdateOperation::Modify(CharacterValue::Nuyen(1000)),
    };
    assert!(matches!(apply_named_update(&mut game, &update, "Nobody"), Ok(false)));
    assert!(matches!(apply_named_update(&mut game, &update, "Raven"), Ok(true)));
    assert_eq!(game.characters[0].nuyen, 1000);
    assert_eq!(game.main_character_sheet.as_ref().map(|m| m.nuyen), Some(1000));
    let refused = CharacterSheetUpdate::Attribute {
        attribute: "nuyen".to_string(),
        operation: UpdateOperation::Modify(CharacterValue::String("lots".to_string())),
    };
    assert!(apply_named_update(&mut game, &refused, "Raven").is_err());
    assert_eq!(game.characters[0].nuyen, 1000);
}

#[test]
fn added_character_replaces_its_namesake() {
    let mut game = GameState::new("a".to_string(), "t".to_string(), "s".to_string());
    let mut first = create_dummy_character();
    first.main = false;
    add_character(&mut game, first);
    assert_eq!(game.characters.len(), 1);
    assert!(game.main_character_sheet.is_none());
    let mut again = create_dummy_character();
    again.main = true;
    again.nuyen = 7;
    add_character(&mut game, again);
    assert_eq!(game.characters.len(), 1);
    assert_eq!(game.characters[0].nuyen, 7);
    assert_eq!(game.main_character_sheet.as_ref().map(|m| m.nuyen), Some(7));
    let mut other = create_dummy_character();
    other.name = "Other".to_string();
    other.main = false;
    add_character(&mut game, other);
    assert_eq!(game.characters.len(), 2);
    assert_eq!(game.characters[1].name, "Other");
    assert_eq!(game.main_character_sheet.as_ref().map(|m| m.nuyen), Some(7));
}

#[test]
fn run_statuses_decide_the_next_step() {
    assert!(matches!(run_step(RunStatus::Completed, 0), RunStep::Completed));
    assert!(matches!(run_step(RunStatus::RequiresAction, 1000), RunStep::RequiresAction));
    assert!(matches!(run_step(RunStatus::Queued, 180000), RunStep::Wait));
    assert!(matches!(run_step(RunStatus::InProgress, 180001), RunStep::Abort(Error::App(AppError::Timeout))));
    match run_step(RunStatus::Expired, 5) {
        RunStep::Abort(Error::String(m)) => assert_eq!(m, "Run failed with status: Expired"),
        _ => panic!("an expired run is aborted"),
    }
    assert!(check_required_action(Some("submit_tool_outputs")).is_ok());
    match check_required_action(Some("other")) {
        Err(Error::Shadowrun(ShadowrunError::Game(m))) => {
            assert_eq!(m, "Unknown required action type: other")
        }
        _ => panic!("an unknown action is refused"),
    }
    match check_required_action(None) {
        Err(Error::Shadowrun(ShadowrunError::Game(m))) => assert_eq!(m, "No required action found"),
        _ => panic!("a missing action is refused"),
    }
}

fn creation_fault(text: &str) -> String {
    match create_character(&args(text)) {
        Err(Error::AI(AIError::GameStateParseError(m))) => m,
        _ => panic!("a parse error was expected"),
    }
}

#[test]
fn creation_errors_name_the_first_fault() {
    assert_eq!(creation_fault("{}"), "Missing or invalid name");
    let base = r#""name": "N", "race": "Elf", "gender": "F", "backstory": "B""#;
    assert_eq!(
        creation_fault(r#"{"name": "N", "race": "Goblin", "gender": "F", "backstory": "B"}"#),
        "Invalid race"
    );
    assert_eq!(creation_fault(&format!("{{{base}}}")), "Missing attributes");
    let attrs = r#""attributes": {"body": 300, "agility": 1, "reaction": 1, "strength": 1, "willpower": 1, "logic": 1, "intuition": 1, "charisma": 1, "edge": 1}"#;
    assert_eq!(creation_fault(&format!("{{{base}, {attrs}}}")), "body out of range");
    let attrs_ok = attrs.replace("300", "3");
    let no_edge = attrs_ok.replace(", \"edge\": 1", "");
    assert_eq!(creation_fault(&format!("{{{base}, {no_edge}}}")), "Missing or invalid edge");
    assert_eq!(creation_fault(&format!("{{{base}, {attrs_ok}}}")), "Missing skills");
    let skills = r#""skills": {"combat": [{"name": "Pistols"}]}"#;
    assert_eq!(
        creation_fault(&format!("{{{base}, {attrs_ok}, {skills}}}")),
        "Missing or invalid rating"
    );
    let skills_ok = r#""skills": {"combat": [{"name": "Pistols", "rating": 2}]}"#;
    assert_eq!(
        creation_fault(&format!("{{{base}, {attrs_ok}, {skills_ok}}}")),
        "Missing qualities"
    );
    let qualities = r#""qualities": [{"name": "Lucky"}]"#;
    assert_eq!(
        creation_fault(&format!("{{{base}, {attrs_ok}, {skills_ok}, {qualities}}}")),
        "Missing or invalid 'positive' in quality"
    );
}

#[test]
fn skills_errors_name_the_faulty_entry() {
    let mut game = game_with_raven();
    let game_error_text = |r: Result<String, Error>| match r {
        Err(Error::Shadowrun(ShadowrunError::Game(m))) => m,
        other => panic!("unexpected {:?}", other),
    };
    let r = handle_update_skills(
        &args(r#"{"character_name": "Raven", "updates": {"skills": {
                  "physical": [{"name": "Running", "rating": -1}],
                  "social": [{"rating": 2}]}}}"#),
        &mut game,
    );
    assert_eq!(game_error_text(r), "Invalid skill rating in physical category");
    let r = handle_update_skills(
        &args(r#"{"character_name": "Raven", "updates": {"skills": {
                  "knowledge": [{"name": "Lore", "rating": 1}, {"rating": 2}]}}}"#),
        &mut game,
    );
    assert_eq!(game_error_text(r), "Missing knowledge skill name");
    let r = handle_update_skills(
        &args(r#"{"character_name": "Raven", "updates": {"skills": {
                  "knowledge": [{"name": "Lore"}]}}}"#),
        &mut game,
    );
    assert_eq!(game_error_text(r), "Invalid knowledge skill rating");
}

#[test]
fn a_roll_overflows_only_when_it_is_rolled() {
    let game = game_with_raven();
    // Nobody of that name: the empty answer, whatever the threshold.
    let resp = handle_perform_dice_roll(
        &args(r#"{"character_name": "Nobody", "attribute": "Agility", "skill": "Pistols",
                  "limit_type": "physical", "threshold": 200}"#),
        &game,
    )
    .unwrap();
    assert!(resp.dice_results.is_empty() && !resp.success);
    // An unknown Edge action: the empty answer too.
    let resp = handle_perform_dice_roll(
        &args(r#"{"character_name": "Raven", "attribute": "Agility", "skill": "Pistols",
                  "limit_type": "physical", "threshold": 200, "edge_action": "Luck"}"#),
        &game,
    )
    .unwrap();
    assert!(resp.dice_results.is_empty() && resp.hits == 0);
    // A known Edge action with that threshold would overflow.
    assert!(matches!(
        handle_perform_dice_roll(
            &args(r#"{"character_name": "Raven", "attribute": "Agility", "skill": "Pistols",
                      "limit_type": "physical", "threshold": 200, "edge_action": "PushTheLimit"}"#),
            &game
        ),
        Err(Error::Overflow(_))
    ));
}

#[test]
fn pushed_rolls_ignore_the_limit() {
    let game = game_with_raven();
    let mut beaten = false;
    for _ in 0..100 {
        // An unknown limit name gives a limit of 0.
        let held = handle_perform_dice_roll(
            &args(r#"{"character_name": "Raven", "attribute": "Agility", "skill": "Pistols",
                      "limit_type": "none"}"#),
            &game,
        )
        .unwrap();
        assert_eq!(held.hits, 0);
        let pushed = handle_perform_dice_roll(
            &args(r#"{"character_name": "Raven", "attribute": "Agility", "skill": "Pistols",
                      "limit_type": "none", "edge_action": "PushTheLimit"}"#),
            &game,
        )
        .unwrap();
        let counted = pushed.dice_results.iter().filter(|d| **d >= 5).count();
        assert_eq!(pushed.hits as usize, counted);
        assert_eq!(pushed.success, pushed.hits > 0);
        beaten |= pushed.hits > 0;
    }
    assert!(beaten);
}

#[test]
fn removing_added_contacts_restores_them() {
    let mut game = game_with_raven();
    let before_len = game.characters[0].contacts.len();
    let before_loyalty = game.characters[0].contacts.get("Fixer").map(|c| c.loyalty);
    handle_update_contacts(
        &args(r#"{"character_name": "Raven", "operation": "Add",
                  "contacts": [{"name": "Doc", "description": "Street doc", "loyalty": 2, "connection": 3}]}"#),
        &mut game,
    )
    .unwrap();
    assert_eq!(game.characters[0].contacts.len(), before_len + 1);
    handle_update_contacts(
        &args(r#"{"character_name": "Raven", "operation": "Remove",
                  "contacts": [{"name": "Doc", "description": "", "loyalty": 0, "connection": 0}]}"#),
        &mut game,
    )
    .unwrap();
    let after = &game.characters[0].contacts;
    assert_eq!(after.len(), before_len);
    assert!(!after.contains_key("Doc"));
    assert_eq!(after.get("Fixer").map(|c| c.loyalty), before_loyalty);
}

#[test]
fn created_sheets_take_their_edge_points_from_edge() {
    let sheet = create_character(&args(RAVEN)).expect("a sheet");
    assert_eq!(sheet.derived_attributes.edge_points, sheet.attributes.edge);
    assert_eq!(sheet.derived_attributes.edge_points, 3);
    let dummy = create_dummy_character();
    assert_eq!(dummy.derived_attributes.edge_points, dummy.attributes.edge);
}
