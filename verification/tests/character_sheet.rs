use sharad_ratatui::character::{
    CharacterSheet, CharacterSheetUpdate, CharacterValue, Quality, Race, UpdateOperation,
};
use sharad_ratatui::game_master::create_character;
use sharad_ratatui::json::{parse_arguments, JsonValue};

const CREATE_CALL: &str = r#"{
  "function": {
    "name": "create_character_sheet",
    "arguments": {
      "name": "Alex 'Raven' Hayes",
      "race": "Human",
      "gender": "Male",
      "backstory": "A former corporate security officer turned shadowrunner.",
      "main": true,
      "attributes": {
        "body": 4, "agility": 5, "reaction": 4, "strength": 3, "willpower": 3,
        "logic": 2, "intuition": 4, "charisma": 3, "edge": 4, "magic": 0, "resonance": 0
      },
      "skills": {
        "combat": [{"name": "Pistols", "rating": 4}, {"name": "Unarmed Combat", "rating": 2}],
        "physical": [{"name": "Stealth", "rating": 6}],
        "social": [{"name": "Negotiation", "rating": 2}],
        "technical": [{"name": "First Aid", "rating": 1}],
        "knowledge": [{"name": "Corporate Security", "rating": 3}]
      },
      "qualities": [
        {"name": "Natural Athlete", "positive": true},
        {"name": "SINner", "positive": false}
      ],
      "nuyen": 5000,
      "inventory": {"items": [{"name": "Ares Predator", "quantity": 1, "description": "Heavy pistol"}]},
      "contacts": [
        {"name": "Jenna 'Fixer' Morgan", "description": "A fixer", "loyalty": 3, "connection": 4}
      ]
    }
  }
}"#;

const UPDATE_CALL: &str = r#"{
  "function": {
    "name": "update_character_sheet",
    "arguments": {
      "update": {
        "attribute": "qualities",
        "operation": "Add",
        "value": [{"name": "Street Samurai", "positive": true}]
      }
    }
  }
}"#;

fn arguments(call: &str) -> JsonValue {
    let value = parse_arguments(call).expect("Failed to parse JSON");
    let function = value.into_member("function");
    function.into_member("arguments")
}

fn create_from(call: &str) -> CharacterSheet {
    let args = arguments(call);
    create_character(&args).expect("Expected a valid character")
}

#[test]
fn test_character_sheet_creation_from_json() {
    let character_sheet = create_from(CREATE_CALL);

    assert_eq!(character_sheet.name, "Alex 'Raven' Hayes");
    assert_eq!(character_sheet.race, Race::Human);
    assert_eq!(character_sheet.gender, "Male");
    assert_eq!(character_sheet.attributes.body, 4);
    assert_eq!(character_sheet.attributes.agility, 5);
    assert_eq!(character_sheet.attributes.charisma, 3);

    assert_eq!(character_sheet.skills.combat.get("Pistols"), Some(&4));
    assert_eq!(character_sheet.skills.physical.get("Stealth"), Some(&6));

    assert!(character_sheet
        .qualities
        .iter()
        .any(|q| q.name == "Natural Athlete" && q.positive));

    assert!(character_sheet.contacts.contains_key("Jenna 'Fixer' Morgan"));
}

#[test]
fn test_character_sheet_update_from_json() {
    let mut character_sheet = create_from(CREATE_CALL);
    let args = arguments(UPDATE_CALL);
    let update = args.into_member("update");
    let attribute = match update.get("attribute").and_then(|a| a.as_str()) {
        Some(a) => a.clone(),
        None => panic!("Expected some String"),
    };
    let operation = match update.get("operation").and_then(|o| o.as_str()) {
        Some(o) => o.clone(),
        None => panic!("Expected some String"),
    };
    let values = match update.get("value").and_then(|v| v.as_array()) {
        Some(v) => v,
        None => panic!("Expected some array"),
    };
    let qualities: Vec<Quality> = values
        .iter()
        .map(|q| Quality {
            name: q
                .get("name")
                .and_then(|n| n.as_str())
                .expect("Expected some String")
                .clone(),
            positive: q
                .get("positive")
                .and_then(|p| p.as_bool())
                .expect("Expected some bool"),
        })
        .collect();
    let update = CharacterSheetUpdate::Attribute {
        attribute,
        operation: match operation.as_str() {
            "Add" => UpdateOperation::Add(CharacterValue::VecQuality(qualities)),
            _ => panic!("Unsupported operation in test"),
        },
    };

    character_sheet
        .apply_update(&update)
        .expect("Failed to apply update");

    assert!(character_sheet
        .qualities
        .iter()
        .any(|quality| quality.name == "Street Samurai" && quality.positive));
}

#[test]
fn a_new_sheet_has_an_edge_point_for_each_point_of_edge() {
    let sheet = create_from(CREATE_CALL);
    assert_eq!(sheet.attributes.edge, 4);
    assert_eq!(sheet.derived_attributes.edge_points, 4);
}

fn add_then_remove(sheet: &mut CharacterSheet, attribute: &str, value: CharacterValue) {
    let add = CharacterSheetUpdate::Attribute {
        attribute: attribute.to_string(),
        operation: UpdateOperation::Add(value.clone()),
    };
    sheet.apply_update(&add).expect("an accepted addition");
    let remove = CharacterSheetUpdate::Attribute {
        attribute: attribute.to_string(),
        operation: UpdateOperation::Remove(value),
    };
    sheet.apply_update(&remove).expect("an accepted removal");
}

#[test]
fn adding_then_removing_gives_the_sheet_back() {
    let mut sheet = create_from(CREATE_CALL);
    let nuyen = sheet.nuyen;
    let qualities: Vec<(String, bool)> = sheet.qualities.iter().map(|q| (q.name.clone(), q.positive)).collect();
    let contacts = sheet.contacts.len();
    let limits = sheet.derived_attributes.limits.physical;
    add_then_remove(&mut sheet, "nuyen", CharacterValue::Nuyen(250));
    add_then_remove(
        &mut sheet,
        "qualities",
        CharacterValue::VecQuality(vec![Quality { name: "Lucky".to_string(), positive: true }]),
    );
    add_then_remove(&mut sheet, "cyberware", CharacterValue::VecString(vec!["Datajack".to_string()]));
    assert_eq!(sheet.nuyen, nuyen);
    let after: Vec<(String, bool)> = sheet.qualities.iter().map(|q| (q.name.clone(), q.positive)).collect();
    assert_eq!(after, qualities);
    assert!(sheet.cyberware.is_empty());
    assert_eq!(sheet.contacts.len(), contacts);
    assert_eq!(sheet.derived_attributes.limits.physical, limits);
}
