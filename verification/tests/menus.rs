use sharad_ratatui::character::{Contact, Item};
use sharad_ratatui::sheet_view::{
    attribute_rows, basic_info, contact_rows, derived_rows, inventory_rows, panel_border,
    resources_row, skill_rows, BorderColor, Panel,
};
use sharad_ratatui::app_state::InputMode;
use sharad_ratatui::descriptions::{INITIATIVE, STRENGTH};
use sharad_ratatui::details::{chunk_attributes, get_attributes, get_derived, section_title, DetailStyle};
use sharad_ratatui::game_view::HighlightedSection;
use sharad_ratatui::menus::{Action, LoadMenu, MainMenu, MenuList, Screen};
use sharad_ratatui::screens::{hide_api, key_placeholder, ApiKeyInput, ImageMenu, SaveName};
use sharad_ratatui::settings::Settings;
use sharad_ratatui::settings_menu::MenuKey;
use sharad_ratatui::settings_state::SettingsState;
use sharad_ratatui::settings_view::{setting_rows, RowColor};
use sharad_ratatui::tool_dispatch::create_dummy_character;
use sharad_ratatui::vim::{Input, Key, Mode, Transition, Warning};

fn lines(v: &[&str]) -> Vec<String> {
    v.iter().map(|s| s.to_string()).collect()
}

#[test]
fn menu_list_wraps_both_ways() {
    let mut l = MenuList::with_items(3);
    assert_eq!(l.selected, None);
    l.next();
    assert_eq!(l.selected, Some(0));
    l.previous();
    assert_eq!(l.selected, Some(2));
    l.next();
    assert_eq!(l.selected, Some(0));
    let mut empty = MenuList::with_items(0);
    empty.next();
    empty.previous();
    assert_eq!(empty.selected, None);
}

#[test]
fn main_menu_rows_and_choices() {
    let mut m = MainMenu::new();
    let rows = m.menu_lines();
    let texts: Vec<&str> = rows.iter().map(|r| r.text.as_str()).collect();
    assert_eq!(
        texts,
        vec!["1. Start a new game", "2. Load a game", "3. Create an image", "4. Settings"]
    );
    assert!(rows[0].highlighted && !rows[1].highlighted);
    assert_eq!(
        m.on_key(MenuKey::Enter, false),
        Some(Action::SwitchComponent(Screen::ApiKeyInput))
    );
    assert_eq!(m.on_key(MenuKey::Enter, true), Some(Action::SwitchComponent(Screen::SaveName)));
    assert_eq!(m.on_key(MenuKey::Char('k'), true), None);
    assert_eq!(m.state.selected, Some(3));
    assert_eq!(m.on_key(MenuKey::Char('l'), true), Some(Action::SwitchComponent(Screen::SettingsMenu)));
    assert_eq!(m.on_key(MenuKey::Down, true), None);
    assert_eq!(m.state.selected, Some(0));
    assert_eq!(m.on_key(MenuKey::Char('3'), true), Some(Action::SwitchComponent(Screen::ImageMenu)));
    assert_eq!(m.state.selected, Some(2));
    assert_eq!(m.on_key(MenuKey::Char('3'), false), Some(Action::SwitchComponent(Screen::ApiKeyInput)));
    assert_eq!(m.on_key(MenuKey::Char('2'), false), Some(Action::SwitchComponent(Screen::LoadMenu)));
    assert_eq!(m.on_key(MenuKey::Char('9'), false), Some(Action::SwitchComponent(Screen::ApiKeyInput)));
    assert_eq!(m.state.selected, Some(0));
    assert_eq!(m.on_key(MenuKey::Char('q'), true), Some(Action::Quit));
    assert_eq!(m.on_key(MenuKey::Char('x'), true), None);
    assert_eq!(m.on_key(MenuKey::Esc, true), None);
}

#[test]
fn load_menu_without_saves() {
    let mut m = LoadMenu::new(0);
    assert_eq!(m.state.selected, None);
    assert_eq!(m.on_key(MenuKey::Enter, true), Some(Action::SwitchComponent(Screen::SaveName)));
    assert_eq!(m.on_key(MenuKey::Enter, false), Some(Action::SwitchComponent(Screen::ApiKeyInput)));
    assert_eq!(m.on_key(MenuKey::Char('l'), true), None);
    assert_eq!(m.on_key(MenuKey::Char('1'), true), None);
    assert_eq!(m.on_key(MenuKey::Esc, true), Some(Action::SwitchComponent(Screen::MainMenu)));
}

#[test]
fn load_menu_selects_loads_and_deletes() {
    let mut m = LoadMenu::new(3);
    assert_eq!(m.state.selected, Some(0));
    assert_eq!(m.on_key(MenuKey::Enter, true), Some(Action::LoadSave(0)));
    assert_eq!(m.on_key(MenuKey::Up, true), None);
    assert_eq!(m.state.selected, Some(2));
    assert_eq!(m.on_key(MenuKey::Right, true), Some(Action::LoadSave(2)));
    assert_eq!(m.on_key(MenuKey::Char('2'), true), Some(Action::LoadSave(1)));
    assert_eq!(m.on_key(MenuKey::Char('0'), true), Some(Action::LoadSave(0)));
    assert_eq!(m.on_key(MenuKey::Char('5'), true), Some(Action::LoadSave(1)));
    // Backspace twice deletes; a move in between cancels the first press.
    assert_eq!(m.on_key(MenuKey::Backspace, true), None);
    assert!(m.backspace_counter);
    assert_eq!(m.on_key(MenuKey::Down, true), None);
    assert!(!m.backspace_counter);
    assert_eq!(m.state.selected, Some(2));
    assert_eq!(m.on_key(MenuKey::Backspace, true), None);
    assert_eq!(m.on_key(MenuKey::Backspace, true), Some(Action::DeleteSave(2)));
    assert!(!m.backspace_counter);
    m.refresh(2);
    assert_eq!(m.state.selected, Some(1));
    m.refresh(0);
    assert_eq!(m.state.selected, None);
    assert_eq!(m.on_key(MenuKey::Char('h'), true), Some(Action::SwitchComponent(Screen::MainMenu)));
}

#[test]
fn save_name_screen() {
    let mut s = SaveName::new();
    assert_eq!(s.vim.mode, Mode::Normal);
    let none: Vec<String> = Vec::new();
    assert_eq!(
        s.on_transition(Transition::Mode(Mode::Insert), &none, false),
        Some(Action::SwitchInputMode(InputMode::Editing))
    );
    assert_eq!(s.vim.mode, Mode::Insert);
    assert_eq!(s.on_transition(Transition::Mode(Mode::Insert), &none, false), None);
    assert_eq!(s.on_transition(Transition::Mode(Mode::Recording), &none, false), None);
    assert_eq!(s.vim.mode, Mode::Recording);
    assert_eq!(s.on_transition(Transition::EndRecording, &none, false), Some(Action::EndRecording));
    assert_eq!(s.vim.mode, Mode::Normal);
    assert_eq!(
        s.on_transition(Transition::Mode(Mode::Recording), &none, true),
        Some(Action::StartRecording)
    );
    assert_eq!(
        s.on_transition(Transition::Validation, &lines(&["my run", "more"]), true),
        Some(Action::CreateNewGame("my run".to_string()))
    );
    assert_eq!(s.on_transition(Transition::Validation, &none, true), None);
    assert_eq!(s.on_transition(Transition::Exit, &none, true), Some(Action::SwitchComponent(Screen::MainMenu)));
    let pending = Input { key: Key::Char('g'), ctrl: false, alt: false, shift: false };
    assert_eq!(s.on_transition(Transition::Pending(pending), &none, true), None);
    assert_eq!(s.vim.pending, pending);
}

#[test]
fn api_key_screen() {
    let mut s = ApiKeyInput::new();
    let none: Vec<String> = Vec::new();
    assert_eq!(s.on_transition(Transition::Mode(Mode::Recording), &none, false), None);
    assert_eq!(s.vim.mode, Mode::Warning(Warning::AudioInputDisabled));
    assert_eq!(
        s.on_transition(Transition::Mode(Mode::Visual), &none, false),
        Some(Action::SwitchInputMode(InputMode::Normal))
    );
    assert_eq!(
        s.on_transition(Transition::Validation, &lines(&["ReSeT please"]), false),
        Some(Action::ResetKey)
    );
    assert_eq!(
        s.on_transition(Transition::Validation, &lines(&["sk-abc"]), false),
        Some(Action::ValidateKey("sk-abc".to_string()))
    );
    assert_eq!(s.on_transition(Transition::Validation, &lines(&["rese"]), false), Some(Action::ValidateKey("rese".to_string())));
    assert_eq!(s.on_transition(Transition::Validation, &none, false), None);
    assert_eq!(s.on_transition(Transition::Exit, &none, false), Some(Action::SwitchComponent(Screen::SettingsMenu)));
    assert_eq!(s.on_transition(Transition::EndRecording, &none, false), None);
    assert_eq!(s.vim.mode, Mode::Normal);
}

#[test]
fn image_screen() {
    let mut s = ImageMenu::new();
    let short = lines(&["a"]);
    assert_eq!(s.on_transition(Transition::Validation, &short, true, true), None);
    assert_eq!(s.vim.mode, Mode::Warning(Warning::InputTooShort));
    // One character of two bytes is long enough.
    assert_eq!(
        s.on_transition(Transition::Validation, &lines(&["é"]), true, true),
        Some(Action::RequestImage("é".to_string()))
    );
    assert_eq!(
        s.on_transition(Transition::Validation, &lines(&["a cat", "on a roof"]), true, true),
        Some(Action::RequestImage("a cat\non a roof".to_string()))
    );
    assert_eq!(
        s.on_transition(Transition::Validation, &lines(&["a", "b"]), true, false),
        Some(Action::SwitchComponent(Screen::ApiKeyInput))
    );
    assert_eq!(s.on_transition(Transition::Mode(Mode::Recording), &short, false, true), None);
    assert_eq!(s.vim.mode, Mode::Warning(Warning::AudioInputDisabled));
    assert_eq!(
        s.on_transition(Transition::Mode(Mode::Recording), &short, true, true),
        Some(Action::StartRecording)
    );
    s.recording_failed();
    assert_eq!(s.vim.mode, Mode::Warning(Warning::FailedNewTranscription));
    assert_eq!(s.on_transition(Transition::ScrollUp, &short, true, true), None);
}

#[test]
fn api_key_is_hidden() {
    assert_eq!(hide_api("short-key"), "short-key");
    assert_eq!(hide_api("123456789012"), "123456789012");
    assert_eq!(hide_api("sk-proj-abcdefghijXYZ"), " Valid Api Key: sk-proj...XYZ");
    assert_eq!(key_placeholder(&None), "Please input a valid Api key");
    assert_eq!(key_placeholder(&Some("abcdefghijklm".to_string())), " Valid Api Key: abcdefg...klm");
}

#[test]
fn details_of_attributes_and_derived() {
    let sheet = create_dummy_character();
    let attrs = get_attributes(&sheet);
    assert_eq!(attrs.len(), 11);
    assert_eq!(attrs[0], ("BODY", sheet.attributes.body));
    assert_eq!(attrs[3], ("STRENGTH", sheet.attributes.strength));
    let chunk = chunk_attributes(&attrs, 0);
    assert_eq!(chunk.len(), 12);
    assert_eq!(chunk[10][0].text, format!("STRENGTH: "));
    assert_eq!(chunk[10][1].text, sheet.attributes.strength.to_string());
    assert_eq!(chunk[11][0].text, STRENGTH);
    assert_eq!(chunk[10][0].style, DetailStyle::Name);
    let last = chunk_attributes(&attrs, 2);
    assert_eq!(last.len(), 9);
    let derived = get_derived(&sheet.derived_attributes, 0);
    let d = &sheet.derived_attributes;
    assert_eq!(derived[0][1].text, format!("{}+{}d6", d.initiative.0, d.initiative.1));
    assert_eq!(derived[1][0].text, INITIATIVE);
    let more = get_derived(&sheet.derived_attributes, 1);
    assert_eq!(
        more[7][1].text,
        format!("{}.{:02}", d.essence.current / 100, d.essence.current % 100)
    );
    assert_eq!(section_title(HighlightedSection::Skills), Some(" Skills "));
    assert_eq!(section_title(HighlightedSection::Hidden), None);
}

#[test]
fn settings_rows_mark_the_choices() {
    let state = SettingsState::from_settings(&Settings::default());
    let rows = setting_rows(&state, false);
    assert_eq!(rows.len(), 6);
    let first: Vec<&str> = rows[0].iter().map(|s| s.text.as_str()).collect();
    assert_eq!(
        first,
        vec!["1. ", "Language            ", "[English] ", "[Français] ", "[日本語] ", "[Türkçe] "]
    );
    assert_eq!(rows[0][1].color, RowColor::Highlight);
    assert_eq!(rows[0][2].color, RowColor::Green);
    assert_eq!(rows[0][3].color, RowColor::White);
    assert_eq!(rows[1][1].color, RowColor::White);
    assert_eq!(rows[1][2].text, "[Not Valid]");
    assert_eq!(rows[1][2].color, RowColor::Red);
    assert_eq!(setting_rows(&state, true)[1][2].text, "[Valid]");
    // Voice output is off, the second option; debug mode is on, the second too.
    assert_eq!(rows[3][3].text, "[Off] ");
    assert_eq!(rows[3][3].color, RowColor::Green);
    assert_eq!(rows[5][3].text, "[On] ");
    assert_eq!(rows[5][3].color, RowColor::Green);
    assert_eq!(rows[5][0].text, "6. ");
}

#[test]
fn sheet_panels_show_the_dummy_character() {
    let sheet = create_dummy_character();
    let info: Vec<String> = basic_info(&sheet).into_iter().map(|p| p.0).collect();
    assert_eq!(
        info.concat(),
        "Name: Dummy Character | Race: Human | Gender: Unspecified"
    );
    // A wide panel pads names to the longest one and a space.
    let wide = attribute_rows(&sheet, 60);
    assert_eq!(wide.len(), 3);
    assert_eq!(wide[0].len(), 4);
    assert_eq!(wide[2].len(), 3);
    assert_eq!(wide[0][0].name, "BODY");
    assert_eq!(wide[0][0].padding, "      ");
    assert_eq!(wide[0][0].value, "3");
    assert_eq!(wide[2][2].name, "RESONANCE");
    assert_eq!(wide[2][2].padding, " ");
    // A narrow one cuts them to three letters.
    let narrow = attribute_rows(&sheet, 30);
    assert_eq!(narrow[1][0].name, "WIL");
    assert_eq!(narrow[1][0].padding, " ");
    let derived = derived_rows(&sheet);
    assert_eq!(derived.len(), 6);
    assert_eq!(derived[1], "Armor:  0");
    assert_eq!(derived[2], "Essence:  6.00");
    assert_eq!(derived[3], "Edge Points:  3");
    assert!(derived[0].starts_with("Initiative:  "));
    assert!(derived[5].starts_with("Limits:  PHY:"));
    let skills = skill_rows(&sheet);
    assert_eq!(skills.len(), 2);
    assert_eq!(skills[0], vec!["Unarmed Combat:1", "Running:1", "Etiquette:1", "Computer:1", ""]);
    assert_eq!(skills[1][3], "First Aid:1");
    assert!(contact_rows(&sheet).is_empty());
    assert!(inventory_rows(&sheet).is_empty());
    assert_eq!(resources_row(&sheet), ("¥5000".to_string(), "Street".to_string()));
    assert_eq!(panel_border(Panel::Inventory, HighlightedSection::Inventory, true), BorderColor::DarkGray);
    assert_eq!(panel_border(Panel::Inventory, HighlightedSection::Inventory, false), BorderColor::Yellow);
    assert_eq!(panel_border(Panel::Attributes, HighlightedSection::Attributes(2), false), BorderColor::Yellow);
    assert_eq!(panel_border(Panel::BasicInfo, HighlightedSection::Backstory, false), BorderColor::Yellow);
    assert_eq!(panel_border(Panel::Contacts, HighlightedSection::Skills, false), BorderColor::White);
}

#[test]
fn sheet_panels_list_contacts_and_items() {
    let mut sheet = create_dummy_character();
    sheet.contacts.insert(
        "Fixer".to_string(),
        Contact { name: "Fixer".to_string(), description: "d".to_string(), loyalty: 2, connection: 5 },
    );
    sheet.inventory.insert(
        "Medkit".to_string(),
        Item { name: "Medkit".to_string(), quantity: 2, description: "d".to_string() },
    );
    assert_eq!(contact_rows(&sheet), vec![vec!["Fixer".to_string(), "2".to_string(), "5".to_string()]]);
    assert_eq!(inventory_rows(&sheet), vec!["Medkit (x2)".to_string()]);
}
