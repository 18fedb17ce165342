use sharad_ratatui::error::{recent_errors, ShadowrunError};
use sharad_ratatui::component::ComponentEnum;
use sharad_ratatui::menus::MainMenu;
use sharad_ratatui::agents::{AddMemory, AgentCallOp, CrunchCall, CrunchCallOp, CrunchCallParams, CrunchCallResult, Document, Memory, MemoryError, RemoveMemory};
use sharad_ratatui::ai_response::{create_user_message, add_sharad_prepromt, UserMessage, PORTRAIT_STYLE};
use sharad_ratatui::app_state::InputMode;
use sharad_ratatui::game_state::GameState;
use sharad_ratatui::game_view::{GameCommand, GameKey, HighlightedSection, InGame};
use sharad_ratatui::markdown::parse_markdown;
use sharad_ratatui::message::{Message, MessageType};
use sharad_ratatui::save::SaveManager;
use sharad_ratatui::settings::{Language, Settings};
use sharad_ratatui::settings_menu::{MenuAction, MenuKey, SettingsMenu};
use sharad_ratatui::settings_state::SettingsState;
use sharad_ratatui::spinner::{spinner_frame, Spinner};
use sharad_ratatui::vim::{CursorMove, Edit, Input, Key, Mode, Transition, Vim, Warning};
use sharad_ratatui::tool_dispatch::create_dummy_character;

fn key(c: char) -> Input {
    Input { key: Key::Char(c), ctrl: false, alt: false, shift: false }
}

fn special(k: Key) -> Input {
    Input { key: k, ctrl: false, alt: false, shift: false }
}

#[test]
fn markdown_bold_header_and_list() {
    let spans = parse_markdown("a **b** ### head rest");
    let view: Vec<(String, bool, bool)> =
        spans.iter().map(|s| (s.text.clone(), s.bold, s.underlined)).collect();
    assert_eq!(
        view,
        vec![
            ("a ".to_string(), false, false),
            ("b".to_string(), true, false),
            (" ".to_string(), false, false),
            ("HEAD".to_string(), true, true),
            ("rest".to_string(), false, false),
        ]
    );
    let spans = parse_markdown("x - item\nnext ## no");
    let view: Vec<(String, bool, bool)> =
        spans.iter().map(|s| (s.text.clone(), s.bold, s.underlined)).collect();
    assert_eq!(
        view,
        vec![
            ("x ".to_string(), false, false),
            ("- item".to_string(), false, false),
            ("\nnext ## no".to_string(), false, false),
        ]
    );
    let spans = parse_markdown("**open");
    assert_eq!(spans.len(), 1);
    assert!(spans[0].bold);
    assert_eq!(spans[0].text, "open");
    assert!(parse_markdown("").is_empty());
}

#[test]
fn spinner_cycles_through_ten_frames() {
    let mut s = Spinner::new();
    let first = s.get_frame();
    assert_eq!(first, '\u{280B}');
    for _ in 0..10 {
        s.next_frame();
    }
    assert_eq!(s.get_frame(), first);
    s.next_frame();
    assert_eq!(s.get_frame(), '\u{2819}');
    assert_eq!(spinner_frame(&s), " Game Master is thinking \u{2819} ");
    let mut last = Spinner { current_frame: usize::MAX };
    last.next_frame();
    assert_eq!(last.current_frame, 0);
}

#[test]
fn vim_keymap() {
    let v = Vim::new(Mode::Normal);
    let (edits, t) = v.transition(key('i'));
    assert_eq!(edits, vec![Edit::CancelSelection]);
    assert_eq!(t, Transition::Mode(Mode::Insert));
    let (edits, t) = v.transition(key('h'));
    assert_eq!(edits, vec![Edit::Move(CursorMove::Back)]);
    assert_eq!(t, Transition::Nop);
    assert_eq!(v.transition(special(Key::Enter)).1, Transition::Validation);
    assert_eq!(v.transition(special(Key::Esc)).1, Transition::Exit);
    assert_eq!(v.transition(special(Key::Null)).1, Transition::Nop);
    assert_eq!(v.transition(key('z')).1, Transition::Pending(key('z')));
    // gg goes to the top.
    let g = Vim::new(Mode::Normal).with_pending(key('g'));
    assert_eq!(g.transition(key('g')).0, vec![Edit::Move(CursorMove::Top)]);
    // An operator followed by a motion yanks what it covers.
    let (edits, t) = Vim::new(Mode::Operator('y')).transition(key('w'));
    assert_eq!(
        edits,
        vec![Edit::Move(CursorMove::WordForward), Edit::Copy, Edit::YankToClipboard]
    );
    assert_eq!(t, Transition::Mode(Mode::Normal));
    let (edits, t) = Vim::new(Mode::Operator('c')).transition(key('c'));
    assert_eq!(
        edits,
        vec![
            Edit::Move(CursorMove::Head),
            Edit::StartSelection,
            Edit::DownOrEnd,
            Edit::Cut,
            Edit::YankToClipboard
        ]
    );
    assert_eq!(t, Transition::Mode(Mode::Insert));
    let insert = Vim::new(Mode::Insert);
    assert_eq!(insert.transition(key('q')).0, vec![Edit::Type(key('q'))]);
    assert_eq!(insert.transition(special(Key::Esc)).1, Transition::Mode(Mode::Normal));
    let warned = Vim::new(Mode::new_warning(Warning::InputTooShort));
    assert_eq!(warned.transition(key('x')).1, Transition::Mode(Mode::Normal));
    assert_eq!(Vim::new(Mode::Recording).transition(key('x')).1, Transition::EndRecording);
    assert_eq!(Mode::Operator('d').label(), "OPERATOR(Delete)");
    assert_eq!(Mode::Operator('q').label(), "OPERATOR(q)");
    assert_eq!(Mode::Warning(Warning::AudioInputDisabled).help(), Warning::AudioInputDisabled.text());
}

#[test]
fn settings_menu_keys() {
    let mut settings = Settings::default();
    settings.model = "gpt-4o".to_string();
    let mut menu = SettingsMenu::new(&settings);
    assert_eq!(menu.state.selected_options, vec![0, 0, 1, 1, 1, 1]);
    // Left on the language wraps to the last one.
    assert_eq!(menu.on_key(MenuKey::Left, &mut settings), None);
    assert!(matches!(settings.language, Language::Turkish));
    assert_eq!(menu.on_key(MenuKey::Right, &mut settings), None);
    assert!(matches!(settings.language, Language::English));
    // Up from the first setting goes to the last: debug mode.
    menu.on_key(MenuKey::Up, &mut settings);
    assert_eq!(menu.state.selected_setting, 5);
    menu.on_key(MenuKey::Enter, &mut settings);
    assert!(!settings.debug_mode);
    // The digit 2 selects the API key, whose editor opens.
    assert_eq!(menu.on_key(MenuKey::Char('2'), &mut settings), Some(MenuAction::EditApiKey));
    assert_eq!(menu.state.selected_setting, 1);
    // The digit 3 selects the model and moves it forward.
    menu.on_key(MenuKey::Char('3'), &mut settings);
    assert_eq!(settings.model, "o1-mini");
    assert_eq!(menu.on_key(MenuKey::Esc, &mut settings), Some(MenuAction::MainMenu));
    let again = SettingsState::from_settings(&settings);
    assert_eq!(again.selected_options, menu.state.selected_options);
}

#[test]
fn game_screen_scroll_and_sections() {
    let mut game = GameState::new("a".to_string(), "t".to_string(), "s".to_string());
    game.main_character_sheet = Some(create_dummy_character());
    let mut screen = InGame::new(game, Vec::new());
    screen.max_height = 2;
    for i in 0..5 {
        screen.new_message(&Message::new(MessageType::System, format!("line {}", i)));
    }
    assert_eq!(screen.total_lines, 5);
    assert_eq!(screen.content_scroll, 3);
    screen.scroll_down();
    assert_eq!(screen.content_scroll, 3);
    screen.scroll_up();
    screen.scroll_up();
    assert_eq!(screen.content_scroll, 1);
    assert_eq!(screen.handle_normal_input(GameKey::Home, false, ""), GameCommand::Nothing);
    assert_eq!(screen.content_scroll, 0);
    screen.handle_normal_input(GameKey::End, false, "");
    assert_eq!(screen.content_scroll, 3);
    // Tab walks the sections of the sheet and comes back to none.
    screen.handle_normal_input(GameKey::Tab, false, "");
    assert_eq!(screen.highlighted_section, HighlightedSection::Backstory);
    for _ in 0..8 {
        screen.handle_normal_input(GameKey::Tab, false, "");
    }
    assert_eq!(screen.highlighted_section, HighlightedSection::Resources);
    screen.handle_normal_input(GameKey::Tab, false, "");
    assert_eq!(screen.highlighted_section, HighlightedSection::Hidden);
    screen.handle_normal_input(GameKey::Tab, false, "");
    assert_eq!(
        screen.handle_normal_input(GameKey::Esc, false, ""),
        GameCommand::Nothing
    );
    assert_eq!(screen.highlighted_section, HighlightedSection::Hidden);
    assert_eq!(
        screen.handle_normal_input(GameKey::Enter, false, "I look around"),
        GameCommand::Submit
    );
    assert!(screen.spinner_active);
    assert_eq!(screen.content.last().map(|m| m.content.clone()), Some("I look around".to_string()));
    assert_eq!(screen.handle_normal_input(GameKey::Enter, false, ""), GameCommand::Nothing);
    assert_eq!(screen.handle_normal_input(GameKey::Char('e'), false, ""), GameCommand::StartEditing);
    assert_eq!(screen.handle_edit_input(GameKey::Char('v'), true), GameCommand::Paste);
    assert_eq!(screen.handle_edit_input(GameKey::Esc, false), GameCommand::StopEditing);
    assert_eq!(screen.handle_normal_input(GameKey::Esc, false, ""), GameCommand::SaveAndLeave);
    assert!(screen.content.is_empty());
}

#[test]
fn player_turns_show_their_action() {
    let screen = InGame::new(
        GameState::new("a".to_string(), "t".to_string(), "s".to_string()),
        Vec::new(),
    );
    let turn = Message::new(
        MessageType::User,
        r#"{"instructions": "Act as the Game Master", "player_action": "Open the door"}"#.to_string(),
    );
    let parsed = turn.parse_user_message().expect("a player's turn");
    assert_eq!(parsed.player_action, "Open the door");
    let lines = screen.parse_message(&turn);
    let texts: Vec<String> = lines
        .iter()
        .map(|l| l.spans.iter().map(|s| s.text.clone()).collect::<String>())
        .collect();
    assert_eq!(texts, vec!["".to_string(), "Player action:".to_string(), "Open the door".to_string()]);
    let game_turn = Message::new(MessageType::Game, "{}".to_string());
    assert!(game_turn.parse_user_message().is_none());
}

#[test]
fn user_message_carries_instructions() {
    let m = create_user_message("French", "I run");
    assert!(m.instructions.starts_with("Act as the Game Master"));
    assert!(m.instructions.ends_with("in the 'fluff': French."));
    assert_eq!(m.player_action, "I run");
    let u = UserMessage::new("i".to_string(), "a".to_string());
    assert_eq!((u.instructions.as_str(), u.player_action.as_str()), ("i", "a"));
    assert!(matches!(InputMode::default(), InputMode::Normal));
    assert_eq!(Language::Japanese.name(), "Japanese");
}

#[test]
fn agent_tools_shape_their_answers() {
    let memory = Memory {
        title: "Contact".to_string(),
        content: "Jenna owes a favour".to_string(),
        tags: vec!["npc".to_string()],
    };
    assert_eq!(
        AddMemory.call(memory).unwrap(),
        "Title:\nContact\nTags:[\n    \"npc\",\n]\nContent:\nJenna owes a favour"
    );
    assert_eq!(RemoveMemory.call("Contact".to_string()).unwrap(), "Memory removed: Contact");
    assert_eq!(MemoryError.message(), "Memory error");
    let params = CrunchCallParams { query: "roll".to_string(), context: Some("combat".to_string()) };
    assert_eq!(CrunchCall::full_query(&params), "Context: combat\n\nQuery: roll");
    let failed = CrunchCall::call_result(Err("timeout".to_string()));
    assert_eq!(failed.response, "Error: timeout");
    assert!(!failed.success);
    assert_eq!(
        AgentCallOp::output(Ok(CrunchCallResult {
            response: "no".to_string(),
            success: false,
            metadata: None
        })),
        Err("Agent call failed: no".to_string())
    );
    assert_eq!(CrunchCallOp::output(Err("boom".to_string())), "Agent call error: boom");
    let d = Document::new("1".to_string(), "rules".to_string());
    assert_eq!(d.id(), "1");
    assert_eq!(Document::name(), "documents");
    assert_eq!(Document::schema()[0].1, "TEXT PRIMARY KEY");
    assert_eq!(
        d.column_values(),
        vec![("id", "1".to_string()), ("content", "rules".to_string())]
    );
}

#[test]
fn save_files_are_json_files() {
    assert!(SaveManager::is_save_file("game.json"));
    assert!(SaveManager::is_save_file("my.game.json"));
    assert!(!SaveManager::is_save_file(".json"));
    assert!(!SaveManager::is_save_file("game.json.bak"));
    assert!(!SaveManager::is_save_file("json"));
    let m = SaveManager::new(vec!["a.json".to_string()]);
    assert_eq!(m.available_saves.len(), 1);
}

#[test]
fn portrait_prompt_follows_the_style() {
    let p = add_sharad_prepromt("a troll decker");
    assert!(p.starts_with("Create a detailed character portrait"));
    assert!(p.ends_with("Image prompt: a troll decker"));
    assert_eq!(p.len(), PORTRAIT_STYLE.len() + "a troll decker".len());
}

#[test]
fn environment_key_takes_precedence() {
    let mut saved = Settings::default();
    saved.openai_api_key = Some("from-file".to_string());
    let s = saved.clone().with_env_key(Some("from-env".to_string()));
    assert_eq!(s.openai_api_key.as_deref(), Some("from-env"));
    let s = saved.with_env_key(None);
    assert_eq!(s.openai_api_key.as_deref(), Some("from-file"));
    assert!(s.debug_mode);
}

#[test]
fn save_path_of_the_game_on_display() {
    let mut game = GameState::new("a".to_string(), "t".to_string(), "s".to_string());
    game.save_path = Some("/saves/s/s.json".to_string());
    let shown = ComponentEnum::InGame(InGame::new(game, Vec::new()));
    assert_eq!(shown.get_ingame_save_path().map(|p| p.as_str()), Some("/saves/s/s.json"));
    let unsaved = ComponentEnum::InGame(InGame::new(
        GameState::new("a".to_string(), "t".to_string(), "s".to_string()),
        Vec::new(),
    ));
    assert_eq!(unsaved.get_ingame_save_path(), None);
    assert_eq!(ComponentEnum::MainMenu(MainMenu::new()).get_ingame_save_path(), None);
}

#[test]
fn only_recent_errors_are_listed() {
    let errors = vec![
        (ShadowrunError::Game("x".to_string()), 100),
        (ShadowrunError::IO("y".to_string()), 6000),
        (ShadowrunError::OpenAI("z".to_string()), 4999),
        (ShadowrunError::Unknown("w".to_string()), 5000),
    ];
    assert_eq!(recent_errors(&errors), vec!["Game Error: x".to_string(), "OpenAI Error: z".to_string()]);
}

#[test]
fn pages_scroll_by_a_screen() {
    let game = GameState::new("a".to_string(), "t".to_string(), "s".to_string());
    let mut screen = InGame::new(game, Vec::new());
    screen.max_height = 3;
    for i in 0..10 {
        screen.new_message(&Message::new(MessageType::System, format!("line {}", i)));
    }
    assert_eq!(screen.content_scroll, 7);
    screen.handle_normal_input(GameKey::PageUp, false, "");
    assert_eq!(screen.content_scroll, 4);
    screen.handle_normal_input(GameKey::PageUp, false, "");
    screen.handle_normal_input(GameKey::PageUp, false, "");
    assert_eq!(screen.content_scroll, 0);
    screen.handle_normal_input(GameKey::PageDown, false, "");
    assert_eq!(screen.content_scroll, 3);
    screen.handle_normal_input(GameKey::PageDown, false, "");
    screen.handle_normal_input(GameKey::PageDown, false, "");
    assert_eq!(screen.content_scroll, 7);
    assert_eq!(screen.content.len(), 10);
    assert_eq!(screen.all_lines.len(), 10);
}
