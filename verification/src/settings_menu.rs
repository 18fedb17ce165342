//! The keys of the settings menu: moving between settings, cycling their options,
//! and writing the choice back to the settings.
use vstd::prelude::*;

use crate::settings::{Language, Settings};
use crate::settings_state::{language_option, model_option, options_of, valid_selection, SettingsState};
use crate::text::owned;

verus! {

broadcast use vstd::string::group_string_axioms;

/// The keys the settings menu reads.
#[derive(Debug, Clone, Copy, PartialEq, Eq, Structural)]
pub enum MenuKey {
    Up,
    Down,
    Left,
    Right,
    Enter,
    Esc,
    Char(char),
    Backspace,
    Other,
}

/// What the settings menu asks of the application.
#[derive(Debug, Clone, Copy, PartialEq, Eq, Structural)]
pub enum MenuAction {
    /// Open the screen that edits the API key.
    EditApiKey,
    /// Go back to the main menu.
    MainMenu,
}

/// The settings menu.
#[derive(Debug)]
pub struct SettingsMenu {
    pub state: SettingsState,
}

/// The option of `setting` after moving from `option` by `change` (1 or -1): the
/// language and the model cycle through their options, a switch flips.
pub open spec fn changed_option(setting: int, option: int, change: int) -> int {
    if setting == 0 {
        (option + change + 4) % 4
    } else if setting == 2 {
        (option + change + 3) % 3
    } else {
        1 - option
    }
}

/// `new` holds the choice of `options` written over `old`: the language and model
/// chosen (an option out of range keeps the old one), and the three switches.
pub open spec fn settings_applied(old: Settings, options: Seq<usize>, new: Settings) -> bool {
    &&& new.language == match options[0] {
        0usize => Language::English,
        1 => Language::French,
        2 => Language::Japanese,
        3 => Language::Turkish,
        _ => old.language,
    }
    &&& new.model@ == match options[2] {
        0usize => "gpt-4o-mini"@,
        1 => "gpt-4o"@,
        2 => "o1-mini"@,
        _ => old.model@,
    }
    &&& new.audio_output_enabled == (options[3] == 0)
    &&& new.audio_input_enabled == (options[4] == 0)
    &&& new.debug_mode == (options[5] == 1)
    &&& new.openai_api_key == old.openai_api_key
}

/// The setting a digit key selects: the digit's place, 0 and 1 both the first.
pub open spec fn digit_setting(d: int, n: int) -> int {
    (if d >= 1 { d - 1 } else { 0 }) % n
}

/// What a key does to the selection: moving up or down wraps around; left moves the
/// option back; right or enter moves it forward, except on the API key which opens
/// its editor; a digit selects a setting and moves its option forward (or opens
/// the editor of the API key); escape goes back to the main menu.
pub open spec fn key_effect(
    before: SettingsState,
    key: MenuKey,
    after: SettingsState,
    action: Option<MenuAction>,
) -> bool {
    let sel = before.selected_setting as int;
    let opts = before.selected_options@;
    let n = opts.len() as int;
    let forward = |s: int|
        after.selected_setting == s && after.selected_options@ == opts.update(
            s,
            changed_option(s, opts[s] as int, 1) as usize,
        ) && action is None;
    let editor = |s: int|
        after.selected_setting == s && after.selected_options@ == opts && action == Some(
            MenuAction::EditApiKey,
        );
    match key {
        MenuKey::Up | MenuKey::Char('k') => after.selected_setting == (if sel == 0 {
            n - 1
        } else {
            sel - 1
        }) && after.selected_options@ == opts && action is None,
        MenuKey::Down | MenuKey::Char('j') => after.selected_setting == (if sel >= n - 1 {
            0
        } else {
            sel + 1
        }) && after.selected_options@ == opts && action is None,
        MenuKey::Left | MenuKey::Char('h') => after.selected_setting == sel
            && after.selected_options@ == opts.update(
            sel,
            changed_option(sel, opts[sel] as int, -1) as usize,
        ) && action is None,
        MenuKey::Right | MenuKey::Enter | MenuKey::Char('l') => if sel == 1 {
            editor(sel)
        } else {
            forward(sel)
        },
        MenuKey::Esc => after.selected_setting == sel && after.selected_options@ == opts && action
            == Some(MenuAction::MainMenu),
        MenuKey::Char(c) => if '0' <= c <= '9' {
            let s = digit_setting(c as int - '0' as int, n);
            if s == 1 {
                editor(s)
            } else {
                forward(s)
            }
        } else {
            after.selected_setting == sel && after.selected_options@ == opts && action is None
        },
        MenuKey::Backspace | MenuKey::Other => after.selected_setting == sel && after.selected_options@ == opts
            && action is None,
    }
}

impl SettingsMenu {
    /// The menu showing `settings`, its first setting selected.
    pub fn new(settings: &Settings) -> (m: Self)
        ensures
            m.state.selected_setting == 0,
            m.state.selected_options@ == options_of(*settings),
            valid_selection(m.state),
    {
        SettingsMenu { state: SettingsState::from_settings(settings) }
    }

    /// Moves the option of the selected setting by `change`.
    fn change_settings(&mut self, change: isize)
        requires
            valid_selection(old(self).state),
            change == 1 || change == -1,
        ensures
            valid_selection(final(self).state),
            final(self).state.selected_setting == old(self).state.selected_setting,
            final(self).state.selected_options@ == old(self).state.selected_options@.update(
                old(self).state.selected_setting as int,
                changed_option(
                    old(self).state.selected_setting as int,
                    old(self).state.selected_options@[old(self).state.selected_setting as int] as int,
                    change as int,
                ) as usize,
            ),
    {
        let s = self.state.selected_setting;
        let o = self.state.selected_options[s];
        let next: usize = if s == 0 {
            if change > 0 {
                (o + 1) % 4
            } else {
                (o + 3) % 4
            }
        } else if s == 2 {
            if change > 0 {
                (o + 1) % 3
            } else {
                (o + 2) % 3
            }
        } else {
            1 - o
        };
        self.state.selected_options.set(s, next);
        assert forall|k: int| 0 <= k < 6 implies #[trigger] self.state.selected_options@[k] < crate::settings_state::option_count(k) by {
            if k != s as int {
                assert(self.state.selected_options@[k] == old(self).state.selected_options@[k]);
            }
        }
    }

    /// Writes the menu's choice back to `settings`.
    pub fn apply_settings(&self, settings: &mut Settings)
        requires
            self.state.selected_options@.len() >= 6,
        ensures
            settings_applied(*old(settings), self.state.selected_options@, *final(settings)),
    {
        let opts = &self.state.selected_options;
        match opts[0] {
            0 => settings.language = Language::English,
            1 => settings.language = Language::French,
            2 => settings.language = Language::Japanese,
            3 => settings.language = Language::Turkish,
            _ => {},
        }
        match opts[2] {
            0 => settings.model = owned("gpt-4o-mini"),
            1 => settings.model = owned("gpt-4o"),
            2 => settings.model = owned("o1-mini"),
            _ => {},
        }
        settings.audio_output_enabled = opts[3] == 0;
        settings.audio_input_enabled = opts[4] == 0;
        settings.debug_mode = opts[5] == 1;
    }

    /// Handles a key, then writes the choice back to `settings`; the application
    /// saves them.
    pub fn on_key(&mut self, key: MenuKey, settings: &mut Settings) -> (action: Option<MenuAction>)
        requires
            valid_selection(old(self).state),
        ensures
            valid_selection(final(self).state),
            key_effect(old(self).state, key, final(self).state, action),
            settings_applied(*old(settings), final(self).state.selected_options@, *final(settings)),
    {
        let n = self.state.selected_options.len();
        let action = match key {
            MenuKey::Up | MenuKey::Char('k') => {
                self.state.selected_setting = if self.state.selected_setting == 0 {
                    n - 1
                } else {
                    self.state.selected_setting - 1
                };
                None
            },
            MenuKey::Down | MenuKey::Char('j') => {
                self.state.selected_setting = if self.state.selected_setting >= n - 1 {
                    0
                } else {
                    self.state.selected_setting + 1
                };
                None
            },
            MenuKey::Left | MenuKey::Char('h') => {
                self.change_settings(-1);
                None
            },
            MenuKey::Right | MenuKey::Enter | MenuKey::Char('l') => {
                if self.state.selected_setting == 1 {
                    Some(MenuAction::EditApiKey)
                } else {
                    self.change_settings(1);
                    None
                }
            },
            MenuKey::Esc => Some(MenuAction::MainMenu),
            MenuKey::Char(c) => {
                if '0' <= c && c <= '9' {
                    let digit = (c as u32) - ('0' as u32);
                    let from_one: usize = if digit >= 1 {
                        (digit - 1) as usize
                    } else {
                        0
                    };
                    self.state.selected_setting = from_one % n;
                    if self.state.selected_setting == 1 {
                        Some(MenuAction::EditApiKey)
                    } else {
                        self.change_settings(1);
                        None
                    }
                } else {
                    None
                }
            },
            MenuKey::Backspace | MenuKey::Other => None,
        };
        self.apply_settings(settings);
        action
    }
}

/// Moving an option forward and then back gives it back.
pub proof fn law_change_round_trip(setting: int, option: int)
    requires
        0 <= setting < 6,
        0 <= option < crate::settings_state::option_count(setting),
    ensures
        changed_option(setting, changed_option(setting, option, 1), -1) == option,
        changed_option(setting, changed_option(setting, option, -1), 1) == option,
{
}

/// Writing a selection back to the settings and reading the settings again gives
/// the selection, when the API key's option is at its place 0.
pub proof fn law_apply_then_read(old: Settings, options: Seq<usize>, new: Settings)
    requires
        options.len() == 6,
        forall|k: int| 0 <= k < 6 ==> #[trigger] options[k] < crate::settings_state::option_count(k),
        options[1] == 0,
        settings_applied(old, options, new),
    ensures
        options_of(new) == options,
{
    reveal_strlit("gpt-4o-mini");
    reveal_strlit("gpt-4o");
    reveal_strlit("o1-mini");
    assert(options[0] < 4);
    assert(language_option(new.language) == options[0]);
    assert("gpt-4o"@.len() == 6);
    assert("gpt-4o"@ != "gpt-4o-mini"@);
    assert("o1-mini"@ != "gpt-4o-mini"@) by {
        assert("o1-mini"@[0] != "gpt-4o-mini"@[0]);
    }
    assert("o1-mini"@ != "gpt-4o"@) by {
        assert("o1-mini"@[0] != "gpt-4o"@[0]);
    }
    assert(model_option(new.model@) == options[2]);
    assert(options_of(new)[3] == options[3]);
    assert(options_of(new)[4] == options[4]);
    assert(options_of(new)[5] == options[5]);
    assert(options_of(new) =~= options);
}

/// Moving up and then down selects the same setting again.
pub proof fn law_up_then_down(before: SettingsState, middle: SettingsState, after: SettingsState)
    requires
        valid_selection(before),
        key_effect(before, MenuKey::Up, middle, None),
        key_effect(middle, MenuKey::Down, after, None),
    ensures
        after.selected_setting == before.selected_setting,
        after.selected_options@ == before.selected_options@,
{
}

} // verus!
