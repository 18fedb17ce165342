//! The main menu and the menu of saved games: moving through their rows, and what
//! choosing a row asks of the application.
use vstd::prelude::*;

use crate::app_state::InputMode;
use crate::settings_menu::{digit_setting, MenuKey};
use crate::text::{concat, decimal, decimal_string, owned};

verus! {

/// The screens a menu leads to.
#[derive(Debug, Clone, Copy, PartialEq, Eq, Structural)]
pub enum Screen {
    MainMenu,
    LoadMenu,
    SaveName,
    ApiKeyInput,
    ImageMenu,
    SettingsMenu,
}

/// What a screen asks of the application.
#[derive(Debug, Clone, PartialEq, Eq)]
pub enum Action {
    Quit,
    /// Load the save at this place in the list of saves.
    LoadSave(usize),
    /// Delete the save at this place in the list of saves, then list the saves again.
    DeleteSave(usize),
    /// Start a new game saved under this name.
    CreateNewGame(String),
    SwitchComponent(Screen),
    SwitchInputMode(InputMode),
    /// Start recording the player's voice.
    StartRecording,
    EndRecording,
    /// Check this API key with the service and keep it if it is valid.
    ValidateKey(String),
    /// Forget the API key.
    ResetKey,
    /// Ask for an image drawn from this prompt.
    RequestImage(String),
}

/// The rows of a list and the selected one.
#[derive(Debug, Clone, Copy, PartialEq, Eq, Structural)]
pub struct MenuList {
    pub len: usize,
    pub selected: Option<usize>,
}

/// A selection points at a row of the list.
pub open spec fn list_wf(l: MenuList) -> bool {
    match l.selected {
        Some(i) => i < l.len,
        None => true,
    }
}

/// The selection after moving down: the row below, the first after the last, the
/// first when nothing was selected; an empty list keeps its selection.
pub open spec fn next_selection(l: MenuList) -> Option<usize> {
    if l.len == 0 {
        l.selected
    } else {
        match l.selected {
            Some(i) => if i + 1 >= l.len {
                Some(0usize)
            } else {
                Some((i + 1) as usize)
            },
            None => Some(0usize),
        }
    }
}

/// The selection after moving up: the row above, the last before the first, the
/// first when nothing was selected; an empty list keeps its selection.
pub open spec fn previous_selection(l: MenuList) -> Option<usize> {
    if l.len == 0 {
        l.selected
    } else {
        match l.selected {
            Some(i) => if i == 0 {
                Some((l.len - 1) as usize)
            } else {
                Some((i - 1) as usize)
            },
            None => Some(0usize),
        }
    }
}

impl MenuList {
    /// A list of `len` rows with nothing selected.
    pub fn with_items(len: usize) -> (l: MenuList)
        ensures
            l.len == len,
            l.selected is None,
    {
        MenuList { len, selected: None }
    }

    /// Moves the selection down.
    pub fn next(&mut self)
        requires
            list_wf(*old(self)),
        ensures
            final(self).len == old(self).len,
            final(self).selected == next_selection(*old(self)),
            list_wf(*final(self)),
    {
        if self.len > 0 {
            self.selected = match self.selected {
                Some(i) => if i + 1 >= self.len {
                    Some(0)
                } else {
                    Some(i + 1)
                },
                None => Some(0),
            };
        }
    }

    /// Moves the selection up.
    pub fn previous(&mut self)
        requires
            list_wf(*old(self)),
        ensures
            final(self).len == old(self).len,
            final(self).selected == previous_selection(*old(self)),
            list_wf(*final(self)),
    {
        if self.len > 0 {
            self.selected = match self.selected {
                Some(i) => if i == 0 {
                    Some(self.len - 1)
                } else {
                    Some(i - 1)
                },
                None => Some(0),
            };
        }
    }
}

/// The row a digit key selects in a list of `len` rows: the digit's place, 0 and 1
/// both the first.
fn digit_row(c: char, len: usize) -> (row: usize)
    requires
        '0' <= c <= '9',
        len > 0,
    ensures
        row == digit_setting(c as int - '0' as int, len as int),
        row < len,
{
    let digit = (c as u32) - ('0' as u32);
    let from_one: usize = if digit >= 1 {
        (digit - 1) as usize
    } else {
        0
    };
    from_one % len
}

/// The number of rows of the main menu.
pub const MAIN_MENU_LEN: usize = 4;

/// The text of a row of the main menu.
pub open spec fn main_menu_item(i: int) -> Seq<char> {
    if i == 0 {
        "Start a new game"@
    } else if i == 1 {
        "Load a game"@
    } else if i == 2 {
        "Create an image"@
    } else {
        "Settings"@
    }
}

/// The screen a row of the main menu opens: starting a game or making an image
/// needs a client of the service, else the API key is asked for first.
pub open spec fn main_menu_choice(selected: Option<usize>, has_client: bool) -> Option<Action> {
    match selected {
        Some(0usize) => Some(
            Action::SwitchComponent(
                if has_client {
                    Screen::SaveName
                } else {
                    Screen::ApiKeyInput
                },
            ),
        ),
        Some(1usize) => Some(Action::SwitchComponent(Screen::LoadMenu)),
        Some(2usize) => Some(
            Action::SwitchComponent(
                if has_client {
                    Screen::ImageMenu
                } else {
                    Screen::ApiKeyInput
                },
            ),
        ),
        Some(3usize) => Some(Action::SwitchComponent(Screen::SettingsMenu)),
        _ => None,
    }
}

/// A row of a menu as shown: its text and whether it is highlighted.
#[derive(Debug, Clone, PartialEq, Eq)]
pub struct MenuLine {
    pub text: String,
    pub highlighted: bool,
}

/// The main menu.
#[derive(Debug, Clone, Copy, PartialEq, Eq, Structural)]
pub struct MainMenu {
    pub state: MenuList,
}

impl MainMenu {
    /// The menu with its first row selected.
    pub fn new() -> (m: MainMenu)
        ensures
            m.state.len == MAIN_MENU_LEN,
            m.state.selected == Some(0usize),
    {
        MainMenu { state: MenuList { len: MAIN_MENU_LEN, selected: Some(0) } }
    }

    /// Opens the screen of the selected row.
    pub fn switch_component(&self, has_client: bool) -> (a: Option<Action>)
        ensures
            a == main_menu_choice(self.state.selected, has_client),
    {
        match self.state.selected {
            Some(0) => Some(
                Action::SwitchComponent(
                    if has_client {
                        Screen::SaveName
                    } else {
                        Screen::ApiKeyInput
                    },
                ),
            ),
            Some(1) => Some(Action::SwitchComponent(Screen::LoadMenu)),
            Some(2) => Some(
                Action::SwitchComponent(
                    if has_client {
                        Screen::ImageMenu
                    } else {
                        Screen::ApiKeyInput
                    },
                ),
            ),
            Some(3) => Some(Action::SwitchComponent(Screen::SettingsMenu)),
            _ => None,
        }
    }

    /// Reads a key: enter, right or `l` open the selected row; up or `k` and down or
    /// `j` move the selection; `q` quits; a digit selects its row and opens it.
    pub fn on_key(&mut self, key: MenuKey, has_client: bool) -> (a: Option<Action>)
        requires
            old(self).state.len == MAIN_MENU_LEN,
            list_wf(old(self).state),
        ensures
            final(self).state.len == MAIN_MENU_LEN,
            list_wf(final(self).state),
            match key {
                MenuKey::Enter | MenuKey::Right | MenuKey::Char('l') => *final(self) == *old(
                    self,
                ) && a == main_menu_choice(old(self).state.selected, has_client),
                MenuKey::Up | MenuKey::Char('k') => final(self).state.selected
                    == previous_selection(old(self).state) && a is None,
                MenuKey::Down | MenuKey::Char('j') => final(self).state.selected
                    == next_selection(old(self).state) && a is None,
                MenuKey::Char('q') => *final(self) == *old(self) && a == Some(Action::Quit),
                MenuKey::Char(c) => if '0' <= c <= '9' {
                    let row = digit_setting(c as int - '0' as int, MAIN_MENU_LEN as int);
                    final(self).state.selected == Some(row as usize) && a == main_menu_choice(
                        Some(row as usize),
                        has_client,
                    )
                } else {
                    *final(self) == *old(self) && a is None
                },
                _ => *final(self) == *old(self) && a is None,
            },
    {
        match key {
            MenuKey::Enter | MenuKey::Right | MenuKey::Char('l') => self.switch_component(
                has_client,
            ),
            MenuKey::Up | MenuKey::Char('k') => {
                self.state.previous();
                None
            },
            MenuKey::Down | MenuKey::Char('j') => {
                self.state.next();
                None
            },
            MenuKey::Char('q') => Some(Action::Quit),
            MenuKey::Char(c) => {
                if '0' <= c && c <= '9' {
                    let row = digit_row(c, MAIN_MENU_LEN);
                    self.state.selected = Some(row);
                    self.switch_component(has_client)
                } else {
                    None
                }
            },
            _ => None,
        }
    }

    /// The rows as shown: `n. ` and the item, the selected row (the first when none
    /// is) highlighted.
    pub fn menu_lines(&self) -> (lines: Vec<MenuLine>)
        ensures
            lines.len() == MAIN_MENU_LEN,
            forall|i: int|
                0 <= i < MAIN_MENU_LEN ==> {
                    &&& (#[trigger] lines@[i]).text@ == decimal((i + 1) as nat) + ". "@
                        + main_menu_item(i)
                    &&& lines@[i].highlighted == (i == match self.state.selected {
                        Some(s) => s as int,
                        None => 0,
                    })
                },
    {
        let highlighted: usize = match self.state.selected {
            Some(s) => s,
            None => 0,
        };
        let mut lines: Vec<MenuLine> = Vec::new();
        let mut i: usize = 0;
        while i < MAIN_MENU_LEN
            invariant
                i <= MAIN_MENU_LEN,
                lines.len() == i,
                highlighted == match self.state.selected {
                    Some(s) => s,
                    None => 0,
                },
                forall|j: int|
                    0 <= j < i ==> {
                        &&& (#[trigger] lines@[j]).text@ == decimal((j + 1) as nat) + ". "@
                            + main_menu_item(j)
                        &&& lines@[j].highlighted == (j == highlighted)
                    },
            decreases MAIN_MENU_LEN - i,
        {
            let item = if i == 0 {
                owned("Start a new game")
            } else if i == 1 {
                owned("Load a game")
            } else if i == 2 {
                owned("Create an image")
            } else {
                owned("Settings")
            };
            let number = decimal_string((i + 1) as u64);
            let prefix = concat(number.as_str(), ". ");
            let text = concat(prefix.as_str(), item.as_str());
            lines.push(MenuLine { text, highlighted: i == highlighted });
            i = i + 1;
        }
        lines
    }
}

/// The menu of saved games: the list of saves, and whether backspace was pressed
/// once, so that a second press deletes the selected save.
#[derive(Debug, Clone, Copy, PartialEq, Eq, Structural)]
pub struct LoadMenu {
    pub state: MenuList,
    pub backspace_counter: bool,
}

/// What a key does to the menu of saves: the menu after it and what it asks.
pub open spec fn load_key_effect(
    before: LoadMenu,
    key: MenuKey,
    has_client: bool,
    after: LoadMenu,
    a: Option<Action>,
) -> bool {
    let l = before.state;
    let unchanged = after == before;
    match key {
        MenuKey::Enter => if l.len == 0 {
            unchanged && a == Some(
                Action::SwitchComponent(
                    if has_client {
                        Screen::SaveName
                    } else {
                        Screen::ApiKeyInput
                    },
                ),
            )
        } else {
            unchanged && a == match l.selected {
                Some(i) => Some(Action::LoadSave(i)),
                None => None,
            }
        },
        MenuKey::Right | MenuKey::Char('l') => unchanged && a == match l.selected {
            Some(i) => Some(Action::LoadSave(i)),
            None => None,
        },
        MenuKey::Esc | MenuKey::Char('h') => unchanged && a == Some(
            Action::SwitchComponent(Screen::MainMenu),
        ),
        MenuKey::Up | MenuKey::Char('k') => after.state.len == l.len && after.state.selected
            == previous_selection(l) && !after.backspace_counter && a is None,
        MenuKey::Down | MenuKey::Char('j') => after.state.len == l.len && after.state.selected
            == next_selection(l) && !after.backspace_counter && a is None,
        MenuKey::Backspace => after.state == l && if before.backspace_counter {
            !after.backspace_counter && a == match l.selected {
                Some(i) => if l.len > 0 {
                    Some(Action::DeleteSave(i))
                } else {
                    None
                },
                None => None,
            }
        } else {
            after.backspace_counter && a is None
        },
        MenuKey::Char(c) => if l.len == 0 || !('0' <= c <= '9') {
            unchanged && a is None
        } else {
            let row = digit_setting(c as int - '0' as int, l.len as int);
            after.state.len == l.len && after.state.selected == Some(row as usize)
                && after.backspace_counter == before.backspace_counter && a == Some(
                Action::LoadSave(row as usize),
            )
        },
        _ => unchanged && a is None,
    }
}

impl LoadMenu {
    /// The menu over `saves` saves, the first selected when there is one.
    pub fn new(saves: usize) -> (m: LoadMenu)
        ensures
            m.state.len == saves,
            m.state.selected == (if saves > 0 {
                Some(0usize)
            } else {
                None
            }),
            !m.backspace_counter,
    {
        let mut state = MenuList::with_items(saves);
        state.next();
        LoadMenu { state, backspace_counter: false }
    }

    /// Takes the list of saves anew after one was deleted: the selection stays where
    /// it was, or moves to the last save when the list got shorter than it.
    pub fn refresh(&mut self, saves: usize)
        requires
            list_wf(old(self).state),
        ensures
            final(self).state.len == saves,
            final(self).state.selected == match old(self).state.selected {
                Some(i) => if i < saves {
                    Some(i)
                } else if saves > 0 {
                    Some((saves - 1) as usize)
                } else {
                    None
                },
                None => None,
            },
            final(self).backspace_counter == old(self).backspace_counter,
            list_wf(final(self).state),
    {
        let selected = match self.state.selected {
            Some(i) => if i < saves {
                Some(i)
            } else if saves > 0 {
                Some(saves - 1)
            } else {
                None
            },
            None => None,
        };
        self.state = MenuList { len: saves, selected };
    }

    /// Reads a key: see `load_key_effect`.
    pub fn on_key(&mut self, key: MenuKey, has_client: bool) -> (a: Option<Action>)
        requires
            list_wf(old(self).state),
        ensures
            load_key_effect(*old(self), key, has_client, *final(self), a),
            list_wf(final(self).state),
    {
        match key {
            MenuKey::Enter if self.state.len == 0 => Some(
                Action::SwitchComponent(
                    if has_client {
                        Screen::SaveName
                    } else {
                        Screen::ApiKeyInput
                    },
                ),
            ),
            MenuKey::Enter | MenuKey::Right | MenuKey::Char('l') => match self.state.selected {
                Some(i) => Some(Action::LoadSave(i)),
                None => None,
            },
            MenuKey::Esc | MenuKey::Char('h') => Some(Action::SwitchComponent(Screen::MainMenu)),
            MenuKey::Up | MenuKey::Char('k') => {
                self.backspace_counter = false;
                self.state.previous();
                None
            },
            MenuKey::Down | MenuKey::Char('j') => {
                self.backspace_counter = false;
                self.state.next();
                None
            },
            MenuKey::Backspace => {
                if self.backspace_counter {
                    self.backspace_counter = false;
                    match self.state.selected {
                        Some(i) => if self.state.len > 0 {
                            Some(Action::DeleteSave(i))
                        } else {
                            None
                        },
                        None => None,
                    }
                } else {
                    self.backspace_counter = true;
                    None
                }
            },
            MenuKey::Char(c) => {
                if self.state.len == 0 || !('0' <= c && c <= '9') {
                    None
                } else {
                    let row = digit_row(c, self.state.len);
                    self.state.selected = Some(row);
                    Some(Action::LoadSave(row))
                }
            },
            _ => None,
        }
    }
}

/// Moving down and then up comes back to the row one started from.
pub proof fn law_next_then_previous(l: MenuList)
    requires
        list_wf(l),
        l.selected is Some,
    ensures
        previous_selection(MenuList { len: l.len, selected: next_selection(l) }) == l.selected,
{
}

/// Two presses of backspace in a row delete the selected save; the first alone
/// deletes nothing.
pub proof fn law_double_backspace_deletes(
    m0: LoadMenu,
    m1: LoadMenu,
    m2: LoadMenu,
    has_client: bool,
    a1: Option<Action>,
    a2: Option<Action>,
)
    requires
        !m0.backspace_counter,
        m0.state.len > 0,
        m0.state.selected is Some,
        load_key_effect(m0, MenuKey::Backspace, has_client, m1, a1),
        load_key_effect(m1, MenuKey::Backspace, has_client, m2, a2),
    ensures
        a1 is None,
        a2 == Some(Action::DeleteSave(m0.state.selected->0)),
        !m2.backspace_counter,
        m2.state == m0.state,
{
}

} // verus!
