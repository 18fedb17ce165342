//! Which screen the application shows, and how the keyboard is read.
use vstd::prelude::*;

verus! {

/// The screens of the application.
#[derive(Clone, Copy, Debug, PartialEq, Eq, Structural)]
pub enum AppState {
    MainMenu,
    InGame,
    LoadMenu,
    CreateImage,
    SettingsMenu,
    InputApiKey,
    InputSaveName,
}

/// How key presses are read: as commands, as text, or to stop a recording.
#[derive(Clone, Copy, Debug, PartialEq, Eq, Structural)]
pub enum InputMode {
    Normal,
    Editing,
    Recording,
}

impl Default for InputMode {
    fn default() -> (m: Self)
        ensures
            m == InputMode::Normal,
    {
        InputMode::Normal
    }
}

} // verus!
