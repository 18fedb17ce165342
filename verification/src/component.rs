//! The screen on display, with its state.
use vstd::prelude::*;

use crate::game_view::InGame;
use crate::menus::{LoadMenu, MainMenu};
use crate::screens::{ApiKeyInput, ImageMenu, SaveName};
use crate::settings_menu::SettingsMenu;

verus! {

/// The screens of the application, each with its state.
#[derive(Debug)]
pub enum ComponentEnum {
    MainMenu(MainMenu),
    LoadMenu(LoadMenu),
    SaveName(SaveName),
    SettingsMenu(SettingsMenu),
    ImageMenu(ImageMenu),
    InGame(InGame),
    ApiKeyInput(ApiKeyInput),
}

impl ComponentEnum {
    /// Where the game on display is saved, when a game is on display and has been
    /// saved.
    pub fn get_ingame_save_path(&self) -> (r: Option<&String>)
        ensures
            match r {
                Some(p) => self matches ComponentEnum::InGame(g) && g.state.save_path == Some(*p),
                None => !(self matches ComponentEnum::InGame(g) && g.state.save_path is Some),
            },
    {
        match self {
            ComponentEnum::InGame(game) => match &game.state.save_path {
                Some(path) => Some(path),
                None => None,
            },
            _ => None,
        }
    }
}

} // verus!
