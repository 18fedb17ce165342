//! The state of one game session: its characters and where it is saved.
use vstd::prelude::*;

use crate::character::{same_sheet, CharacterSheet};

verus! {

broadcast use vstd::string::group_string_axioms;

/// A game session.
#[derive(Debug)]
pub struct GameState {
    pub assistant_id: String,
    pub thread_id: String,
    pub save_name: String,
    pub characters: Vec<CharacterSheet>,
    pub save_path: Option<String>,
    pub main_character_sheet: Option<CharacterSheet>,
    pub image_path: Option<String>,
}

impl GameState {
    /// A session with no characters, no save path and no image yet.
    pub fn new(assistant_id: String, thread_id: String, save_name: String) -> (g: Self)
        ensures
            g.assistant_id == assistant_id,
            g.thread_id == thread_id,
            g.save_name == save_name,
            g.characters@.len() == 0,
            g.save_path is None,
            g.main_character_sheet is None,
            g.image_path is None,
    {
        GameState {
            assistant_id,
            thread_id,
            save_name,
            characters: Vec::new(),
            save_path: None,
            main_character_sheet: None,
            image_path: None,
        }
    }
}

/// `i` is the position of the first character named `name`.
pub open spec fn is_first_named(chars: Seq<CharacterSheet>, name: Seq<char>, i: int) -> bool {
    &&& 0 <= i < chars.len()
    &&& chars[i].name@ == name
    &&& forall|j: int| 0 <= j < i ==> (#[trigger] chars[j]).name@ != name
}

/// Some character is named `name`.
pub open spec fn has_named(chars: Seq<CharacterSheet>, name: Seq<char>) -> bool {
    exists|i: int| 0 <= i < chars.len() && (#[trigger] chars[i]).name@ == name
}

/// The position of the first character named `name`, if any.
pub fn find_character(chars: &Vec<CharacterSheet>, name: &str) -> (r: Option<usize>)
    ensures
        match r {
            Some(i) => is_first_named(chars@, name@, i as int),
            None => !has_named(chars@, name@),
        },
{
    let n = chars.len();
    let key = name.to_string();
    let mut i: usize = 0;
    while i < n
        invariant
            n == chars@.len(),
            i <= n,
            key@ == name@,
            forall|j: int| 0 <= j < i ==> (#[trigger] chars@[j]).name@ != name@,
        decreases n - i,
    {
        if chars[i].name == key {
            return Some(i);
        }
        i = i + 1;
    }
    None
}

/// The session after storing `sheet`: it becomes the main sheet, and replaces the
/// first character of the same name or, if there is none, joins the list.
pub open spec fn stored_sheet(old: GameState, sheet: CharacterSheet, new: GameState) -> bool {
    &&& new.main_character_sheet matches Some(m) && same_sheet(m, sheet)
    &&& new.assistant_id == old.assistant_id
    &&& new.thread_id == old.thread_id
    &&& new.save_name == old.save_name
    &&& new.save_path == old.save_path
    &&& new.image_path == old.image_path
    &&& if has_named(old.characters@, sheet.name@) {
        exists|i: int|
            is_first_named(old.characters@, sheet.name@, i) && new.characters@ == old.characters@.update(
                i,
                sheet,
            )
    } else {
        new.characters@ == old.characters@.push(sheet)
    }
}

/// Stores a character sheet in the session: it becomes the main sheet, and
/// replaces the first character of the same name or joins the list.
pub fn update_character_sheet(game_state: &mut GameState, new_sheet: CharacterSheet)
    ensures
        stored_sheet(*old(game_state), new_sheet, *final(game_state)),
{
    game_state.main_character_sheet = Some(new_sheet.clone());
    match find_character(&game_state.characters, new_sheet.name.as_str()) {
        Some(i) => {
            game_state.characters.set(i, new_sheet);
        },
        None => {
            game_state.characters.push(new_sheet);
        },
    }
}

} // verus!
