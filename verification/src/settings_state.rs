//! The settings menu: which setting is selected and which option of each, moving
//! through them, and writing the choice back to the settings.
use vstd::prelude::*;

use crate::settings::{Language, Settings};
use crate::strmap::str_eq;
use crate::text::owned;

verus! {

broadcast use vstd::string::group_string_axioms;

/// The menu's selection: the selected setting, and the option chosen for each of
/// the six settings (language, API key, model, voice output, voice input, debug).
#[derive(Debug)]
pub struct SettingsState {
    pub selected_setting: usize,
    pub selected_options: Vec<usize>,
}

impl Default for SettingsState {
    fn default() -> (s: Self)
        ensures
            s.selected_setting == 0,
            s.selected_options@.len() == 0,
    {
        SettingsState { selected_setting: 0, selected_options: Vec::new() }
    }
}

/// The number of options of each setting: four languages, the API key (edited
/// elsewhere), three models, and two choices for each switch.
pub open spec fn option_count(setting: int) -> int {
    if setting == 0 {
        4
    } else if setting == 2 {
        3
    } else {
        2
    }
}

/// A selection of the menu: six settings, one selected, each option in range.
pub open spec fn valid_selection(s: SettingsState) -> bool {
    &&& s.selected_options@.len() == 6
    &&& s.selected_setting < 6
    &&& forall|k: int| 0 <= k < 6 ==> #[trigger] s.selected_options@[k] < option_count(k)
}

/// The option of a language: its place in English, French, Japanese, Turkish; a
/// custom language shows as English.
pub open spec fn language_option(l: Language) -> usize {
    match l {
        Language::English => 0,
        Language::French => 1,
        Language::Japanese => 2,
        Language::Turkish => 3,
        Language::Custom(_) => 0,
    }
}

/// The option of a model name: gpt-4o-mini, gpt-4o, o1-mini; another name shows
/// as the first.
pub open spec fn model_option(model: Seq<char>) -> usize {
    if model == "gpt-4o-mini"@ {
        0
    } else if model == "gpt-4o"@ {
        1
    } else if model == "o1-mini"@ {
        2
    } else {
        0
    }
}

/// The options that show `settings`: a switch that is on shows its first option
/// ("On"), except debug mode whose options read "Off", "On".
pub open spec fn options_of(settings: Settings) -> Seq<usize> {
    seq![
        language_option(settings.language),
        0,
        model_option(settings.model@),
        if settings.audio_output_enabled { 0 } else { 1 },
        if settings.audio_input_enabled { 0 } else { 1 },
        if settings.debug_mode { 1 } else { 0 },
    ]
}

impl SettingsState {
    /// The selection that shows `settings`, with the first setting selected.
    pub fn from_settings(settings: &Settings) -> (s: Self)
        ensures
            s.selected_setting == 0,
            s.selected_options@ == options_of(*settings),
            valid_selection(s),
    {
        let language: usize = match settings.language {
            Language::English => 0,
            Language::French => 1,
            Language::Japanese => 2,
            Language::Turkish => 3,
            Language::Custom(_) => 0,
        };
        let m = settings.model.as_str();
        let model: usize = if str_eq(m, "gpt-4o-mini") {
            0
        } else if str_eq(m, "gpt-4o") {
            1
        } else if str_eq(m, "o1-mini") {
            2
        } else {
            0
        };
        let mut options: Vec<usize> = Vec::new();
        options.push(language);
        options.push(0);
        options.push(model);
        options.push(if settings.audio_output_enabled { 0 } else { 1 });
        options.push(if settings.audio_input_enabled { 0 } else { 1 });
        options.push(if settings.debug_mode { 1 } else { 0 });
        let s = SettingsState { selected_setting: 0, selected_options: options };
        assert(s.selected_options@ =~= options_of(*settings));
        s
    }
}

} // verus!
