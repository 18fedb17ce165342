//! The player's settings: narration language, API key, model, audio and debug
//! switches.
use vstd::prelude::*;

use crate::text::owned;

verus! {

broadcast use vstd::string::group_string_axioms;

/// The settings of the application.
#[derive(Debug, Clone)]
pub struct Settings {
    pub language: Language,
    pub openai_api_key: Option<String>,
    pub model: String,
    pub audio_output_enabled: bool,
    pub audio_input_enabled: bool,
    pub debug_mode: bool,
}

/// The language of the narration.
#[derive(Debug, Clone)]
pub enum Language {
    English,
    French,
    Japanese,
    Turkish,
    Custom(String),
}

/// The models the game master may run on.
#[derive(Debug, Clone, Copy, PartialEq, Eq, Structural)]
pub enum Model {
    Gpt4oMini,
    Gpt4o,
}

/// The name a language is shown under: its variant's name.
pub open spec fn language_name(l: Language) -> Seq<char> {
    match l {
        Language::English => "English"@,
        Language::French => "French"@,
        Language::Japanese => "Japanese"@,
        Language::Turkish => "Turkish"@,
        Language::Custom(_) => "Custom"@,
    }
}

impl Language {
    /// The name the language is shown under.
    pub fn name(&self) -> (s: String)
        ensures
            s@ == language_name(*self),
    {
        match self {
            Language::English => owned("English"),
            Language::French => owned("French"),
            Language::Japanese => owned("Japanese"),
            Language::Turkish => owned("Turkish"),
            Language::Custom(_) => owned("Custom"),
        }
    }
}

impl Default for Language {
    fn default() -> (l: Self)
        ensures
            l is English,
    {
        Language::English
    }
}

impl Model {
    /// The name the model is shown under.
    pub fn name(&self) -> (s: String)
        ensures
            s@ == (match *self {
                Model::Gpt4oMini => "Gpt4oMini"@,
                Model::Gpt4o => "Gpt4o"@,
            }),
    {
        match self {
            Model::Gpt4oMini => owned("Gpt4oMini"),
            Model::Gpt4o => owned("Gpt4o"),
        }
    }
}

impl Default for Model {
    fn default() -> (m: Self)
        ensures
            m == Model::Gpt4oMini,
    {
        Model::Gpt4oMini
    }
}

impl Default for Settings {
    /// English narration, no API key, the small model, audio off, debug on.
    fn default() -> (s: Self)
        ensures
            s.language is English,
            s.openai_api_key is None,
            s.model@ == "gpt-4o-mini"@,
            !s.audio_output_enabled,
            !s.audio_input_enabled,
            s.debug_mode,
    {
        Settings {
            language: Language::English,
            openai_api_key: None,
            model: owned("gpt-4o-mini"),
            audio_output_enabled: false,
            audio_input_enabled: false,
            debug_mode: true,
        }
    }
}

impl Settings {
    /// The settings with the API key from the environment, when one is set there:
    /// the environment takes precedence over the settings file.
    pub fn with_env_key(self, env_key: Option<String>) -> (s: Settings)
        ensures
            s.openai_api_key == (match env_key {
                Some(k) => Some(k),
                None => self.openai_api_key,
            }),
            s.language == self.language,
            s.model == self.model,
            s.audio_output_enabled == self.audio_output_enabled,
            s.audio_input_enabled == self.audio_input_enabled,
            s.debug_mode == self.debug_mode,
    {
        match env_key {
            Some(k) => Settings { openai_api_key: Some(k), ..self },
            None => self,
        }
    }
}

} // verus!
