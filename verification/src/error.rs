//! Errors of the game and the messages shown for them.
use vstd::prelude::*;

use crate::character::CharacterValue;
use crate::text::{concat, owned};

verus! {

broadcast use vstd::string::group_string_axioms;

/// Errors of the game as a whole, each with its explanation.
#[derive(Debug, Clone)]
pub enum ShadowrunError {
    AI(String),
    Game(String),
    Network(String),
    Audio(String),
    Serialization(String),
    IO(String),
    OpenAI(String),
    Image(String),
    Unknown(String),
}

/// The message shown for a `ShadowrunError`: its kind, a colon, and its text.
pub open spec fn shadowrun_message(e: ShadowrunError) -> Seq<char> {
    match e {
        ShadowrunError::AI(s) => "AI error: "@ + s@,
        ShadowrunError::Game(s) => "Game error: "@ + s@,
        ShadowrunError::Network(s) => "Network error: "@ + s@,
        ShadowrunError::Audio(s) => "Audio error: "@ + s@,
        ShadowrunError::Serialization(s) => "Serialization error: "@ + s@,
        ShadowrunError::IO(s) => "IO error: "@ + s@,
        ShadowrunError::OpenAI(s) => "OpenAI API error: "@ + s@,
        ShadowrunError::Image(s) => "Image error: "@ + s@,
        ShadowrunError::Unknown(s) => "Unknown error: "@ + s@,
    }
}

/// The line an error takes in the list of recent errors: its kind, capitalised, and
/// its text.
pub open spec fn error_line_text(e: ShadowrunError) -> Seq<char> {
    match e {
        ShadowrunError::AI(s) => "AI Error: "@ + s@,
        ShadowrunError::Game(s) => "Game Error: "@ + s@,
        ShadowrunError::Network(s) => "Network Error: "@ + s@,
        ShadowrunError::Audio(s) => "Audio Error: "@ + s@,
        ShadowrunError::Serialization(s) => "Serialization Error: "@ + s@,
        ShadowrunError::IO(s) => "IO Error: "@ + s@,
        ShadowrunError::OpenAI(s) => "OpenAI Error: "@ + s@,
        ShadowrunError::Image(s) => "Image Error: "@ + s@,
        ShadowrunError::Unknown(s) => "Unknown Error: "@ + s@,
    }
}

/// How long an error stays in the list of recent errors, in milliseconds.
pub const ERROR_SHOWN_MS: u64 = 5000;

/// The lines of the errors younger than `ERROR_SHOWN_MS`, each given with its age,
/// in order.
pub open spec fn recent_error_lines(errors: Seq<(ShadowrunError, u64)>) -> Seq<Seq<char>>
    decreases errors.len(),
{
    if errors.len() == 0 {
        Seq::empty()
    } else {
        let rest = recent_error_lines(errors.drop_last());
        if errors.last().1 < ERROR_SHOWN_MS {
            rest.push(error_line_text(errors.last().0))
        } else {
            rest
        }
    }
}

/// The lines of the recent errors, from the errors and their ages.
pub fn recent_errors(errors: &Vec<(ShadowrunError, u64)>) -> (lines: Vec<String>)
    ensures
        lines@.map_values(|l: String| l@) == recent_error_lines(errors@),
{
    let mut lines: Vec<String> = Vec::new();
    let mut i: usize = 0;
    while i < errors.len()
        invariant
            i <= errors@.len(),
            lines@.map_values(|l: String| l@) == recent_error_lines(errors@.take(i as int)),
        decreases errors.len() - i,
    {
        assert(errors@.take(i as int) =~= errors@.take((i + 1) as int).drop_last());
        let ghost before = lines@;
        if errors[i].1 < ERROR_SHOWN_MS {
            lines.push(errors[i].0.error_line());
            assert(lines@.map_values(|l: String| l@) =~= before.map_values(|l: String| l@).push(
                error_line_text(errors@[i as int].0),
            ));
        }
        i = i + 1;
    }
    assert(errors@.take(i as int) =~= errors@);
    lines
}

impl ShadowrunError {
    /// The line of the error in the list of recent errors.
    pub fn error_line(&self) -> (m: String)
        ensures
            m@ == error_line_text(*self),
    {
        match self {
            ShadowrunError::AI(s) => concat("AI Error: ", s.as_str()),
            ShadowrunError::Game(s) => concat("Game Error: ", s.as_str()),
            ShadowrunError::Network(s) => concat("Network Error: ", s.as_str()),
            ShadowrunError::Audio(s) => concat("Audio Error: ", s.as_str()),
            ShadowrunError::Serialization(s) => concat("Serialization Error: ", s.as_str()),
            ShadowrunError::IO(s) => concat("IO Error: ", s.as_str()),
            ShadowrunError::OpenAI(s) => concat("OpenAI Error: ", s.as_str()),
            ShadowrunError::Image(s) => concat("Image Error: ", s.as_str()),
            ShadowrunError::Unknown(s) => concat("Unknown Error: ", s.as_str()),
        }
    }

    /// The message shown for the error.
    pub fn message(&self) -> (m: String)
        ensures
            m@ == shadowrun_message(*self),
    {
        match self {
            ShadowrunError::AI(s) => concat("AI error: ", s.as_str()),
            ShadowrunError::Game(s) => concat("Game error: ", s.as_str()),
            ShadowrunError::Network(s) => concat("Network error: ", s.as_str()),
            ShadowrunError::Audio(s) => concat("Audio error: ", s.as_str()),
            ShadowrunError::Serialization(s) => concat("Serialization error: ", s.as_str()),
            ShadowrunError::IO(s) => concat("IO error: ", s.as_str()),
            ShadowrunError::OpenAI(s) => concat("OpenAI API error: ", s.as_str()),
            ShadowrunError::Image(s) => concat("Image error: ", s.as_str()),
            ShadowrunError::Unknown(s) => concat("Unknown error: ", s.as_str()),
        }
    }

    /// Text that names no kind becomes an unknown error.
    pub fn from_string(error: String) -> (e: ShadowrunError)
        ensures
            e == ShadowrunError::Unknown(error),
    {
        ShadowrunError::Unknown(error)
    }

    /// Narrows an application error to a game error: a wrapped error is unwrapped,
    /// the others become AI, game or unknown errors with their text.
    pub fn from_app_error(error: AppError) -> (e: ShadowrunError)
        ensures
            match error {
                AppError::Shadowrun(inner) => e == inner,
                AppError::AIClientNotInitialized => e matches ShadowrunError::AI(s) && s@
                    == "AI client not initialized"@,
                AppError::NoCurrentGame => e matches ShadowrunError::Game(s) && s@
                    == "No current game"@,
                AppError::ConversationNotInitialized => e matches ShadowrunError::AI(s) && s@
                    == "Conversation not initialized"@,
                AppError::Timeout => e matches ShadowrunError::Unknown(s) && s@
                    == "Timeout occurred"@,
            },
    {
        match error {
            AppError::Shadowrun(inner) => inner,
            AppError::AIClientNotInitialized => ShadowrunError::AI(
                owned("AI client not initialized"),
            ),
            AppError::NoCurrentGame => ShadowrunError::Game(owned("No current game")),
            AppError::ConversationNotInitialized => ShadowrunError::AI(
                owned("Conversation not initialized"),
            ),
            AppError::Timeout => ShadowrunError::Unknown(owned("Timeout occurred")),
        }
    }

    /// A game error keeps its message.
    pub fn from_game_error(error: &GameError) -> (e: ShadowrunError)
        ensures
            e matches ShadowrunError::Game(s) && s@ == game_message(*error),
    {
        ShadowrunError::Game(error.message())
    }

    /// An AI error keeps its message.
    pub fn from_ai_error(error: &AIError) -> (e: ShadowrunError)
        ensures
            e matches ShadowrunError::AI(s) && s@ == ai_message(*error),
    {
        ShadowrunError::AI(error.message())
    }
}

/// Errors of the application's flow.
#[derive(Debug, Clone)]
pub enum AppError {
    Shadowrun(ShadowrunError),
    AIClientNotInitialized,
    NoCurrentGame,
    ConversationNotInitialized,
    Timeout,
}

/// The message shown for an `AppError`.
pub open spec fn app_message(e: AppError) -> Seq<char> {
    match e {
        AppError::Shadowrun(inner) => "Shadowrun error: "@ + shadowrun_message(inner),
        AppError::AIClientNotInitialized => "AI client not initialized"@,
        AppError::NoCurrentGame => "No current game"@,
        AppError::ConversationNotInitialized => "Conversation not initialized"@,
        AppError::Timeout => "Timeout occurred"@,
    }
}

impl AppError {
    /// The message shown for the error.
    pub fn message(&self) -> (m: String)
        ensures
            m@ == app_message(*self),
    {
        match self {
            AppError::Shadowrun(inner) => {
                let m = inner.message();
                concat("Shadowrun error: ", m.as_str())
            },
            AppError::AIClientNotInitialized => owned("AI client not initialized"),
            AppError::NoCurrentGame => owned("No current game"),
            AppError::ConversationNotInitialized => owned("Conversation not initialized"),
            AppError::Timeout => owned("Timeout occurred"),
        }
    }
}

/// Errors of the game's rules.
#[derive(Debug, Clone)]
pub enum GameError {
    CharacterNotFound(String),
}

/// The message shown for a `GameError`. Its format argument is the literal 0, not
/// the character's name, so every message reads the same.
pub open spec fn game_message(e: GameError) -> Seq<char> {
    "Character not found: 0"@
}

impl GameError {
    /// The message shown for the error.
    pub fn message(&self) -> (m: String)
        ensures
            m@ == game_message(*self),
    {
        owned("Character not found: 0")
    }
}

/// Errors of the game master's replies that the rules can see.
#[derive(Debug, Clone)]
pub enum AIError {
    NoMessageFound,
    GameStateParseError(String),
    ThreadJoinError(String),
}

/// The message shown for an `AIError`. As for `GameError`, the format argument of
/// the variants that carry text is the literal 0.
pub open spec fn ai_message(e: AIError) -> Seq<char> {
    match e {
        AIError::NoMessageFound => "No message found"@,
        AIError::GameStateParseError(_) => "Failed to parse game state: 0"@,
        AIError::ThreadJoinError(_) => "Thread join error: 0"@,
    }
}

impl AIError {
    /// The message shown for the error.
    pub fn message(&self) -> (m: String)
        ensures
            m@ == ai_message(*self),
    {
        match self {
            AIError::NoMessageFound => owned("No message found"),
            AIError::GameStateParseError(_) => owned("Failed to parse game state: 0"),
            AIError::ThreadJoinError(_) => owned("Thread join error: 0"),
        }
    }
}

/// The kind of change a refused update asked for.
#[derive(Debug, Clone, Copy, PartialEq, Eq, Structural)]
pub enum OperationKind {
    Modification,
    Addition,
    Removal,
}

/// Every error the library reports.
#[derive(Debug)]
pub enum Error {
    Shadowrun(ShadowrunError),
    App(AppError),
    Game(GameError),
    AI(AIError),
    /// JSON that does not hold the expected value, with the reason.
    Serialization(String),
    String(String),
    /// An update named an attribute that does not take the given kind of value.
    InvalidAttributeValue { operation: OperationKind, attribute: String, value: CharacterValue },
    /// A value would not fit in its integer type; the rules leave it undefined.
    Overflow(String),
}

/// The message shown for an `Error` whose text the library knows in full.
pub open spec fn error_message(e: Error) -> Seq<char> {
    match e {
        Error::Shadowrun(inner) => shadowrun_message(inner),
        Error::App(inner) => app_message(inner),
        Error::Game(inner) => game_message(inner),
        Error::AI(inner) => ai_message(inner),
        Error::Serialization(s) => s@,
        Error::String(s) => s@,
        Error::InvalidAttributeValue { operation, attribute, value } => match operation {
            OperationKind::Modification => "Invalid attribute-value pair for modification: "@
                + attribute@,
            OperationKind::Addition => "Invalid attribute-value pair for addition: "@ + attribute@,
            OperationKind::Removal => "Invalid attribute-value pair for removal: "@ + attribute@,
        },
        Error::Overflow(s) => "Value out of range: "@ + s@,
    }
}

impl Error {
    /// The message shown for the error. For a refused update it ends with the
    /// attribute's name; a reader that can print the value appends it.
    pub fn message(&self) -> (m: String)
        ensures
            m@ == error_message(*self),
    {
        match self {
            Error::Shadowrun(inner) => inner.message(),
            Error::App(inner) => inner.message(),
            Error::Game(inner) => inner.message(),
            Error::AI(inner) => inner.message(),
            Error::Serialization(s) => s.clone(),
            Error::String(s) => s.clone(),
            Error::InvalidAttributeValue { operation, attribute, value: _ } => match operation {
                OperationKind::Modification => concat(
                    "Invalid attribute-value pair for modification: ",
                    attribute.as_str(),
                ),
                OperationKind::Addition => concat(
                    "Invalid attribute-value pair for addition: ",
                    attribute.as_str(),
                ),
                OperationKind::Removal => concat(
                    "Invalid attribute-value pair for removal: ",
                    attribute.as_str(),
                ),
            },
            Error::Overflow(s) => concat("Value out of range: ", s.as_str()),
        }
    }
}

} // verus!
