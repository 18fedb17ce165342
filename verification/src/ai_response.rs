//! The player's turn as it is sent to the game master: the standing instructions
//! and the player's action.
use vstd::prelude::*;

use crate::text::concat3;

verus! {

broadcast use vstd::string::group_string_axioms;

/// A message from the player: the instructions for the game master and the
/// player's action.
#[derive(Debug, Clone)]
pub struct UserMessage {
    pub instructions: String,
    pub player_action: String,
}

/// A message from the application itself.
#[derive(Debug, Clone)]
pub struct SystemMessage {
    pub message: String,
}

impl UserMessage {
    /// A message with the given instructions and action.
    pub fn new(instructions: String, player_action: String) -> (m: Self)
        ensures
            m.instructions == instructions,
            m.player_action == player_action,
    {
        UserMessage { instructions, player_action }
    }
}

/// The standing instructions, before the language of the narration.
pub const GAME_MASTER_INSTRUCTIONS: &'static str = "Act as the Game Master in a Shadowrun table top role-playing game. Allow the player to attempt one action at a time without providing choices. For actions involving multiple steps or failure points, require the player to choose a course of action at each step. Make sure the story keeps progressing by leading the story line. Keep the story going as a good Game Master, never let the tension fall down. Write your response in valid JSON. Use the following language in the 'fluff': ";

/// The player's action with the standing instructions, which ask for the
/// narration in `language`.
pub fn create_user_message(language: &str, player_action: &str) -> (m: UserMessage)
    ensures
        m.instructions@ == GAME_MASTER_INSTRUCTIONS@ + language@ + "."@,
        m.player_action@ == player_action@,
{
    UserMessage::new(
        concat3(GAME_MASTER_INSTRUCTIONS, language, "."),
        player_action.to_string(),
    )
}

/// The style every portrait is asked in, before the prompt itself.
pub const PORTRAIT_STYLE: &'static str = "Create a detailed character portrait in the gritty, high-tech noir style of Shadowrun. The artwork should evoke a dark cyberpunk atmosphere, with dramatic lighting, dystopian urban backgrounds, and a mix of futuristic tech and urban decay. The character should look like they belong in a world of shadowy megacorps, street samurai, deckers, and awakened magic. Use bold lines, strong contrasts, and realistic proportions. Clothing and gear should reflect their role—cybernetic implants, armor, magical auras, or hacker rigs—blending fantasy and cyberpunk elements in a grounded, worn world. Do not write text on the image. Use the full 9:16 ratio. Image prompt: ";

/// The request for a portrait: the style of the game, then the prompt.
pub fn add_sharad_prepromt(prompt: &str) -> (r: String)
    ensures
        r@ == PORTRAIT_STYLE@ + prompt@,
{
    crate::text::concat(PORTRAIT_STYLE, prompt)
}

} // verus!
