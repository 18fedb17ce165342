//! The messages of a game as the player sees them.
use vstd::prelude::*;

use crate::json::{json_str, parse_json, spec_parse_json, JsonValue};
use crate::json_decode::{read_string, record_field, record_member, record_shape};

verus! {

broadcast use vstd::string::group_string_axioms;

/// Who a message comes from.
#[derive(Clone, Copy, Debug, PartialEq, Eq, Structural)]
pub enum MessageType {
    User,
    Game,
    System,
}

/// The player's turn as stored in a message: instructions and action.
#[derive(Clone, Debug)]
pub struct UserMessage {
    pub instructions: String,
    pub player_action: String,
}

/// A message of the game: its author and its raw text (JSON for the player's and
/// the game master's turns).
#[derive(Debug)]
pub struct Message {
    pub message_type: MessageType,
    pub content: String,
}

impl Clone for Message {
    fn clone(&self) -> (m: Self)
        ensures
            m == *self,
    {
        Message { message_type: self.message_type, content: self.content.clone() }
    }
}

/// What the game master's task sends back to the interface.
#[derive(Clone, Debug)]
pub enum AIMessage {
    Debug(String),
    Response(String),
}

/// The player's turn written as `v`: an object with both fields by name, or an
/// array of the two in order.
pub open spec fn spec_user_message(v: JsonValue) -> Option<UserMessage> {
    let instructions = json_str(record_field(v, "instructions"@, 0, 2));
    let player_action = json_str(record_field(v, "player_action"@, 1, 2));
    if record_shape(v, 2) && instructions is Some && player_action is Some {
        Some(UserMessage { instructions: instructions->0, player_action: player_action->0 })
    } else {
        None
    }
}

/// The player's turn a message of the player holds: its text parsed as JSON and
/// read as a turn.
pub open spec fn parsed_user_message(m: Message) -> Option<UserMessage> {
    if m.message_type == MessageType::User {
        match spec_parse_json(m.content@) {
            Some(v) => spec_user_message(v),
            None => None,
        }
    } else {
        None
    }
}

impl Message {
    /// A message of the given author and text.
    pub fn new(message_type: MessageType, content: String) -> (m: Self)
        ensures
            m.message_type == message_type,
            m.content == content,
    {
        Message { message_type, content }
    }

    /// The player's turn a message of the player holds; `None` for another author
    /// or text that is not such a turn.
    pub fn parse_user_message(&self) -> (r: Option<UserMessage>)
        ensures
            r == parsed_user_message(*self),
    {
        match self.message_type {
            MessageType::User => {},
            _ => return None,
        }
        let v = match parse_json(self.content.as_str()) {
            Ok(v) => v,
            Err(_) => return None,
        };
        let shaped = match &v {
            JsonValue::Object(_) => true,
            JsonValue::Array(a) => a.len() == 2,
            _ => false,
        };
        if !shaped {
            return None;
        }
        let instructions = match read_string(record_member(&v, "instructions", 0, 2)) {
            Some(s) => s,
            None => return None,
        };
        let player_action = match read_string(record_member(&v, "player_action", 1, 2)) {
            Some(s) => s,
            None => return None,
        };
        Some(UserMessage { instructions, player_action })
    }
}

} // verus!
