//! Rules and state of a text role-playing game in the Shadowrun setting.
pub mod descriptions;
pub mod strmap;
pub mod text;
pub mod character;
pub mod error;
pub mod sheet_update;
pub mod game_state;
pub mod dice;
pub mod json;
pub mod json_decode;
pub mod update_check;
pub mod game_master;
pub mod tool_calls;
pub mod attribute_calls;
pub mod tool_dispatch;
pub mod ai_response;
pub mod message;
pub mod app_state;
pub mod settings;
pub mod settings_state;
pub mod settings_menu;
pub mod agents;
pub mod spinner;
pub mod utils;
pub mod vim;
pub mod markdown;
pub mod game_view;
pub mod save;
pub mod details;
pub mod menus;
pub mod screens;
pub mod settings_view;
pub mod sheet_view;
pub mod run_flow;
pub mod component;
pub mod chunks;
pub mod release;
