# sharad_ratatui

A text role-playing game in the Shadowrun setting, played in the terminal with an
AI game master. The rules and the state of the game live in a library whose
behaviour is stated in contracts and proved with Verus; a thin terminal program
around it reads the keyboard, draws the screens, keeps the files and talks to the
OpenAI service.

## Layout

- `src/` — the verified library.
  - `character`, `sheet_update`, `update_check`: character sheets, the metatypes,
    the derived values, and the updates the game master may ask for.
  - `dice`: dice pools, limits, Edge actions and the outcome of a roll.
  - `json`, `json_decode`: JSON values (read through `serde_json`) and the reading
    of the game master's arguments.
  - `game_master`, `tool_calls`, `attribute_calls`, `tool_dispatch`: the calls the
    game master makes on the game, each with the answer and the change of the
    session it gives.
  - `game_state`, `run_flow`: the session, and what each state of a run asks for.
  - `vim`, `screens`, `menus`, `settings_menu`, `settings_state`, `settings_view`,
    `component`: the keys of the editor and of the menus, and what they ask of the
    application.
  - `game_view`, `markdown`, `details`, `sheet_view`, `spinner`: what the game
    screen shows.
  - `release`: what to do about the newest published release (through `semver`).
  - `chunks`: splitting a rulebook's pages into chunks of words.
  - `strmap`, `text`, `error`, `descriptions`, `message`, `ai_response`, `agents`,
    `settings`, `save`, `app_state`, `utils`: supporting types and texts.
- `tests/` — tests of the library.
- `app/` — the terminal program: `main.rs` (event loop), `keys.rs`, `draw.rs`,
  `master.rs` (the OpenAI assistant), `store.rs` (files) and `copies.rs`
  (serializable forms of the library's records).
