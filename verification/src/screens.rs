//! The screens that read a line of text through the editor: the name of a new save,
//! the API key, and the prompt of an image. Each takes the transition the editor
//! asked for and says what changes in its editor and what the application is asked.
use vstd::prelude::*;
use vstd::utf8::*;

use crate::app_state::InputMode;
use crate::menus::{Action, Screen};
use crate::text::{chars_of, concat3, owned, spec_to_lowercase, to_lowercase};
use crate::vim::{Input, Key, Mode, Transition, Vim, Warning};

verus! {

broadcast use vstd::string::group_string_axioms;

/// The way of reading keys that entering a mode asks for: commands in the normal
/// and visual modes, text in the insert mode; other modes ask nothing.
pub open spec fn input_mode_action(mode: Mode) -> Option<Action> {
    match mode {
        Mode::Normal | Mode::Visual => Some(Action::SwitchInputMode(InputMode::Normal)),
        Mode::Insert => Some(Action::SwitchInputMode(InputMode::Editing)),
        _ => None,
    }
}

fn mode_action(mode: Mode) -> (a: Option<Action>)
    ensures
        a == input_mode_action(mode),
{
    match mode {
        Mode::Normal | Mode::Visual => Some(Action::SwitchInputMode(InputMode::Normal)),
        Mode::Insert => Some(Action::SwitchInputMode(InputMode::Editing)),
        _ => None,
    }
}

/// The number of bytes of the lines' text in UTF-8, all lines together.
pub open spec fn lines_bytes(lines: Seq<String>) -> nat
    decreases lines.len(),
{
    if lines.len() == 0 {
        0
    } else {
        lines_bytes(lines.drop_last()) + encode_utf8(lines.last()@).len()
    }
}

/// The lines joined by line breaks.
pub open spec fn join_lines(lines: Seq<String>) -> Seq<char>
    decreases lines.len(),
{
    if lines.len() == 0 {
        Seq::empty()
    } else if lines.len() == 1 {
        lines[0]@
    } else {
        join_lines(lines.drop_last()) + "\n"@ + lines.last()@
    }
}

/// Whether the lines hold more than one byte of text.
fn longer_than_one_byte(lines: &Vec<String>) -> (b: bool)
    requires
        forall|i: int| 0 <= i < lines.len() ==> encode_utf8(#[trigger] lines@[i]@).len() <= usize::MAX,
    ensures
        b == (lines_bytes(lines@) > 1),
{
    let mut total: usize = 0;
    let mut i: usize = 0;
    while i < lines.len()
        invariant
            i <= lines.len(),
            total == lines_bytes(lines@.take(i as int)),
            total <= 1,
            forall|i: int| 0 <= i < lines.len() ==> encode_utf8(#[trigger] lines@[i]@).len() <= usize::MAX,
        decreases lines.len() - i,
    {
        assert(lines@.take(i as int) =~= lines@.take((i + 1) as int).drop_last());
        assert(lines@.take((i + 1) as int).last() == lines@[i as int]);
        assert(encode_utf8(lines@[i as int]@).len() <= usize::MAX);
        let n = lines[i].as_str().len();
        if n > 1 - total {
            proof {
                lemma_lines_bytes_prefix(lines@, (i + 1) as int);
            }
            return true;
        }
        total = total + n;
        i = i + 1;
    }
    assert(lines@.take(i as int) =~= lines@);
    false
}

/// The bytes of the whole are at least those of a prefix.
proof fn lemma_lines_bytes_prefix(lines: Seq<String>, k: int)
    requires
        0 <= k <= lines.len(),
    ensures
        lines_bytes(lines.take(k)) <= lines_bytes(lines),
    decreases lines.len(),
{
    if k < lines.len() {
        assert(lines.drop_last().take(k) =~= lines.take(k));
        lemma_lines_bytes_prefix(lines.drop_last(), k);
    } else {
        assert(lines.take(k) =~= lines);
    }
}

/// The lines joined by line breaks.
fn join_with_breaks(lines: &Vec<String>) -> (r: String)
    ensures
        r@ == join_lines(lines@),
{
    if lines.len() == 0 {
        return String::new();
    }
    let mut r = owned(lines[0].as_str());
    let mut i: usize = 1;
    assert(lines@.take(1) =~= seq![lines@[0]]);
    while i < lines.len()
        invariant
            1 <= i <= lines.len(),
            r@ == join_lines(lines@.take(i as int)),
        decreases lines.len() - i,
    {
        assert(lines@.take(i as int) =~= lines@.take((i + 1) as int).drop_last());
        r = concat3(r.as_str(), "\n", lines[i].as_str());
        i = i + 1;
    }
    assert(lines@.take(i as int) =~= lines@);
    r
}

/// What a transition does on the screen that names a new save: entering a mode
/// switches the way keys are read (recording starts only with the microphone
/// allowed); validating starts a game under the first line; leaving goes back to the
/// main menu; the end of a recording returns to the normal mode.
pub open spec fn save_name_effect(
    before: Vim,
    t: Transition,
    lines: Seq<String>,
    audio_enabled: bool,
    after: Vim,
    a: Option<Action>,
) -> bool {
    match t {
        Transition::Mode(m) => if m != before.mode {
            &&& after == (Vim { mode: m, ..before })
            &&& a == (if m == Mode::Recording {
                if audio_enabled {
                    Some(Action::StartRecording)
                } else {
                    None
                }
            } else {
                input_mode_action(m)
            })
        } else {
            after == before && a is None
        },
        Transition::Pending(i) => after == (Vim { pending: i, ..before }) && a is None,
        Transition::Validation => {
            &&& after == before
            &&& if lines.len() > 0 {
                &&& a matches Some(Action::CreateNewGame(name))
                &&& name@ == lines[0]@
            } else {
                a is None
            }
        },
        Transition::Exit => after == before && a == Some(Action::SwitchComponent(Screen::MainMenu)),
        Transition::EndRecording => after == (Vim { mode: Mode::Normal, ..before }) && a == Some(
            Action::EndRecording,
        ),
        _ => after == before && a is None,
    }
}

/// What a transition does on the screen that reads the API key: recording without
/// the microphone allowed shows a warning; validating resets the key when the first
/// line starts with `reset` in any case, else asks to check it; leaving goes back to
/// the settings.
pub open spec fn api_key_effect(
    before: Vim,
    t: Transition,
    lines: Seq<String>,
    audio_enabled: bool,
    after: Vim,
    a: Option<Action>,
) -> bool {
    match t {
        Transition::Mode(m) => if m != before.mode {
            if m == Mode::Recording {
                &&& after == (Vim {
                    mode: if audio_enabled {
                        Mode::Recording
                    } else {
                        Mode::Warning(Warning::AudioInputDisabled)
                    },
                    ..before
                })
                &&& a is None
            } else {
                after == (Vim { mode: m, ..before }) && a == input_mode_action(m)
            }
        } else {
            after == before && a is None
        },
        Transition::Pending(i) => after == (Vim { pending: i, ..before }) && a is None,
        Transition::Validation => {
            &&& after == before
            &&& if lines.len() == 0 {
                a is None
            } else if "reset"@.is_prefix_of(spec_to_lowercase(lines[0]@)) {
                a == Some(Action::ResetKey)
            } else {
                &&& a matches Some(Action::ValidateKey(key))
                &&& key@ == lines[0]@
            }
        },
        Transition::Exit => after == before && a == Some(
            Action::SwitchComponent(Screen::SettingsMenu),
        ),
        Transition::EndRecording => after == (Vim { mode: Mode::Normal, ..before }) && a is None,
        _ => after == before && a is None,
    }
}

/// What a transition does on the screen that reads an image prompt: recording
/// without the microphone allowed shows a warning; validating a prompt of more than
/// one byte asks for the image (or for the API key first, without a client), a
/// shorter one shows a warning; leaving goes back to the main menu.
pub open spec fn image_menu_effect(
    before: Vim,
    t: Transition,
    lines: Seq<String>,
    audio_enabled: bool,
    has_client: bool,
    after: Vim,
    a: Option<Action>,
) -> bool {
    match t {
        Transition::Mode(m) => if m != before.mode {
            if m == Mode::Recording {
                if audio_enabled {
                    after == (Vim { mode: Mode::Recording, ..before }) && a == Some(
                        Action::StartRecording,
                    )
                } else {
                    after == (Vim { mode: Mode::Warning(Warning::AudioInputDisabled), ..before })
                        && a is None
                }
            } else {
                after == (Vim { mode: m, ..before }) && a == input_mode_action(m)
            }
        } else {
            after == before && a is None
        },
        Transition::Pending(i) => after == (Vim { pending: i, ..before }) && a is None,
        Transition::Validation => if lines_bytes(lines) > 1 {
            &&& after == before
            &&& if has_client {
                &&& a matches Some(Action::RequestImage(prompt))
                &&& prompt@ == join_lines(lines)
            } else {
                a == Some(Action::SwitchComponent(Screen::ApiKeyInput))
            }
        } else {
            after == (Vim { mode: Mode::Warning(Warning::InputTooShort), ..before }) && a is None
        },
        Transition::Exit => after == before && a == Some(Action::SwitchComponent(Screen::MainMenu)),
        Transition::EndRecording => after == (Vim { mode: Mode::Normal, ..before }) && a == Some(
            Action::EndRecording,
        ),
        _ => after == before && a is None,
    }
}

/// Whether `p` starts `s`.
fn has_prefix(s: &str, p: &str) -> (b: bool)
    ensures
        b == p@.is_prefix_of(s@),
{
    let sc = chars_of(s);
    let pc = chars_of(p);
    if pc.len() > sc.len() {
        return false;
    }
    let mut i: usize = 0;
    while i < pc.len()
        invariant
            pc@ == p@,
            sc@ == s@,
            pc.len() <= sc.len(),
            i <= pc.len(),
            forall|j: int| 0 <= j < i ==> pc@[j] == sc@[j],
        decreases pc.len() - i,
    {
        if pc[i] != sc[i] {
            assert(p@ != s@.subrange(0, p@.len() as int) || p@[i as int] == s@[i as int]);
            return false;
        }
        i = i + 1;
    }
    assert(p@ =~= s@.subrange(0, p@.len() as int));
    true
}

/// The screen that names a new save.
#[derive(Debug, Clone, Copy, PartialEq, Eq, Structural)]
pub struct SaveName {
    pub vim: Vim,
}

impl SaveName {
    /// The screen in the normal mode.
    pub fn new() -> (s: SaveName)
        ensures
            s.vim == (Vim {
                mode: Mode::Normal,
                pending: Input { key: Key::Null, ctrl: false, alt: false, shift: false },
            }),
    {
        SaveName { vim: Vim::new(Mode::Normal) }
    }

    /// Takes the editor's transition, with the lines typed so far.
    pub fn on_transition(&mut self, t: Transition, lines: &Vec<String>, audio_enabled: bool) -> (a:
        Option<Action>)
        ensures
            save_name_effect(old(self).vim, t, lines@, audio_enabled, final(self).vim, a),
    {
        match t {
            Transition::Mode(m) => {
                if m != self.vim.mode {
                    self.vim.mode = m;
                    if m == Mode::Recording {
                        if audio_enabled {
                            Some(Action::StartRecording)
                        } else {
                            None
                        }
                    } else {
                        mode_action(m)
                    }
                } else {
                    None
                }
            },
            Transition::Pending(i) => {
                self.vim.pending = i;
                None
            },
            Transition::Validation => {
                if lines.len() > 0 {
                    Some(Action::CreateNewGame(owned(lines[0].as_str())))
                } else {
                    None
                }
            },
            Transition::Exit => Some(Action::SwitchComponent(Screen::MainMenu)),
            Transition::EndRecording => {
                self.vim.mode = Mode::Normal;
                Some(Action::EndRecording)
            },
            _ => None,
        }
    }
}

/// The screen that reads the API key.
#[derive(Debug, Clone, Copy, PartialEq, Eq, Structural)]
pub struct ApiKeyInput {
    pub vim: Vim,
}

impl ApiKeyInput {
    /// The screen in the normal mode.
    pub fn new() -> (s: ApiKeyInput)
        ensures
            s.vim == (Vim {
                mode: Mode::Normal,
                pending: Input { key: Key::Null, ctrl: false, alt: false, shift: false },
            }),
    {
        ApiKeyInput { vim: Vim::new(Mode::Normal) }
    }

    /// Takes the editor's transition, with the lines typed so far.
    pub fn on_transition(&mut self, t: Transition, lines: &Vec<String>, audio_enabled: bool) -> (a:
        Option<Action>)
        ensures
            api_key_effect(old(self).vim, t, lines@, audio_enabled, final(self).vim, a),
    {
        match t {
            Transition::Mode(m) => {
                if m != self.vim.mode {
                    if m == Mode::Recording {
                        self.vim.mode = if audio_enabled {
                            Mode::Recording
                        } else {
                            Mode::Warning(Warning::AudioInputDisabled)
                        };
                        None
                    } else {
                        self.vim.mode = m;
                        mode_action(m)
                    }
                } else {
                    None
                }
            },
            Transition::Pending(i) => {
                self.vim.pending = i;
                None
            },
            Transition::Validation => {
                if lines.len() == 0 {
                    None
                } else {
                    let lowered = to_lowercase(lines[0].as_str());
                    if has_prefix(lowered.as_str(), "reset") {
                        Some(Action::ResetKey)
                    } else {
                        Some(Action::ValidateKey(owned(lines[0].as_str())))
                    }
                }
            },
            Transition::Exit => Some(Action::SwitchComponent(Screen::SettingsMenu)),
            Transition::EndRecording => {
                self.vim.mode = Mode::Normal;
                None
            },
            _ => None,
        }
    }
}

/// The screen that reads the prompt of an image.
#[derive(Debug, Clone, Copy, PartialEq, Eq, Structural)]
pub struct ImageMenu {
    pub vim: Vim,
}

impl ImageMenu {
    /// The screen in the normal mode.
    pub fn new() -> (s: ImageMenu)
        ensures
            s.vim == (Vim {
                mode: Mode::Normal,
                pending: Input { key: Key::Null, ctrl: false, alt: false, shift: false },
            }),
    {
        ImageMenu { vim: Vim::new(Mode::Normal) }
    }

    /// Takes the editor's transition, with the lines typed so far.
    pub fn on_transition(
        &mut self,
        t: Transition,
        lines: &Vec<String>,
        audio_enabled: bool,
        has_client: bool,
    ) -> (a: Option<Action>)
        requires
            forall|i: int|
                0 <= i < lines.len() ==> encode_utf8(#[trigger] lines@[i]@).len() <= usize::MAX,
        ensures
            image_menu_effect(
                old(self).vim,
                t,
                lines@,
                audio_enabled,
                has_client,
                final(self).vim,
                a,
            ),
    {
        match t {
            Transition::Mode(m) => {
                if m != self.vim.mode {
                    if m == Mode::Recording {
                        if audio_enabled {
                            self.vim.mode = Mode::Recording;
                            Some(Action::StartRecording)
                        } else {
                            self.vim.mode = Mode::new_warning(Warning::AudioInputDisabled);
                            None
                        }
                    } else {
                        self.vim.mode = m;
                        mode_action(m)
                    }
                } else {
                    None
                }
            },
            Transition::Pending(i) => {
                self.vim.pending = i;
                None
            },
            Transition::Validation => {
                if longer_than_one_byte(lines) {
                    if has_client {
                        Some(Action::RequestImage(join_with_breaks(lines)))
                    } else {
                        Some(Action::SwitchComponent(Screen::ApiKeyInput))
                    }
                } else {
                    self.vim.mode = Mode::new_warning(Warning::InputTooShort);
                    None
                }
            },
            Transition::Exit => Some(Action::SwitchComponent(Screen::MainMenu)),
            Transition::EndRecording => {
                self.vim.mode = Mode::Normal;
                Some(Action::EndRecording)
            },
            _ => None,
        }
    }

    /// The recording could not start: the screen shows a warning.
    pub fn recording_failed(&mut self)
        ensures
            final(self).vim == (Vim {
                mode: Mode::Warning(Warning::FailedNewTranscription),
                ..old(self).vim
            }),
    {
        self.vim.mode = Mode::new_warning(Warning::FailedNewTranscription);
    }
}

/// The key as shown once it is known: a key of 13 bytes or more shows its first 7
/// and last 3 bytes; a shorter one is shown whole.
pub open spec fn hidden_key(s: Seq<char>) -> Seq<char> {
    let b = encode_utf8(s);
    if b.len() < 13 {
        s
    } else {
        " Valid Api Key: "@ + decode_utf8(b.subrange(0, 7)) + "..."@ + decode_utf8(
            b.subrange(b.len() - 3, b.len() as int),
        )
    }
}

/// Shows a key with its middle hidden.
pub fn hide_api(s: &str) -> (r: String)
    requires
        encode_utf8(s@).len() <= usize::MAX,
        encode_utf8(s@).len() >= 13 ==> is_char_boundary(encode_utf8(s@), 7)
            && is_char_boundary(encode_utf8(s@), encode_utf8(s@).len() - 3),
    ensures
        r@ == hidden_key(s@),
{
    let n = s.len();
    if n < 13 {
        return owned(s);
    }
    let (head, _) = s.split_at(7);
    let (_, tail) = s.split_at(n - 3);
    proof {
        broadcast use encode_utf8_decode_utf8;

        assert(decode_utf8(encode_utf8(head@)) == head@);
        assert(decode_utf8(encode_utf8(tail@)) == tail@);
    }
    let mut r = concat3(" Valid Api Key: ", head, "...");
    r.append(tail);
    r
}

/// The text the key editor starts with: an invitation without a key, else the key
/// with its middle hidden.
pub fn key_placeholder(api_key: &Option<String>) -> (r: String)
    requires
        api_key matches Some(k) ==> encode_utf8(k@).len() <= usize::MAX,
        api_key matches Some(k) ==> (encode_utf8(k@).len() >= 13 ==> is_char_boundary(
            encode_utf8(k@),
            7,
        ) && is_char_boundary(encode_utf8(k@), encode_utf8(k@).len() - 3)),
    ensures
        r@ == match api_key {
            Some(k) => hidden_key(k@),
            None => "Please input a valid Api key"@,
        },
{
    match api_key {
        Some(k) => hide_api(k.as_str()),
        None => owned("Please input a valid Api key"),
    }
}

} // verus!
