//! The vim-like editing of the text areas: modes, the keymap of the normal,
//! visual and operator modes, and what each key asks of the text area and of the
//! screen around it.
use vstd::prelude::*;

use crate::text::{owned, push_char};

verus! {

broadcast use vstd::string::group_string_axioms;

/// A key of the keyboard, as the text area reads it.
#[derive(Debug, Clone, Copy, PartialEq, Eq, Structural)]
pub enum Key {
    Char(char),
    F(u8),
    Backspace,
    Enter,
    Left,
    Right,
    Up,
    Down,
    Tab,
    Delete,
    Home,
    End,
    PageUp,
    PageDown,
    Esc,
    MouseScrollDown,
    MouseScrollUp,
    Copy,
    Cut,
    Paste,
    Null,
}

/// A key press with its modifiers.
#[derive(Debug, Clone, Copy, PartialEq, Eq, Structural)]
pub struct Input {
    pub key: Key,
    pub ctrl: bool,
    pub alt: bool,
    pub shift: bool,
}

impl Default for Input {
    /// No key.
    fn default() -> (i: Self)
        ensures
            i == (Input { key: Key::Null, ctrl: false, alt: false, shift: false }),
    {
        Input { key: Key::Null, ctrl: false, alt: false, shift: false }
    }
}

/// The warnings shown in place of the help line.
#[derive(Debug, Clone, Copy, PartialEq, Eq, Structural)]
pub enum Warning {
    AudioInputDisabled,
    FailedNewTranscription,
    InputTooShort,
}

/// The colour of a warning.
#[derive(Debug, Clone, Copy, PartialEq, Eq, Structural)]
pub enum WarningColor {
    Yellow,
    Red,
}

impl Warning {
    /// The colour the warning is shown in: red for a failure, yellow otherwise.
    pub fn color(&self) -> (c: WarningColor)
        ensures
            c == (match *self {
                Warning::FailedNewTranscription => WarningColor::Red,
                _ => WarningColor::Yellow,
            }),
    {
        match self {
            Warning::AudioInputDisabled => WarningColor::Yellow,
            Warning::FailedNewTranscription => WarningColor::Red,
            Warning::InputTooShort => WarningColor::Yellow,
        }
    }

    /// The text of the warning.
    pub fn text(&self) -> (s: String)
        ensures
            s@ == warning_text(*self),
    {
        match self {
            Warning::AudioInputDisabled => owned(
                " The audio Recording is disabled. Change your settings to record ",
            ),
            Warning::FailedNewTranscription => owned(" Failed to create a new Transcription. "),
            Warning::InputTooShort => owned(
                " Input too Short. Write something before validation. ",
            ),
        }
    }
}

/// The text of a warning.
pub open spec fn warning_text(w: Warning) -> Seq<char> {
    match w {
        Warning::AudioInputDisabled => " The audio Recording is disabled. Change your settings to record "@,
        Warning::FailedNewTranscription => " Failed to create a new Transcription. "@,
        Warning::InputTooShort => " Input too Short. Write something before validation. "@,
    }
}

/// The modes of the editor; an operator remembers its key (`y`, `d` or `c`).
#[derive(Debug, Clone, Copy, PartialEq, Eq, Structural)]
pub enum Mode {
    Normal,
    Insert,
    Visual,
    Operator(char),
    Recording,
    Warning(Warning),
}

/// The name of a mode, as the editor's border shows it.
pub open spec fn mode_label(m: Mode) -> Seq<char> {
    match m {
        Mode::Normal => "NORMAL"@,
        Mode::Insert => "INSERT"@,
        Mode::Visual => "VISUAL"@,
        Mode::Operator(c) => "OPERATOR("@ + (if c == 'y' {
            "Yank"@
        } else if c == 'd' {
            "Delete"@
        } else if c == 'c' {
            "Cut"@
        } else {
            seq![c]
        }) + ")"@,
        Mode::Recording => "RECORDING"@,
        Mode::Warning(_) => "WARNING"@,
    }
}

/// The help shown for a mode.
pub open spec fn mode_help(m: Mode) -> Seq<char> {
    match m {
        Mode::Normal => "type i, or a to enter insert mode"@,
        Mode::Insert => "Esc to go back to normal mode"@,
        Mode::Visual => "y to yank, d to delete, Esc to cancel"@,
        Mode::Operator(_) => "move cursor to apply, or repeat for full-line"@,
        Mode::Recording => "type any key to stop the recording"@,
        Mode::Warning(w) => warning_text(w),
    }
}

impl Mode {
    /// A warning mode.
    pub fn new_warning(warning: Warning) -> (m: Mode)
        ensures
            m == Mode::Warning(warning),
    {
        Mode::Warning(warning)
    }

    /// The name of the mode.
    pub fn label(&self) -> (s: String)
        ensures
            s@ == mode_label(*self),
    {
        match self {
            Mode::Normal => owned("NORMAL"),
            Mode::Insert => owned("INSERT"),
            Mode::Visual => owned("VISUAL"),
            Mode::Operator(c) => {
                let mut s = owned("OPERATOR(");
                if *c == 'y' {
                    s.append("Yank");
                } else if *c == 'd' {
                    s.append("Delete");
                } else if *c == 'c' {
                    s.append("Cut");
                } else {
                    push_char(&mut s, *c);
                }
                s.append(")");
                s
            },
            Mode::Recording => owned("RECORDING"),
            Mode::Warning(_) => owned("WARNING"),
        }
    }

    /// The help for the mode.
    pub fn help(&self) -> (s: String)
        ensures
            s@ == mode_help(*self),
    {
        match self {
            Mode::Normal => owned("type i, or a to enter insert mode"),
            Mode::Insert => owned("Esc to go back to normal mode"),
            Mode::Visual => owned("y to yank, d to delete, Esc to cancel"),
            Mode::Operator(_) => owned("move cursor to apply, or repeat for full-line"),
            Mode::Recording => owned("type any key to stop the recording"),
            Mode::Warning(w) => w.text(),
        }
    }
}

/// The cursor moves of the text area.
#[derive(Debug, Clone, Copy, PartialEq, Eq, Structural)]
pub enum CursorMove {
    Back,
    Down,
    Up,
    Forward,
    WordForward,
    WordBack,
    WordEnd,
    Head,
    End,
    Top,
    Bottom,
}

/// The scrolls of the text area: by a number of rows, or by half or whole pages.
#[derive(Debug, Clone, Copy, PartialEq, Eq, Structural)]
pub enum Scrolling {
    Delta(i16),
    HalfPageDown,
    HalfPageUp,
    PageDown,
    PageUp,
}

/// What a key asks of the text area.
#[derive(Debug, Clone, Copy, PartialEq, Eq, Structural)]
pub enum Edit {
    Move(CursorMove),
    DeleteLineByEnd,
    CancelSelection,
    DeleteNextChar,
    Paste,
    Undo,
    Redo,
    InsertNewline,
    Scroll(Scrolling),
    StartSelection,
    Copy,
    Cut,
    /// Put the yanked text on the system clipboard.
    YankToClipboard,
    /// Take the system clipboard's text as the yanked text and paste it.
    PasteFromClipboard,
    /// Move down, or to the end of the line when the cursor cannot move down.
    DownOrEnd,
    /// The key as typed text.
    Type(Input),
}

/// Moving between the sections of the character sheet's details.
#[derive(Debug, Clone, Copy, PartialEq, Eq, Structural)]
pub enum SectionMove {
    Next,
    Previous,
}

/// What a key asks of the screen around the text area.
#[derive(Debug, Clone, Copy, PartialEq, Eq, Structural)]
pub enum Transition {
    Nop,
    Validation,
    EndRecording,
    Detail(SectionMove),
    Exit,
    Mode(Mode),
    Pending(Input),
    ScrollTop,
    ScrollBottom,
    PageUp,
    PageDown,
    ScrollUp,
    ScrollDown,
}

/// The editor's state: its mode, and the previous key of a two-key command such as
/// `gg`.
#[derive(Debug, Clone, Copy, PartialEq, Eq, Structural)]
pub struct Vim {
    pub mode: Mode,
    pub pending: Input,
}

/// The key is the character `c`.
pub open spec fn is_char(i: Input, c: char) -> bool {
    i.key == Key::Char(c)
}

/// The key is an operator: `y`, `d` or `c`.
pub open spec fn is_operator_char(i: Input) -> bool {
    is_char(i, 'y') || is_char(i, 'd') || is_char(i, 'c')
}

/// The character of a character key.
pub open spec fn key_char(i: Input) -> char {
    match i.key {
        Key::Char(c) => c,
        _ => ' ',
    }
}

fn pressed(i: &Input, c: char) -> (b: bool)
    ensures
        b == is_char(*i, c),
{
    i.key == Key::Char(c)
}

fn operator_key(i: &Input) -> (b: bool)
    ensures
        b == is_operator_char(*i),
{
    pressed(i, 'y') || pressed(i, 'd') || pressed(i, 'c')
}

fn key_char_of(i: &Input) -> (c: char)
    ensures
        c == key_char(*i),
{
    match i.key {
        Key::Char(c) => c,
        _ => ' ',
    }
}

/// The response of the normal, visual and operator modes to a key, in the order in
/// which the keymap tries its bindings: the edits to make, and the transition (none
/// for a motion, which lets a pending operator apply).
pub open spec fn normal_step(mode: Mode, pending: Input, i: Input) -> (Seq<Edit>, Option<Transition>) {
    if is_char(i, 'h') || i.key == Key::Left {
        (seq![Edit::Move(CursorMove::Back)], None)
    } else if is_char(i, 'j') || i.key == Key::Down {
        (seq![Edit::Move(CursorMove::Down)], None)
    } else if is_char(i, 'k') || i.key == Key::Up {
        (seq![Edit::Move(CursorMove::Up)], None)
    } else if is_char(i, 'l') || i.key == Key::Right {
        (seq![Edit::Move(CursorMove::Forward)], None)
    } else if is_char(i, 'w') {
        (seq![Edit::Move(CursorMove::WordForward)], None)
    } else if is_char(i, 'b') && !i.ctrl {
        (seq![Edit::Move(CursorMove::WordBack)], None)
    } else if is_char(i, '^') {
        (seq![Edit::Move(CursorMove::Head)], None)
    } else if is_char(i, '$') {
        (seq![Edit::Move(CursorMove::End)], None)
    } else if is_char(i, 'e') && !i.ctrl {
        (if mode is Operator { seq![Edit::Move(CursorMove::WordEnd), Edit::Move(CursorMove::Forward)] } else { seq![Edit::Move(CursorMove::WordEnd)] }, None)
    } else if is_char(i, 'D') {
        (seq![Edit::DeleteLineByEnd], Some(Transition::Mode(Mode::Normal)))
    } else if is_char(i, 'C') {
        (seq![Edit::DeleteLineByEnd, Edit::CancelSelection], Some(Transition::Mode(Mode::Insert)))
    } else if is_char(i, 'x') {
        (seq![Edit::DeleteNextChar], Some(Transition::Mode(Mode::Normal)))
    } else if is_char(i, 'p') {
        (seq![Edit::Paste], Some(Transition::Mode(Mode::Normal)))
    } else if is_char(i, 'u') && !i.ctrl {
        (seq![Edit::Undo], Some(Transition::Mode(Mode::Normal)))
    } else if is_char(i, 'r') && i.ctrl {
        (seq![Edit::Redo], Some(Transition::Mode(Mode::Normal)))
    } else if is_char(i, 'i') {
        (seq![Edit::CancelSelection], Some(Transition::Mode(Mode::Insert)))
    } else if is_char(i, 'a') {
        (seq![Edit::CancelSelection, Edit::Move(CursorMove::Forward)], Some(Transition::Mode(Mode::Insert)))
    } else if is_char(i, 'A') {
        (seq![Edit::CancelSelection, Edit::Move(CursorMove::End)], Some(Transition::Mode(Mode::Insert)))
    } else if is_char(i, 'I') {
        (seq![Edit::CancelSelection, Edit::Move(CursorMove::Head)], Some(Transition::Mode(Mode::Insert)))
    } else if is_char(i, 'o') {
        (seq![Edit::Move(CursorMove::End), Edit::InsertNewline], Some(Transition::Mode(Mode::Insert)))
    } else if is_char(i, 'O') {
        (seq![Edit::Move(CursorMove::Head), Edit::InsertNewline, Edit::Move(CursorMove::Up)], Some(Transition::Mode(Mode::Insert)))
    } else if is_char(i, 'e') && i.ctrl {
        (seq![Edit::Scroll(Scrolling::Delta(1i16))], None)
    } else if is_char(i, 'y') && i.ctrl {
        (seq![Edit::Scroll(Scrolling::Delta(-1i16))], None)
    } else if is_char(i, 'd') && i.ctrl {
        (seq![Edit::Scroll(Scrolling::HalfPageDown)], None)
    } else if is_char(i, 'u') && i.ctrl {
        (seq![Edit::Scroll(Scrolling::HalfPageUp)], None)
    } else if is_char(i, 'f') && i.ctrl {
        (seq![Edit::Scroll(Scrolling::PageDown)], None)
    } else if is_char(i, 'b') && i.ctrl {
        (seq![Edit::Scroll(Scrolling::PageUp)], None)
    } else if is_char(i, 'v') && !i.ctrl && mode == Mode::Normal {
        (seq![Edit::StartSelection], Some(Transition::Mode(Mode::Visual)))
    } else if is_char(i, 'V') && !i.ctrl && mode == Mode::Normal {
        (seq![Edit::Move(CursorMove::Head), Edit::StartSelection, Edit::Move(CursorMove::End)], Some(Transition::Mode(Mode::Visual)))
    } else if is_char(i, 'y') && !i.ctrl && mode == Mode::Visual {
        (seq![Edit::Move(CursorMove::Forward), Edit::Copy, Edit::YankToClipboard], Some(Transition::Mode(Mode::Normal)))
    } else if is_char(i, 'd') && !i.ctrl && mode == Mode::Visual {
        (seq![Edit::Move(CursorMove::Forward), Edit::Cut, Edit::YankToClipboard], Some(Transition::Mode(Mode::Normal)))
    } else if is_char(i, 'c') && !i.ctrl && mode == Mode::Visual {
        (seq![Edit::Move(CursorMove::Forward), Edit::Cut, Edit::YankToClipboard], Some(Transition::Mode(Mode::Insert)))
    } else if (i.key == Key::Esc || is_char(i, 'v')) && mode == Mode::Visual {
        (seq![Edit::CancelSelection], Some(Transition::Mode(Mode::Normal)))
    } else if i.key == Key::Esc && mode is Operator {
        (Seq::<Edit>::empty(), Some(Transition::Mode(Mode::Normal)))
    } else if i.key == Key::Esc && mode == Mode::Normal {
        (Seq::<Edit>::empty(), Some(Transition::Exit))
    } else if is_char(i, '[') && mode == Mode::Normal {
        (Seq::<Edit>::empty(), Some(Transition::ScrollUp))
    } else if is_char(i, ']') && mode == Mode::Normal {
        (Seq::<Edit>::empty(), Some(Transition::ScrollDown))
    } else if is_char(i, '[') && i.shift && mode == Mode::Normal {
        (Seq::<Edit>::empty(), Some(Transition::PageUp))
    } else if is_char(i, ']') && i.shift && mode == Mode::Normal {
        (Seq::<Edit>::empty(), Some(Transition::PageDown))
    } else if is_char(i, ']') && i.ctrl && mode == Mode::Normal {
        (Seq::<Edit>::empty(), Some(Transition::ScrollBottom))
    } else if is_char(i, '[') && i.ctrl && mode == Mode::Normal {
        (Seq::<Edit>::empty(), Some(Transition::ScrollTop))
    } else if is_char(i, 'r') && mode == Mode::Normal {
        (Seq::<Edit>::empty(), Some(Transition::Mode(Mode::Recording)))
    } else if i.key == Key::Enter && mode == Mode::Normal {
        (Seq::<Edit>::empty(), Some(Transition::Validation))
    } else if is_char(i, 'v') && i.ctrl && mode == Mode::Normal {
        (seq![Edit::PasteFromClipboard], Some(Transition::Mode(Mode::Normal)))
    } else if i.key == Key::Tab && mode == Mode::Normal {
        (Seq::<Edit>::empty(), Some(Transition::Detail(SectionMove::Next)))
    } else if i.key == Key::Tab && i.shift && mode == Mode::Normal {
        (Seq::<Edit>::empty(), Some(Transition::Detail(SectionMove::Previous)))
    } else if is_char(i, 'g') && !i.ctrl && pending.key == Key::Char('g') {
        (seq![Edit::Move(CursorMove::Top)], None)
    } else if is_char(i, 'G') && !i.ctrl {
        (seq![Edit::Move(CursorMove::Bottom)], None)
    } else if is_operator_char(i) && !i.ctrl && mode == Mode::Operator(key_char(i)) {
        (seq![Edit::Move(CursorMove::Head), Edit::StartSelection, Edit::DownOrEnd], None)
    } else if is_operator_char(i) && !i.ctrl && mode == Mode::Normal {
        (seq![Edit::StartSelection], Some(Transition::Mode(Mode::Operator(key_char(i)))))
    } else {
        (Seq::<Edit>::empty(), Some(Transition::Pending(i)))
    }
}

fn normal_input(mode: Mode, pending: Input, i: Input) -> (r: (Vec<Edit>, Option<Transition>))
    ensures
        r.0@ == normal_step(mode, pending, i).0,
        r.1 == normal_step(mode, pending, i).1,
{
    let normal = mode == Mode::Normal;
    let visual = mode == Mode::Visual;
    let operator = match mode {
        Mode::Operator(_) => true,
        _ => false,
    };
    let pending_g = pending.key == Key::Char('g');
    let same_operator = match i.key {
        Key::Char(c) => mode == Mode::Operator(c),
        _ => false,
    };
    let mut edits: Vec<Edit> = Vec::new();
    let t = if pressed(&i, 'h') || i.key == Key::Left {
        edits.push(Edit::Move(CursorMove::Back));
        None
    } else if pressed(&i, 'j') || i.key == Key::Down {
        edits.push(Edit::Move(CursorMove::Down));
        None
    } else if pressed(&i, 'k') || i.key == Key::Up {
        edits.push(Edit::Move(CursorMove::Up));
        None
    } else if pressed(&i, 'l') || i.key == Key::Right {
        edits.push(Edit::Move(CursorMove::Forward));
        None
    } else if pressed(&i, 'w') {
        edits.push(Edit::Move(CursorMove::WordForward));
        None
    } else if pressed(&i, 'b') && !i.ctrl {
        edits.push(Edit::Move(CursorMove::WordBack));
        None
    } else if pressed(&i, '^') {
        edits.push(Edit::Move(CursorMove::Head));
        None
    } else if pressed(&i, '$') {
        edits.push(Edit::Move(CursorMove::End));
        None
    } else if pressed(&i, 'e') && !i.ctrl {
        edits.push(Edit::Move(CursorMove::WordEnd));
        if operator {
            edits.push(Edit::Move(CursorMove::Forward));
        }
        None
    } else if pressed(&i, 'D') {
        edits.push(Edit::DeleteLineByEnd);
        Some(Transition::Mode(Mode::Normal))
    } else if pressed(&i, 'C') {
        edits.push(Edit::DeleteLineByEnd);
        edits.push(Edit::CancelSelection);
        Some(Transition::Mode(Mode::Insert))
    } else if pressed(&i, 'x') {
        edits.push(Edit::DeleteNextChar);
        Some(Transition::Mode(Mode::Normal))
    } else if pressed(&i, 'p') {
        edits.push(Edit::Paste);
        Some(Transition::Mode(Mode::Normal))
    } else if pressed(&i, 'u') && !i.ctrl {
        edits.push(Edit::Undo);
        Some(Transition::Mode(Mode::Normal))
    } else if pressed(&i, 'r') && i.ctrl {
        edits.push(Edit::Redo);
        Some(Transition::Mode(Mode::Normal))
    } else if pressed(&i, 'i') {
        edits.push(Edit::CancelSelection);
        Some(Transition::Mode(Mode::Insert))
    } else if pressed(&i, 'a') {
        edits.push(Edit::CancelSelection);
        edits.push(Edit::Move(CursorMove::Forward));
        Some(Transition::Mode(Mode::Insert))
    } else if pressed(&i, 'A') {
        edits.push(Edit::CancelSelection);
        edits.push(Edit::Move(CursorMove::End));
        Some(Transition::Mode(Mode::Insert))
    } else if pressed(&i, 'I') {
        edits.push(Edit::CancelSelection);
        edits.push(Edit::Move(CursorMove::Head));
        Some(Transition::Mode(Mode::Insert))
    } else if pressed(&i, 'o') {
        edits.push(Edit::Move(CursorMove::End));
        edits.push(Edit::InsertNewline);
        Some(Transition::Mode(Mode::Insert))
    } else if pressed(&i, 'O') {
        edits.push(Edit::Move(CursorMove::Head));
        edits.push(Edit::InsertNewline);
        edits.push(Edit::Move(CursorMove::Up));
        Some(Transition::Mode(Mode::Insert))
    } else if pressed(&i, 'e') && i.ctrl {
        edits.push(Edit::Scroll(Scrolling::Delta(1)));
        None
    } else if pressed(&i, 'y') && i.ctrl {
        edits.push(Edit::Scroll(Scrolling::Delta(-1)));
        None
    } else if pressed(&i, 'd') && i.ctrl {
        edits.push(Edit::Scroll(Scrolling::HalfPageDown));
        None
    } else if pressed(&i, 'u') && i.ctrl {
        edits.push(Edit::Scroll(Scrolling::HalfPageUp));
        None
    } else if pressed(&i, 'f') && i.ctrl {
        edits.push(Edit::Scroll(Scrolling::PageDown));
        None
    } else if pressed(&i, 'b') && i.ctrl {
        edits.push(Edit::Scroll(Scrolling::PageUp));
        None
    } else if pressed(&i, 'v') && !i.ctrl && normal {
        edits.push(Edit::StartSelection);
        Some(Transition::Mode(Mode::Visual))
    } else if pressed(&i, 'V') && !i.ctrl && normal {
        edits.push(Edit::Move(CursorMove::Head));
        edits.push(Edit::StartSelection);
        edits.push(Edit::Move(CursorMove::End));
        Some(Transition::Mode(Mode::Visual))
    } else if pressed(&i, 'y') && !i.ctrl && visual {
        edits.push(Edit::Move(CursorMove::Forward));
        edits.push(Edit::Copy);
        edits.push(Edit::YankToClipboard);
        Some(Transition::Mode(Mode::Normal))
    } else if pressed(&i, 'd') && !i.ctrl && visual {
        edits.push(Edit::Move(CursorMove::Forward));
        edits.push(Edit::Cut);
        edits.push(Edit::YankToClipboard);
        Some(Transition::Mode(Mode::Normal))
    } else if pressed(&i, 'c') && !i.ctrl && visual {
        edits.push(Edit::Move(CursorMove::Forward));
        edits.push(Edit::Cut);
        edits.push(Edit::YankToClipboard);
        Some(Transition::Mode(Mode::Insert))
    } else if (i.key == Key::Esc || pressed(&i, 'v')) && visual {
        edits.push(Edit::CancelSelection);
        Some(Transition::Mode(Mode::Normal))
    } else if i.key == Key::Esc && operator {
        Some(Transition::Mode(Mode::Normal))
    } else if i.key == Key::Esc && normal {
        Some(Transition::Exit)
    } else if pressed(&i, '[') && normal {
        Some(Transition::ScrollUp)
    } else if pressed(&i, ']') && normal {
        Some(Transition::ScrollDown)
    } else if pressed(&i, '[') && i.shift && normal {
        Some(Transition::PageUp)
    } else if pressed(&i, ']') && i.shift && normal {
        Some(Transition::PageDown)
    } else if pressed(&i, ']') && i.ctrl && normal {
        Some(Transition::ScrollBottom)
    } else if pressed(&i, '[') && i.ctrl && normal {
        Some(Transition::ScrollTop)
    } else if pressed(&i, 'r') && normal {
        Some(Transition::Mode(Mode::Recording))
    } else if i.key == Key::Enter && normal {
        Some(Transition::Validation)
    } else if pressed(&i, 'v') && i.ctrl && normal {
        edits.push(Edit::PasteFromClipboard);
        Some(Transition::Mode(Mode::Normal))
    } else if i.key == Key::Tab && normal {
        Some(Transition::Detail(SectionMove::Next))
    } else if i.key == Key::Tab && i.shift && normal {
        Some(Transition::Detail(SectionMove::Previous))
    } else if pressed(&i, 'g') && !i.ctrl && pending_g {
        edits.push(Edit::Move(CursorMove::Top));
        None
    } else if pressed(&i, 'G') && !i.ctrl {
        edits.push(Edit::Move(CursorMove::Bottom));
        None
    } else if operator_key(&i) && !i.ctrl && same_operator {
        edits.push(Edit::Move(CursorMove::Head));
        edits.push(Edit::StartSelection);
        edits.push(Edit::DownOrEnd);
        None
    } else if operator_key(&i) && !i.ctrl && normal {
        edits.push(Edit::StartSelection);
        Some(Transition::Mode(Mode::Operator(key_char_of(&i))))
    } else {
        Some(Transition::Pending(i))
    };
    proof {
        assert(edits@ =~= normal_step(mode, pending, i).0);
    }
    (edits, t)
}

/// What the editor does with a key: nothing for no key; in the normal, visual and
/// operator modes the keymap's response, or, after a motion, the pending operator
/// applied to the selection (yank, delete, or delete and insert); in insert mode
/// the key is typed, escape or ctrl-c going back to normal mode; a key ends a
/// recording, and dismisses a warning.
pub open spec fn vim_step(v: Vim, i: Input) -> (Seq<Edit>, Transition) {
    if i.key == Key::Null {
        (Seq::<Edit>::empty(), Transition::Nop)
    } else {
        match v.mode {
            Mode::Normal | Mode::Visual | Mode::Operator(_) => {
                let (edits, t) = normal_step(v.mode, v.pending, i);
                match t {
                    Some(t) => (edits, t),
                    None => if v.mode == Mode::Operator('y') {
                        (edits + seq![Edit::Copy, Edit::YankToClipboard], Transition::Mode(Mode::Normal))
                    } else if v.mode == Mode::Operator('d') {
                        (edits + seq![Edit::Cut, Edit::YankToClipboard], Transition::Mode(Mode::Normal))
                    } else if v.mode == Mode::Operator('c') {
                        (edits + seq![Edit::Cut, Edit::YankToClipboard], Transition::Mode(Mode::Insert))
                    } else {
                        (edits, Transition::Nop)
                    },
                }
            },
            Mode::Insert => if i.key == Key::Esc || (is_char(i, 'c') && i.ctrl) {
                (Seq::<Edit>::empty(), Transition::Mode(Mode::Normal))
            } else {
                (seq![Edit::Type(i)], Transition::Mode(Mode::Insert))
            },
            Mode::Recording => (Seq::<Edit>::empty(), Transition::EndRecording),
            Mode::Warning(_) => (Seq::<Edit>::empty(), Transition::Mode(Mode::Normal)),
        }
    }
}

impl Vim {
    /// An editor in mode `mode`, with no pending key.
    pub fn new(mode: Mode) -> (v: Self)
        ensures
            v.mode == mode,
            v.pending == (Input { key: Key::Null, ctrl: false, alt: false, shift: false }),
    {
        Vim { mode, pending: Input::default() }
    }

    /// The editor with `pending` as its previous key.
    pub fn with_pending(self, pending: Input) -> (v: Self)
        ensures
            v == (Vim { pending, ..self }),
    {
        Vim { mode: self.mode, pending }
    }

    /// The edits and the transition a key asks for.
    pub fn transition(&self, input: Input) -> (r: (Vec<Edit>, Transition))
        ensures
            r.0@ == vim_step(*self, input).0,
            r.1 == vim_step(*self, input).1,
    {
        if input.key == Key::Null {
            return (Vec::new(), Transition::Nop);
        }
        match self.mode {
            Mode::Normal | Mode::Visual | Mode::Operator(_) => {
                let (mut edits, t) = normal_input(self.mode, self.pending, input);
                match t {
                    Some(t) => (edits, t),
                    None => {
                        let ghost before = edits@;
                        if self.mode == Mode::Operator('y') {
                            edits.push(Edit::Copy);
                            edits.push(Edit::YankToClipboard);
                            assert(edits@ =~= before + seq![Edit::Copy, Edit::YankToClipboard]);
                            (edits, Transition::Mode(Mode::Normal))
                        } else if self.mode == Mode::Operator('d') {
                            edits.push(Edit::Cut);
                            edits.push(Edit::YankToClipboard);
                            assert(edits@ =~= before + seq![Edit::Cut, Edit::YankToClipboard]);
                            (edits, Transition::Mode(Mode::Normal))
                        } else if self.mode == Mode::Operator('c') {
                            edits.push(Edit::Cut);
                            edits.push(Edit::YankToClipboard);
                            assert(edits@ =~= before + seq![Edit::Cut, Edit::YankToClipboard]);
                            (edits, Transition::Mode(Mode::Insert))
                        } else {
                            (edits, Transition::Nop)
                        }
                    },
                }
            },
            Mode::Insert => {
                if input.key == Key::Esc || (pressed(&input, 'c') && input.ctrl) {
                    (Vec::new(), Transition::Mode(Mode::Normal))
                } else {
                    let mut edits: Vec<Edit> = Vec::new();
                    edits.push(Edit::Type(input));
                    assert(edits@ =~= seq![Edit::Type(input)]);
                    (edits, Transition::Mode(Mode::Insert))
                }
            },
            Mode::Recording => (Vec::new(), Transition::EndRecording),
            Mode::Warning(_) => (Vec::new(), Transition::Mode(Mode::Normal)),
        }
    }
}

/// Escape and ctrl-c leave insert mode without touching the text.
pub proof fn law_escape_leaves_insert(v: Vim, i: Input)
    requires
        v.mode == Mode::Insert,
        i.key == Key::Esc || (is_char(i, 'c') && i.ctrl),
    ensures
        vim_step(v, i).0.len() == 0,
        vim_step(v, i).1 == Transition::Mode(Mode::Normal),
{
}

/// In insert mode every other key is typed and the editor stays in insert mode.
pub proof fn law_insert_types(v: Vim, i: Input)
    requires
        v.mode == Mode::Insert,
        i.key != Key::Null,
        i.key != Key::Esc,
        !(is_char(i, 'c') && i.ctrl),
    ensures
        vim_step(v, i).0 == seq![Edit::Type(i)],
        vim_step(v, i).1 == Transition::Mode(Mode::Insert),
{
}

/// Any key dismisses a warning, and the absence of a key does nothing.
pub proof fn law_warning_dismissed(v: Vim, w: Warning, i: Input)
    requires
        v.mode == Mode::Warning(w),
        i.key != Key::Null,
    ensures
        vim_step(v, i).1 == Transition::Mode(Mode::Normal),
        vim_step(Vim { mode: v.mode, pending: v.pending }, Input { key: Key::Null, ..i }).1
            == Transition::Nop,
{
}

/// In normal mode, enter validates the text and escape leaves the editor.
pub proof fn law_normal_enter_and_escape(v: Vim, i: Input)
    requires
        v.mode == Mode::Normal,
        i.key == Key::Enter || i.key == Key::Esc,
    ensures
        vim_step(v, i).1 == (if i.key == Key::Enter {
            Transition::Validation
        } else {
            Transition::Exit
        }),
{
}

/// A motion in operator mode applies the operator: after the motion's edits the
/// selection is yanked, or cut, onto the clipboard.
pub proof fn law_operator_applies(v: Vim, i: Input, op: char)
    requires
        v.mode == Mode::Operator(op),
        op == 'y' || op == 'd' || op == 'c',
        is_char(i, 'w'),
    ensures
        vim_step(v, i).0.last() == Edit::YankToClipboard,
        vim_step(v, i).1 == Transition::Mode(if op == 'c' { Mode::Insert } else { Mode::Normal }),
{
}

/// In the normal, visual and operator modes the editing keys do the same thing
/// whatever key came before: `x` deletes the character under the cursor, `D`
/// deletes to the end of the line and `p` pastes, each back in normal mode; `C`
/// deletes to the end of the line and enters insert mode; `i`, `a`, `A` and `I`
/// enter insert mode at the cursor, after it, at the end and at the head of the
/// line; `u` without ctrl undoes and ctrl-`r` redoes, back in normal mode.
pub proof fn law_editing_keys(v: Vim, i: Input)
    requires
        v.mode == Mode::Normal || v.mode == Mode::Visual || v.mode is Operator,
    ensures
        i.key == Key::Char('x') ==> vim_step(v, i) == (
            seq![Edit::DeleteNextChar],
            Transition::Mode(Mode::Normal),
        ),
        i.key == Key::Char('D') ==> vim_step(v, i) == (
            seq![Edit::DeleteLineByEnd],
            Transition::Mode(Mode::Normal),
        ),
        i.key == Key::Char('p') ==> vim_step(v, i) == (seq![Edit::Paste], Transition::Mode(Mode::Normal)),
        i.key == Key::Char('C') ==> vim_step(v, i) == (
            seq![Edit::DeleteLineByEnd, Edit::CancelSelection],
            Transition::Mode(Mode::Insert),
        ),
        i.key == Key::Char('i') ==> vim_step(v, i) == (
            seq![Edit::CancelSelection],
            Transition::Mode(Mode::Insert),
        ),
        i.key == Key::Char('a') ==> vim_step(v, i) == (
            seq![Edit::CancelSelection, Edit::Move(CursorMove::Forward)],
            Transition::Mode(Mode::Insert),
        ),
        i.key == Key::Char('A') ==> vim_step(v, i) == (
            seq![Edit::CancelSelection, Edit::Move(CursorMove::End)],
            Transition::Mode(Mode::Insert),
        ),
        i.key == Key::Char('I') ==> vim_step(v, i) == (
            seq![Edit::CancelSelection, Edit::Move(CursorMove::Head)],
            Transition::Mode(Mode::Insert),
        ),
        i.key == Key::Char('u') && !i.ctrl ==> vim_step(v, i) == (
            seq![Edit::Undo],
            Transition::Mode(Mode::Normal),
        ),
        i.key == Key::Char('r') && i.ctrl ==> vim_step(v, i) == (
            seq![Edit::Redo],
            Transition::Mode(Mode::Normal),
        ),
{
}

/// In normal mode the cursor keys and `hjkl` move by one, and leave the mode as it
/// is.
pub proof fn law_normal_moves(v: Vim, i: Input)
    requires
        v.mode == Mode::Normal,
    ensures
        i.key == Key::Char('h') || i.key == Key::Left ==> vim_step(v, i) == (
            seq![Edit::Move(CursorMove::Back)],
            Transition::Nop,
        ),
        i.key == Key::Char('j') || i.key == Key::Down ==> vim_step(v, i) == (
            seq![Edit::Move(CursorMove::Down)],
            Transition::Nop,
        ),
        i.key == Key::Char('k') || i.key == Key::Up ==> vim_step(v, i) == (
            seq![Edit::Move(CursorMove::Up)],
            Transition::Nop,
        ),
        i.key == Key::Char('l') || i.key == Key::Right ==> vim_step(v, i) == (
            seq![Edit::Move(CursorMove::Forward)],
            Transition::Nop,
        ),
{
}

} // verus!
