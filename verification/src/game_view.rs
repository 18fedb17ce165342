//! The game screen's state and rules: the lines of the conversation and how far
//! they are scrolled, the section of the character sheet whose details are shown,
//! and what the keys do.
use vstd::prelude::*;

use crate::character::{CharacterSheet, Contact, Item};
use crate::game_state::GameState;
use crate::markdown::{parse_markdown, span_view, StyledSpan, markdown_spans};
use crate::message::{parsed_user_message, Message, MessageType};
use crate::spinner::Spinner;
use crate::text::{concat, owned};

verus! {

broadcast use vstd::string::group_string_axioms;

/// The section of the character sheet whose details are shown.
#[derive(Debug, Clone, Copy, PartialEq, Eq, Structural)]
pub enum HighlightedSection {
    Hidden,
    Backstory,
    Attributes(usize),
    Derived(usize),
    Skills,
    Qualities,
    Inventory,
    Contact,
    Cyberware,
    Bioware,
    Resources,
}

/// Where a line of the conversation sits.
#[derive(Debug, Clone, Copy, PartialEq, Eq, Structural)]
pub enum Alignment {
    Left,
    Center,
    Right,
}

/// The colour of a line of the conversation, by its author.
#[derive(Debug, Clone, Copy, PartialEq, Eq, Structural)]
pub enum Tone {
    Game,
    Player,
    System,
}

/// A line of the conversation: its spans, colour and place.
#[derive(Debug, Clone)]
pub struct ContentLine {
    pub spans: Vec<StyledSpan>,
    pub tone: Tone,
    pub alignment: Alignment,
}

/// The sections the details can show for a sheet, in the order Tab visits them:
/// the backstory, the attributes in three parts, the derived values in two, the
/// skills, the qualities, the augmentations if any, the resources, the items if
/// any, the contacts if any.
pub open spec fn available_sections(sheet: CharacterSheet) -> Seq<HighlightedSection> {
    seq![
        HighlightedSection::Backstory,
        HighlightedSection::Attributes(0),
        HighlightedSection::Attributes(1),
        HighlightedSection::Attributes(2),
        HighlightedSection::Derived(0),
        HighlightedSection::Derived(1),
        HighlightedSection::Skills,
        HighlightedSection::Qualities,
    ] + (if sheet.cyberware@.len() > 0 {
        seq![HighlightedSection::Cyberware]
    } else {
        Seq::empty()
    }) + (if sheet.bioware@.len() > 0 {
        seq![HighlightedSection::Bioware]
    } else {
        Seq::empty()
    }) + seq![HighlightedSection::Resources] + (if sheet.inventory.view() != Map::<
        Seq<char>,
        Item,
    >::empty() {
        seq![HighlightedSection::Inventory]
    } else {
        Seq::empty()
    }) + (if sheet.contacts.view() != Map::<Seq<char>, Contact>::empty() {
        seq![HighlightedSection::Contact]
    } else {
        Seq::empty()
    })
}

/// The section after `current` among `avail`: the next one, none after the last,
/// the first when `current` is not among them.
pub open spec fn next_section(avail: Seq<HighlightedSection>, current: HighlightedSection) -> HighlightedSection {
    if exists|k: int| 0 <= k < avail.len() && avail[k] == current {
        let k = choose|k: int| 0 <= k < avail.len() && avail[k] == current;
        if k + 1 < avail.len() {
            avail[k + 1]
        } else {
            HighlightedSection::Hidden
        }
    } else if avail.len() > 0 {
        avail[0]
    } else {
        HighlightedSection::Hidden
    }
}

/// The sections available are all different.
pub proof fn lemma_sections_distinct(sheet: CharacterSheet)
    ensures
        forall|a: int, b: int|
            0 <= a < b < available_sections(sheet).len() ==> available_sections(sheet)[a]
                != available_sections(sheet)[b],
        !available_sections(sheet).contains(HighlightedSection::Hidden),
{
    let s = available_sections(sheet);
    assert forall|a: int, b: int| 0 <= a < b < s.len() implies s[a] != s[b] by {
        assert(s[a] != s[b]);
    }
    assert forall|k: int| 0 <= k < s.len() implies s[k] != HighlightedSection::Hidden by {}
}

/// The lines of the conversation, how many there are, the room to show them, and
/// how far they are scrolled.
#[derive(Debug)]
pub struct InGame {
    pub state: GameState,
    pub content: Vec<Message>,
    pub highlighted_section: HighlightedSection,
    pub spinner: Spinner,
    pub spinner_active: bool,
    pub total_lines: usize,
    pub all_lines: Vec<ContentLine>,
    pub max_height: usize,
    pub max_width: usize,
    pub content_scroll: usize,
}

/// The farthest the conversation scrolls: the lines that do not fit.
pub open spec fn max_scroll(total_lines: usize, max_height: usize) -> int {
    if total_lines >= max_height {
        total_lines - max_height
    } else {
        0
    }
}

/// The keys of the game screen.
#[derive(Debug, Clone, Copy, PartialEq, Eq, Structural)]
pub enum GameKey {
    Char(char),
    Esc,
    Enter,
    PageUp,
    PageDown,
    Up,
    Down,
    Tab,
    Home,
    End,
    Other,
}

/// What a key of the game screen asks of the application.
#[derive(Debug, Clone, Copy, PartialEq, Eq, Structural)]
pub enum GameCommand {
    /// Nothing beyond the screen's own state.
    Nothing,
    /// Start typing the player's action.
    StartEditing,
    /// Paste the clipboard into the player's action.
    Paste,
    /// Save the game, clear the typed action, and go back to the main menu.
    SaveAndLeave,
    /// Send the typed action to the game master and clear it.
    Submit,
    /// Stop typing the player's action.
    StopEditing,
    /// Hand the key to the text being typed.
    Type,
}

/// What wrapping a text at a width gives: `textwrap::wrap`'s lines.
pub uninterp spec fn spec_wrap(text: Seq<char>, width: usize) -> Seq<Seq<char>>;

/// Wraps `text` into lines of at most `width` columns with `textwrap::wrap`. The
/// contract names the result, which depends on the text and the width alone.
#[verifier::external_body]
fn wrap_text(text: &str, width: usize) -> (lines: Vec<String>)
    ensures
        lines@.map_values(|l: String| l@) == spec_wrap(text@, width),
{
    textwrap::wrap(text, width).into_iter().map(|l| l.into_owned()).collect()
}

/// The text a message shows, its colour and its place: the game master's turn as
/// written, on the left; the player's turn as its action when it holds one, on
/// the right; the application's messages in the centre.
pub open spec fn message_text(m: Message) -> (Seq<char>, Tone, Alignment) {
    match m.message_type {
        MessageType::Game => (m.content@, Tone::Game, Alignment::Left),
        MessageType::User => match parsed_user_message(m) {
            Some(u) => ("\nPlayer action:\n"@ + u.player_action@, Tone::Player, Alignment::Right),
            None => (m.content@, Tone::Player, Alignment::Right),
        },
        MessageType::System => (m.content@, Tone::System, Alignment::Center),
    }
}

/// The lines of a message: its text wrapped at `width`, each line split into
/// spans, all in the message's colour and place.
pub open spec fn message_lines(m: Message, width: usize, lines: Seq<ContentLine>) -> bool {
    let (text, tone, alignment) = message_text(m);
    let wrapped = spec_wrap(text, width);
    &&& lines.len() == wrapped.len()
    &&& forall|k: int|
        0 <= k < lines.len() ==> (#[trigger] lines[k]).spans@.map_values(
            |x: StyledSpan| span_view(x),
        ) == markdown_spans(wrapped[k]) && lines[k].tone == tone && lines[k].alignment
            == alignment
}

fn sections_of(sheet: &CharacterSheet) -> (avail: Vec<HighlightedSection>)
    ensures
        avail@ == available_sections(*sheet),
{
    let mut avail: Vec<HighlightedSection> = Vec::new();
    avail.push(HighlightedSection::Backstory);
    avail.push(HighlightedSection::Attributes(0));
    avail.push(HighlightedSection::Attributes(1));
    avail.push(HighlightedSection::Attributes(2));
    avail.push(HighlightedSection::Derived(0));
    avail.push(HighlightedSection::Derived(1));
    avail.push(HighlightedSection::Skills);
    avail.push(HighlightedSection::Qualities);
    if sheet.cyberware.len() > 0 {
        avail.push(HighlightedSection::Cyberware);
    }
    if sheet.bioware.len() > 0 {
        avail.push(HighlightedSection::Bioware);
    }
    avail.push(HighlightedSection::Resources);
    if !sheet.inventory.is_empty() {
        avail.push(HighlightedSection::Inventory);
    }
    if !sheet.contacts.is_empty() {
        avail.push(HighlightedSection::Contact);
    }
    assert(avail@ =~= available_sections(*sheet));
    avail
}

fn next_of(avail: &Vec<HighlightedSection>, current: HighlightedSection) -> (next: HighlightedSection)
    requires
        forall|a: int, b: int| 0 <= a < b < avail@.len() ==> avail@[a] != avail@[b],
    ensures
        next == next_section(avail@, current),
{
    let n = avail.len();
    let mut k: usize = 0;
    while k < n && avail[k] != current
        invariant
            n == avail@.len(),
            k <= n,
            forall|m: int| 0 <= m < k ==> avail@[m] != current,
        decreases n - k,
    {
        k = k + 1;
    }
    if k < n {
        proof {
            let c = choose|m: int| 0 <= m < avail@.len() && avail@[m] == current;
            assert(avail@[k as int] == current);
            if c != k {
                if c < k {
                    assert(avail@[c] != avail@[k as int]);
                } else {
                    assert(avail@[k as int] != avail@[c]);
                }
            }
        }
        if k + 1 < n {
            avail[k + 1]
        } else {
            HighlightedSection::Hidden
        }
    } else if n > 0 {
        avail[0]
    } else {
        HighlightedSection::Hidden
    }
}

/// `lines` are the lines of the messages `msgs` at width `width`, message after
/// message.
pub open spec fn lines_of_messages(msgs: Seq<Message>, width: usize, lines: Seq<ContentLine>) -> bool
    decreases msgs.len(),
{
    if msgs.len() == 0 {
        lines.len() == 0
    } else {
        let k = lines.len() - spec_wrap(message_text(msgs.last()).0, width).len();
        &&& 0 <= k
        &&& lines_of_messages(msgs.drop_last(), width, lines.take(k))
        &&& message_lines(msgs.last(), width, lines.skip(k))
    }
}

/// The screen after the message `m` was added: it joins the conversation, its lines
/// at the screen's width follow the others, the count of lines grows by as many
/// (saturating), and the view scrolls to the end; the rest is unchanged.
pub open spec fn message_added(old: InGame, m: Message, new: InGame) -> bool {
    let n = old.all_lines@.len() as int;
    let added = new.all_lines@.len() - n;
    &&& new.content@ == old.content@.push(m)
    &&& new.all_lines@.len() >= n
    &&& new.all_lines@.take(n) == old.all_lines@
    &&& message_lines(m, old.max_width, new.all_lines@.skip(n))
    &&& new.total_lines == (if old.total_lines + added > usize::MAX {
        usize::MAX as int
    } else {
        old.total_lines + added
    })
    &&& new.content_scroll == max_scroll(new.total_lines, new.max_height)
    &&& new.state == old.state
    &&& new.highlighted_section == old.highlighted_section
    &&& new.spinner == old.spinner
    &&& new.spinner_active == old.spinner_active
    &&& new.max_height == old.max_height
    &&& new.max_width == old.max_width
}

/// The screen `g` scrolled to `s`.
pub open spec fn scrolled_to(g: InGame, s: int) -> InGame {
    InGame { content_scroll: s as usize, ..g }
}

/// The scroll after a page up: a screen's height higher, or the top.
pub open spec fn page_up_scroll(g: InGame) -> int {
    if g.content_scroll >= g.max_height {
        g.content_scroll - g.max_height
    } else {
        0
    }
}

/// The scroll after a page down: a screen's height lower, but not past the lines
/// that do not fit (a view already past them stays).
pub open spec fn page_down_scroll(g: InGame) -> int {
    let m = max_scroll(g.total_lines, g.max_height);
    if g.content_scroll >= m {
        g.content_scroll as int
    } else if g.content_scroll + g.max_height >= m {
        m
    } else {
        g.content_scroll + g.max_height
    }
}

/// What a key of the game screen does to the screen, outside typing, with
/// `typed` the action typed so far.
pub open spec fn normal_effect(old: InGame, key: GameKey, typed: Seq<char>, new: InGame) -> bool {
    match key {
        GameKey::Up | GameKey::Char('k') => new == scrolled_to(old, if old.content_scroll > 0 {
            old.content_scroll - 1
        } else {
            0
        }),
        GameKey::Down | GameKey::Char('j') => new == scrolled_to(
            old,
            if old.content_scroll < max_scroll(old.total_lines, old.max_height) {
                old.content_scroll + 1
            } else {
                old.content_scroll as int
            },
        ),
        GameKey::PageUp => new == scrolled_to(old, page_up_scroll(old)),
        GameKey::PageDown => new == scrolled_to(old, page_down_scroll(old)),
        GameKey::Home => new == scrolled_to(old, 0),
        GameKey::End => new == scrolled_to(old, max_scroll(old.total_lines, old.max_height)),
        GameKey::Tab => new == (InGame {
            highlighted_section: match old.state.main_character_sheet {
                Some(sheet) => next_section(available_sections(sheet), old.highlighted_section),
                None => old.highlighted_section,
            },
            ..old
        }),
        GameKey::Esc => if old.highlighted_section != HighlightedSection::Hidden {
            new == (InGame { highlighted_section: HighlightedSection::Hidden, ..old })
        } else {
            new.content@.len() == 0 && new == (InGame { content: new.content, ..old })
        },
        GameKey::Enter => if typed.len() > 0 {
            exists|m: Message|
                m.message_type == MessageType::User && m.content@ == typed && #[trigger] message_added(
                    InGame { spinner_active: true, ..old },
                    m,
                    new,
                )
        } else {
            new == old
        },
        _ => new == old,
    }
}

impl InGame {
    /// The screen for a game and its conversation so far, scrolled to the end.
    pub fn new(state: GameState, content: Vec<Message>) -> (g: Self)
        ensures
            g.state == state,
            g.content == content,
            lines_of_messages(content@, 90, g.all_lines@),
            g.spinner.current_frame == 0,
            g.highlighted_section == HighlightedSection::Hidden,
            !g.spinner_active,
            g.max_height == 30,
            g.max_width == 90,
            g.total_lines == g.all_lines@.len(),
            g.content_scroll == max_scroll(g.total_lines, g.max_height),
    {
        let mut g = InGame {
            state,
            content,
            highlighted_section: HighlightedSection::Hidden,
            spinner: Spinner::new(),
            spinner_active: false,
            total_lines: 0,
            all_lines: Vec::new(),
            max_height: 30,
            max_width: 90,
            content_scroll: 0,
        };
        let mut all: Vec<ContentLine> = Vec::new();
        let n = g.content.len();
        let mut i: usize = 0;
        assert(content@.take(0) =~= Seq::<Message>::empty());
        while i < n
            invariant
                n == g.content@.len(),
                g.content == content,
                g.state == state,
                g.max_width == 90,
                g.spinner.current_frame == 0,
                g.highlighted_section == HighlightedSection::Hidden,
                !g.spinner_active,
                g.max_height == 30,
                i <= n,
                lines_of_messages(content@.take(i as int), 90, all@),
            decreases n - i,
        {
            let ghost before = all@;
            let mut lines = g.parse_message(&g.content[i]);
            let ghost added = lines@;
            all.append(&mut lines);
            proof {
                let msgs = content@.take(i + 1);
                assert(msgs.drop_last() =~= content@.take(i as int));
                assert(msgs.last() == content@[i as int]);
                let k = before.len() as int;
                assert(all@.take(k) =~= before);
                assert(all@.skip(k) =~= added);
                assert(lines_of_messages(msgs.drop_last(), 90, all@.take(k)));
                assert(message_lines(msgs.last(), 90, all@.skip(k)));
                assert(lines_of_messages(msgs, 90, all@));
            }
            i = i + 1;
        }
        assert(content@.take(n as int) =~= content@);
        g.total_lines = all.len();
        g.all_lines = all;
        g.content_scroll = g.total_lines.saturating_sub(30);
        g.scroll_to_bottom();
        g
    }

    /// The lines of a message at the screen's width.
    pub fn parse_message(&self, message: &Message) -> (lines: Vec<ContentLine>)
        ensures
            message_lines(*message, self.max_width, lines@),
    {
        let (text, tone, alignment) = match message.message_type {
            MessageType::Game => (message.content.clone(), Tone::Game, Alignment::Left),
            MessageType::User => match message.parse_user_message() {
                Some(u) => (
                    concat("\nPlayer action:\n", u.player_action.as_str()),
                    Tone::Player,
                    Alignment::Right,
                ),
                None => (message.content.clone(), Tone::Player, Alignment::Right),
            },
            MessageType::System => (message.content.clone(), Tone::System, Alignment::Center),
        };
        let wrapped = wrap_text(text.as_str(), self.max_width);
        let ghost w = spec_wrap(text@, self.max_width);
        let mut lines: Vec<ContentLine> = Vec::new();
        let n = wrapped.len();
        let mut i: usize = 0;
        while i < n
            invariant
                n == wrapped@.len(),
                wrapped@.map_values(|l: String| l@) == w,
                i <= n,
                lines@.len() == i,
                forall|k: int|
                    0 <= k < i ==> (#[trigger] lines@[k]).spans@.map_values(
                        |x: StyledSpan| span_view(x),
                    ) == markdown_spans(w[k]) && lines@[k].tone == tone && lines@[k].alignment
                        == alignment,
            decreases n - i,
        {
            assert(wrapped@[i as int]@ == w[i as int]);
            let spans = parse_markdown(wrapped[i].as_str());
            lines.push(ContentLine { spans, tone, alignment });
            i = i + 1;
        }
        lines
    }

    /// Adds a message to the conversation and scrolls to its end.
    pub fn new_message(&mut self, new_message: &Message)
        ensures
            message_added(*old(self), *new_message, *final(self)),
    {
        let ghost before_content = self.content@;
        let ghost before_lines = self.all_lines@;
        self.content.push(new_message.clone());
        assert(self.content@.drop_last() =~= before_content);
        let mut new_lines = self.parse_message(new_message);
        let ghost added = new_lines@;
        self.total_lines = self.total_lines.saturating_add(new_lines.len());
        self.all_lines.append(&mut new_lines);
        assert(self.all_lines@.take(before_lines.len() as int) =~= before_lines);
        assert(self.all_lines@.skip(before_lines.len() as int) =~= added);
        self.update_scroll();
        self.scroll_to_bottom();
    }

    /// Keeps the scroll within the lines that do not fit.
    pub fn update_scroll(&mut self)
        ensures
            final(self).content_scroll == (if old(self).content_scroll > max_scroll(
                old(self).total_lines,
                old(self).max_height,
            ) {
                max_scroll(old(self).total_lines, old(self).max_height)
            } else {
                old(self).content_scroll as int
            }),
            *final(self) == (InGame { content_scroll: final(self).content_scroll, ..*old(self) }),
    {
        let max = self.total_lines.saturating_sub(self.max_height);
        if self.content_scroll > max {
            self.content_scroll = max;
        }
    }

    /// Scrolls one line up, if not at the top.
    pub fn scroll_up(&mut self)
        ensures
            final(self).content_scroll == (if old(self).content_scroll > 0 {
                old(self).content_scroll - 1
            } else {
                0
            }),
            *final(self) == (InGame { content_scroll: final(self).content_scroll, ..*old(self) }),
    {
        if self.content_scroll > 0 {
            self.content_scroll = self.content_scroll - 1;
        }
    }

    /// Scrolls one line down, if lines remain below.
    pub fn scroll_down(&mut self)
        ensures
            final(self).content_scroll == (if old(self).content_scroll < max_scroll(
                old(self).total_lines,
                old(self).max_height,
            ) {
                old(self).content_scroll + 1
            } else {
                old(self).content_scroll as int
            }),
            *final(self) == (InGame { content_scroll: final(self).content_scroll, ..*old(self) }),
    {
        if self.content_scroll < self.total_lines.saturating_sub(self.max_height) {
            self.content_scroll = self.content_scroll + 1;
        }
    }

    /// Scrolls to the last lines.
    pub fn scroll_to_bottom(&mut self)
        ensures
            final(self).content_scroll == max_scroll(old(self).total_lines, old(self).max_height),
            *final(self) == (InGame { content_scroll: final(self).content_scroll, ..*old(self) }),
    {
        self.content_scroll = self.total_lines.saturating_sub(self.max_height);
    }

    /// Shows the details of the next section of the main sheet; after the last, none.
    /// Without a main sheet nothing changes.
    pub fn cycle_highlighted_section(&mut self)
        ensures
            match old(self).state.main_character_sheet {
                Some(sheet) => final(self).highlighted_section == next_section(
                    available_sections(sheet),
                    old(self).highlighted_section,
                ),
                None => final(self).highlighted_section == old(self).highlighted_section,
            },
            *final(self) == (InGame {
                highlighted_section: final(self).highlighted_section,
                ..*old(self)
            }),
    {
        let next = match &self.state.main_character_sheet {
            None => return,
            Some(sheet) => {
                let avail = sections_of(sheet);
                proof {
                    lemma_sections_distinct(*sheet);
                }
                next_of(&avail, self.highlighted_section)
            },
        };
        self.highlighted_section = next;
    }

    /// Handles a key of the game screen while the player's action is not being
    /// typed: `e` starts typing, ctrl-v pastes, escape closes the details or else
    /// leaves the game, enter sends a typed action, the arrows and `j`/`k` scroll by
    /// a line, the page keys by a screen, home and end to the top and bottom, tab
    /// shows the next section of the sheet.
    pub fn handle_normal_input(&mut self, key: GameKey, ctrl: bool, input_value: &str) -> (c: GameCommand)
        ensures
            c == normal_command(
                key,
                ctrl,
                old(self).highlighted_section != HighlightedSection::Hidden,
                input_value@.len() > 0,
            ),
            normal_effect(*old(self), key, input_value@, *final(self)),
    {
        let ghost g0 = *self;
        let detail_shown = self.highlighted_section != HighlightedSection::Hidden;
        let typed = !input_value.is_empty();
        let c = normal_command_of(key, ctrl, detail_shown, typed);
        match key {
            GameKey::Esc => {
                if detail_shown {
                    self.highlighted_section = HighlightedSection::Hidden;
                } else {
                    self.content.clear();
                }
            },
            GameKey::Enter => {
                if typed {
                    self.spinner_active = true;
                    let m = Message::new(MessageType::User, input_value.to_string());
                    let ghost g1 = *self;
                    self.new_message(&m);
                    assert(g1 == (InGame { spinner_active: true, ..g0 }));
                    assert(message_added(InGame { spinner_active: true, ..g0 }, m, *self));
                }
            },
            GameKey::PageUp => {
                let n = self.max_height;
                let mut k: usize = 0;
                while k < n
                    invariant
                        n == g0.max_height,
                        k <= n,
                        *self == scrolled_to(
                            g0,
                            if g0.content_scroll >= k {
                                g0.content_scroll - k
                            } else {
                                0
                            },
                        ),
                    decreases n - k,
                {
                    self.scroll_up();
                    k = k + 1;
                }
            },
            GameKey::PageDown => {
                let n = self.max_height;
                let mut k: usize = 0;
                while k < n
                    invariant
                        n == g0.max_height,
                        k <= n,
                        *self == scrolled_to(
                            g0,
                            if g0.content_scroll >= max_scroll(g0.total_lines, g0.max_height) {
                                g0.content_scroll as int
                            } else if g0.content_scroll + k >= max_scroll(
                                g0.total_lines,
                                g0.max_height,
                            ) {
                                max_scroll(g0.total_lines, g0.max_height)
                            } else {
                                g0.content_scroll + k
                            },
                        ),
                    decreases n - k,
                {
                    self.scroll_down();
                    k = k + 1;
                }
            },
            GameKey::Up => self.scroll_up(),
            GameKey::Down => self.scroll_down(),
            GameKey::Char('k') => self.scroll_up(),
            GameKey::Char('j') => self.scroll_down(),
            GameKey::Tab => self.cycle_highlighted_section(),
            GameKey::Home => {
                self.content_scroll = 0;
            },
            GameKey::End => self.scroll_to_bottom(),
            _ => {},
        }
        c
    }

    /// Handles a key while the player's action is being typed: enter and escape
    /// stop typing, ctrl-v pastes, any other key is typed.
    pub fn handle_edit_input(&self, key: GameKey, ctrl: bool) -> (c: GameCommand)
        ensures
            c == (match key {
                GameKey::Enter | GameKey::Esc => GameCommand::StopEditing,
                GameKey::Char('v') => if ctrl {
                    GameCommand::Paste
                } else {
                    GameCommand::Type
                },
                _ => GameCommand::Type,
            }),
    {
        match key {
            GameKey::Enter | GameKey::Esc => GameCommand::StopEditing,
            GameKey::Char('v') => if ctrl {
                GameCommand::Paste
            } else {
                GameCommand::Type
            },
            _ => GameCommand::Type,
        }
    }

    /// Moves the spinner to its next frame when it runs and its last frame is at
    /// least 100 ms old; says whether it moved, so that the frame's time restarts.
    pub fn update_spinner(&mut self, elapsed_ms: u64) -> (moved: bool)
        ensures
            moved == (old(self).spinner_active && elapsed_ms >= 100),
            moved ==> final(self).spinner.current_frame == (if old(self).spinner.current_frame
                == usize::MAX {
                0
            } else {
                old(self).spinner.current_frame + 1
            }),
            !moved ==> final(self).spinner == old(self).spinner,
    {
        if self.spinner_active && elapsed_ms >= 100 {
            self.spinner.next_frame();
            true
        } else {
            false
        }
    }
}

/// What a key asks of the application while no action is being typed.
pub open spec fn normal_command(key: GameKey, ctrl: bool, detail_shown: bool, typed: bool) -> GameCommand {
    match key {
        GameKey::Char('e') => GameCommand::StartEditing,
        GameKey::Char('v') => if ctrl {
            GameCommand::Paste
        } else {
            GameCommand::Nothing
        },
        GameKey::Esc => if detail_shown {
            GameCommand::Nothing
        } else {
            GameCommand::SaveAndLeave
        },
        GameKey::Enter => if typed {
            GameCommand::Submit
        } else {
            GameCommand::Nothing
        },
        _ => GameCommand::Nothing,
    }
}

fn normal_command_of(key: GameKey, ctrl: bool, detail_shown: bool, typed: bool) -> (c: GameCommand)
    ensures
        c == normal_command(key, ctrl, detail_shown, typed),
{
    match key {
        GameKey::Char('e') => GameCommand::StartEditing,
        GameKey::Char('v') => if ctrl {
            GameCommand::Paste
        } else {
            GameCommand::Nothing
        },
        GameKey::Esc => if detail_shown {
            GameCommand::Nothing
        } else {
            GameCommand::SaveAndLeave
        },
        GameKey::Enter => if typed {
            GameCommand::Submit
        } else {
            GameCommand::Nothing
        },
        _ => GameCommand::Nothing,
    }
}

/// Scrolling down a line and back up returns to the same place, when there was a
/// line below.
pub proof fn law_scroll_down_then_up(scroll: usize, total_lines: usize, max_height: usize)
    requires
        scroll < max_scroll(total_lines, max_height),
    ensures
        ({
            let down = scroll + 1;
            let up = if down > 0 { down - 1 } else { 0 };
            up == scroll
        }),
{
}

/// Tab visits the sections in order and comes back to none after the last.
pub proof fn law_cycle_visits_sections(sheet: CharacterSheet, k: int)
    requires
        0 <= k < available_sections(sheet).len(),
    ensures
        next_section(available_sections(sheet), HighlightedSection::Hidden) == available_sections(
            sheet,
        )[0],
        next_section(available_sections(sheet), available_sections(sheet)[k]) == (if k + 1
            < available_sections(sheet).len() {
            available_sections(sheet)[k + 1]
        } else {
            HighlightedSection::Hidden
        }),
{
    let avail = available_sections(sheet);
    lemma_sections_distinct(sheet);
    assert(!avail.contains(HighlightedSection::Hidden));
    let c = choose|m: int| 0 <= m < avail.len() && avail[m] == avail[k];
    assert(0 <= c < avail.len() && avail[c] == avail[k]);
    if c != k {
        if c < k {
            assert(avail[c] != avail[k]);
        } else {
            assert(avail[k] != avail[c]);
        }
    }
}

} // verus!
