//! The rows of the settings menu as shown: each setting's number and name, then
//! its options with the chosen one marked, or the state of the API key.
use vstd::prelude::*;

use crate::settings_state::SettingsState;
use crate::text::{concat, concat3, decimal, decimal_string, owned, push_char};

verus! {

broadcast use vstd::string::group_string_axioms;

/// How a piece of a row is coloured.
#[derive(Debug, Clone, Copy, PartialEq, Eq, Structural)]
pub enum RowColor {
    /// The number of a row.
    Gray,
    /// The name of the selected setting, in bold yellow.
    Highlight,
    /// An unselected name or option.
    White,
    /// The chosen option, or a valid key.
    Green,
    /// A missing key.
    Red,
}

/// A piece of a row.
#[derive(Debug, Clone)]
pub struct RowSpan {
    pub text: String,
    pub color: RowColor,
}

/// The number of settings.
pub const SETTINGS_COUNT: usize = 6;

/// The width the names of the settings are padded to.
pub const NAME_WIDTH: usize = 20;

/// The name of a setting.
pub open spec fn setting_name(i: int) -> Seq<char> {
    if i == 0 {
        "Language"@
    } else if i == 1 {
        "AI API Key"@
    } else if i == 2 {
        "OpenAI Model"@
    } else if i == 3 {
        "Voice Output"@
    } else if i == 4 {
        "Voice Input"@
    } else {
        "Debug Mode"@
    }
}

/// The options of a setting, in order; the API key has none.
pub open spec fn option_names(i: int) -> Seq<Seq<char>> {
    if i == 0 {
        seq!["English"@, "Français"@, "日本語"@, "Türkçe"@]
    } else if i == 1 {
        Seq::empty()
    } else if i == 2 {
        seq!["gpt-4o-mini"@, "gpt-4o"@, "o1-mini"@]
    } else if i == 5 {
        seq!["Off"@, "On"@]
    } else {
        seq!["On"@, "Off"@]
    }
}

/// `s` followed by spaces up to `width` characters.
pub open spec fn padded(s: Seq<char>, width: nat) -> Seq<char> {
    if s.len() < width {
        s + Seq::new((width - s.len()) as nat, |k: int| ' ')
    } else {
        s
    }
}

/// The pieces of row `i`: its number, its name padded and highlighted when
/// selected, then the options with the chosen one in green, or for the API key
/// whether one is held.
pub open spec fn setting_row(
    options: Seq<usize>,
    selected: usize,
    i: int,
    key_valid: bool,
) -> Seq<(Seq<char>, RowColor)> {
    seq![
        (decimal((i + 1) as nat) + ". "@, RowColor::Gray),
        (padded(setting_name(i), NAME_WIDTH as nat), if i == selected {
            RowColor::Highlight
        } else {
            RowColor::White
        }),
    ] + if i == 1 {
        seq![
            if key_valid {
                ("[Valid]"@, RowColor::Green)
            } else {
                ("[Not Valid]"@, RowColor::Red)
            },
        ]
    } else {
        Seq::new(
            option_names(i).len(),
            |k: int|
                ("["@ + option_names(i)[k] + "] "@, if k == options[i] {
                    RowColor::Green
                } else {
                    RowColor::White
                }),
        )
    }
}

/// The pieces of a row as text and colour.
pub open spec fn row_view(r: Vec<RowSpan>) -> Seq<(Seq<char>, RowColor)> {
    r@.map_values(|s: RowSpan| (s.text@, s.color))
}

fn setting_name_of(i: usize) -> (s: String)
    ensures
        s@ == setting_name(i as int),
{
    if i == 0 {
        owned("Language")
    } else if i == 1 {
        owned("AI API Key")
    } else if i == 2 {
        owned("OpenAI Model")
    } else if i == 3 {
        owned("Voice Output")
    } else if i == 4 {
        owned("Voice Input")
    } else {
        owned("Debug Mode")
    }
}

fn option_names_of(i: usize) -> (v: Vec<&'static str>)
    ensures
        v@.map_values(|s: &'static str| s@) == option_names(i as int),
{
    let v: Vec<&'static str> = if i == 0 {
        vec!["English", "Français", "日本語", "Türkçe"]
    } else if i == 1 {
        Vec::new()
    } else if i == 2 {
        vec!["gpt-4o-mini", "gpt-4o", "o1-mini"]
    } else if i == 5 {
        vec!["Off", "On"]
    } else {
        vec!["On", "Off"]
    };
    assert(v@.map_values(|s: &'static str| s@) =~= option_names(i as int));
    v
}

/// `s` padded with spaces to `width` characters.
fn pad_to(s: &str, width: usize) -> (r: String)
    ensures
        r@ == padded(s@, width as nat),
{
    let mut r = owned(s);
    let n = s.unicode_len();
    let mut k: usize = n;
    while k < width
        invariant
            n == s@.len(),
            n <= k <= width || (k == n && n >= width),
            r@ == s@ + Seq::new((k - n) as nat, |j: int| ' '),
        decreases width - k,
    {
        push_char(&mut r, ' ');
        k = k + 1;
        assert(r@ =~= s@ + Seq::new((k - n) as nat, |j: int| ' '));
    }
    if n >= width {
        assert(r@ =~= s@);
    }
    r
}

/// The rows of the settings menu, given whether an API key is held.
pub fn setting_rows(state: &SettingsState, key_valid: bool) -> (rows: Vec<Vec<RowSpan>>)
    requires
        state.selected_options@.len() == SETTINGS_COUNT,
    ensures
        rows@.len() == SETTINGS_COUNT,
        forall|i: int|
            0 <= i < SETTINGS_COUNT ==> row_view(#[trigger] rows@[i]) == setting_row(
                state.selected_options@,
                state.selected_setting,
                i,
                key_valid,
            ),
{
    let mut rows: Vec<Vec<RowSpan>> = Vec::new();
    let mut i: usize = 0;
    while i < SETTINGS_COUNT
        invariant
            i <= SETTINGS_COUNT,
            state.selected_options@.len() == SETTINGS_COUNT,
            rows@.len() == i,
            forall|j: int|
                0 <= j < i ==> row_view(#[trigger] rows@[j]) == setting_row(
                    state.selected_options@,
                    state.selected_setting,
                    j,
                    key_valid,
                ),
        decreases SETTINGS_COUNT - i,
    {
        let mut row: Vec<RowSpan> = Vec::new();
        let number = decimal_string((i + 1) as u64);
        row.push(RowSpan { text: concat(number.as_str(), ". "), color: RowColor::Gray });
        let name = setting_name_of(i);
        let color = if i == state.selected_setting {
            RowColor::Highlight
        } else {
            RowColor::White
        };
        row.push(RowSpan { text: pad_to(name.as_str(), NAME_WIDTH), color });
        let ghost expected = setting_row(
            state.selected_options@,
            state.selected_setting,
            i as int,
            key_valid,
        );
        assert(row_view(row) =~= expected.take(2));
        if i == 1 {
            if key_valid {
                row.push(RowSpan { text: owned("[Valid]"), color: RowColor::Green });
            } else {
                row.push(RowSpan { text: owned("[Not Valid]"), color: RowColor::Red });
            }
            assert(row_view(row) =~= expected);
        } else {
            let options = option_names_of(i);
            let chosen = state.selected_options[i];
            assert(options@.len() == option_names(i as int).len());
            let mut k: usize = 0;
            while k < options.len()
                invariant
                    i < SETTINGS_COUNT,
                    i != 1,
                    state.selected_options@.len() == SETTINGS_COUNT,
                    k <= options@.len(),
                    options@.len() == option_names(i as int).len(),
                    options@.map_values(|s: &'static str| s@) == option_names(i as int),
                    chosen == state.selected_options@[i as int],
                    expected == setting_row(
                        state.selected_options@,
                        state.selected_setting,
                        i as int,
                        key_valid,
                    ),
                    row@.len() == 2 + k,
                    row_view(row) == expected.take(2 + k),
                decreases options.len() - k,
            {
                let text = concat3("[", options[k], "] ");
                let c = if k == chosen {
                    RowColor::Green
                } else {
                    RowColor::White
                };
                let ghost before = row_view(row);
                row.push(RowSpan { text, color: c });
                assert(options@.map_values(|s: &'static str| s@)[k as int] == options@[k as int]@);
                assert(row_view(row) =~= before.push(("["@ + options@[k as int]@ + "] "@, c)));
                assert(row_view(row) =~= expected.take(2 + k + 1));
                k = k + 1;
            }
            assert(row_view(row) =~= expected);
        }
        rows.push(row);
        i = i + 1;
    }
    rows
}

} // verus!
