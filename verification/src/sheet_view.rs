//! The panels of the character sheet as shown beside the game: their texts, and
//! which panel's border is lit by the section the player highlighted.
use vstd::prelude::*;

use crate::character::{race_name, CharacterSheet, Skill};
use crate::details::{attribute_list, essence_string, essence_text, get_attributes};
use crate::game_view::HighlightedSection;
use crate::strmap::StrMap;
use crate::text::{concat, concat3, decimal, decimal_string, owned, push_char};

verus! {

broadcast use vstd::string::group_string_axioms;

/// The panels of the sheet.
#[derive(Debug, Clone, Copy, PartialEq, Eq, Structural)]
pub enum Panel {
    BasicInfo,
    Attributes,
    Derived,
    Skills,
    Qualities,
    Resources,
    Inventory,
    Cyberware,
    Bioware,
    Contacts,
}

/// The colour of a panel's border.
#[derive(Debug, Clone, Copy, PartialEq, Eq, Structural)]
pub enum BorderColor {
    /// The highlighted panel.
    Yellow,
    White,
    /// An empty list.
    DarkGray,
}

/// Whether the highlighted section lights `panel`; the backstory lights the basic
/// information.
pub open spec fn lights(panel: Panel, h: HighlightedSection) -> bool {
    match panel {
        Panel::BasicInfo => h is Backstory,
        Panel::Attributes => h is Attributes,
        Panel::Derived => h is Derived,
        Panel::Skills => h is Skills,
        Panel::Qualities => h is Qualities,
        Panel::Resources => h is Resources,
        Panel::Inventory => h is Inventory,
        Panel::Cyberware => h is Cyberware,
        Panel::Bioware => h is Bioware,
        Panel::Contacts => h is Contact,
    }
}

/// The border of a panel: dark when its list is empty (inventory, cyberware and
/// bioware), yellow when highlighted, else white.
pub fn panel_border(panel: Panel, highlighted: HighlightedSection, empty: bool) -> (c: BorderColor)
    ensures
        c == (if empty && (panel is Inventory || panel is Cyberware || panel is Bioware) {
            BorderColor::DarkGray
        } else if lights(panel, highlighted) {
            BorderColor::Yellow
        } else {
            BorderColor::White
        }),
{
    let dims = match panel {
        Panel::Inventory | Panel::Cyberware | Panel::Bioware => empty,
        _ => false,
    };
    if dims {
        return BorderColor::DarkGray;
    }
    let lit = match panel {
        Panel::BasicInfo => matches!(highlighted, HighlightedSection::Backstory),
        Panel::Attributes => matches!(highlighted, HighlightedSection::Attributes(_)),
        Panel::Derived => matches!(highlighted, HighlightedSection::Derived(_)),
        Panel::Skills => matches!(highlighted, HighlightedSection::Skills),
        Panel::Qualities => matches!(highlighted, HighlightedSection::Qualities),
        Panel::Resources => matches!(highlighted, HighlightedSection::Resources),
        Panel::Inventory => matches!(highlighted, HighlightedSection::Inventory),
        Panel::Cyberware => matches!(highlighted, HighlightedSection::Cyberware),
        Panel::Bioware => matches!(highlighted, HighlightedSection::Bioware),
        Panel::Contacts => matches!(highlighted, HighlightedSection::Contact),
    };
    if lit {
        BorderColor::Yellow
    } else {
        BorderColor::White
    }
}

/// The basic information: name, race and gender, each after its label (the
/// `bool` marks a label).
pub open spec fn basic_info_view(sheet: CharacterSheet) -> Seq<(Seq<char>, bool)> {
    seq![
        ("Name: "@, true),
        (sheet.name@, false),
        (" | "@, false),
        ("Race: "@, true),
        (race_name(sheet.race), false),
        (" | "@, false),
        ("Gender: "@, true),
        (sheet.gender@, false),
    ]
}

/// The pieces of the basic information; the `bool` marks a label.
pub fn basic_info(sheet: &CharacterSheet) -> (v: Vec<(String, bool)>)
    ensures
        v@.map_values(|p: (String, bool)| (p.0@, p.1)) == basic_info_view(*sheet),
{
    let mut v: Vec<(String, bool)> = Vec::new();
    v.push((owned("Name: "), true));
    v.push((owned(sheet.name.as_str()), false));
    v.push((owned(" | "), false));
    v.push((owned("Race: "), true));
    v.push((sheet.race.name(), false));
    v.push((owned(" | "), false));
    v.push((owned("Gender: "), true));
    v.push((owned(sheet.gender.as_str()), false));
    assert(v@.map_values(|p: (String, bool)| (p.0@, p.1)) =~= basic_info_view(*sheet));
    v
}

/// The length of the longest name of a list of attributes.
pub open spec fn longest_name(attrs: Seq<(Seq<char>, u8)>) -> nat
    decreases attrs.len(),
{
    if attrs.len() == 0 {
        0
    } else {
        let rest = longest_name(attrs.drop_last());
        if attrs.last().0.len() > rest {
            attrs.last().0.len()
        } else {
            rest
        }
    }
}

/// The width of the names' column in a panel `width` columns wide: the longest name
/// and a space, or 3 when that is more than a sixth of the panel.
pub open spec fn name_column(attrs: Seq<(Seq<char>, u8)>, width: u16) -> nat {
    if longest_name(attrs) + 1 > width / 6 {
        3
    } else {
        longest_name(attrs) + 1
    }
}

/// `n` spaces.
pub open spec fn spaces(n: nat) -> Seq<char> {
    Seq::new(n, |k: int| ' ')
}

/// The cell of an attribute: its name cut to the column, the padding up to the
/// column (one space at least), and its value.
pub open spec fn attribute_cell(a: (Seq<char>, u8), column: nat) -> (Seq<char>, Seq<char>, Seq<char>) {
    let shown = if a.0.len() < column {
        a.0.len()
    } else {
        column
    };
    (a.0.subrange(0, shown as int), if a.0.len() < column {
        spaces((column - a.0.len()) as nat)
    } else {
        " "@
    }, decimal(a.1 as nat))
}

/// A cell of the attributes' table.
#[derive(Debug, Clone)]
pub struct AttributeCell {
    pub name: String,
    pub padding: String,
    pub value: String,
}

/// The text of a cell.
pub open spec fn cell_view(c: AttributeCell) -> (Seq<char>, Seq<char>, Seq<char>) {
    (c.name@, c.padding@, c.value@)
}

fn longest_of(attrs: &Vec<(&'static str, u8)>) -> (n: usize)
    ensures
        n == longest_name(attrs@.map_values(|p: (&'static str, u8)| (p.0@, p.1))),
        n <= usize::MAX,
{
    let ghost all = attrs@.map_values(|p: (&'static str, u8)| (p.0@, p.1));
    let mut n: usize = 0;
    let mut i: usize = 0;
    while i < attrs.len()
        invariant
            i <= attrs@.len(),
            all == attrs@.map_values(|p: (&'static str, u8)| (p.0@, p.1)),
            n == longest_name(all.take(i as int)),
        decreases attrs.len() - i,
    {
        assert(all.take(i as int) =~= all.take((i + 1) as int).drop_last());
        let len = attrs[i].0.unicode_len();
        if len > n {
            n = len;
        }
        i = i + 1;
    }
    assert(all.take(i as int) =~= all);
    n
}

fn spaces_string(n: usize) -> (s: String)
    ensures
        s@ == spaces(n as nat),
{
    let mut s = String::new();
    let mut k: usize = 0;
    while k < n
        invariant
            k <= n,
            s@ == spaces(k as nat),
        decreases n - k,
    {
        push_char(&mut s, ' ');
        k = k + 1;
        assert(s@ =~= spaces(k as nat));
    }
    s
}

/// The cell of the attribute `a` in a column `column` characters wide.
fn attribute_cell_of(name: &str, value: u8, column: usize) -> (cell: AttributeCell)
    ensures
        cell_view(cell) == attribute_cell((name@, value), column as nat),
{
    let len = name.unicode_len();
    let shown = if len < column {
        len
    } else {
        column
    };
    let cut = owned(name.substring_char(0, shown));
    let padding = if len < column {
        spaces_string(column - len)
    } else {
        owned(" ")
    };
    AttributeCell { name: cut, padding, value: decimal_string(value as u64) }
}

/// The attributes' table in a panel `width` columns wide: four cells a row, the
/// last row holding the remaining three.
pub fn attribute_rows(sheet: &CharacterSheet, width: u16) -> (rows: Vec<Vec<AttributeCell>>)
    ensures
        rows@.len() == 3,
        forall|r: int| 0 <= r < 3 ==> (#[trigger] rows@[r]@.len()) == (if r < 2 {
            4int
        } else {
            3int
        }),
        forall|r: int, c: int|
            0 <= r < 3 && 0 <= c < rows@[r]@.len() ==> cell_view(#[trigger] rows@[r]@[c])
                == attribute_cell(
                attribute_list(*sheet)[4 * r + c],
                name_column(attribute_list(*sheet), width),
            ),
{
    let attrs = get_attributes(sheet);
    let ghost all = attrs@.map_values(|p: (&'static str, u8)| (p.0@, p.1));
    let longest = longest_of(&attrs);
    let column: usize = if longest >= usize::MAX || longest + 1 > (width / 6) as usize {
        3
    } else {
        longest + 1
    };
    assert(column == name_column(all, width));
    let mut rows: Vec<Vec<AttributeCell>> = Vec::new();
    let mut r: usize = 0;
    while r < 3
        invariant
            attrs@.len() == 11,
            all == attrs@.map_values(|p: (&'static str, u8)| (p.0@, p.1)),
            all == attribute_list(*sheet),
            column == name_column(all, width),
            r <= 3,
            rows@.len() == r,
            forall|q: int| 0 <= q < r ==> (#[trigger] rows@[q]@.len()) == (if q < 2 {
                4int
            } else {
                3int
            }),
            forall|q: int, c: int|
                0 <= q < r && 0 <= c < rows@[q]@.len() ==> cell_view(#[trigger] rows@[q]@[c])
                    == attribute_cell(all[4 * q + c], column as nat),
        decreases 3 - r,
    {
        let count: usize = if r < 2 {
            4
        } else {
            3
        };
        let mut row: Vec<AttributeCell> = Vec::new();
        let mut c: usize = 0;
        while c < count
            invariant
                attrs@.len() == 11,
                all == attrs@.map_values(|p: (&'static str, u8)| (p.0@, p.1)),
                r < 3,
                count == (if r < 2 {
                    4usize
                } else {
                    3usize
                }),
                c <= count,
                row@.len() == c,
                forall|k: int|
                    0 <= k < c ==> cell_view(#[trigger] row@[k]) == attribute_cell(
                        all[4 * r + k],
                        column as nat,
                    ),
            decreases count - c,
        {
            let (name, value) = attrs[4 * r + c];
            assert(all[4 * r + c] == (name@, value));
            row.push(attribute_cell_of(name, value, column));
            c = c + 1;
        }
        rows.push(row);
        r = r + 1;
    }
    rows
}

/// The six derived values of the table beside the attributes.
pub open spec fn derived_texts(sheet: CharacterSheet) -> Seq<Seq<char>> {
    let d = sheet.derived_attributes;
    seq![
        "Initiative:  "@ + decimal(d.initiative.0 as nat) + "+"@ + decimal(d.initiative.1 as nat)
            + "d6"@,
        "Armor:  "@ + decimal(d.armor as nat),
        "Essence:  "@ + essence_text(d.essence.current),
        "Edge Points:  "@ + decimal(sheet.attributes.edge as nat),
        "Monitors:  PHY:"@ + decimal(d.monitors.physical as nat) + " STU:"@ + decimal(
            d.monitors.stun as nat,
        ),
        "Limits:  PHY:"@ + decimal(d.limits.physical as nat) + " MEN:"@ + decimal(
            d.limits.mental as nat,
        ) + " SOC:"@ + decimal(d.limits.social as nat),
    ]
}

fn append_number(s: &mut String, n: u64)
    ensures
        final(s)@ == old(s)@ + decimal(n as nat),
{
    let digits = decimal_string(n);
    s.append(digits.as_str());
}

/// The texts of the derived values, in the order of `derived_texts`.
pub fn derived_rows(sheet: &CharacterSheet) -> (v: Vec<String>)
    ensures
        v@.map_values(|t: String| t@) == derived_texts(*sheet),
{
    let d = &sheet.derived_attributes;
    let mut initiative = owned("Initiative:  ");
    append_number(&mut initiative, d.initiative.0 as u64);
    initiative.append("+");
    append_number(&mut initiative, d.initiative.1 as u64);
    initiative.append("d6");
    let mut armor = owned("Armor:  ");
    append_number(&mut armor, d.armor as u64);
    let essence = concat("Essence:  ", essence_string(d.essence.current).as_str());
    let mut edge = owned("Edge Points:  ");
    append_number(&mut edge, sheet.attributes.edge as u64);
    let mut monitors = owned("Monitors:  PHY:");
    append_number(&mut monitors, d.monitors.physical as u64);
    monitors.append(" STU:");
    append_number(&mut monitors, d.monitors.stun as u64);
    let mut limits = owned("Limits:  PHY:");
    append_number(&mut limits, d.limits.physical as u64);
    limits.append(" MEN:");
    append_number(&mut limits, d.limits.mental as u64);
    limits.append(" SOC:");
    append_number(&mut limits, d.limits.social as u64);
    let v = vec![initiative, armor, essence, edge, monitors, limits];
    assert(v@.map_values(|t: String| t@) =~= derived_texts(*sheet));
    v
}

/// The skills' columns: combat, physical, social, technical, then knowledge.
pub open spec fn skill_columns(sheet: CharacterSheet) -> Seq<Seq<(String, u8)>> {
    seq![
        sheet.skills.combat.pairs(),
        sheet.skills.physical.pairs(),
        sheet.skills.social.pairs(),
        sheet.skills.technical.pairs(),
        sheet.knowledge_skills.pairs(),
    ]
}

/// The cell of row `i` of a column: `skill:rating`, or empty below its last skill.
pub open spec fn skill_cell(col: Seq<(String, u8)>, i: int) -> Seq<char> {
    if i < col.len() {
        col[i].0@ + ":"@ + decimal(col[i].1 as nat)
    } else {
        Seq::empty()
    }
}

/// The number of rows of the skills' table: the longest column.
pub open spec fn skill_row_count(cols: Seq<Seq<(String, u8)>>) -> nat
    decreases cols.len(),
{
    if cols.len() == 0 {
        0
    } else {
        let rest = skill_row_count(cols.drop_last());
        if cols.last().len() > rest {
            cols.last().len()
        } else {
            rest
        }
    }
}

fn column_of(sheet: &CharacterSheet, k: usize) -> (m: &Skill)
    requires
        k < 5,
    ensures
        m.pairs() == skill_columns(*sheet)[k as int],
{
    if k == 0 {
        &sheet.skills.combat
    } else if k == 1 {
        &sheet.skills.physical
    } else if k == 2 {
        &sheet.skills.social
    } else if k == 3 {
        &sheet.skills.technical
    } else {
        &sheet.knowledge_skills
    }
}

fn skill_cell_of(col: &Skill, i: usize) -> (t: String)
    ensures
        t@ == skill_cell(col.pairs(), i as int),
{
    if i < col.len() {
        let mut t = owned(col.key_at(i).as_str());
        t.append(":");
        append_number(&mut t, *col.value_at(i) as u64);
        t
    } else {
        String::new()
    }
}

/// The skills' table, row by row, five cells a row.
pub fn skill_rows(sheet: &CharacterSheet) -> (rows: Vec<Vec<String>>)
    ensures
        rows@.len() == skill_row_count(skill_columns(*sheet)),
        forall|i: int|
            0 <= i < rows@.len() ==> (#[trigger] rows@[i])@.map_values(|t: String| t@) == Seq::new(
                5,
                |k: int| skill_cell(skill_columns(*sheet)[k], i),
            ),
{
    let ghost cols = skill_columns(*sheet);
    let mut count: usize = 0;
    let mut k: usize = 0;
    while k < 5
        invariant
            k <= 5,
            cols == skill_columns(*sheet),
            count == skill_row_count(cols.take(k as int)),
        decreases 5 - k,
    {
        assert(cols.take(k as int) =~= cols.take((k + 1) as int).drop_last());
        let n = column_of(sheet, k).len();
        if n > count {
            count = n;
        }
        k = k + 1;
    }
    assert(cols.take(5) =~= cols);
    let mut rows: Vec<Vec<String>> = Vec::new();
    let mut i: usize = 0;
    while i < count
        invariant
            i <= count,
            cols == skill_columns(*sheet),
            count == skill_row_count(cols),
            rows@.len() == i,
            forall|j: int|
                0 <= j < i ==> (#[trigger] rows@[j])@.map_values(|t: String| t@) == Seq::new(
                    5,
                    |k: int| skill_cell(cols[k], j),
                ),
        decreases count - i,
    {
        let mut row: Vec<String> = Vec::new();
        let mut k: usize = 0;
        while k < 5
            invariant
                k <= 5,
                cols == skill_columns(*sheet),
                row@.len() == k,
                forall|m: int| 0 <= m < k ==> (#[trigger] row@[m])@ == skill_cell(cols[m], i as int),
            decreases 5 - k,
        {
            row.push(skill_cell_of(column_of(sheet, k), i));
            k = k + 1;
        }
        assert(row@.map_values(|t: String| t@) =~= Seq::new(5, |k: int| skill_cell(cols[k], i as int)));
        rows.push(row);
        i = i + 1;
    }
    rows
}

/// The contacts' table: each contact's name, loyalty and connection, in order.
pub open spec fn contact_row(c: (String, crate::character::Contact)) -> Seq<Seq<char>> {
    seq![c.0@, decimal(c.1.loyalty as nat), decimal(c.1.connection as nat)]
}

/// The rows of the contacts' table.
pub fn contact_rows(sheet: &CharacterSheet) -> (rows: Vec<Vec<String>>)
    ensures
        rows@.len() == sheet.contacts.pairs().len(),
        forall|i: int|
            0 <= i < rows@.len() ==> (#[trigger] rows@[i])@.map_values(|t: String| t@)
                == contact_row(sheet.contacts.pairs()[i]),
{
    let mut rows: Vec<Vec<String>> = Vec::new();
    let mut i: usize = 0;
    while i < sheet.contacts.len()
        invariant
            i <= sheet.contacts.pairs().len(),
            rows@.len() == i,
            forall|j: int|
                0 <= j < i ==> (#[trigger] rows@[j])@.map_values(|t: String| t@) == contact_row(
                    sheet.contacts.pairs()[j],
                ),
        decreases sheet.contacts.pairs().len() - i,
    {
        let name = owned(sheet.contacts.key_at(i).as_str());
        let c = sheet.contacts.value_at(i);
        let row = vec![name, decimal_string(c.loyalty as u64), decimal_string(c.connection as u64)];
        assert(row@.map_values(|t: String| t@) =~= contact_row(sheet.contacts.pairs()[i as int]));
        rows.push(row);
        i = i + 1;
    }
    rows
}

/// An item of the inventory as listed: its name and quantity.
pub open spec fn item_text(item: crate::character::Item) -> Seq<char> {
    item.name@ + " (x"@ + decimal(item.quantity as nat) + ")"@
}

/// The rows of the inventory, in order.
pub fn inventory_rows(sheet: &CharacterSheet) -> (rows: Vec<String>)
    ensures
        rows@.len() == sheet.inventory.pairs().len(),
        forall|i: int|
            0 <= i < rows@.len() ==> (#[trigger] rows@[i])@ == item_text(
                sheet.inventory.pairs()[i].1,
            ),
{
    let mut rows: Vec<String> = Vec::new();
    let mut i: usize = 0;
    while i < sheet.inventory.len()
        invariant
            i <= sheet.inventory.pairs().len(),
            rows@.len() == i,
            forall|j: int|
                0 <= j < i ==> (#[trigger] rows@[j])@ == item_text(sheet.inventory.pairs()[j].1),
        decreases sheet.inventory.pairs().len() - i,
    {
        let item = sheet.inventory.value_at(i);
        let mut t = concat(item.name.as_str(), " (x");
        append_number(&mut t, item.quantity as u64);
        t.append(")");
        rows.push(t);
        i = i + 1;
    }
    rows
}

/// The resources: the nuyen after the yen sign, and the lifestyle.
pub fn resources_row(sheet: &CharacterSheet) -> (r: (String, String))
    ensures
        r.0@ == "¥"@ + decimal(sheet.nuyen as nat),
        r.1@ == sheet.lifestyle@,
{
    let mut nuyen = owned("¥");
    append_number(&mut nuyen, sheet.nuyen as u64);
    (nuyen, owned(sheet.lifestyle.as_str()))
}

} // verus!
