//! The text of the details panel of the game screen: for each section of the
//! character sheet, its title and its lines of styled text.
use vstd::prelude::*;

use crate::character::{CharacterSheet, Contact, DerivedAttributes, Item};
use crate::descriptions::{
    AGILITY, ARMOR, BODY, CHARISMA, EDGE, EDGE_POINTS, ESSENCE, INITIATIVE, INTUITION,
    LIFESTYLE, LIMIT_MENTAL, LIMIT_PHYSICAL, LIMIT_SOCIAL, LOGIC, MAGIC, MONITOR_PHYSICAL,
    MONITOR_STUN, NUYEN, REACTION, RESONANCE, STRENGTH, WILLPOWER,
};
use crate::game_view::HighlightedSection;
use crate::strmap::{str_eq, StrMap};
use crate::text::{concat, decimal, decimal_string, owned};

verus! {

broadcast use vstd::string::group_string_axioms;

/// How a piece of the details is shown.
#[derive(Debug, Clone, Copy, PartialEq, Eq, Structural)]
pub enum DetailStyle {
    /// Unstyled text.
    Plain,
    /// A name, in yellow.
    Name,
    /// A label, in bold yellow.
    Label,
    /// A value, in bold white.
    Value,
    /// Text in white.
    White,
}

/// A piece of a line of the details.
#[derive(Debug, Clone)]
pub struct DetailSpan {
    pub text: String,
    pub style: DetailStyle,
}

/// The text and style of a piece.
pub open spec fn span_of(s: DetailSpan) -> (Seq<char>, DetailStyle) {
    (s.text@, s.style)
}

/// The pieces of a line.
pub open spec fn line_view(l: Vec<DetailSpan>) -> Seq<(Seq<char>, DetailStyle)> {
    l@.map_values(|s: DetailSpan| span_of(s))
}

/// The lines of the details.
pub open spec fn lines_view(ls: Seq<Vec<DetailSpan>>) -> Seq<Seq<(Seq<char>, DetailStyle)>> {
    ls.map_values(|l: Vec<DetailSpan>| line_view(l))
}

fn line1(a: String, sa: DetailStyle) -> (l: Vec<DetailSpan>)
    ensures
        line_view(l) == seq![(a@, sa)],
{
    let mut l: Vec<DetailSpan> = Vec::new();
    l.push(DetailSpan { text: a, style: sa });
    assert(line_view(l) =~= seq![(a@, sa)]);
    l
}

fn line2(a: String, sa: DetailStyle, b: String, sb: DetailStyle) -> (l: Vec<DetailSpan>)
    ensures
        line_view(l) == seq![(a@, sa), (b@, sb)],
{
    let mut l: Vec<DetailSpan> = Vec::new();
    l.push(DetailSpan { text: a, style: sa });
    l.push(DetailSpan { text: b, style: sb });
    assert(line_view(l) =~= seq![(a@, sa), (b@, sb)]);
    l
}

fn push_line(lines: &mut Vec<Vec<DetailSpan>>, l: Vec<DetailSpan>)
    ensures
        lines_view(final(lines)@) == lines_view(old(lines)@).push(line_view(l)),
{
    let ghost before = lines@;
    lines.push(l);
    assert(lines_view(lines@) =~= lines_view(before).push(line_view(l)));
}

/// The attributes shown in the details, by name: the nine attributes, then Magic
/// and Resonance (0 when absent).
pub open spec fn attribute_list(sheet: CharacterSheet) -> Seq<(Seq<char>, u8)> {
    seq![
        ("BODY"@, sheet.attributes.body),
        ("AGILITY"@, sheet.attributes.agility),
        ("REACTION"@, sheet.attributes.reaction),
        ("STRENGTH"@, sheet.attributes.strength),
        ("WILLPOWER"@, sheet.attributes.willpower),
        ("LOGIC"@, sheet.attributes.logic),
        ("INTUITION"@, sheet.attributes.intuition),
        ("CHARISMA"@, sheet.attributes.charisma),
        ("EDGE"@, sheet.attributes.edge),
        ("MAGIC"@, match sheet.magic.magic {
            Some(m) => m,
            None => 0,
        }),
        ("RESONANCE"@, match sheet.resonance.resonance {
            Some(r) => r,
            None => 0,
        }),
    ]
}

/// The attributes of a sheet with their names.
pub fn get_attributes(sheet: &CharacterSheet) -> (v: Vec<(&'static str, u8)>)
    ensures
        v@.map_values(|p: (&'static str, u8)| (p.0@, p.1)) == attribute_list(*sheet),
{
    let mut v: Vec<(&'static str, u8)> = Vec::new();
    v.push(("BODY", sheet.attributes.body));
    v.push(("AGILITY", sheet.attributes.agility));
    v.push(("REACTION", sheet.attributes.reaction));
    v.push(("STRENGTH", sheet.attributes.strength));
    v.push(("WILLPOWER", sheet.attributes.willpower));
    v.push(("LOGIC", sheet.attributes.logic));
    v.push(("INTUITION", sheet.attributes.intuition));
    v.push(("CHARISMA", sheet.attributes.charisma));
    v.push(("EDGE", sheet.attributes.edge));
    v.push((
        "MAGIC",
        match sheet.magic.magic {
            Some(m) => m,
            None => 0,
        },
    ));
    v.push((
        "RESONANCE",
        match sheet.resonance.resonance {
            Some(r) => r,
            None => 0,
        },
    ));
    assert(v@.map_values(|p: (&'static str, u8)| (p.0@, p.1)) =~= attribute_list(*sheet));
    v
}

/// The description of an attribute by its name.
pub open spec fn attribute_description(name: Seq<char>) -> Seq<char> {
    if name == "STRENGTH"@ {
        STRENGTH@
    } else if name == "AGILITY"@ {
        AGILITY@
    } else if name == "BODY"@ {
        BODY@
    } else if name == "LOGIC"@ {
        LOGIC@
    } else if name == "INTUITION"@ {
        INTUITION@
    } else if name == "CHARISMA"@ {
        CHARISMA@
    } else if name == "WILLPOWER"@ {
        WILLPOWER@
    } else if name == "REACTION"@ {
        REACTION@
    } else if name == "EDGE"@ {
        EDGE@
    } else if name == "MAGIC"@ {
        MAGIC@
    } else if name == "RESONANCE"@ {
        RESONANCE@
    } else {
        "This should not appear\u{2026}"@
    }
}

fn describe_attribute(name: &str) -> (d: &'static str)
    ensures
        d@ == attribute_description(name@),
{
    if str_eq(name, "STRENGTH") {
        STRENGTH
    } else if str_eq(name, "AGILITY") {
        AGILITY
    } else if str_eq(name, "BODY") {
        BODY
    } else if str_eq(name, "LOGIC") {
        LOGIC
    } else if str_eq(name, "INTUITION") {
        INTUITION
    } else if str_eq(name, "CHARISMA") {
        CHARISMA
    } else if str_eq(name, "WILLPOWER") {
        WILLPOWER
    } else if str_eq(name, "REACTION") {
        REACTION
    } else if str_eq(name, "EDGE") {
        EDGE
    } else if str_eq(name, "MAGIC") {
        MAGIC
    } else if str_eq(name, "RESONANCE") {
        RESONANCE
    } else {
        "This should not appear\u{2026}"
    }
}

/// The three lines of an attribute: a blank line, its name and value, its
/// description.
pub open spec fn attribute_lines(a: (Seq<char>, u8)) -> Seq<Seq<(Seq<char>, DetailStyle)>> {
    seq![
        seq![(Seq::empty(), DetailStyle::Plain)],
        seq![(a.0 + ": "@, DetailStyle::Name), (decimal(a.1 as nat), DetailStyle::Value)],
        seq![(attribute_description(a.0), DetailStyle::Plain)],
    ]
}

/// The lines of the attributes `attrs`, in order.
pub open spec fn attributes_lines(attrs: Seq<(Seq<char>, u8)>) -> Seq<Seq<(Seq<char>, DetailStyle)>>
    decreases attrs.len(),
{
    if attrs.len() == 0 {
        Seq::empty()
    } else {
        attributes_lines(attrs.drop_last()) + attribute_lines(attrs.last())
    }
}

/// The lines of chunk `nb` of the attributes: four attributes a chunk.
pub open spec fn attribute_chunk(attrs: Seq<(Seq<char>, u8)>, nb: int) -> Seq<Seq<(Seq<char>, DetailStyle)>> {
    let end = if 4 * nb + 4 < attrs.len() {
        4 * nb + 4
    } else {
        attrs.len() as int
    };
    attributes_lines(attrs.subrange(4 * nb, end))
}

/// The lines of chunk `nb` (four attributes a chunk) of the attributes.
pub fn chunk_attributes(attributes: &Vec<(&'static str, u8)>, chunk_nb: u8) -> (lines: Vec<Vec<DetailSpan>>)
    requires
        4 * chunk_nb < attributes@.len(),
    ensures
        lines_view(lines@) == attribute_chunk(
            attributes@.map_values(|p: (&'static str, u8)| (p.0@, p.1)),
            chunk_nb as int,
        ),
{
    let ghost all = attributes@.map_values(|p: (&'static str, u8)| (p.0@, p.1));
    let start: usize = 4 * (chunk_nb as usize);
    let end: usize = if start + 4 < attributes.len() {
        start + 4
    } else {
        attributes.len()
    };
    let mut lines: Vec<Vec<DetailSpan>> = Vec::new();
    let mut k = start;
    assert(lines_view(lines@) =~= attributes_lines(all.subrange(start as int, start as int)));
    while k < end
        invariant
            all == attributes@.map_values(|p: (&'static str, u8)| (p.0@, p.1)),
            start <= k <= end <= attributes@.len(),
            lines_view(lines@) == attributes_lines(all.subrange(start as int, k as int)),
        decreases end - k,
    {
        let (name, value) = attributes[k];
        assert(all.subrange(start as int, k + 1).drop_last() =~= all.subrange(start as int, k as int));
        push_line(&mut lines, line1(String::new(), DetailStyle::Plain));
        push_line(
            &mut lines,
            line2(concat(name, ": "), DetailStyle::Name, decimal_string(value as u64), DetailStyle::Value),
        );
        push_line(&mut lines, line1(owned(describe_attribute(name)), DetailStyle::Plain));
        assert(lines_view(lines@) =~= attributes_lines(all.subrange(start as int, k + 1)));
        k = k + 1;
    }
    lines
}

/// The Essence in points with two decimals, from its hundredths.
pub open spec fn essence_text(hundredths: u32) -> Seq<char> {
    decimal((hundredths / 100) as nat) + "."@ + seq![
        crate::text::digit_char(((hundredths % 100) / 10) as nat),
        crate::text::digit_char((hundredths % 10) as nat),
    ]
}

/// The lines of part `nb` of the derived values: initiative, armor and monitors;
/// then limits, Essence and Edge points; each with its description.
pub open spec fn derived_lines(d: DerivedAttributes, nb: int) -> Seq<Seq<(Seq<char>, DetailStyle)>> {
    if nb == 0 {
        seq![
            seq![("Initiative: "@, DetailStyle::Label), (decimal(d.initiative.0 as nat) + "+"@ + decimal(d.initiative.1 as nat) + "d6"@, DetailStyle::Value)],
            seq![(INITIATIVE@, DetailStyle::Plain)],
            seq![("Armor: "@, DetailStyle::Label), (decimal(d.armor as nat), DetailStyle::Value)],
            seq![(ARMOR@, DetailStyle::Plain)],
            seq![("Monitors: "@, DetailStyle::Label), ("PHY:"@ + decimal(d.monitors.physical as nat) + " STU:"@ + decimal(d.monitors.stun as nat), DetailStyle::Value)],
            seq![("PHY: "@, DetailStyle::Name)],
            seq![(MONITOR_PHYSICAL@, DetailStyle::Plain)],
            seq![("STU: "@, DetailStyle::Name)],
            seq![(MONITOR_STUN@, DetailStyle::Plain)],
        ]
    } else {
        seq![
            seq![("Limits: "@, DetailStyle::Label), ("PHY:"@ + decimal(d.limits.physical as nat) + " MEN:"@ + decimal(d.limits.mental as nat) + " SOC:"@ + decimal(d.limits.social as nat), DetailStyle::Value)],
            seq![("PHY: "@, DetailStyle::Name)],
            seq![(LIMIT_PHYSICAL@, DetailStyle::Plain)],
            seq![("MEN: "@, DetailStyle::Name)],
            seq![(LIMIT_MENTAL@, DetailStyle::Plain)],
            seq![("SOC: "@, DetailStyle::Name)],
            seq![(LIMIT_SOCIAL@, DetailStyle::Plain)],
            seq![("Essence: "@, DetailStyle::Label), (essence_text(d.essence.current), DetailStyle::Value)],
            seq![(ESSENCE@, DetailStyle::Plain)],
            seq![("Edge Points: "@, DetailStyle::Label), (decimal(d.edge_points as nat), DetailStyle::Value)],
            seq![(EDGE_POINTS@, DetailStyle::Plain)],
        ]
    }
}

pub(crate) fn essence_string(hundredths: u32) -> (s: String)
    ensures
        s@ == essence_text(hundredths),
{
    let mut s = decimal_string((hundredths / 100) as u64);
    s.append(".");
    let tens = decimal_string(((hundredths % 100) / 10) as u64);
    let ones = decimal_string((hundredths % 10) as u64);
    s.append(tens.as_str());
    s.append(ones.as_str());
    proof {
        reveal_strlit(".");
    }
    assert(s@ =~= essence_text(hundredths));
    s
}

/// The lines of part `nb` (0 or 1) of the derived values.
pub fn get_derived(derived: &DerivedAttributes, nb: usize) -> (lines: Vec<Vec<DetailSpan>>)
    requires
        nb < 2,
    ensures
        lines_view(lines@) == derived_lines(*derived, nb as int),
{
    let d = derived;
    let mut lines: Vec<Vec<DetailSpan>> = Vec::new();
    if nb == 0 {
        let mut init = decimal_string(d.initiative.0 as u64);
        init.append("+");
        init.append(decimal_string(d.initiative.1 as u64).as_str());
        init.append("d6");
        push_line(&mut lines, line2(owned("Initiative: "), DetailStyle::Label, init, DetailStyle::Value));
        push_line(&mut lines, line1(owned(INITIATIVE), DetailStyle::Plain));
        push_line(&mut lines, line2(owned("Armor: "), DetailStyle::Label, decimal_string(d.armor as u64), DetailStyle::Value));
        push_line(&mut lines, line1(owned(ARMOR), DetailStyle::Plain));
        let mut mon = concat("PHY:", decimal_string(d.monitors.physical as u64).as_str());
        mon.append(" STU:");
        mon.append(decimal_string(d.monitors.stun as u64).as_str());
        push_line(&mut lines, line2(owned("Monitors: "), DetailStyle::Label, mon, DetailStyle::Value));
        push_line(&mut lines, line1(owned("PHY: "), DetailStyle::Name));
        push_line(&mut lines, line1(owned(MONITOR_PHYSICAL), DetailStyle::Plain));
        push_line(&mut lines, line1(owned("STU: "), DetailStyle::Name));
        push_line(&mut lines, line1(owned(MONITOR_STUN), DetailStyle::Plain));
        assert(lines_view(lines@) =~= derived_lines(*derived, 0));
    } else {
        let mut lim = concat("PHY:", decimal_string(d.limits.physical as u64).as_str());
        lim.append(" MEN:");
        lim.append(decimal_string(d.limits.mental as u64).as_str());
        lim.append(" SOC:");
        lim.append(decimal_string(d.limits.social as u64).as_str());
        push_line(&mut lines, line2(owned("Limits: "), DetailStyle::Label, lim, DetailStyle::Value));
        push_line(&mut lines, line1(owned("PHY: "), DetailStyle::Name));
        push_line(&mut lines, line1(owned(LIMIT_PHYSICAL), DetailStyle::Plain));
        push_line(&mut lines, line1(owned("MEN: "), DetailStyle::Name));
        push_line(&mut lines, line1(owned(LIMIT_MENTAL), DetailStyle::Plain));
        push_line(&mut lines, line1(owned("SOC: "), DetailStyle::Name));
        push_line(&mut lines, line1(owned(LIMIT_SOCIAL), DetailStyle::Plain));
        push_line(&mut lines, line2(owned("Essence: "), DetailStyle::Label, essence_string(d.essence.current), DetailStyle::Value));
        push_line(&mut lines, line1(owned(ESSENCE), DetailStyle::Plain));
        push_line(&mut lines, line2(owned("Edge Points: "), DetailStyle::Label, decimal_string(d.edge_points as u64), DetailStyle::Value));
        push_line(&mut lines, line1(owned(EDGE_POINTS), DetailStyle::Plain));
        assert(lines_view(lines@) =~= derived_lines(*derived, 1));
    }
    lines
}

/// The title of the details of a section; none when no section is shown.
pub open spec fn title_of(s: HighlightedSection) -> Option<Seq<char>> {
    match s {
        HighlightedSection::Hidden => None,
        HighlightedSection::Backstory => Some(" Backstory "@),
        HighlightedSection::Inventory => Some(" Inventory "@),
        HighlightedSection::Contact => Some(" Contact "@),
        HighlightedSection::Cyberware => Some(" Cyberware "@),
        HighlightedSection::Bioware => Some(" Bioware "@),
        HighlightedSection::Attributes(k) => Some(
            if k == 0 {
                " Attributes 1/3 "@
            } else if k == 1 {
                " Attributes 2/3 "@
            } else {
                " Attributes 3/3 "@
            },
        ),
        HighlightedSection::Derived(k) => Some(
            if k == 0 {
                " Derived Attributes 1/2"@
            } else {
                " Derived Attributes 2/2"@
            },
        ),
        HighlightedSection::Skills => Some(" Skills "@),
        HighlightedSection::Qualities => Some(" Qualities "@),
        HighlightedSection::Resources => Some(" Resources "@),
    }
}

/// The title of the details of a section.
pub fn section_title(section: HighlightedSection) -> (t: Option<&'static str>)
    ensures
        match t {
            Some(x) => title_of(section) == Some(x@),
            None => title_of(section) is None,
        },
{
    match section {
        HighlightedSection::Hidden => None,
        HighlightedSection::Backstory => Some(" Backstory "),
        HighlightedSection::Inventory => Some(" Inventory "),
        HighlightedSection::Contact => Some(" Contact "),
        HighlightedSection::Cyberware => Some(" Cyberware "),
        HighlightedSection::Bioware => Some(" Bioware "),
        HighlightedSection::Attributes(k) => Some(
            if k == 0 {
                " Attributes 1/3 "
            } else if k == 1 {
                " Attributes 2/3 "
            } else {
                " Attributes 3/3 "
            },
        ),
        HighlightedSection::Derived(k) => Some(
            if k == 0 {
                " Derived Attributes 1/2"
            } else {
                " Derived Attributes 2/2"
            },
        ),
        HighlightedSection::Skills => Some(" Skills "),
        HighlightedSection::Qualities => Some(" Qualities "),
        HighlightedSection::Resources => Some(" Resources "),
    }
}

/// The line of an item: its name, then its quantity and description.
pub open spec fn item_line(i: Item) -> Seq<(Seq<char>, DetailStyle)> {
    seq![
        (i.name@, DetailStyle::Name),
        ("(x"@ + decimal(i.quantity as nat) + "): "@ + i.description@ + " "@, DetailStyle::Plain),
    ]
}

/// The lines of the items, in the inventory's order.
pub open spec fn item_lines(items: Seq<(String, Item)>) -> Seq<Seq<(Seq<char>, DetailStyle)>>
    decreases items.len(),
{
    if items.len() == 0 {
        Seq::empty()
    } else {
        item_lines(items.drop_last()).push(item_line(items.last().1))
    }
}

/// The lines of a contact: its name; its loyalty and connection; its description.
pub open spec fn contact_lines_of(c: Contact) -> Seq<Seq<(Seq<char>, DetailStyle)>> {
    seq![
        seq![(c.name@, DetailStyle::Name)],
        seq![
            (" Loyalty: "@ + decimal(c.loyalty as nat) + " "@, DetailStyle::Value),
            ("Connection: "@ + decimal(c.connection as nat) + " "@, DetailStyle::Value),
        ],
        seq![(c.description@, DetailStyle::Plain)],
    ]
}

/// The lines of the contacts, in their order.
pub open spec fn contact_lines(contacts: Seq<(String, Contact)>) -> Seq<Seq<(Seq<char>, DetailStyle)>>
    decreases contacts.len(),
{
    if contacts.len() == 0 {
        Seq::empty()
    } else {
        contact_lines(contacts.drop_last()) + contact_lines_of(contacts.last().1)
    }
}

/// One line for each string.
pub open spec fn string_lines(s: Seq<String>) -> Seq<Seq<(Seq<char>, DetailStyle)>> {
    s.map_values(|x: String| seq![(x@, DetailStyle::Plain)])
}

/// The line of the initiative.
pub open spec fn initiative_line(d: DerivedAttributes) -> Seq<(Seq<char>, DetailStyle)> {
    seq![
        ("Initiative: "@, DetailStyle::Name),
        (decimal(d.initiative.0 as nat), DetailStyle::White),
        ("+"@, DetailStyle::White),
        (decimal(d.initiative.1 as nat), DetailStyle::White),
        ("D6"@, DetailStyle::White),
    ]
}

/// The lines of the details of a section: the backstory; the items; the contacts;
/// the augmentations; nuyen and lifestyle with their descriptions; a chunk of the
/// attributes; a part of the derived values; the initiative for skills and
/// qualities; nothing when no section is shown.
pub open spec fn section_lines_of(s: HighlightedSection, sheet: CharacterSheet) -> Seq<Seq<(Seq<char>, DetailStyle)>> {
    match s {
        HighlightedSection::Hidden => Seq::empty(),
        HighlightedSection::Backstory => seq![seq![(sheet.backstory@, DetailStyle::Plain)]],
        HighlightedSection::Inventory => item_lines(sheet.inventory.pairs()),
        HighlightedSection::Contact => contact_lines(sheet.contacts.pairs()),
        HighlightedSection::Cyberware => string_lines(sheet.cyberware@),
        HighlightedSection::Bioware => string_lines(sheet.bioware@),
        HighlightedSection::Resources => seq![
            seq![("Nuyen: "@, DetailStyle::Name), ("\u{a5}"@ + decimal(sheet.nuyen as nat), DetailStyle::Value)],
            seq![(NUYEN@, DetailStyle::Plain)],
            seq![("Lifestyle: "@, DetailStyle::Name), (sheet.lifestyle@, DetailStyle::Value)],
            seq![(LIFESTYLE@, DetailStyle::Plain)],
        ],
        HighlightedSection::Attributes(k) => attribute_chunk(
            attribute_list(sheet),
            if k <= 1 {
                k as int
            } else {
                2
            },
        ),
        HighlightedSection::Derived(k) => derived_lines(
            sheet.derived_attributes,
            if k == 0 {
                0
            } else {
                1
            },
        ),
        HighlightedSection::Skills => seq![initiative_line(sheet.derived_attributes)],
        HighlightedSection::Qualities => seq![initiative_line(sheet.derived_attributes)],
    }
}

fn items_text(items: &StrMap<Item>) -> (lines: Vec<Vec<DetailSpan>>)
    ensures
        lines_view(lines@) == item_lines(items.pairs()),
{
    let n = items.len();
    let mut lines: Vec<Vec<DetailSpan>> = Vec::new();
    let mut k: usize = 0;
    assert(lines_view(lines@) =~= item_lines(items.pairs().take(0)));
    while k < n
        invariant
            n == items.pairs().len(),
            k <= n,
            lines_view(lines@) == item_lines(items.pairs().take(k as int)),
        decreases n - k,
    {
        let item = items.value_at(k);
        assert(items.pairs().take(k + 1).drop_last() =~= items.pairs().take(k as int));
        let mut rest = concat("(x", decimal_string(item.quantity as u64).as_str());
        rest.append("): ");
        rest.append(item.description.as_str());
        rest.append(" ");
        push_line(&mut lines, line2(item.name.clone(), DetailStyle::Name, rest, DetailStyle::Plain));
        k = k + 1;
    }
    assert(items.pairs().take(n as int) =~= items.pairs());
    lines
}

fn contacts_text(contacts: &StrMap<Contact>) -> (lines: Vec<Vec<DetailSpan>>)
    ensures
        lines_view(lines@) == contact_lines(contacts.pairs()),
{
    let n = contacts.len();
    let mut lines: Vec<Vec<DetailSpan>> = Vec::new();
    let mut k: usize = 0;
    assert(lines_view(lines@) =~= contact_lines(contacts.pairs().take(0)));
    while k < n
        invariant
            n == contacts.pairs().len(),
            k <= n,
            lines_view(lines@) == contact_lines(contacts.pairs().take(k as int)),
        decreases n - k,
    {
        let c = contacts.value_at(k);
        assert(contacts.pairs().take(k + 1).drop_last() =~= contacts.pairs().take(k as int));
        let ghost before = lines_view(lines@);
        push_line(&mut lines, line1(c.name.clone(), DetailStyle::Name));
        let mut loyalty = concat(" Loyalty: ", decimal_string(c.loyalty as u64).as_str());
        loyalty.append(" ");
        let mut connection = concat("Connection: ", decimal_string(c.connection as u64).as_str());
        connection.append(" ");
        push_line(&mut lines, line2(loyalty, DetailStyle::Value, connection, DetailStyle::Value));
        push_line(&mut lines, line1(c.description.clone(), DetailStyle::Plain));
        assert(lines_view(lines@) =~= before + contact_lines_of(*c));
        k = k + 1;
    }
    assert(contacts.pairs().take(n as int) =~= contacts.pairs());
    lines
}

fn strings_text(s: &Vec<String>) -> (lines: Vec<Vec<DetailSpan>>)
    ensures
        lines_view(lines@) == string_lines(s@),
{
    let n = s.len();
    let mut lines: Vec<Vec<DetailSpan>> = Vec::new();
    let mut k: usize = 0;
    while k < n
        invariant
            n == s@.len(),
            k <= n,
            lines_view(lines@) == string_lines(s@.take(k as int)),
        decreases n - k,
    {
        push_line(&mut lines, line1(s[k].clone(), DetailStyle::Plain));
        assert(string_lines(s@.take(k + 1)) =~= string_lines(s@.take(k as int)).push(
            seq![(s@[k as int]@, DetailStyle::Plain)],
        ));
        k = k + 1;
    }
    assert(s@.take(n as int) =~= s@);
    lines
}

fn initiative_text(d: &DerivedAttributes) -> (l: Vec<DetailSpan>)
    ensures
        line_view(l) == initiative_line(*d),
{
    let mut l: Vec<DetailSpan> = Vec::new();
    l.push(DetailSpan { text: owned("Initiative: "), style: DetailStyle::Name });
    l.push(DetailSpan { text: decimal_string(d.initiative.0 as u64), style: DetailStyle::White });
    l.push(DetailSpan { text: owned("+"), style: DetailStyle::White });
    l.push(DetailSpan { text: decimal_string(d.initiative.1 as u64), style: DetailStyle::White });
    l.push(DetailSpan { text: owned("D6"), style: DetailStyle::White });
    assert(line_view(l) =~= initiative_line(*d));
    l
}

/// The lines of the details of a section of `sheet`.
pub fn section_lines(section: HighlightedSection, sheet: &CharacterSheet) -> (lines: Vec<Vec<DetailSpan>>)
    ensures
        lines_view(lines@) == section_lines_of(section, *sheet),
{
    match section {
        HighlightedSection::Hidden => {
            let lines: Vec<Vec<DetailSpan>> = Vec::new();
            assert(lines_view(lines@) =~= Seq::<Seq<(Seq<char>, DetailStyle)>>::empty());
            lines
        },
        HighlightedSection::Backstory => {
            let mut lines: Vec<Vec<DetailSpan>> = Vec::new();
            push_line(&mut lines, line1(sheet.backstory.clone(), DetailStyle::Plain));
            assert(lines_view(lines@) =~= seq![seq![(sheet.backstory@, DetailStyle::Plain)]]);
            lines
        },
        HighlightedSection::Inventory => items_text(&sheet.inventory),
        HighlightedSection::Contact => contacts_text(&sheet.contacts),
        HighlightedSection::Cyberware => strings_text(&sheet.cyberware),
        HighlightedSection::Bioware => strings_text(&sheet.bioware),
        HighlightedSection::Resources => {
            let mut lines: Vec<Vec<DetailSpan>> = Vec::new();
            push_line(
                &mut lines,
                line2(
                    owned("Nuyen: "),
                    DetailStyle::Name,
                    concat("\u{a5}", decimal_string(sheet.nuyen as u64).as_str()),
                    DetailStyle::Value,
                ),
            );
            push_line(&mut lines, line1(owned(NUYEN), DetailStyle::Plain));
            push_line(
                &mut lines,
                line2(owned("Lifestyle: "), DetailStyle::Name, sheet.lifestyle.clone(), DetailStyle::Value),
            );
            push_line(&mut lines, line1(owned(LIFESTYLE), DetailStyle::Plain));
            assert(lines_view(lines@) =~= section_lines_of(section, *sheet));
            lines
        },
        HighlightedSection::Attributes(k) => {
            let attrs = get_attributes(sheet);
            assert(attrs@.map_values(|p: (&'static str, u8)| (p.0@, p.1)).len() == 11);
            let nb: u8 = if k <= 1 {
                k as u8
            } else {
                2
            };
            chunk_attributes(&attrs, nb)
        },
        HighlightedSection::Derived(k) => get_derived(
            &sheet.derived_attributes,
            if k == 0 {
                0
            } else {
                1
            },
        ),
        HighlightedSection::Skills | HighlightedSection::Qualities => {
            let mut lines: Vec<Vec<DetailSpan>> = Vec::new();
            push_line(&mut lines, initiative_text(&sheet.derived_attributes));
            assert(lines_view(lines@) =~= seq![initiative_line(sheet.derived_attributes)]);
            lines
        },
    }
}

} // verus!
