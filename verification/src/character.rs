//! Character sheets: metatypes, attributes, the values derived from them, and the
//! updates the game master may apply.
use vstd::prelude::*;

use crate::descriptions::{DWARF_DESC, ELF_DESC, HUMAN_DESC, ORK_DESC, TROLL_DESC};
use crate::strmap::{str_eq, StrMap};
use crate::text::{owned, spec_to_lowercase, to_lowercase};

verus! {

broadcast use vstd::string::group_string_axioms;

/// The metatypes a character may belong to.
#[derive(Debug, Clone, Copy, PartialEq, Eq, Structural)]
pub enum Race {
    Human,
    Elf,
    Dwarf,
    Ork,
    Troll,
}

/// The name under which a metatype is written.
pub open spec fn race_name(r: Race) -> Seq<char> {
    match r {
        Race::Human => "Human"@,
        Race::Elf => "Elf"@,
        Race::Dwarf => "Dwarf"@,
        Race::Ork => "Ork"@,
        Race::Troll => "Troll"@,
    }
}

/// The metatype written `name`, if any.
pub open spec fn race_named(name: Seq<char>) -> Option<Race> {
    if name == "Human"@ {
        Some(Race::Human)
    } else if name == "Elf"@ {
        Some(Race::Elf)
    } else if name == "Dwarf"@ {
        Some(Race::Dwarf)
    } else if name == "Ork"@ {
        Some(Race::Ork)
    } else if name == "Troll"@ {
        Some(Race::Troll)
    } else {
        None
    }
}

impl Race {
    /// The text that presents the metatype to the player.
    pub fn description(&self) -> (d: &'static str)
        ensures
            d == (match *self {
                Race::Human => HUMAN_DESC,
                Race::Elf => ELF_DESC,
                Race::Dwarf => DWARF_DESC,
                Race::Ork => ORK_DESC,
                Race::Troll => TROLL_DESC,
            }),
    {
        match self {
            Race::Human => HUMAN_DESC,
            Race::Elf => ELF_DESC,
            Race::Dwarf => DWARF_DESC,
            Race::Ork => ORK_DESC,
            Race::Troll => TROLL_DESC,
        }
    }

    /// The metatype's name, as the sheet displays it.
    pub fn name(&self) -> (s: String)
        ensures
            s@ == race_name(*self),
    {
        match self {
            Race::Human => owned("Human"),
            Race::Elf => owned("Elf"),
            Race::Dwarf => owned("Dwarf"),
            Race::Ork => owned("Ork"),
            Race::Troll => owned("Troll"),
        }
    }

    /// Reads a metatype from its name; the names are case sensitive.
    pub fn from_name(name: &str) -> (r: Option<Race>)
        ensures
            r == race_named(name@),
    {
        if str_eq(name, "Human") {
            Some(Race::Human)
        } else if str_eq(name, "Elf") {
            Some(Race::Elf)
        } else if str_eq(name, "Dwarf") {
            Some(Race::Dwarf)
        } else if str_eq(name, "Ork") {
            Some(Race::Ork)
        } else if str_eq(name, "Troll") {
            Some(Race::Troll)
        } else {
            None
        }
    }
}

/// Magic rating; absent for mundane characters.
#[derive(Debug, Clone, Copy, PartialEq, Eq, Structural)]
pub struct Magic {
    pub magic: Option<u8>,
}

/// Resonance rating; absent for characters who are not technomancers.
#[derive(Debug, Clone, Copy, PartialEq, Eq, Structural)]
pub struct Resonance {
    pub resonance: Option<u8>,
}

/// The nine basic attributes.
#[derive(Debug, Clone, Copy, PartialEq, Eq, Structural)]
pub struct Attributes {
    pub body: u8,
    pub agility: u8,
    pub strength: u8,
    pub reaction: u8,
    pub willpower: u8,
    pub intuition: u8,
    pub charisma: u8,
    pub logic: u8,
    pub edge: u8,
}

/// Limits on the hits a test may keep.
#[derive(Debug, Clone, Copy, PartialEq, Eq, Structural)]
pub struct Limits {
    pub physical: u8,
    pub mental: u8,
    pub social: u8,
}

/// Condition monitors: boxes of damage before the character drops.
#[derive(Debug, Clone, Copy, PartialEq, Eq, Structural)]
pub struct Monitors {
    pub physical: u8,
    pub stun: u8,
}

/// Essence, counted in hundredths of a point (600 is an Essence of 6.00).
#[derive(Debug, Clone, Copy, PartialEq, Eq, Structural)]
pub struct Essence {
    pub current: u32,
    pub max: u32,
}

impl Essence {
    /// The whole points of the current Essence, saturating at 255.
    pub fn whole_points(&self) -> (p: u8)
        ensures
            p == essence_points(*self),
    {
        let whole = self.current / 100;
        if whole > 255 {
            255
        } else {
            whole as u8
        }
    }
}

/// The whole points of an Essence value, saturating at 255.
pub open spec fn essence_points(e: Essence) -> int {
    if e.current / 100 > 255 {
        255
    } else {
        (e.current / 100) as int
    }
}

/// Values computed from the attributes.
#[derive(Debug, Clone, Copy)]
pub struct DerivedAttributes {
    pub initiative: (u8, u8),
    pub limits: Limits,
    pub monitors: Monitors,
    pub essence: Essence,
    pub edge_points: u8,
    pub armor: u8,
}

/// An item that a character carries.
#[derive(Debug)]
pub struct Item {
    pub name: String,
    pub quantity: u32,
    pub description: String,
}

impl Clone for Item {
    fn clone(&self) -> (r: Self)
        ensures
            r == *self,
    {
        Item {
            name: self.name.clone(),
            quantity: self.quantity,
            description: self.description.clone(),
        }
    }
}

/// A relation of the character in the shadows.
#[derive(Debug)]
pub struct Contact {
    pub name: String,
    pub description: String,
    pub loyalty: u8,
    pub connection: u8,
}

impl Clone for Contact {
    fn clone(&self) -> (r: Self)
        ensures
            r == *self,
    {
        Contact {
            name: self.name.clone(),
            description: self.description.clone(),
            loyalty: self.loyalty,
            connection: self.connection,
        }
    }
}

/// A positive or negative trait of the character.
#[derive(Debug)]
pub struct Quality {
    pub name: String,
    pub positive: bool,
}

impl Clone for Quality {
    fn clone(&self) -> (r: Self)
        ensures
            r == *self,
    {
        Quality { name: self.name.clone(), positive: self.positive }
    }
}

/// Two qualities are the same when name and polarity agree.
pub open spec fn same_quality(a: Quality, b: Quality) -> bool {
    a.name@ == b.name@ && a.positive == b.positive
}

impl Quality {
    /// Compares name and polarity.
    pub fn same_as(&self, other: &Quality) -> (b: bool)
        ensures
            b == same_quality(*self, *other),
    {
        self.positive == other.positive && self.name == other.name
    }
}

/// Matrix attributes of a deck or living persona.
#[derive(Debug, Clone, Copy, PartialEq, Eq, Structural)]
pub struct MatrixAttributes {
    pub attack: u8,
    pub sleaze: u8,
    pub data_processing: u8,
    pub firewall: u8,
}

/// Ratings by skill name.
pub type Skill = StrMap<u8>;

/// Whether two maps hold the same entries in the same order.
pub open spec fn same_entries<V>(a: StrMap<V>, b: StrMap<V>) -> bool {
    a.pairs() == b.pairs()
}

/// Active skills, by group.
#[derive(Debug)]
pub struct Skills {
    pub combat: Skill,
    pub physical: Skill,
    pub social: Skill,
    pub technical: Skill,
}

impl Skills {
    /// Four empty groups.
    pub fn empty() -> (s: Skills)
        ensures
            s.combat.view() == Map::<Seq<char>, u8>::empty(),
            s.physical.view() == Map::<Seq<char>, u8>::empty(),
            s.social.view() == Map::<Seq<char>, u8>::empty(),
            s.technical.view() == Map::<Seq<char>, u8>::empty(),
    {
        Skills {
            combat: StrMap::new(),
            physical: StrMap::new(),
            social: StrMap::new(),
            technical: StrMap::new(),
        }
    }

    /// Every rating of the four groups, combat first, then physical, social and
    /// technical, each group in its own order.
    pub fn into_vec(self) -> (v: Vec<(String, u8)>)
        ensures
            v@ == self.combat.pairs() + self.physical.pairs() + self.social.pairs()
                + self.technical.pairs(),
    {
        let mut v = self.combat.into_pairs();
        let mut p = self.physical.into_pairs();
        let mut s = self.social.into_pairs();
        let mut t = self.technical.into_pairs();
        v.append(&mut p);
        v.append(&mut s);
        v.append(&mut t);
        v
    }
}

/// Whether two skill sets hold the same ratings in the same order.
pub open spec fn same_skills(a: Skills, b: Skills) -> bool {
    &&& same_entries(a.combat, b.combat)
    &&& same_entries(a.physical, b.physical)
    &&& same_entries(a.social, b.social)
    &&& same_entries(a.technical, b.technical)
}

/// Copies a map of ratings.
pub fn copy_ratings(m: &Skill) -> (r: Skill)
    ensures
        same_entries(r, *m),
        r.view() == m.view(),
{
    let r = m.clone();
    assert forall|i: int| 0 <= i < m.pairs().len() implies #[trigger] r.pairs()[i] == m.pairs()[i] by {
        assert(r.pairs()[i].0 == m.pairs()[i].0);
        assert(cloned(m.pairs()[i].1, r.pairs()[i].1));
    }
    assert(r.pairs() =~= m.pairs());
    proof {
        r.lemma_same_pairs(m);
    }
    r
}

impl Clone for Skills {
    fn clone(&self) -> (r: Self)
        ensures
            same_skills(r, *self),
    {
        Skills {
            combat: copy_ratings(&self.combat),
            physical: copy_ratings(&self.physical),
            social: copy_ratings(&self.social),
            technical: copy_ratings(&self.technical),
        }
    }
}

/// A character's sheet.
#[derive(Debug)]
pub struct CharacterSheet {
    pub name: String,
    pub race: Race,
    pub gender: String,
    pub backstory: String,
    pub main: bool,
    pub attributes: Attributes,
    pub magic: Magic,
    pub resonance: Resonance,
    pub derived_attributes: DerivedAttributes,
    pub skills: Skills,
    pub knowledge_skills: Skill,
    pub nuyen: u32,
    pub lifestyle: String,
    pub contacts: StrMap<Contact>,
    pub qualities: Vec<Quality>,
    pub cyberware: Vec<String>,
    pub bioware: Vec<String>,
    pub inventory: StrMap<Item>,
    pub matrix_attributes: Option<MatrixAttributes>,
}

/// Whether two sheets hold the same values in every field.
pub open spec fn same_sheet(a: CharacterSheet, b: CharacterSheet) -> bool {
    &&& a.name == b.name
    &&& a.race == b.race
    &&& a.gender == b.gender
    &&& a.backstory == b.backstory
    &&& a.main == b.main
    &&& a.attributes == b.attributes
    &&& a.magic == b.magic
    &&& a.resonance == b.resonance
    &&& a.derived_attributes == b.derived_attributes
    &&& same_skills(a.skills, b.skills)
    &&& same_entries(a.knowledge_skills, b.knowledge_skills)
    &&& a.nuyen == b.nuyen
    &&& a.lifestyle == b.lifestyle
    &&& same_entries(a.contacts, b.contacts)
    &&& a.qualities@ == b.qualities@
    &&& a.cyberware@ == b.cyberware@
    &&& a.bioware@ == b.bioware@
    &&& same_entries(a.inventory, b.inventory)
    &&& a.matrix_attributes == b.matrix_attributes
}

fn copy_contacts(m: &StrMap<Contact>) -> (r: StrMap<Contact>)
    ensures
        same_entries(r, *m),
{
    let r = m.clone();
    assert forall|i: int| 0 <= i < m.pairs().len() implies #[trigger] r.pairs()[i] == m.pairs()[i] by {
        assert(r.pairs()[i].0 == m.pairs()[i].0);
        assert(cloned(m.pairs()[i].1, r.pairs()[i].1));
    }
    assert(r.pairs() =~= m.pairs());
    proof {
        r.lemma_same_pairs(m);
    }
    r
}

fn copy_items(m: &StrMap<Item>) -> (r: StrMap<Item>)
    ensures
        same_entries(r, *m),
{
    let r = m.clone();
    assert forall|i: int| 0 <= i < m.pairs().len() implies #[trigger] r.pairs()[i] == m.pairs()[i] by {
        assert(r.pairs()[i].0 == m.pairs()[i].0);
        assert(cloned(m.pairs()[i].1, r.pairs()[i].1));
    }
    assert(r.pairs() =~= m.pairs());
    proof {
        r.lemma_same_pairs(m);
    }
    r
}

fn copy_qualities(v: &Vec<Quality>) -> (r: Vec<Quality>)
    ensures
        r@ == v@,
{
    let r = v.clone();
    assert(r@ =~= v@);
    r
}

fn copy_strings(v: &Vec<String>) -> (r: Vec<String>)
    ensures
        r@ == v@,
{
    let r = v.clone();
    assert(r@ =~= v@);
    r
}

impl Clone for CharacterSheet {
    fn clone(&self) -> (r: Self)
        ensures
            same_sheet(r, *self),
    {
        CharacterSheet {
            name: self.name.clone(),
            race: self.race,
            gender: self.gender.clone(),
            backstory: self.backstory.clone(),
            main: self.main,
            attributes: self.attributes,
            magic: self.magic,
            resonance: self.resonance,
            derived_attributes: self.derived_attributes,
            skills: self.skills.clone(),
            knowledge_skills: copy_ratings(&self.knowledge_skills),
            nuyen: self.nuyen,
            lifestyle: self.lifestyle.clone(),
            contacts: copy_contacts(&self.contacts),
            qualities: copy_qualities(&self.qualities),
            cyberware: copy_strings(&self.cyberware),
            bioware: copy_strings(&self.bioware),
            inventory: copy_items(&self.inventory),
            matrix_attributes: self.matrix_attributes,
        }
    }
}

/// Hits kept by a limit of `x / 3`, rounded up.
pub open spec fn ceil_third(x: int) -> int {
    (x + 2) / 3
}

/// The attribute sums that feed the derived values fit in a byte, so that deriving
/// them does not overflow.
pub open spec fn derivable(a: Attributes, e: Essence) -> bool {
    &&& a.reaction + a.intuition <= 255
    &&& a.body < 255
    &&& a.willpower < 255
    &&& a.strength * 2 + a.body + a.reaction <= 255
    &&& a.logic * 2 + a.intuition + a.willpower <= 255
    &&& a.charisma * 2 + a.willpower + essence_points(e) <= 255
}

/// The derived values agree with the attributes: initiative is REACTION +
/// INTUITION and one die, each monitor holds 8 boxes plus half of BODY or
/// WILLPOWER rounded up, and each limit is a weighted sum divided by three,
/// rounded up.
pub open spec fn derived_consistent(a: Attributes, d: DerivedAttributes) -> bool {
    &&& d.initiative.0 == a.reaction + a.intuition
    &&& d.initiative.1 == 1
    &&& d.monitors.physical == 8 + (a.body + 1) / 2
    &&& d.monitors.stun == 8 + (a.willpower + 1) / 2
    &&& d.limits.physical == ceil_third(a.strength * 2 + a.body + a.reaction)
    &&& d.limits.mental == ceil_third(a.logic * 2 + a.intuition + a.willpower)
    &&& d.limits.social == ceil_third(a.charisma * 2 + a.willpower + essence_points(d.essence))
}

/// `v` bounded by `hi`.
pub open spec fn at_most(v: int, hi: int) -> int {
    if v > hi {
        hi
    } else {
        v
    }
}

/// The attributes after the metatype's adjustments: raised by the metatype's bonus
/// and capped by its maximum (a Human's EDGE is brought into 2..=7).
pub open spec fn race_modified(a: Attributes, r: Race) -> Attributes {
    match r {
        Race::Human => Attributes {
            edge: if a.edge < 2 {
                2
            } else if a.edge > 7 {
                7
            } else {
                a.edge
            },
            ..a
        },
        Race::Elf => Attributes {
            agility: at_most(a.agility + 1, 7) as u8,
            charisma: at_most(a.charisma + 2, 8) as u8,
            ..a
        },
        Race::Dwarf => Attributes {
            body: at_most(a.body + 2, 8) as u8,
            agility: at_most(a.agility as int, 5) as u8,
            reaction: at_most(a.reaction as int, 5) as u8,
            strength: at_most(a.strength + 2, 8) as u8,
            willpower: at_most(a.willpower + 1, 7) as u8,
            ..a
        },
        Race::Ork => Attributes {
            body: at_most(a.body + 3, 9) as u8,
            strength: at_most(a.strength + 2, 8) as u8,
            logic: at_most(a.logic as int, 5) as u8,
            charisma: at_most(a.charisma as int, 5) as u8,
            ..a
        },
        Race::Troll => Attributes {
            body: at_most(a.body + 4, 10) as u8,
            agility: at_most(a.agility as int, 5) as u8,
            strength: at_most(a.strength + 4, 10) as u8,
            logic: at_most(a.logic as int, 5) as u8,
            intuition: at_most(a.intuition as int, 5) as u8,
            charisma: at_most(a.charisma as int, 4) as u8,
            ..a
        },
    }
}

/// The metatype's bonuses do not overflow a byte before the cap applies.
pub open spec fn race_modifiable(a: Attributes, r: Race) -> bool {
    match r {
        Race::Human => true,
        Race::Elf => a.agility + 1 <= 255 && a.charisma + 2 <= 255,
        Race::Dwarf => a.body + 2 <= 255 && a.strength + 2 <= 255 && a.willpower + 1 <= 255,
        Race::Ork => a.body + 3 <= 255 && a.strength + 2 <= 255,
        Race::Troll => a.body + 4 <= 255 && a.strength + 4 <= 255,
    }
}

fn cap(v: u8, hi: u8) -> (r: u8)
    ensures
        r == at_most(v as int, hi as int),
{
    if v > hi {
        hi
    } else {
        v
    }
}

fn limit_of(weighted: u8, a: u8, b: u8) -> (r: u8)
    requires
        weighted as int * 2 + a + b <= 255,
    ensures
        r == ceil_third(weighted * 2 + a + b),
{
    let sum: u16 = weighted as u16 * 2 + a as u16 + b as u16;
    ((sum + 2) / 3) as u8
}

/// Whether the bonuses of metatype `race` fit in a byte for attributes `a`.
pub fn race_fits(a: Attributes, race: Race) -> (b: bool)
    ensures
        b == race_modifiable(a, race),
{
    match race {
        Race::Human => true,
        Race::Elf => a.agility < 255 && a.charisma < 254,
        Race::Dwarf => a.body < 254 && a.strength < 254 && a.willpower < 255,
        Race::Ork => a.body < 253 && a.strength < 254,
        Race::Troll => a.body < 252 && a.strength < 252,
    }
}

/// The attributes `a` after the adjustments of metatype `race`.
pub fn with_race(a: Attributes, race: Race) -> (r: Attributes)
    requires
        race_modifiable(a, race),
    ensures
        r == race_modified(a, race),
{
    match race {
        Race::Human => Attributes {
            edge: if a.edge < 2 {
                2
            } else if a.edge > 7 {
                7
            } else {
                a.edge
            },
            ..a
        },
        Race::Elf => Attributes {
            agility: cap(a.agility + 1, 7),
            charisma: cap(a.charisma + 2, 8),
            ..a
        },
        Race::Dwarf => Attributes {
            body: cap(a.body + 2, 8),
            agility: cap(a.agility, 5),
            reaction: cap(a.reaction, 5),
            strength: cap(a.strength + 2, 8),
            willpower: cap(a.willpower + 1, 7),
            ..a
        },
        Race::Ork => Attributes {
            body: cap(a.body + 3, 9),
            strength: cap(a.strength + 2, 8),
            logic: cap(a.logic, 5),
            charisma: cap(a.charisma, 5),
            ..a
        },
        Race::Troll => Attributes {
            body: cap(a.body + 4, 10),
            agility: cap(a.agility, 5),
            strength: cap(a.strength + 4, 10),
            logic: cap(a.logic, 5),
            intuition: cap(a.intuition, 5),
            charisma: cap(a.charisma, 4),
            ..a
        },
    }
}

/// Whether the values derived from attributes `a` and Essence `e` fit in a byte.
pub fn attributes_derivable(a: Attributes, e: Essence) -> (b: bool)
    ensures
        b == derivable(a, e),
{
    let ess = e.whole_points() as u32;
    (a.reaction as u32) + (a.intuition as u32) <= 255 && a.body < 255 && a.willpower < 255
        && (a.strength as u32) * 2 + (a.body as u32) + (a.reaction as u32) <= 255
        && (a.logic as u32) * 2 + (a.intuition as u32) + (a.willpower as u32) <= 255
        && (a.charisma as u32) * 2 + (a.willpower as u32) + ess <= 255
}

impl CharacterSheet {
    /// Applies the adjustments of metatype `race` to the attributes.
    pub fn apply_race_modifiers(&mut self, race: Race)
        requires
            race_modifiable(old(self).attributes, race),
        ensures
            *final(self) == (CharacterSheet {
                attributes: race_modified(old(self).attributes, race),
                ..*old(self)
            }),
    {
        match race {
            Race::Human => {
                let e = self.attributes.edge;
                self.attributes.edge = if e < 2 {
                    2
                } else if e > 7 {
                    7
                } else {
                    e
                };
            },
            Race::Elf => {
                self.attributes.agility = cap(self.attributes.agility + 1, 7);
                self.attributes.charisma = cap(self.attributes.charisma + 2, 8);
            },
            Race::Dwarf => {
                self.attributes.body = cap(self.attributes.body + 2, 8);
                self.attributes.agility = cap(self.attributes.agility, 5);
                self.attributes.reaction = cap(self.attributes.reaction, 5);
                self.attributes.strength = cap(self.attributes.strength + 2, 8);
                self.attributes.willpower = cap(self.attributes.willpower + 1, 7);
            },
            Race::Ork => {
                self.attributes.body = cap(self.attributes.body + 3, 9);
                self.attributes.strength = cap(self.attributes.strength + 2, 8);
                self.attributes.logic = cap(self.attributes.logic, 5);
                self.attributes.charisma = cap(self.attributes.charisma, 5);
            },
            Race::Troll => {
                self.attributes.body = cap(self.attributes.body + 4, 10);
                self.attributes.agility = cap(self.attributes.agility, 5);
                self.attributes.strength = cap(self.attributes.strength + 4, 10);
                self.attributes.logic = cap(self.attributes.logic, 5);
                self.attributes.intuition = cap(self.attributes.intuition, 5);
                self.attributes.charisma = cap(self.attributes.charisma, 4);
            },
        }
    }

    /// Recomputes initiative, condition monitors and limits from the attributes;
    /// Essence, Edge points and armor are left as they are.
    pub fn update_derived_attributes(&mut self)
        requires
            derivable(old(self).attributes, old(self).derived_attributes.essence),
        ensures
            derived_consistent(final(self).attributes, final(self).derived_attributes),
            final(self).derived_attributes.essence == old(self).derived_attributes.essence,
            final(self).derived_attributes.edge_points == old(self).derived_attributes.edge_points,
            final(self).derived_attributes.armor == old(self).derived_attributes.armor,
            *final(self) == (CharacterSheet {
                derived_attributes: final(self).derived_attributes,
                ..*old(self)
            }),
    {
        let a = self.attributes;
        let ess = self.derived_attributes.essence.whole_points();
        self.derived_attributes.initiative = (a.reaction + a.intuition, 1);
        self.derived_attributes.monitors.physical = 8 + (a.body + 1) / 2;
        self.derived_attributes.monitors.stun = 8 + (a.willpower + 1) / 2;
        self.derived_attributes.limits.physical = limit_of(a.strength, a.body, a.reaction);
        self.derived_attributes.limits.mental = limit_of(a.logic, a.intuition, a.willpower);
        self.derived_attributes.limits.social = limit_of(a.charisma, a.willpower, ess);
    }
}


/// Everything a new sheet is made from; the attributes default to 1, Magic and
/// Resonance to 0, and the collections start empty.
#[derive(Debug)]
pub struct CharacterSheetBuilder {
    pub name: String,
    pub race: Race,
    pub gender: String,
    pub backstory: String,
    pub main: bool,
    pub body: u8,
    pub agility: u8,
    pub reaction: u8,
    pub strength: u8,
    pub willpower: u8,
    pub logic: u8,
    pub intuition: u8,
    pub charisma: u8,
    pub edge: u8,
    pub magic: u8,
    pub resonance: u8,
    pub skills: Skills,
    pub knowledge_skills: Skill,
    pub qualities: Vec<Quality>,
    pub nuyen: u32,
    pub inventory: StrMap<Item>,
    pub contacts: StrMap<Contact>,
}

/// The attributes that a builder holds, before the metatype's adjustments.
pub open spec fn builder_attributes(b: CharacterSheetBuilder) -> Attributes {
    Attributes {
        body: b.body,
        agility: b.agility,
        strength: b.strength,
        reaction: b.reaction,
        willpower: b.willpower,
        intuition: b.intuition,
        charisma: b.charisma,
        logic: b.logic,
        edge: b.edge,
    }
}

/// The Essence of a new character: 6.00 out of 6.00.
pub open spec fn starting_essence() -> Essence {
    Essence { current: 600, max: 600 }
}

/// Building the sheet does not overflow: the initial initiative, the metatype's
/// bonuses and the derived values all fit in a byte.
pub open spec fn buildable(b: CharacterSheetBuilder) -> bool {
    &&& b.reaction + b.intuition <= 255
    &&& race_modifiable(builder_attributes(b), b.race)
    &&& derivable(race_modified(builder_attributes(b), b.race), starting_essence())
}

/// Whether building the sheet from `b` stays within a byte everywhere.
pub fn check_buildable(b: &CharacterSheetBuilder) -> (ok: bool)
    ensures
        ok == buildable(*b),
{
    let a = Attributes {
        body: b.body,
        agility: b.agility,
        strength: b.strength,
        reaction: b.reaction,
        willpower: b.willpower,
        intuition: b.intuition,
        charisma: b.charisma,
        logic: b.logic,
        edge: b.edge,
    };
    if (b.reaction as u32) + (b.intuition as u32) > 255 || !race_fits(a, b.race) {
        return false;
    }
    attributes_derivable(with_race(a, b.race), Essence { current: 600, max: 600 })
}

impl CharacterSheetBuilder {
    /// A builder with every attribute at 1, no Magic or Resonance, no skills,
    /// qualities, nuyen, items or contacts.
    pub fn new(name: String, race: Race, gender: String, backstory: String, main: bool) -> (b: Self)
        ensures
            b.name == name,
            b.race == race,
            b.gender == gender,
            b.backstory == backstory,
            b.main == main,
            b.body == 1 && b.agility == 1 && b.reaction == 1 && b.strength == 1,
            b.willpower == 1 && b.logic == 1 && b.intuition == 1 && b.charisma == 1,
            b.edge == 1 && b.magic == 0 && b.resonance == 0,
            b.skills.combat.view() == Map::<Seq<char>, u8>::empty(),
            b.skills.physical.view() == Map::<Seq<char>, u8>::empty(),
            b.skills.social.view() == Map::<Seq<char>, u8>::empty(),
            b.skills.technical.view() == Map::<Seq<char>, u8>::empty(),
            b.knowledge_skills.view() == Map::<Seq<char>, u8>::empty(),
            b.qualities@.len() == 0,
            b.nuyen == 0,
            b.inventory.view() == Map::<Seq<char>, Item>::empty(),
            b.contacts.view() == Map::<Seq<char>, Contact>::empty(),
    {
        CharacterSheetBuilder {
            name,
            race,
            gender,
            backstory,
            main,
            body: 1,
            agility: 1,
            reaction: 1,
            strength: 1,
            willpower: 1,
            logic: 1,
            intuition: 1,
            charisma: 1,
            edge: 1,
            magic: 0,
            resonance: 0,
            skills: Skills::empty(),
            knowledge_skills: StrMap::new(),
            qualities: Vec::new(),
            nuyen: 0,
            inventory: StrMap::new(),
            contacts: StrMap::new(),
        }
    }

    /// Sets BODY.
    pub fn body(self, body: u8) -> (b: Self)
        ensures
            b == (Self { body, ..self }),
    {
        Self { body, ..self }
    }

    /// Sets AGILITY.
    pub fn agility(self, agility: u8) -> (b: Self)
        ensures
            b == (Self { agility, ..self }),
    {
        Self { agility, ..self }
    }

    /// Sets REACTION.
    pub fn reaction(self, reaction: u8) -> (b: Self)
        ensures
            b == (Self { reaction, ..self }),
    {
        Self { reaction, ..self }
    }

    /// Sets STRENGTH.
    pub fn strength(self, strength: u8) -> (b: Self)
        ensures
            b == (Self { strength, ..self }),
    {
        Self { strength, ..self }
    }

    /// Sets WILLPOWER.
    pub fn willpower(self, willpower: u8) -> (b: Self)
        ensures
            b == (Self { willpower, ..self }),
    {
        Self { willpower, ..self }
    }

    /// Sets LOGIC.
    pub fn logic(self, logic: u8) -> (b: Self)
        ensures
            b == (Self { logic, ..self }),
    {
        Self { logic, ..self }
    }

    /// Sets INTUITION.
    pub fn intuition(self, intuition: u8) -> (b: Self)
        ensures
            b == (Self { intuition, ..self }),
    {
        Self { intuition, ..self }
    }

    /// Sets CHARISMA.
    pub fn charisma(self, charisma: u8) -> (b: Self)
        ensures
            b == (Self { charisma, ..self }),
    {
        Self { charisma, ..self }
    }

    /// Sets EDGE.
    pub fn edge(self, edge: u8) -> (b: Self)
        ensures
            b == (Self { edge, ..self }),
    {
        Self { edge, ..self }
    }

    /// Sets MAGIC.
    pub fn magic(self, magic: u8) -> (b: Self)
        ensures
            b == (Self { magic, ..self }),
    {
        Self { magic, ..self }
    }

    /// Sets RESONANCE.
    pub fn resonance(self, resonance: u8) -> (b: Self)
        ensures
            b == (Self { resonance, ..self }),
    {
        Self { resonance, ..self }
    }

    /// Sets the active skills.
    pub fn skills(self, skills: Skills) -> (b: Self)
        ensures
            b == (Self { skills, ..self }),
    {
        Self { skills, ..self }
    }

    /// Sets the knowledge skills.
    pub fn knowledge_skills(self, knowledge_skills: Skill) -> (b: Self)
        ensures
            b == (Self { knowledge_skills, ..self }),
    {
        Self { knowledge_skills, ..self }
    }

    /// Sets the qualities.
    pub fn qualities(self, qualities: Vec<Quality>) -> (b: Self)
        ensures
            b == (Self { qualities, ..self }),
    {
        Self { qualities, ..self }
    }

    /// Sets the nuyen.
    pub fn nuyen(self, nuyen: u32) -> (b: Self)
        ensures
            b == (Self { nuyen, ..self }),
    {
        Self { nuyen, ..self }
    }

    /// Sets the inventory.
    pub fn inventory(self, inventory: StrMap<Item>) -> (b: Self)
        ensures
            b == (Self { inventory, ..self }),
    {
        Self { inventory, ..self }
    }

    /// Sets the contacts.
    pub fn contacts(self, contacts: StrMap<Contact>) -> (b: Self)
        ensures
            b == (Self { contacts, ..self }),
    {
        Self { contacts, ..self }
    }

    /// Builds the sheet, as `CharacterSheet::new` does.
    pub fn build(self) -> (s: CharacterSheet)
        requires
            buildable(self),
        ensures
            new_sheet_from(self, s),
    {
        CharacterSheet::new(self)
    }
}

/// The sheet `s` is what `b` builds: the builder's identity, skills, qualities,
/// nuyen, items and contacts; the attributes after the metatype's adjustments; Magic
/// and Resonance as given; a Street lifestyle, no augmentations nor matrix
/// attributes; Essence 6, as many Edge points as the EDGE rating, no armor, and
/// derived values consistent with the attributes.
pub open spec fn new_sheet_from(b: CharacterSheetBuilder, s: CharacterSheet) -> bool {
    &&& s.name == b.name
    &&& s.race == b.race
    &&& s.gender == b.gender
    &&& s.backstory == b.backstory
    &&& s.main == b.main
    &&& s.attributes == race_modified(builder_attributes(b), b.race)
    &&& s.magic == (Magic { magic: Some(b.magic) })
    &&& s.resonance == (Resonance { resonance: Some(b.resonance) })
    &&& s.derived_attributes.essence == starting_essence()
    &&& s.derived_attributes.edge_points == s.attributes.edge
    &&& s.derived_attributes.armor == 0
    &&& derived_consistent(s.attributes, s.derived_attributes)
    &&& s.skills == b.skills
    &&& s.knowledge_skills == b.knowledge_skills
    &&& s.nuyen == b.nuyen
    &&& s.lifestyle@ == "Street"@
    &&& s.contacts == b.contacts
    &&& s.qualities == b.qualities
    &&& s.cyberware@.len() == 0
    &&& s.bioware@.len() == 0
    &&& s.inventory == b.inventory
    &&& s.matrix_attributes is None
}

/// The rating an attribute name selects for a dice pool, after lowercasing; EDGE
/// and unknown names count 0.
pub open spec fn pool_attribute(a: Attributes, lowered: Seq<char>) -> int {
    if lowered == "body"@ {
        a.body as int
    } else if lowered == "agility"@ {
        a.agility as int
    } else if lowered == "reaction"@ {
        a.reaction as int
    } else if lowered == "strength"@ {
        a.strength as int
    } else if lowered == "willpower"@ {
        a.willpower as int
    } else if lowered == "logic"@ {
        a.logic as int
    } else if lowered == "intuition"@ {
        a.intuition as int
    } else if lowered == "charisma"@ {
        a.charisma as int
    } else {
        0
    }
}

/// All active skills in one map; a skill named in several groups takes the rating
/// of the last group in the order combat, physical, social, technical.
pub open spec fn all_active_skills(s: Skills) -> Map<Seq<char>, u8> {
    s.combat.view().union_prefer_right(s.physical.view()).union_prefer_right(
        s.social.view(),
    ).union_prefer_right(s.technical.view())
}

/// The rating of `skill` among the active skills, 0 when the character lacks it.
pub open spec fn skill_rating(s: Skills, skill: Seq<char>) -> int {
    if all_active_skills(s).contains_key(skill) {
        all_active_skills(s)[skill] as int
    } else {
        0
    }
}

/// The dice pool for a test of `attribute` and `skill`.
pub open spec fn dice_pool(sheet: CharacterSheet, attribute: Seq<char>, skill: Seq<char>) -> int {
    pool_attribute(sheet.attributes, spec_to_lowercase(attribute)) + skill_rating(
        sheet.skills,
        skill,
    )
}

/// The limit a limit name selects, after lowercasing; unknown names give 0.
pub open spec fn limit_named(l: Limits, lowered: Seq<char>) -> int {
    if lowered == "physical"@ {
        l.physical as int
    } else if lowered == "mental"@ {
        l.mental as int
    } else if lowered == "social"@ {
        l.social as int
    } else {
        0
    }
}

impl CharacterSheet {
    /// Builds a sheet: the builder's values, the metatype's adjustments, then the
    /// derived values, with an Edge point for each point of EDGE.
    pub fn new(builder: CharacterSheetBuilder) -> (s: Self)
        requires
            buildable(builder),
        ensures
            new_sheet_from(builder, s),
    {
        let mut sheet = CharacterSheet {
            name: builder.name,
            race: builder.race,
            gender: builder.gender,
            backstory: builder.backstory,
            main: builder.main,
            attributes: Attributes {
                body: builder.body,
                agility: builder.agility,
                reaction: builder.reaction,
                strength: builder.strength,
                willpower: builder.willpower,
                logic: builder.logic,
                intuition: builder.intuition,
                charisma: builder.charisma,
                edge: builder.edge,
            },
            magic: Magic { magic: Some(builder.magic) },
            resonance: Resonance { resonance: Some(builder.resonance) },
            derived_attributes: DerivedAttributes {
                initiative: (builder.reaction + builder.intuition, 1),
                limits: Limits { physical: 1, mental: 1, social: 1 },
                monitors: Monitors { physical: 9, stun: 9 },
                essence: Essence { current: 600, max: 600 },
                edge_points: builder.edge,
                armor: 0,
            },
            skills: builder.skills,
            knowledge_skills: builder.knowledge_skills,
            nuyen: builder.nuyen,
            lifestyle: owned("Street"),
            contacts: builder.contacts,
            qualities: builder.qualities,
            cyberware: Vec::new(),
            bioware: Vec::new(),
            matrix_attributes: None,
            inventory: builder.inventory,
        };
        let race = sheet.race;
        sheet.apply_race_modifiers(race);
        sheet.update_derived_attributes();
        sheet.derived_attributes.edge_points = sheet.attributes.edge;
        sheet
    }

    /// All active skills in one map.
    pub fn get_all_active_skills(&self) -> (m: Skill)
        ensures
            m.view() == all_active_skills(self.skills),
    {
        let mut all = copy_ratings(&self.skills.combat);
        all.extend(copy_ratings(&self.skills.physical));
        all.extend(copy_ratings(&self.skills.social));
        all.extend(copy_ratings(&self.skills.technical));
        all
    }

    /// The dice pool for a test: the rating of the named attribute (case
    /// insensitive; EDGE and unknown names count 0) plus the skill's rating.
    pub fn get_dice_pool(&self, attribute: &str, skill: &str) -> (p: u8)
        requires
            dice_pool(*self, attribute@, skill@) <= 255,
        ensures
            p == dice_pool(*self, attribute@, skill@),
    {
        let a = self.attribute_for_pool(attribute);
        let s = self.skill_value(skill);
        a + s
    }

    /// The dice pool for a test, or `None` when it does not fit in a byte.
    pub fn checked_dice_pool(&self, attribute: &str, skill: &str) -> (p: Option<u8>)
        ensures
            p == (if dice_pool(*self, attribute@, skill@) <= 255 {
                Some(dice_pool(*self, attribute@, skill@) as u8)
            } else {
                None
            }),
    {
        let a = self.attribute_for_pool(attribute);
        let s = self.skill_value(skill);
        if a.checked_add(s).is_some() {
            Some(self.get_dice_pool(attribute, skill))
        } else {
            None
        }
    }

    fn attribute_for_pool(&self, attribute: &str) -> (v: u8)
        ensures
            v == pool_attribute(self.attributes, spec_to_lowercase(attribute@)),
    {
        let lowered = to_lowercase(attribute);
        let l = lowered.as_str();
        if str_eq(l, "body") {
            self.attributes.body
        } else if str_eq(l, "agility") {
            self.attributes.agility
        } else if str_eq(l, "reaction") {
            self.attributes.reaction
        } else if str_eq(l, "strength") {
            self.attributes.strength
        } else if str_eq(l, "willpower") {
            self.attributes.willpower
        } else if str_eq(l, "logic") {
            self.attributes.logic
        } else if str_eq(l, "intuition") {
            self.attributes.intuition
        } else if str_eq(l, "charisma") {
            self.attributes.charisma
        } else {
            0
        }
    }

    fn skill_value(&self, skill: &str) -> (v: u8)
        ensures
            v == skill_rating(self.skills, skill@),
    {
        let all = self.get_all_active_skills();
        match all.get(skill) {
            Some(r) => *r,
            None => 0,
        }
    }

    /// The limit of the named kind (case insensitive), 0 for an unknown kind.
    pub fn get_limit(&self, limit_type: &str) -> (l: u8)
        ensures
            l == limit_named(self.derived_attributes.limits, spec_to_lowercase(limit_type@)),
    {
        let lowered = to_lowercase(limit_type);
        let l = lowered.as_str();
        if str_eq(l, "physical") {
            self.derived_attributes.limits.physical
        } else if str_eq(l, "mental") {
            self.derived_attributes.limits.mental
        } else if str_eq(l, "social") {
            self.derived_attributes.limits.social
        } else {
            0
        }
    }
}


/// A change requested of one attribute.
#[derive(Debug, Clone)]
pub enum UpdateOperation<T> {
    Modify(T),
    Add(T),
    Remove(T),
}

/// An update of a character sheet.
#[derive(Debug, Clone)]
pub enum CharacterSheetUpdate {
    Attribute { attribute: String, operation: UpdateOperation<CharacterValue> },
}

/// The values an update may carry.
#[derive(Debug, Clone)]
pub enum CharacterValue {
    U8(u8),
    Nuyen(u32),
    String(String),
    Race(Race),
    Skills(Skills),
    HashMapStringU8(Skill),
    VecQuality(Vec<Quality>),
    VecString(Vec<String>),
    HashMapStringItem(StrMap<Item>),
    HashMapStringContact(StrMap<Contact>),
    OptionMatrixAttributes(Option<MatrixAttributes>),
    OptionU8(Option<u8>),
}

/// The dice pool for a test of an attribute and a skill is the sheet's rating of
/// the attribute the name selects, whatever its case (BODY, AGILITY, REACTION,
/// STRENGTH, WILLPOWER, LOGIC, INTUITION or CHARISMA; any other name, EDGE
/// included, counts 0), plus the skill's rating: that of the last group, in the
/// order combat, physical, social, technical, that lists the skill, 0 if none does.
pub proof fn law_dice_pool_is_attribute_plus_skill(
    sheet: CharacterSheet,
    attribute: Seq<char>,
    skill: Seq<char>,
)
    ensures
        ({
            let l = spec_to_lowercase(attribute);
            let a = sheet.attributes;
            let g = sheet.skills;
            let rating = if g.technical.view().contains_key(skill) {
                g.technical.view()[skill] as int
            } else if g.social.view().contains_key(skill) {
                g.social.view()[skill] as int
            } else if g.physical.view().contains_key(skill) {
                g.physical.view()[skill] as int
            } else if g.combat.view().contains_key(skill) {
                g.combat.view()[skill] as int
            } else {
                0
            };
            let pool = dice_pool(sheet, attribute, skill);
            &&& l == "body"@ ==> pool == a.body + rating
            &&& l == "agility"@ ==> pool == a.agility + rating
            &&& l == "reaction"@ ==> pool == a.reaction + rating
            &&& l == "strength"@ ==> pool == a.strength + rating
            &&& l == "willpower"@ ==> pool == a.willpower + rating
            &&& l == "logic"@ ==> pool == a.logic + rating
            &&& l == "intuition"@ ==> pool == a.intuition + rating
            &&& l == "charisma"@ ==> pool == a.charisma + rating
            &&& l != "body"@ && l != "agility"@ && l != "reaction"@ && l != "strength"@ && l
                != "willpower"@ && l != "logic"@ && l != "intuition"@ && l != "charisma"@ ==> pool
                == rating
        }),
{
    reveal_strlit("body");
    reveal_strlit("agility");
    reveal_strlit("reaction");
    reveal_strlit("strength");
    reveal_strlit("willpower");
    reveal_strlit("logic");
    reveal_strlit("intuition");
    reveal_strlit("charisma");
    let g = sheet.skills;
    let all = all_active_skills(g);
    if g.technical.view().contains_key(skill) {
        assert(all.contains_key(skill) && all[skill] == g.technical.view()[skill]);
    } else if g.social.view().contains_key(skill) {
        assert(all.contains_key(skill) && all[skill] == g.social.view()[skill]);
    } else if g.physical.view().contains_key(skill) {
        assert(all.contains_key(skill) && all[skill] == g.physical.view()[skill]);
    } else if g.combat.view().contains_key(skill) {
        assert(all.contains_key(skill) && all[skill] == g.combat.view()[skill]);
    } else {
        assert(!all.contains_key(skill));
    }
    // The eight names differ in their first letter.
    assert("body"@[0] == 'b');
    assert("agility"@[0] == 'a');
    assert("reaction"@[0] == 'r');
    assert("strength"@[0] == 's');
    assert("willpower"@[0] == 'w');
    assert("logic"@[0] == 'l');
    assert("intuition"@[0] == 'i');
    assert("charisma"@[0] == 'c');
}

} // verus!
