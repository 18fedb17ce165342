//! Applying the game master's updates to a character sheet.
use vstd::prelude::*;

use crate::character::{
    derivable, derived_consistent, race_modifiable, race_modified, same_entries, same_quality,
    Attributes, CharacterSheet, CharacterSheetUpdate, CharacterValue, Contact, Item, Magic,
    Quality, Resonance, Skill, UpdateOperation,
};
use crate::character::copy_ratings;
use crate::error::{Error, OperationKind};
use crate::strmap::{str_eq, StrMap};

verus! {

broadcast use vstd::string::group_string_axioms;

/// The entry of `m` under `k`, if any.
pub open spec fn entry<V>(m: Map<Seq<char>, V>, k: Seq<char>) -> Option<V> {
    if m.contains_key(k) {
        Some(m[k])
    } else {
        None
    }
}

/// What one item of an update does to the item of the same name, if the character
/// carries one: a modification keeps the carried item's name and takes the new
/// quantity and description; an addition adds the quantities; a removal takes the
/// quantity away and drops the item when nothing would be left.
pub open spec fn item_step(op: OperationKind, carried: Option<Item>, item: Item) -> Option<Item> {
    match op {
        OperationKind::Modification => Some(
            match carried {
                Some(e) => Item {
                    name: e.name,
                    quantity: item.quantity,
                    description: item.description,
                },
                None => item,
            },
        ),
        OperationKind::Addition => Some(
            match carried {
                Some(e) => Item { quantity: (e.quantity + item.quantity) as u32, ..e },
                None => item,
            },
        ),
        OperationKind::Removal => match carried {
            Some(e) => if e.quantity <= item.quantity {
                None
            } else {
                Some(Item { quantity: (e.quantity - item.quantity) as u32, ..e })
            },
            None => None,
        },
    }
}

/// The inventory after applying every item of `changes` with `item_step`; items
/// that `changes` does not name are untouched.
pub open spec fn inventory_after(
    op: OperationKind,
    inv: Map<Seq<char>, Item>,
    changes: Map<Seq<char>, Item>,
) -> Map<Seq<char>, Item> {
    Map::new(
        |k: Seq<char>|
            if changes.contains_key(k) {
                item_step(op, entry(inv, k), changes[k]) is Some
            } else {
                inv.contains_key(k)
            },
        |k: Seq<char>|
            if changes.contains_key(k) {
                item_step(op, entry(inv, k), changes[k])->0
            } else {
                inv[k]
            },
    )
}

/// Adding `changes` to `inv` keeps every quantity within `u32`.
pub open spec fn addable(inv: Map<Seq<char>, Item>, changes: Map<Seq<char>, Item>) -> bool {
    forall|k: Seq<char>|
        #![trigger inv.contains_key(k), changes.contains_key(k)]
        inv.contains_key(k) && changes.contains_key(k) ==> inv[k].quantity + changes[k].quantity
            <= u32::MAX
}

/// `a + b`, saturating at `u32::MAX`.
pub open spec fn saturating_add_u32(a: u32, b: u32) -> u32 {
    if a + b > u32::MAX {
        u32::MAX
    } else {
        (a + b) as u32
    }
}

/// `a - b`, saturating at 0.
pub open spec fn saturating_sub_u32(a: u32, b: u32) -> u32 {
    if a < b {
        0
    } else {
        (a - b) as u32
    }
}

/// Whether a quality is the same as `q`.
pub open spec fn matches_quality(q: Quality) -> spec_fn(Quality) -> bool {
    |r: Quality| same_quality(r, q)
}

/// Whether `q` matches none of `removed`.
pub open spec fn quality_kept(removed: Seq<Quality>) -> spec_fn(Quality) -> bool {
    |q: Quality| !removed.any(matches_quality(q))
}

/// The qualities of `s` that match none of `removed`, in order.
pub open spec fn kept_qualities(s: Seq<Quality>, removed: Seq<Quality>) -> Seq<Quality> {
    s.filter(quality_kept(removed))
}

/// Whether a string has the characters of `x`.
pub open spec fn matches_string(x: String) -> spec_fn(String) -> bool {
    |r: String| r@ == x@
}

/// Whether `x` equals none of `removed`.
pub open spec fn string_kept(removed: Seq<String>) -> spec_fn(String) -> bool {
    |x: String| !removed.any(matches_string(x))
}

/// The strings of `s` equal to none of `removed`, in order.
pub open spec fn kept_strings(s: Seq<String>, removed: Seq<String>) -> Seq<String> {
    s.filter(string_kept(removed))
}

/// The sheet with only its attributes changed.
pub open spec fn with_attributes(s: CharacterSheet, a: Attributes) -> CharacterSheet {
    CharacterSheet { attributes: a, ..s }
}

/// The U8 attributes that a modification may set.
pub open spec fn u8_attribute(name: Seq<char>) -> bool {
    ||| name == "main"@
    ||| name == "body"@
    ||| name == "agility"@
    ||| name == "reaction"@
    ||| name == "strength"@
    ||| name == "willpower"@
    ||| name == "logic"@
    ||| name == "intuition"@
    ||| name == "charisma"@
    ||| name == "edge"@
}

/// Whether a modification of `attribute` takes `value`.
pub open spec fn modify_accepts(attribute: Seq<char>, value: CharacterValue) -> bool {
    match value {
        CharacterValue::String(_) => attribute == "name"@ || attribute == "gender"@ || attribute
            == "backstory"@ || attribute == "lifestyle"@,
        CharacterValue::Race(_) => attribute == "race"@,
        CharacterValue::U8(_) => u8_attribute(attribute),
        CharacterValue::OptionU8(_) => attribute == "magic"@ || attribute == "resonance"@,
        CharacterValue::Skills(_) => attribute == "skills"@,
        CharacterValue::HashMapStringU8(_) => attribute == "knowledge_skills"@,
        CharacterValue::Nuyen(_) => attribute == "nuyen"@,
        CharacterValue::HashMapStringContact(_) => attribute == "contacts"@,
        CharacterValue::VecQuality(_) => attribute == "qualities"@,
        CharacterValue::VecString(_) => attribute == "cyberware"@ || attribute == "bioware"@,
        CharacterValue::HashMapStringItem(_) => attribute == "inventory"@,
        CharacterValue::OptionMatrixAttributes(_) => attribute == "matrix_attributes"@,
    }
}

/// The attributes after setting `attribute` to the byte `v`.
pub open spec fn set_u8_attribute(a: Attributes, attribute: Seq<char>, v: u8) -> Attributes {
    if attribute == "body"@ {
        Attributes { body: v, ..a }
    } else if attribute == "agility"@ {
        Attributes { agility: v, ..a }
    } else if attribute == "reaction"@ {
        Attributes { reaction: v, ..a }
    } else if attribute == "strength"@ {
        Attributes { strength: v, ..a }
    } else if attribute == "willpower"@ {
        Attributes { willpower: v, ..a }
    } else if attribute == "logic"@ {
        Attributes { logic: v, ..a }
    } else if attribute == "intuition"@ {
        Attributes { intuition: v, ..a }
    } else if attribute == "charisma"@ {
        Attributes { charisma: v, ..a }
    } else if attribute == "edge"@ {
        Attributes { edge: v, ..a }
    } else {
        a
    }
}

/// The attributes after a modification: a new metatype applies its adjustments, a
/// byte sets one attribute, other values leave them.
pub open spec fn modified_attributes(a: Attributes, attribute: Seq<char>, value: CharacterValue) -> Attributes {
    match value {
        CharacterValue::Race(r) => race_modified(a, r),
        CharacterValue::U8(v) => if attribute == "main"@ {
            a
        } else {
            set_u8_attribute(a, attribute, v)
        },
        _ => a,
    }
}

/// What an accepted modification does: strings, the metatype, bytes, Magic,
/// Resonance, nuyen, contacts, qualities, augmentations and matrix attributes are
/// replaced; skills and knowledge skills are merged, the new ratings winning; items
/// are merged by `item_step`.
pub open spec fn modify_effect(
    old: CharacterSheet,
    attribute: Seq<char>,
    value: CharacterValue,
    new: CharacterSheet,
) -> bool {
    match value {
        CharacterValue::String(v) => if attribute == "name"@ {
            new == CharacterSheet { name: v, ..old }
        } else if attribute == "gender"@ {
            new == CharacterSheet { gender: v, ..old }
        } else if attribute == "backstory"@ {
            new == CharacterSheet { backstory: v, ..old }
        } else {
            new == CharacterSheet { lifestyle: v, ..old }
        },
        CharacterValue::Race(r) => new == CharacterSheet {
            race: r,
            attributes: race_modified(old.attributes, r),
            ..old
        },
        CharacterValue::U8(v) => if attribute == "main"@ {
            new == CharacterSheet { main: v != 0, ..old }
        } else {
            new == with_attributes(old, set_u8_attribute(old.attributes, attribute, v))
        },
        CharacterValue::OptionU8(v) => if attribute == "magic"@ {
            new == CharacterSheet { magic: Magic { magic: v }, ..old }
        } else {
            new == CharacterSheet { resonance: Resonance { resonance: v }, ..old }
        },
        CharacterValue::Skills(v) => {
            &&& new == CharacterSheet { skills: new.skills, ..old }
            &&& new.skills.combat.view() == old.skills.combat.view().union_prefer_right(
                v.combat.view(),
            )
            &&& new.skills.physical.view() == old.skills.physical.view().union_prefer_right(
                v.physical.view(),
            )
            &&& new.skills.social.view() == old.skills.social.view().union_prefer_right(
                v.social.view(),
            )
            &&& new.skills.technical.view() == old.skills.technical.view().union_prefer_right(
                v.technical.view(),
            )
        },
        CharacterValue::HashMapStringU8(v) => {
            &&& new == CharacterSheet { knowledge_skills: new.knowledge_skills, ..old }
            &&& new.knowledge_skills.view() == old.knowledge_skills.view().union_prefer_right(
                v.view(),
            )
        },
        CharacterValue::Nuyen(v) => new == CharacterSheet { nuyen: v, ..old },
        CharacterValue::HashMapStringContact(v) => {
            &&& new == CharacterSheet { contacts: new.contacts, ..old }
            &&& same_entries(new.contacts, v)
        },
        CharacterValue::VecQuality(v) => {
            &&& new == CharacterSheet { qualities: new.qualities, ..old }
            &&& new.qualities@ == v@
        },
        CharacterValue::VecString(v) => if attribute == "cyberware"@ {
            &&& new == CharacterSheet { cyberware: new.cyberware, ..old }
            &&& new.cyberware@ == v@
        } else {
            &&& new == CharacterSheet { bioware: new.bioware, ..old }
            &&& new.bioware@ == v@
        },
        CharacterValue::HashMapStringItem(v) => {
            &&& new == CharacterSheet { inventory: new.inventory, ..old }
            &&& new.inventory.view() == inventory_after(
                OperationKind::Modification,
                old.inventory.view(),
                v.view(),
            )
        },
        CharacterValue::OptionMatrixAttributes(v) => new == CharacterSheet {
            matrix_attributes: v,
            ..old
        },
    }
}

/// Whether an addition to `attribute` takes `value`.
pub open spec fn add_accepts(attribute: Seq<char>, value: CharacterValue) -> bool {
    match value {
        CharacterValue::Nuyen(_) => attribute == "nuyen"@,
        CharacterValue::HashMapStringContact(_) => attribute == "contacts"@,
        CharacterValue::VecQuality(_) => attribute == "qualities"@,
        CharacterValue::VecString(_) => attribute == "cyberware"@ || attribute == "bioware"@,
        CharacterValue::HashMapStringItem(_) => attribute == "inventory"@,
        _ => false,
    }
}

/// What an accepted addition does: nuyen add up (saturating), contacts are merged
/// with the new ones winning, qualities and augmentations are appended, items are
/// merged by `item_step`.
pub open spec fn add_effect(
    old: CharacterSheet,
    attribute: Seq<char>,
    value: CharacterValue,
    new: CharacterSheet,
) -> bool {
    match value {
        CharacterValue::Nuyen(v) => new == CharacterSheet {
            nuyen: saturating_add_u32(old.nuyen, v),
            ..old
        },
        CharacterValue::HashMapStringContact(v) => {
            &&& new == CharacterSheet { contacts: new.contacts, ..old }
            &&& new.contacts.view() == old.contacts.view().union_prefer_right(v.view())
        },
        CharacterValue::VecQuality(v) => {
            &&& new == CharacterSheet { qualities: new.qualities, ..old }
            &&& new.qualities@ == old.qualities@ + v@
        },
        CharacterValue::VecString(v) => if attribute == "cyberware"@ {
            &&& new == CharacterSheet { cyberware: new.cyberware, ..old }
            &&& new.cyberware@ == old.cyberware@ + v@
        } else {
            &&& new == CharacterSheet { bioware: new.bioware, ..old }
            &&& new.bioware@ == old.bioware@ + v@
        },
        CharacterValue::HashMapStringItem(v) => {
            &&& new == CharacterSheet { inventory: new.inventory, ..old }
            &&& new.inventory.view() == inventory_after(
                OperationKind::Addition,
                old.inventory.view(),
                v.view(),
            )
        },
        _ => false,
    }
}

/// Whether a removal from `attribute` takes `value`.
pub open spec fn remove_accepts(attribute: Seq<char>, value: CharacterValue) -> bool {
    add_accepts(attribute, value)
}

/// What an accepted removal does: nuyen are subtracted (saturating at 0), the named
/// contacts go, qualities and augmentations equal to a removed one go, items are
/// reduced by `item_step`.
pub open spec fn remove_effect(
    old: CharacterSheet,
    attribute: Seq<char>,
    value: CharacterValue,
    new: CharacterSheet,
) -> bool {
    match value {
        CharacterValue::Nuyen(v) => new == CharacterSheet {
            nuyen: saturating_sub_u32(old.nuyen, v),
            ..old
        },
        CharacterValue::HashMapStringContact(v) => {
            &&& new == CharacterSheet { contacts: new.contacts, ..old }
            &&& new.contacts.view() == old.contacts.view().remove_keys(v.view().dom())
        },
        CharacterValue::VecQuality(v) => {
            &&& new == CharacterSheet { qualities: new.qualities, ..old }
            &&& new.qualities@ == kept_qualities(old.qualities@, v@)
        },
        CharacterValue::VecString(v) => if attribute == "cyberware"@ {
            &&& new == CharacterSheet { cyberware: new.cyberware, ..old }
            &&& new.cyberware@ == kept_strings(old.cyberware@, v@)
        } else {
            &&& new == CharacterSheet { bioware: new.bioware, ..old }
            &&& new.bioware@ == kept_strings(old.bioware@, v@)
        },
        CharacterValue::HashMapStringItem(v) => {
            &&& new == CharacterSheet { inventory: new.inventory, ..old }
            &&& new.inventory.view() == inventory_after(
                OperationKind::Removal,
                old.inventory.view(),
                v.view(),
            )
        },
        _ => false,
    }
}

/// The kind of an update's operation.
pub open spec fn operation_kind(op: UpdateOperation<CharacterValue>) -> OperationKind {
    match op {
        UpdateOperation::Modify(_) => OperationKind::Modification,
        UpdateOperation::Add(_) => OperationKind::Addition,
        UpdateOperation::Remove(_) => OperationKind::Removal,
    }
}

/// Whether the update names an attribute that takes its kind of value.
pub open spec fn update_accepted(u: CharacterSheetUpdate) -> bool {
    match u {
        CharacterSheetUpdate::Attribute { attribute, operation } => match operation {
            UpdateOperation::Modify(v) => modify_accepts(attribute@, v),
            UpdateOperation::Add(v) => add_accepts(attribute@, v),
            UpdateOperation::Remove(v) => remove_accepts(attribute@, v),
        },
    }
}

/// What an accepted update does to the sheet, derived values aside.
pub open spec fn update_effect(old: CharacterSheet, u: CharacterSheetUpdate, new: CharacterSheet) -> bool {
    match u {
        CharacterSheetUpdate::Attribute { attribute, operation } => match operation {
            UpdateOperation::Modify(v) => modify_effect(old, attribute@, v, new),
            UpdateOperation::Add(v) => add_effect(old, attribute@, v, new),
            UpdateOperation::Remove(v) => remove_effect(old, attribute@, v, new),
        },
    }
}

/// The attributes that an accepted update leaves.
pub open spec fn updated_attributes(old: CharacterSheet, u: CharacterSheetUpdate) -> Attributes {
    match u {
        CharacterSheetUpdate::Attribute { attribute, operation } => match operation {
            UpdateOperation::Modify(v) => modified_attributes(old.attributes, attribute@, v),
            _ => old.attributes,
        },
    }
}

/// An accepted update neither overflows nor leaves attributes whose derived values
/// overflow: a new metatype's bonuses fit in a byte, added quantities fit in `u32`,
/// and the resulting attributes are derivable.
pub open spec fn update_ok(old: CharacterSheet, u: CharacterSheetUpdate) -> bool {
    update_accepted(u) ==> {
        &&& derivable(updated_attributes(old, u), old.derived_attributes.essence)
        &&& match u {
            CharacterSheetUpdate::Attribute { attribute, operation } => match operation {
                UpdateOperation::Modify(CharacterValue::Race(r)) => race_modifiable(
                    old.attributes,
                    r,
                ),
                UpdateOperation::Add(CharacterValue::HashMapStringItem(v)) => addable(
                    old.inventory.view(),
                    v.view(),
                ),
                _ => true,
            },
        }
    }
}

/// The sheet after an update: the update's effect, then derived values recomputed.
pub open spec fn updated_sheet(old: CharacterSheet, u: CharacterSheetUpdate, new: CharacterSheet) -> bool {
    &&& update_effect(old, u, CharacterSheet { derived_attributes: old.derived_attributes, ..new })
    &&& derived_consistent(new.attributes, new.derived_attributes)
    &&& new.derived_attributes.essence == old.derived_attributes.essence
    &&& new.derived_attributes.edge_points == old.derived_attributes.edge_points
    &&& new.derived_attributes.armor == old.derived_attributes.armor
}

/// `r` refuses a change of kind `kind` to `attribute`, naming both.
pub open spec fn refused_with(r: Result<(), Error>, kind: OperationKind, attribute: Seq<char>) -> bool {
    match r {
        Err(Error::InvalidAttributeValue { operation, attribute: a, .. }) => operation == kind
            && a@ == attribute,
        _ => false,
    }
}

/// `r` is the error that refuses the update: its kind of operation and the attribute
/// named.
pub open spec fn refusal(u: CharacterSheetUpdate, r: Result<(), Error>) -> bool {
    match u {
        CharacterSheetUpdate::Attribute { attribute, operation } => refused_with(
            r,
            operation_kind(operation),
            attribute@,
        ),
    }
}

fn refuse(operation: OperationKind, attribute: &str, value: &CharacterValue) -> (e: Error)
    ensures
        e matches Error::InvalidAttributeValue { operation: kind, attribute: a, .. } && kind
            == operation && a@ == attribute@,
{
    Error::InvalidAttributeValue {
        operation,
        attribute: attribute.to_string(),
        value: value.clone(),
    }
}

fn copy_item(i: &Item) -> (r: Item)
    ensures
        r == *i,
{
    i.clone()
}

fn copy_string_vec(v: &Vec<String>) -> (r: Vec<String>)
    ensures
        r@ == v@,
{
    let r = v.clone();
    assert(r@ =~= v@);
    r
}

fn copy_quality_vec(v: &Vec<Quality>) -> (r: Vec<Quality>)
    ensures
        r@ == v@,
{
    let r = v.clone();
    assert(r@ =~= v@);
    r
}

fn copy_contact_map(m: &StrMap<Contact>) -> (r: StrMap<Contact>)
    ensures
        same_entries(r, *m),
        r.view() == m.view(),
{
    let r = m.clone();
    assert forall|i: int| 0 <= i < m.pairs().len() implies #[trigger] r.pairs()[i] == m.pairs()[i] by {
        assert(r.pairs()[i].0 == m.pairs()[i].0);
        assert(cloned(m.pairs()[i].1, r.pairs()[i].1));
    }
    assert(r.pairs() =~= m.pairs());
    proof {
        r.lemma_same_pairs(m);
    }
    r
}

/// The map of the first `i` changes applied to `inv`.
pub open spec fn inventory_partial(
    op: OperationKind,
    inv: Map<Seq<char>, Item>,
    changes: StrMap<Item>,
    i: int,
) -> Map<Seq<char>, Item> {
    Map::new(
        |k: Seq<char>|
            if changes.view().contains_key(k) && changes.position(k) < i {
                item_step(op, entry(inv, k), changes.view()[k]) is Some
            } else {
                inv.contains_key(k)
            },
        |k: Seq<char>|
            if changes.view().contains_key(k) && changes.position(k) < i {
                item_step(op, entry(inv, k), changes.view()[k])->0
            } else {
                inv[k]
            },
    )
}

/// Applies each item of `changes` to `inv` with `item_step`.
fn merge_inventory(inv: &mut StrMap<Item>, changes: &StrMap<Item>, op: OperationKind)
    requires
        op == OperationKind::Addition ==> addable(old(inv).view(), changes.view()),
    ensures
        final(inv).view() == inventory_after(op, old(inv).view(), changes.view()),
{
    proof {
        use_type_invariant(changes);
    }
    let ghost start = inv.view();
    let n = changes.len();
    let mut i: usize = 0;
    assert(inv.view() =~= inventory_partial(op, start, *changes, 0));
    while i < n
        invariant
            changes.wf(),
            n == changes.pairs().len(),
            i <= n,
            op == OperationKind::Addition ==> addable(start, changes.view()),
            inv.view() == inventory_partial(op, start, *changes, i as int),
        decreases n - i,
    {
        proof {
            changes.lemma_position(i as int);
            changes.lemma_distinct();
        }
        let ghost before = inv.view();
        let key = changes.key_at(i);
        let item = changes.value_at(i);
        let ghost k = key@;
        assert(!(changes.position(k) < i));
        assert(entry(before, k) == entry(start, k));
        let ghost step = item_step(op, entry(start, k), changes.view()[k]);
        assert(changes.view()[k] == *item);
        match inv.find(key.as_str()) {
            Some(j) => {
                proof {
                    use_type_invariant(&*inv);
                    inv.lemma_position(j as int);
                }
                let carried = inv.value_at(j);
                assert(before.contains_key(k) && before[k] == *carried);
                assert(start.contains_key(k) && start[k] == *carried);
                match op {
                    OperationKind::Modification => {
                        let updated = Item {
                            name: carried.name.clone(),
                            quantity: item.quantity,
                            description: item.description.clone(),
                        };
                        assert(step == Some(updated));
                        inv.set_value_at(j, updated);
                        assert(inv.view() == before.insert(k, updated));
                    },
                    OperationKind::Addition => {
                        assert(start.contains_key(k) && changes.view().contains_key(k));
                        let updated = Item {
                            name: carried.name.clone(),
                            quantity: carried.quantity + item.quantity,
                            description: carried.description.clone(),
                        };
                        assert(step == Some(updated));
                        inv.set_value_at(j, updated);
                        assert(inv.view() == before.insert(k, updated));
                    },
                    OperationKind::Removal => {
                        if carried.quantity <= item.quantity {
                            assert(step is None);
                            inv.remove(key.as_str());
                            assert(inv.view() == before.remove(k));
                        } else {
                            let updated = Item {
                                name: carried.name.clone(),
                                quantity: carried.quantity - item.quantity,
                                description: carried.description.clone(),
                            };
                            assert(step == Some(updated));
                            inv.set_value_at(j, updated);
                            assert(inv.view() == before.insert(k, updated));
                        }
                    },
                }
            },
            None => {
                assert(!before.contains_key(k));
                assert(!start.contains_key(k));
                match op {
                    OperationKind::Removal => {
                        assert(step is None);
                    },
                    _ => {
                        let copy = copy_item(item);
                        assert(step == Some(copy));
                        inv.insert(key.clone(), copy);
                        assert(inv.view() == before.insert(k, copy));
                    },
                }
            },
        }
        proof {
            assert forall|k2: Seq<char>| #[trigger] changes.view().contains_key(k2) && k2 != k
                implies (changes.position(k2) < i + 1 <==> changes.position(k2) < i) by {
                let p = changes.position(k2);
                changes.lemma_position(p);
                assert(p != i);
            }
            assert(inv.view() =~= inventory_partial(op, start, *changes, i + 1));
        }
        i = i + 1;
    }
    proof {
        assert forall|k2: Seq<char>| #[trigger] changes.view().contains_key(k2) implies changes.position(k2) < n by {
            let p = changes.position(k2);
            changes.lemma_position(p);
        }
        assert(inv.view() =~= inventory_after(op, start, changes.view()));
    }
}


fn quality_listed(v: &Vec<Quality>, q: &Quality) -> (b: bool)
    ensures
        b == v@.any(matches_quality(*q)),
{
    let n = v.len();
    let mut i: usize = 0;
    while i < n
        invariant
            n == v@.len(),
            i <= n,
            forall|j: int| 0 <= j < i ==> !same_quality(#[trigger] v@[j], *q),
        decreases n - i,
    {
        if v[i].same_as(q) {
            assert(matches_quality(*q)(v@[i as int]));
            return true;
        }
        i = i + 1;
    }
    false
}

fn string_listed(v: &Vec<String>, x: &String) -> (b: bool)
    ensures
        b == v@.any(matches_string(*x)),
{
    let n = v.len();
    let mut i: usize = 0;
    while i < n
        invariant
            n == v@.len(),
            i <= n,
            forall|j: int| 0 <= j < i ==> (#[trigger] v@[j])@ != x@,
        decreases n - i,
    {
        if v[i] == *x {
            assert(matches_string(*x)(v@[i as int]));
            return true;
        }
        i = i + 1;
    }
    false
}

fn retain_qualities(s: &Vec<Quality>, removed: &Vec<Quality>) -> (r: Vec<Quality>)
    ensures
        r@ == kept_qualities(s@, removed@),
{
    let n = s.len();
    let mut kept: Vec<Quality> = Vec::new();
    let mut i: usize = 0;
    assert(s@.take(0).filter(quality_kept(removed@)) =~= Seq::<Quality>::empty()) by {
        reveal(Seq::filter);
    }
    while i < n
        invariant
            n == s@.len(),
            i <= n,
            kept@ == s@.take(i as int).filter(quality_kept(removed@)),
        decreases n - i,
    {
        let q = &s[i];
        let listed = quality_listed(removed, q);
        proof {
            reveal(Seq::filter);
            assert(s@.take(i + 1).drop_last() =~= s@.take(i as int));
            assert(s@.take(i + 1).last() == s@[i as int]);
        }
        if !listed {
            kept.push(q.clone());
        }
        i = i + 1;
    }
    assert(s@.take(n as int) =~= s@);
    kept
}

fn retain_strings(s: &Vec<String>, removed: &Vec<String>) -> (r: Vec<String>)
    ensures
        r@ == kept_strings(s@, removed@),
{
    let n = s.len();
    let mut kept: Vec<String> = Vec::new();
    let mut i: usize = 0;
    assert(s@.take(0).filter(string_kept(removed@)) =~= Seq::<String>::empty()) by {
        reveal(Seq::filter);
    }
    while i < n
        invariant
            n == s@.len(),
            i <= n,
            kept@ == s@.take(i as int).filter(string_kept(removed@)),
        decreases n - i,
    {
        let x = &s[i];
        let listed = string_listed(removed, x);
        proof {
            reveal(Seq::filter);
            assert(s@.take(i + 1).drop_last() =~= s@.take(i as int));
            assert(s@.take(i + 1).last() == s@[i as int]);
        }
        if !listed {
            kept.push(x.clone());
        }
        i = i + 1;
    }
    assert(s@.take(n as int) =~= s@);
    kept
}

fn append_qualities(s: &mut Vec<Quality>, more: &Vec<Quality>)
    ensures
        final(s)@ == old(s)@ + more@,
{
    let mut copy = copy_quality_vec(more);
    s.append(&mut copy);
}

fn append_strings(s: &mut Vec<String>, more: &Vec<String>)
    ensures
        final(s)@ == old(s)@ + more@,
{
    let mut copy = copy_string_vec(more);
    s.append(&mut copy);
}

fn remove_contact_keys(contacts: &mut StrMap<Contact>, keys: &StrMap<Contact>)
    ensures
        final(contacts).view() == old(contacts).view().remove_keys(keys.view().dom()),
{
    proof {
        use_type_invariant(keys);
    }
    let ghost start = contacts.view();
    let n = keys.len();
    let mut i: usize = 0;
    assert(contacts.view() =~= start.remove_keys(Set::new(|k: Seq<char>| keys.view().contains_key(k) && keys.position(k) < 0)));
    while i < n
        invariant
            keys.wf(),
            n == keys.pairs().len(),
            i <= n,
            contacts.view() == start.remove_keys(
                Set::new(|k: Seq<char>| keys.view().contains_key(k) && keys.position(k) < i),
            ),
        decreases n - i,
    {
        proof {
            keys.lemma_position(i as int);
        }
        let key = keys.key_at(i);
        contacts.remove(key.as_str());
        proof {
            assert forall|k2: Seq<char>| #[trigger] keys.view().contains_key(k2) && k2 != key@
                implies (keys.position(k2) < i + 1 <==> keys.position(k2) < i) by {
                let p = keys.position(k2);
                keys.lemma_position(p);
            }
            assert(contacts.view() =~= start.remove_keys(
                Set::new(|k: Seq<char>| keys.view().contains_key(k) && keys.position(k) < i + 1),
            ));
        }
        i = i + 1;
    }
    proof {
        assert forall|k2: Seq<char>| #[trigger] keys.view().contains_key(k2) implies keys.position(k2) < n by {
            let p = keys.position(k2);
            keys.lemma_position(p);
        }
        assert(contacts.view() =~= start.remove_keys(keys.view().dom()));
    }
}

/// An accepted update leaves the attributes `updated_attributes` names and the
/// derived values as they were.
pub proof fn lemma_effect_attributes(old: CharacterSheet, u: CharacterSheetUpdate, new: CharacterSheet)
    requires
        update_accepted(u),
        update_effect(old, u, new),
    ensures
        new.attributes == updated_attributes(old, u),
        new.derived_attributes == old.derived_attributes,
{
    match u {
        CharacterSheetUpdate::Attribute { attribute, operation } => match operation {
            UpdateOperation::Modify(v) => match v {
                CharacterValue::String(_) => {},
                CharacterValue::U8(_) => {},
                CharacterValue::OptionU8(_) => {},
                CharacterValue::VecString(_) => {},
                _ => {},
            },
            UpdateOperation::Add(v) => match v {
                CharacterValue::VecString(_) => {},
                _ => {},
            },
            UpdateOperation::Remove(v) => match v {
                CharacterValue::VecString(_) => {},
                _ => {},
            },
        },
    }
}

impl CharacterSheet {
    fn modify_attribute(&mut self, attribute: &str, value: &CharacterValue) -> (r: Result<(), Error>)
        requires
            modify_accepts(attribute@, *value) ==> match *value {
                CharacterValue::Race(race) => race_modifiable(old(self).attributes, race),
                _ => true,
            },
        ensures
            modify_accepts(attribute@, *value) ==> r is Ok && modify_effect(
                *old(self),
                attribute@,
                *value,
                *final(self),
            ),
            !modify_accepts(attribute@, *value) ==> (refused_with(r, OperationKind::Modification, attribute@) && *final(self)
                == *old(self)),
    {
        match value {
            CharacterValue::String(v) => {
                if str_eq(attribute, "name") {
                    self.name = v.clone();
                } else if str_eq(attribute, "gender") {
                    self.gender = v.clone();
                } else if str_eq(attribute, "backstory") {
                    self.backstory = v.clone();
                } else if str_eq(attribute, "lifestyle") {
                    self.lifestyle = v.clone();
                } else {
                    return Err(refuse(OperationKind::Modification, attribute, value));
                }
            },
            CharacterValue::Race(v) => {
                if str_eq(attribute, "race") {
                    self.race = *v;
                    self.apply_race_modifiers(*v);
                } else {
                    return Err(refuse(OperationKind::Modification, attribute, value));
                }
            },
            CharacterValue::U8(v) => {
                let v = *v;
                if str_eq(attribute, "main") {
                    self.main = v != 0;
                } else if str_eq(attribute, "body") {
                    self.attributes.body = v;
                } else if str_eq(attribute, "agility") {
                    self.attributes.agility = v;
                } else if str_eq(attribute, "reaction") {
                    self.attributes.reaction = v;
                } else if str_eq(attribute, "strength") {
                    self.attributes.strength = v;
                } else if str_eq(attribute, "willpower") {
                    self.attributes.willpower = v;
                } else if str_eq(attribute, "logic") {
                    self.attributes.logic = v;
                } else if str_eq(attribute, "intuition") {
                    self.attributes.intuition = v;
                } else if str_eq(attribute, "charisma") {
                    self.attributes.charisma = v;
                } else if str_eq(attribute, "edge") {
                    self.attributes.edge = v;
                } else {
                    return Err(refuse(OperationKind::Modification, attribute, value));
                }
            },
            CharacterValue::OptionU8(v) => {
                if str_eq(attribute, "magic") {
                    self.magic.magic = *v;
                } else if str_eq(attribute, "resonance") {
                    self.resonance.resonance = *v;
                } else {
                    return Err(refuse(OperationKind::Modification, attribute, value));
                }
            },
            CharacterValue::Skills(v) => {
                if str_eq(attribute, "skills") {
                    self.skills.combat.extend(copy_ratings(&v.combat));
                    self.skills.physical.extend(copy_ratings(&v.physical));
                    self.skills.social.extend(copy_ratings(&v.social));
                    self.skills.technical.extend(copy_ratings(&v.technical));
                } else {
                    return Err(refuse(OperationKind::Modification, attribute, value));
                }
            },
            CharacterValue::HashMapStringU8(v) => {
                if str_eq(attribute, "knowledge_skills") {
                    self.knowledge_skills.extend(copy_ratings(v));
                } else {
                    return Err(refuse(OperationKind::Modification, attribute, value));
                }
            },
            CharacterValue::Nuyen(v) => {
                if str_eq(attribute, "nuyen") {
                    self.nuyen = *v;
                } else {
                    return Err(refuse(OperationKind::Modification, attribute, value));
                }
            },
            CharacterValue::HashMapStringContact(v) => {
                if str_eq(attribute, "contacts") {
                    self.contacts = copy_contact_map(v);
                } else {
                    return Err(refuse(OperationKind::Modification, attribute, value));
                }
            },
            CharacterValue::VecQuality(v) => {
                if str_eq(attribute, "qualities") {
                    self.qualities = copy_quality_vec(v);
                } else {
                    return Err(refuse(OperationKind::Modification, attribute, value));
                }
            },
            CharacterValue::VecString(v) => {
                if str_eq(attribute, "cyberware") {
                    self.cyberware = copy_string_vec(v);
                } else if str_eq(attribute, "bioware") {
                    self.bioware = copy_string_vec(v);
                } else {
                    return Err(refuse(OperationKind::Modification, attribute, value));
                }
            },
            CharacterValue::HashMapStringItem(v) => {
                if str_eq(attribute, "inventory") {
                    merge_inventory(&mut self.inventory, v, OperationKind::Modification);
                } else {
                    return Err(refuse(OperationKind::Modification, attribute, value));
                }
            },
            CharacterValue::OptionMatrixAttributes(v) => {
                if str_eq(attribute, "matrix_attributes") {
                    self.matrix_attributes = *v;
                } else {
                    return Err(refuse(OperationKind::Modification, attribute, value));
                }
            },
        }
        Ok(())
    }

    fn add_to_attribute(&mut self, attribute: &str, value: &CharacterValue) -> (r: Result<(), Error>)
        requires
            add_accepts(attribute@, *value) ==> match *value {
                CharacterValue::HashMapStringItem(v) => addable(old(self).inventory.view(), v.view()),
                _ => true,
            },
        ensures
            add_accepts(attribute@, *value) ==> r is Ok && add_effect(
                *old(self),
                attribute@,
                *value,
                *final(self),
            ),
            !add_accepts(attribute@, *value) ==> (refused_with(r, OperationKind::Addition, attribute@) && *final(self)
                == *old(self)),
    {
        match value {
            CharacterValue::Nuyen(v) => {
                if str_eq(attribute, "nuyen") {
                    self.nuyen = self.nuyen.saturating_add(*v);
                } else {
                    return Err(refuse(OperationKind::Addition, attribute, value));
                }
            },
            CharacterValue::HashMapStringContact(v) => {
                if str_eq(attribute, "contacts") {
                    self.contacts.extend(copy_contact_map(v));
                } else {
                    return Err(refuse(OperationKind::Addition, attribute, value));
                }
            },
            CharacterValue::VecQuality(v) => {
                if str_eq(attribute, "qualities") {
                    append_qualities(&mut self.qualities, v);
                } else {
                    return Err(refuse(OperationKind::Addition, attribute, value));
                }
            },
            CharacterValue::VecString(v) => {
                if str_eq(attribute, "cyberware") {
                    append_strings(&mut self.cyberware, v);
                } else if str_eq(attribute, "bioware") {
                    append_strings(&mut self.bioware, v);
                } else {
                    return Err(refuse(OperationKind::Addition, attribute, value));
                }
            },
            CharacterValue::HashMapStringItem(v) => {
                if str_eq(attribute, "inventory") {
                    merge_inventory(&mut self.inventory, v, OperationKind::Addition);
                } else {
                    return Err(refuse(OperationKind::Addition, attribute, value));
                }
            },
            _ => {
                return Err(refuse(OperationKind::Addition, attribute, value));
            },
        }
        Ok(())
    }

    fn remove_from_attribute(&mut self, attribute: &str, value: &CharacterValue) -> (r: Result<(), Error>)
        ensures
            remove_accepts(attribute@, *value) ==> r is Ok && remove_effect(
                *old(self),
                attribute@,
                *value,
                *final(self),
            ),
            !remove_accepts(attribute@, *value) ==> (refused_with(r, OperationKind::Removal, attribute@) && *final(self)
                == *old(self)),
    {
        match value {
            CharacterValue::Nuyen(v) => {
                if str_eq(attribute, "nuyen") {
                    self.nuyen = self.nuyen.saturating_sub(*v);
                } else {
                    return Err(refuse(OperationKind::Removal, attribute, value));
                }
            },
            CharacterValue::HashMapStringContact(v) => {
                if str_eq(attribute, "contacts") {
                    remove_contact_keys(&mut self.contacts, v);
                } else {
                    return Err(refuse(OperationKind::Removal, attribute, value));
                }
            },
            CharacterValue::VecQuality(v) => {
                if str_eq(attribute, "qualities") {
                    self.qualities = retain_qualities(&self.qualities, v);
                } else {
                    return Err(refuse(OperationKind::Removal, attribute, value));
                }
            },
            CharacterValue::VecString(v) => {
                if str_eq(attribute, "cyberware") {
                    self.cyberware = retain_strings(&self.cyberware, v);
                } else if str_eq(attribute, "bioware") {
                    self.bioware = retain_strings(&self.bioware, v);
                } else {
                    return Err(refuse(OperationKind::Removal, attribute, value));
                }
            },
            CharacterValue::HashMapStringItem(v) => {
                if str_eq(attribute, "inventory") {
                    merge_inventory(&mut self.inventory, v, OperationKind::Removal);
                } else {
                    return Err(refuse(OperationKind::Removal, attribute, value));
                }
            },
            _ => {
                return Err(refuse(OperationKind::Removal, attribute, value));
            },
        }
        Ok(())
    }

    /// Applies an update, then recomputes the derived values. A refused update (an
    /// attribute that does not take the value's kind) leaves the sheet unchanged.
    pub fn apply_update(&mut self, update: &CharacterSheetUpdate) -> (r: Result<(), Error>)
        requires
            update_ok(*old(self), *update),
        ensures
            update_accepted(*update) ==> r is Ok && updated_sheet(*old(self), *update, *final(self)),
            !update_accepted(*update) ==> (refusal(*update, r) && *final(self) == *old(self)),
    {
        match update {
            CharacterSheetUpdate::Attribute { attribute, operation } => {
                match operation {
                    UpdateOperation::Modify(value) => {
                        let done = self.modify_attribute(attribute.as_str(), value);
                        if done.is_err() {
                            return done;
                        }
                    },
                    UpdateOperation::Add(value) => {
                        let done = self.add_to_attribute(attribute.as_str(), value);
                        if done.is_err() {
                            return done;
                        }
                    },
                    UpdateOperation::Remove(value) => {
                        let done = self.remove_from_attribute(attribute.as_str(), value);
                        if done.is_err() {
                            return done;
                        }
                    },
                }
                proof {
                    lemma_effect_attributes(*old(self), *update, *self);
                }
                self.update_derived_attributes();
                Ok(())
            },
        }
    }
}


/// Removing the items just added gives the inventory back, provided the addition
/// did not overflow and every carried item that the change names was held at least
/// once.
pub proof fn law_add_then_remove_items(inv: Map<Seq<char>, Item>, changes: Map<Seq<char>, Item>)
    requires
        addable(inv, changes),
        forall|k: Seq<char>|
            #![trigger inv.contains_key(k), changes.contains_key(k)]
            inv.contains_key(k) && changes.contains_key(k) ==> inv[k].quantity > 0,
    ensures
        inventory_after(
            OperationKind::Removal,
            inventory_after(OperationKind::Addition, inv, changes),
            changes,
        ) == inv,
{
    let added = inventory_after(OperationKind::Addition, inv, changes);
    let back = inventory_after(OperationKind::Removal, added, changes);
    assert forall|k: Seq<char>| #[trigger] back.contains_key(k) == inv.contains_key(k) by {
        if changes.contains_key(k) && inv.contains_key(k) {
            assert(added.contains_key(k));
        }
    }
    assert forall|k: Seq<char>| #[trigger] back.contains_key(k) implies back[k] == inv[k] by {
        if changes.contains_key(k) {
            assert(added.contains_key(k));
        }
    }
    assert(back =~= inv);
}

/// Removing the contacts just added gives the contacts back, provided none of the
/// added names was a contact before.
pub proof fn law_add_then_remove_contacts(
    contacts: Map<Seq<char>, Contact>,
    added: Map<Seq<char>, Contact>,
)
    requires
        forall|k: Seq<char>| #[trigger] added.contains_key(k) ==> !contacts.contains_key(k),
    ensures
        contacts.union_prefer_right(added).remove_keys(added.dom()) == contacts,
{
    assert(contacts.union_prefer_right(added).remove_keys(added.dom()) =~= contacts);
}

/// Two sheets that hold the same values: equal but for the order of the entries of
/// their contacts and items, and their lists compared by their elements.
pub open spec fn same_values(a: CharacterSheet, b: CharacterSheet) -> bool {
    &&& a == CharacterSheet {
        contacts: a.contacts,
        inventory: a.inventory,
        qualities: a.qualities,
        cyberware: a.cyberware,
        bioware: a.bioware,
        ..b
    }
    &&& a.contacts.view() == b.contacts.view()
    &&& a.inventory.view() == b.inventory.view()
    &&& a.qualities@ == b.qualities@
    &&& a.cyberware@ == b.cyberware@
    &&& a.bioware@ == b.bioware@
}

/// When adding `v` to `attribute` of `s` and then removing it comes back to `s`:
/// nuyen whose addition does not saturate; contacts none of whose names `s`
/// already has; items whose addition fits in `u32` and that, where `s` carries them,
/// it holds at least once; qualities or augmentations none of which `s` already
/// has on that list.
pub open spec fn round_trips(s: CharacterSheet, attribute: Seq<char>, v: CharacterValue) -> bool {
    &&& add_accepts(attribute, v)
    &&& match v {
        CharacterValue::Nuyen(n) => s.nuyen + n <= u32::MAX,
        CharacterValue::HashMapStringContact(m) => forall|k: Seq<char>|
            #[trigger] m.view().contains_key(k) ==> !s.contacts.view().contains_key(k),
        CharacterValue::HashMapStringItem(m) => {
            &&& addable(s.inventory.view(), m.view())
            &&& forall|k: Seq<char>|
                #![trigger s.inventory.view().contains_key(k), m.view().contains_key(k)]
                s.inventory.view().contains_key(k) && m.view().contains_key(k)
                    ==> s.inventory.view()[k].quantity > 0
        },
        CharacterValue::VecQuality(q) => forall|i: int|
            0 <= i < s.qualities@.len() ==> quality_kept(q@)(#[trigger] s.qualities@[i]),
        CharacterValue::VecString(x) => if attribute == "cyberware"@ {
            forall|i: int|
                0 <= i < s.cyberware@.len() ==> string_kept(x@)(#[trigger] s.cyberware@[i])
        } else {
            forall|i: int|
                0 <= i < s.bioware@.len() ==> string_kept(x@)(#[trigger] s.bioware@[i])
        },
        _ => false,
    }
}

/// A filter that every element passes keeps the whole sequence.
proof fn lemma_filter_keeps_all<A>(s: Seq<A>, p: spec_fn(A) -> bool)
    requires
        forall|i: int| 0 <= i < s.len() ==> p(#[trigger] s[i]),
    ensures
        s.filter(p) == s,
    decreases s.len(),
{
    reveal(Seq::filter);
    if s.len() > 0 {
        lemma_filter_keeps_all(s.drop_last(), p);
        assert(s.drop_last().push(s.last()) =~= s);
    }
}

/// Removing the list just appended, from a list that held none of its elements,
/// gives the list back.
proof fn lemma_append_then_remove_qualities(s: Seq<Quality>, q: Seq<Quality>)
    requires
        forall|i: int| 0 <= i < s.len() ==> quality_kept(q)(#[trigger] s[i]),
    ensures
        kept_qualities(s + q, q) == s,
{
    Seq::filter_distributes_over_add(s, q, quality_kept(q));
    lemma_filter_keeps_all(s, quality_kept(q));
    assert forall|i: int| 0 <= i < q.len() implies !quality_kept(q)(#[trigger] q[i]) by {
        assert(matches_quality(q[i])(q[i]));
    }
    q.lemma_all_neg_filter_empty(quality_kept(q));
    assert(kept_qualities(s + q, q) =~= s);
}

/// The same for lists of strings.
proof fn lemma_append_then_remove_strings(s: Seq<String>, x: Seq<String>)
    requires
        forall|i: int| 0 <= i < s.len() ==> string_kept(x)(#[trigger] s[i]),
    ensures
        kept_strings(s + x, x) == s,
{
    Seq::filter_distributes_over_add(s, x, string_kept(x));
    lemma_filter_keeps_all(s, string_kept(x));
    assert forall|i: int| 0 <= i < x.len() implies !string_kept(x)(#[trigger] x[i]) by {
        assert(matches_string(x[i])(x[i]));
    }
    x.lemma_all_neg_filter_empty(string_kept(x));
    assert(kept_strings(s + x, x) =~= s);
}

/// Adding a value to an attribute and then removing the same value gives back the
/// sheet one started from, whenever `round_trips` holds: `s1` is the sheet after
/// the addition, `s2` the sheet after the removal, as `apply_update` gives them.
pub proof fn law_add_then_remove(
    s0: CharacterSheet,
    attribute: String,
    v: CharacterValue,
    s1: CharacterSheet,
    s2: CharacterSheet,
)
    requires
        derived_consistent(s0.attributes, s0.derived_attributes),
        round_trips(s0, attribute@, v),
        updated_sheet(
            s0,
            CharacterSheetUpdate::Attribute { attribute, operation: UpdateOperation::Add(v) },
            s1,
        ),
        updated_sheet(
            s1,
            CharacterSheetUpdate::Attribute { attribute, operation: UpdateOperation::Remove(v) },
            s2,
        ),
    ensures
        same_values(s2, s0),
{
    match v {
        CharacterValue::HashMapStringItem(m) => {
            law_add_then_remove_items(s0.inventory.view(), m.view());
        },
        CharacterValue::HashMapStringContact(m) => {
            law_add_then_remove_contacts(s0.contacts.view(), m.view());
        },
        CharacterValue::Nuyen(n) => {
            law_add_then_remove_nuyen(s0.nuyen, n);
        },
        CharacterValue::VecQuality(q) => {
            lemma_append_then_remove_qualities(s0.qualities@, q@);
        },
        CharacterValue::VecString(x) => {
            if attribute@ == "cyberware"@ {
                lemma_append_then_remove_strings(s0.cyberware@, x@);
            } else {
                lemma_append_then_remove_strings(s0.bioware@, x@);
            }
        },
        _ => {},
    }
    assert(s1.derived_attributes == s0.derived_attributes);
    assert(s2.derived_attributes == s0.derived_attributes);
}

/// Modifying the inventory sets every item the change names to exactly the quantity
/// and the description the change gives, keeping the name the character carried it
/// under (a new item comes in as given); every item the change does not name stays
/// as it was.
pub proof fn law_modified_items_take_the_change(
    old: CharacterSheet,
    attribute: String,
    change: StrMap<Item>,
    new: CharacterSheet,
)
    requires
        attribute@ == "inventory"@,
        updated_sheet(
            old,
            CharacterSheetUpdate::Attribute {
                attribute,
                operation: UpdateOperation::Modify(CharacterValue::HashMapStringItem(change)),
            },
            new,
        ),
    ensures
        forall|k: Seq<char>|
            #[trigger] change.view().contains_key(k) ==> {
                &&& new.inventory.view().contains_key(k)
                &&& new.inventory.view()[k].quantity == change.view()[k].quantity
                &&& new.inventory.view()[k].description == change.view()[k].description
                &&& new.inventory.view()[k].name == if old.inventory.view().contains_key(k) {
                    old.inventory.view()[k].name
                } else {
                    change.view()[k].name
                }
            },
        forall|k: Seq<char>|
            !change.view().contains_key(k) ==> (#[trigger] new.inventory.view().contains_key(k)
                == old.inventory.view().contains_key(k)) && (old.inventory.view().contains_key(k)
                ==> new.inventory.view()[k] == old.inventory.view()[k]),
{
}

/// Adding to the inventory adds each named item's quantity to the one carried
/// (name and description kept), or carries the item as given when it was not
/// carried; every item the change does not name stays as it was.
pub proof fn law_added_items_add_up(
    old: CharacterSheet,
    attribute: String,
    change: StrMap<Item>,
    new: CharacterSheet,
)
    requires
        attribute@ == "inventory"@,
        addable(old.inventory.view(), change.view()),
        updated_sheet(
            old,
            CharacterSheetUpdate::Attribute {
                attribute,
                operation: UpdateOperation::Add(CharacterValue::HashMapStringItem(change)),
            },
            new,
        ),
    ensures
        forall|k: Seq<char>|
            #[trigger] change.view().contains_key(k) ==> {
                &&& new.inventory.view().contains_key(k)
                &&& if old.inventory.view().contains_key(k) {
                    &&& new.inventory.view()[k].quantity == old.inventory.view()[k].quantity
                        + change.view()[k].quantity
                    &&& new.inventory.view()[k].name == old.inventory.view()[k].name
                    &&& new.inventory.view()[k].description
                        == old.inventory.view()[k].description
                } else {
                    new.inventory.view()[k] == change.view()[k]
                }
            },
        forall|k: Seq<char>|
            !change.view().contains_key(k) ==> (#[trigger] new.inventory.view().contains_key(k)
                == old.inventory.view().contains_key(k)) && (old.inventory.view().contains_key(k)
                ==> new.inventory.view()[k] == old.inventory.view()[k]),
{
    assert forall|k: Seq<char>| #[trigger] change.view().contains_key(k)
        && old.inventory.view().contains_key(k) implies new.inventory.view()[k].quantity
        == old.inventory.view()[k].quantity + change.view()[k].quantity by {
        assert(old.inventory.view().contains_key(k) && change.view().contains_key(k));
    }
}

/// Removing from the inventory takes each named item's quantity away from the one
/// carried, and drops the item when no more than that was carried; an item not
/// carried stays absent, and every item the change does not name stays as it was.
pub proof fn law_removed_items_go_down(
    old: CharacterSheet,
    attribute: String,
    change: StrMap<Item>,
    new: CharacterSheet,
)
    requires
        attribute@ == "inventory"@,
        updated_sheet(
            old,
            CharacterSheetUpdate::Attribute {
                attribute,
                operation: UpdateOperation::Remove(CharacterValue::HashMapStringItem(change)),
            },
            new,
        ),
    ensures
        forall|k: Seq<char>|
            #[trigger] change.view().contains_key(k) ==> if old.inventory.view().contains_key(k)
                && old.inventory.view()[k].quantity > change.view()[k].quantity {
                &&& new.inventory.view().contains_key(k)
                &&& new.inventory.view()[k].quantity == old.inventory.view()[k].quantity
                    - change.view()[k].quantity
                &&& new.inventory.view()[k].name == old.inventory.view()[k].name
                &&& new.inventory.view()[k].description == old.inventory.view()[k].description
            } else {
                !new.inventory.view().contains_key(k)
            },
        forall|k: Seq<char>|
            !change.view().contains_key(k) ==> (#[trigger] new.inventory.view().contains_key(k)
                == old.inventory.view().contains_key(k)) && (old.inventory.view().contains_key(k)
                ==> new.inventory.view()[k] == old.inventory.view()[k]),
{
}

/// Taking away the nuyen just added gives the balance back, unless the addition
/// saturated.
pub proof fn law_add_then_remove_nuyen(nuyen: u32, v: u32)
    requires
        nuyen + v <= u32::MAX,
    ensures
        saturating_sub_u32(saturating_add_u32(nuyen, v), v) == nuyen,
{
}

/// After a removal no kept quality is the same as a removed one, and every kept
/// quality was there before.
pub proof fn law_removed_qualities_are_gone(s: Seq<Quality>, removed: Seq<Quality>)
    ensures
        forall|i: int|
            0 <= i < kept_qualities(s, removed).len() ==> !removed.any(
                matches_quality(#[trigger] kept_qualities(s, removed)[i]),
            ) && s.contains(kept_qualities(s, removed)[i]),
{
    let kept = kept_qualities(s, removed);
    assert forall|i: int| 0 <= i < kept.len() implies !removed.any(matches_quality(#[trigger] kept[i]))
        && s.contains(kept[i]) by {
        s.lemma_filter_pred(quality_kept(removed), i);
        assert(quality_kept(removed)(kept[i]));
        assert(kept.contains(kept[i]));
        s.lemma_filter_contains_rev(quality_kept(removed), kept[i]);
    }
}

} // verus!
