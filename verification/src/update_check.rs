//! Deciding, before an update is applied, whether applying it stays within the
//! integer types of the sheet.
use vstd::prelude::*;

use crate::character::{
    attributes_derivable, race_fits, with_race, Attributes, CharacterSheet,
    CharacterSheetUpdate, CharacterValue, Item, UpdateOperation,
};
use crate::sheet_update::{
    add_accepts, addable, modify_accepts, set_u8_attribute, u8_attribute, update_ok,
};
use crate::strmap::{str_eq, StrMap};

verus! {

broadcast use vstd::string::group_string_axioms;

fn is_u8_attribute(a: &str) -> (b: bool)
    ensures
        b == u8_attribute(a@),
{
    str_eq(a, "main") || str_eq(a, "body") || str_eq(a, "agility") || str_eq(a, "reaction")
        || str_eq(a, "strength") || str_eq(a, "willpower") || str_eq(a, "logic") || str_eq(
        a,
        "intuition",
    ) || str_eq(a, "charisma") || str_eq(a, "edge")
}

fn modify_takes(attribute: &str, value: &CharacterValue) -> (b: bool)
    ensures
        b == modify_accepts(attribute@, *value),
{
    match value {
        CharacterValue::String(_) => str_eq(attribute, "name") || str_eq(attribute, "gender")
            || str_eq(attribute, "backstory") || str_eq(attribute, "lifestyle"),
        CharacterValue::Race(_) => str_eq(attribute, "race"),
        CharacterValue::U8(_) => is_u8_attribute(attribute),
        CharacterValue::OptionU8(_) => str_eq(attribute, "magic") || str_eq(attribute, "resonance"),
        CharacterValue::Skills(_) => str_eq(attribute, "skills"),
        CharacterValue::HashMapStringU8(_) => str_eq(attribute, "knowledge_skills"),
        CharacterValue::Nuyen(_) => str_eq(attribute, "nuyen"),
        CharacterValue::HashMapStringContact(_) => str_eq(attribute, "contacts"),
        CharacterValue::VecQuality(_) => str_eq(attribute, "qualities"),
        CharacterValue::VecString(_) => str_eq(attribute, "cyberware") || str_eq(
            attribute,
            "bioware",
        ),
        CharacterValue::HashMapStringItem(_) => str_eq(attribute, "inventory"),
        CharacterValue::OptionMatrixAttributes(_) => str_eq(attribute, "matrix_attributes"),
    }
}

fn add_takes(attribute: &str, value: &CharacterValue) -> (b: bool)
    ensures
        b == add_accepts(attribute@, *value),
{
    match value {
        CharacterValue::Nuyen(_) => str_eq(attribute, "nuyen"),
        CharacterValue::HashMapStringContact(_) => str_eq(attribute, "contacts"),
        CharacterValue::VecQuality(_) => str_eq(attribute, "qualities"),
        CharacterValue::VecString(_) => str_eq(attribute, "cyberware") || str_eq(
            attribute,
            "bioware",
        ),
        CharacterValue::HashMapStringItem(_) => str_eq(attribute, "inventory"),
        _ => false,
    }
}

fn set_u8(a: Attributes, attribute: &str, v: u8) -> (r: Attributes)
    ensures
        r == set_u8_attribute(a, attribute@, v),
{
    if str_eq(attribute, "body") {
        Attributes { body: v, ..a }
    } else if str_eq(attribute, "agility") {
        Attributes { agility: v, ..a }
    } else if str_eq(attribute, "reaction") {
        Attributes { reaction: v, ..a }
    } else if str_eq(attribute, "strength") {
        Attributes { strength: v, ..a }
    } else if str_eq(attribute, "willpower") {
        Attributes { willpower: v, ..a }
    } else if str_eq(attribute, "logic") {
        Attributes { logic: v, ..a }
    } else if str_eq(attribute, "intuition") {
        Attributes { intuition: v, ..a }
    } else if str_eq(attribute, "charisma") {
        Attributes { charisma: v, ..a }
    } else if str_eq(attribute, "edge") {
        Attributes { edge: v, ..a }
    } else {
        a
    }
}

/// Whether adding the items of `changes` to `inv` keeps every quantity within
/// `u32`.
pub fn items_addable(inv: &StrMap<Item>, changes: &StrMap<Item>) -> (b: bool)
    ensures
        b == addable(inv.view(), changes.view()),
{
    proof {
        use_type_invariant(changes);
    }
    let n = changes.len();
    let mut i: usize = 0;
    while i < n
        invariant
            changes.wf(),
            n == changes.pairs().len(),
            i <= n,
            forall|j: int|
                0 <= j < i ==> (#[trigger] inv.view().contains_key(changes.pairs()[j].0@)
                    ==> inv.view()[changes.pairs()[j].0@].quantity + changes.pairs()[j].1.quantity
                    <= u32::MAX),
        decreases n - i,
    {
        let key = changes.key_at(i);
        let change = changes.value_at(i);
        match inv.get(key.as_str()) {
            Some(carried) => {
                if (carried.quantity as u64) + (change.quantity as u64) > 0xffff_ffffu64 {
                    proof {
                        changes.lemma_position(i as int);
                        let k = changes.pairs()[i as int].0@;
                        assert(inv.view().contains_key(k) && changes.view().contains_key(k));
                    }
                    return false;
                }
            },
            None => {},
        }
        i = i + 1;
    }
    assert forall|k: Seq<char>|
        #![trigger inv.view().contains_key(k), changes.view().contains_key(k)]
        inv.view().contains_key(k) && changes.view().contains_key(k) implies inv.view()[k].quantity
        + changes.view()[k].quantity <= u32::MAX by {
        let j = changes.position(k);
        changes.lemma_position(j);
        assert(inv.view().contains_key(changes.pairs()[j].0@));
    }
    true
}

/// Whether applying `update` to `sheet` stays within the integer types: a refused
/// update always does; an accepted one when its metatype's bonuses and added
/// quantities fit and the resulting attributes' derived values fit in a byte.
pub fn update_fits(sheet: &CharacterSheet, update: &CharacterSheetUpdate) -> (b: bool)
    ensures
        b == update_ok(*sheet, *update),
{
    let ess = sheet.derived_attributes.essence;
    match update {
        CharacterSheetUpdate::Attribute { attribute, operation } => {
            let a = attribute.as_str();
            let accepted = match operation {
                UpdateOperation::Modify(v) => modify_takes(a, v),
                UpdateOperation::Add(v) => add_takes(a, v),
                UpdateOperation::Remove(v) => add_takes(a, v),
            };
            if !accepted {
                return true;
            }
            match operation {
                UpdateOperation::Modify(CharacterValue::Race(r)) => {
                    if !race_fits(sheet.attributes, *r) {
                        return false;
                    }
                    attributes_derivable(with_race(sheet.attributes, *r), ess)
                },
                UpdateOperation::Modify(CharacterValue::U8(v)) => {
                    let after = if str_eq(a, "main") {
                        sheet.attributes
                    } else {
                        set_u8(sheet.attributes, a, *v)
                    };
                    attributes_derivable(after, ess)
                },
                UpdateOperation::Add(CharacterValue::HashMapStringItem(v)) => {
                    attributes_derivable(sheet.attributes, ess) && items_addable(
                        &sheet.inventory,
                        v,
                    )
                },
                _ => attributes_derivable(sheet.attributes, ess),
            }
        },
    }
}

} // verus!
