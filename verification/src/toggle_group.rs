//! Toggle group: which items are pressed and how pressing an item changes the
//! group's value.

use vstd::prelude::*;

use crate::value_list::{
    copy_list, list_contains, remove_every_value, views, without, lemma_without, lemma_without_after_push,
};

verus! {

/// Whether the group holds one pressed item or many.
#[derive(Clone, Copy, Debug, PartialEq, Eq, Structural)]
pub enum ToggleGroupKind {
    Single,
    Multiple,
}

/// An item is pressed when its value is among the group's values.
pub fn item_is_pressed(values: &Vec<String>, item: &String) -> (r: bool)
    ensures
        r == views(values@).contains(item@),
{
    list_contains(values, item)
}

/// The value a single group is set to when an item is pressed.
pub fn single_on_item_activate(item: &String) -> (r: String)
    ensures
        r@ == item@,
{
    item.clone()
}

/// The value a single group is set to when its pressed item is released: the
/// empty value.
pub fn single_on_item_deactivate() -> (r: String)
    ensures
        r@.len() == 0,
{
    String::new()
}

/// The values of a multiple group after the item `item` is pressed: it is
/// appended; a group without a value gets the one-element list.
pub fn multiple_on_item_activate(previous: &Option<Vec<String>>, item: &String) -> (r: Vec<String>)
    ensures
        views(r@) == match previous {
            Some(p) => views(p@).push(item@),
            None => seq![item@],
        },
{
    match previous {
        Some(p) => {
            let mut out = copy_list(p);
            out.push(item.clone());
            assert(views(out@) =~= views(p@).push(item@));
            out
        },
        None => {
            let mut out: Vec<String> = Vec::new();
            out.push(item.clone());
            assert(views(out@) =~= seq![item@]);
            out
        },
    }
}

/// The values of a multiple group after the item `item` is released: every
/// occurrence of it is removed; a group without a value gets an empty list.
pub fn multiple_on_item_deactivate(previous: &Option<Vec<String>>, item: &String) -> (r: Vec<
    String,
>)
    ensures
        views(r@) == match previous {
            Some(p) => without(views(p@), item@),
            None => Seq::<Seq<char>>::empty(),
        },
{
    match previous {
        Some(p) => remove_every_value(p, item),
        None => {
            let out: Vec<String> = Vec::new();
            assert(views(out@) =~= Seq::<Seq<char>>::empty());
            out
        },
    }
}

/// Items of a single group act as radio buttons: they carry `role="radio"`
/// and an `aria-checked` that follows the pressed state.
pub fn item_has_radio_role(kind: ToggleGroupKind) -> (r: bool)
    ensures
        r == (kind == ToggleGroupKind::Single),
{
    kind == ToggleGroupKind::Single
}

/// An item is disabled when the group or the item is.
pub fn item_is_disabled(group_disabled: bool, item_disabled: Option<bool>) -> (r: bool)
    ensures
        r == (group_disabled || item_disabled == Some(true)),
{
    group_disabled || match item_disabled {
        Some(d) => d,
        None => false,
    }
}

/// In a multiple group, releasing an item right after pressing it leaves
/// every other pressed item as it was, in order; the item is no longer
/// pressed, and a group in which it was not pressed is back where it was.
pub proof fn lemma_release_undoes_press(values: Seq<Seq<char>>, item: Seq<char>)
    ensures
        without(values.push(item), item) == without(values, item),
        !without(values.push(item), item).contains(item),
        !values.contains(item) ==> without(values.push(item), item) == values,
{
    lemma_without_after_push(values, item);
    lemma_without(values, item);
}

} // verus!
