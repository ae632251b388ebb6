//! Accordion: which items are open, what opening and closing an item does to
//! the accordion's value, and where the arrow keys move focus among triggers.

use vstd::prelude::*;

use crate::layout::{Direction, Orientation};
use crate::text::str_equals;
use crate::value_list::{copy_list, list_contains, remove_first_value, views, lemma_remove_after_push};

verus! {

/// Whether the accordion holds one open item or many.
#[derive(Clone, Copy, Debug, PartialEq, Eq, Structural)]
pub enum AccordionKind {
    Single,
    Multiple,
}

/// The list of open values seen by the items of a single accordion.
pub fn single_open_values(value: &Option<String>) -> (r: Vec<String>)
    ensures
        views(r@) == match value {
            Some(v) => seq![v@],
            None => Seq::<Seq<char>>::empty(),
        },
{
    let mut out: Vec<String> = Vec::new();
    match value {
        Some(v) => {
            out.push(v.clone());
            assert(views(out@) =~= seq![v@]);
        },
        None => {
            assert(views(out@) =~= Seq::<Seq<char>>::empty());
        },
    }
    out
}

/// An item is open when its value is not empty and is among the open values.
pub open spec fn spec_item_is_open(open_values: Seq<Seq<char>>, item: Seq<char>) -> bool {
    item.len() > 0 && open_values.contains(item)
}

/// Whether the item with value `item` is open.
pub fn item_is_open(open_values: &Vec<String>, item: &String) -> (r: bool)
    ensures
        r == spec_item_is_open(views(open_values@), item@),
{
    let found = list_contains(open_values, item);
    let n = item.as_str().unicode_len();
    found && n > 0
}

/// The value a single accordion is set to when the item `item` opens.
pub fn single_on_item_open(item: &String) -> (r: Option<String>)
    ensures
        r matches Some(v) && v@ == item@,
{
    Some(item.clone())
}

/// What a single accordion is set to when an item closes: the empty value
/// when the accordion is collapsible, nothing at all (the item stays open)
/// otherwise.
pub fn single_on_item_close(collapsible: bool) -> (r: Option<String>)
    ensures
        collapsible ==> (r matches Some(v) && v@.len() == 0),
        !collapsible ==> r is None,
{
    if collapsible {
        let v = String::new();
        Some(v)
    } else {
        None
    }
}

/// The value of a multiple accordion after the item `item` opens: the value
/// is appended; an accordion without a value becomes one with an empty list.
pub fn multiple_on_item_open(previous: &Option<Vec<String>>, item: &String) -> (r: Vec<String>)
    ensures
        views(r@) == match previous {
            Some(p) => views(p@).push(item@),
            None => Seq::<Seq<char>>::empty(),
        },
{
    match previous {
        Some(p) => {
            let mut out = copy_list(p);
            out.push(item.clone());
            assert(views(out@) =~= views(p@).push(item@));
            out
        },
        None => {
            let out: Vec<String> = Vec::new();
            assert(views(out@) =~= Seq::<Seq<char>>::empty());
            out
        },
    }
}

/// The value of a multiple accordion after the item `item` closes: its
/// first occurrence is removed; an accordion without a value becomes one with
/// an empty list.
pub fn multiple_on_item_close(previous: &Option<Vec<String>>, item: &String) -> (r: Vec<String>)
    ensures
        views(r@) == match previous {
            Some(p) => views(p@).remove_value(item@),
            None => Seq::<Seq<char>>::empty(),
        },
{
    match previous {
        Some(p) => remove_first_value(p, item),
        None => {
            let out: Vec<String> = Vec::new();
            assert(views(out@) =~= Seq::<Seq<char>>::empty());
            out
        },
    }
}

/// A trigger is `aria-disabled` while its item is open and cannot be closed.
pub fn trigger_aria_disabled(open: bool, collapsible: bool) -> (r: bool)
    ensures
        r == (open && !collapsible),
{
    open && !collapsible
}

/// Whether a multiple accordion lets its items close: always.
pub fn is_collapsible(kind: AccordionKind, single_collapsible: bool) -> (r: bool)
    ensures
        r == match kind {
            AccordionKind::Single => single_collapsible,
            AccordionKind::Multiple => true,
        },
{
    match kind {
        AccordionKind::Single => single_collapsible,
        AccordionKind::Multiple => true,
    }
}

/// How a key moves the trigger index before it is wrapped by the number of
/// triggers. Home and End both go to the first trigger, and a forward arrow
/// always goes to the first trigger; a backward arrow goes one trigger back.
pub open spec fn spec_next_trigger_index(
    key: Seq<char>,
    orientation: Orientation,
    direction: Direction,
    index: int,
) -> int {
    if key == "Home"@ || key == "End"@ {
        0
    } else if key == "ArrowRight"@ {
        if orientation == Orientation::Horizontal {
            if direction == Direction::LeftToRight {
                0
            } else {
                index - 1
            }
        } else {
            index
        }
    } else if key == "ArrowDown"@ {
        if orientation == Orientation::Vertical {
            0
        } else {
            index
        }
    } else if key == "ArrowLeft"@ {
        if orientation == Orientation::Horizontal {
            if direction == Direction::LeftToRight {
                index - 1
            } else {
                0
            }
        } else {
            index
        }
    } else if key == "ArrowUp"@ {
        if orientation == Orientation::Vertical {
            index - 1
        } else {
            index
        }
    } else {
        index
    }
}

/// The key steps back from the current trigger (which cannot be done from the
/// first one).
pub open spec fn steps_back(key: Seq<char>, orientation: Orientation, direction: Direction) -> bool {
    ||| key == "ArrowRight"@ && orientation == Orientation::Horizontal && direction
        == Direction::RightToLeft
    ||| key == "ArrowLeft"@ && orientation == Orientation::Horizontal && direction
        == Direction::LeftToRight
    ||| key == "ArrowUp"@ && orientation == Orientation::Vertical
}

/// The trigger that receives focus after a key press on the trigger at
/// `index` among `count` enabled triggers, or `None` when the accordion does
/// not handle keys: it handles them only while it is disabled.
pub fn key_focus_index(
    disabled: bool,
    key: &str,
    orientation: Orientation,
    direction: Direction,
    index: usize,
    count: usize,
) -> (r: Option<usize>)
    requires
        index < count,
        disabled ==> !(steps_back(key@, orientation, direction) && index == 0),
    ensures
        !disabled ==> r is None,
        disabled ==> r == Some(
            (spec_next_trigger_index(key@, orientation, direction, index as int) % (count as int)) as usize,
        ),
{
    if !disabled {
        return None;
    }
    let horizontal = orientation == Orientation::Horizontal;
    let vertical = orientation == Orientation::Vertical;
    let ltr = direction == Direction::LeftToRight;
    let next: usize = if str_equals(key, "Home") || str_equals(key, "End") {
        0
    } else if str_equals(key, "ArrowRight") {
        if horizontal {
            if ltr {
                0
            } else {
                index - 1
            }
        } else {
            index
        }
    } else if str_equals(key, "ArrowDown") {
        if vertical {
            0
        } else {
            index
        }
    } else if str_equals(key, "ArrowLeft") {
        if horizontal {
            if ltr {
                index - 1
            } else {
                0
            }
        } else {
            index
        }
    } else if str_equals(key, "ArrowUp") {
        if vertical {
            index - 1
        } else {
            index
        }
    } else {
        index
    };
    Some(next % count)
}

/// In a multiple accordion, closing an item right after opening it gives the
/// open items back, when the item was not open before.
pub proof fn lemma_close_undoes_open(open_values: Seq<Seq<char>>, item: Seq<char>)
    requires
        !open_values.contains(item),
    ensures
        open_values.push(item).remove_value(item) == open_values,
{
    lemma_remove_after_push(open_values, item);
}

/// Arrows across the accordion's axis leave focus where it is: Up and Down
/// in a horizontal accordion, Left and Right in a vertical one. Home and End
/// always go to the first trigger; an arrow forwards along the axis goes to
/// the first trigger and one backwards to the trigger before.
pub proof fn lemma_cross_axis_keys_stay(direction: Direction, index: int)
    ensures
        spec_next_trigger_index("ArrowUp"@, Orientation::Horizontal, direction, index) == index,
        spec_next_trigger_index("ArrowDown"@, Orientation::Horizontal, direction, index) == index,
        spec_next_trigger_index("ArrowLeft"@, Orientation::Vertical, direction, index) == index,
        spec_next_trigger_index("ArrowRight"@, Orientation::Vertical, direction, index) == index,
        spec_next_trigger_index("Home"@, Orientation::Vertical, direction, index) == 0,
        spec_next_trigger_index("End"@, Orientation::Horizontal, direction, index) == 0,
        spec_next_trigger_index("ArrowDown"@, Orientation::Vertical, direction, index) == 0,
        spec_next_trigger_index("ArrowUp"@, Orientation::Vertical, direction, index) == index - 1,
        spec_next_trigger_index("ArrowRight"@, Orientation::Horizontal, Direction::LeftToRight, index)
            == 0,
        spec_next_trigger_index("ArrowLeft"@, Orientation::Horizontal, Direction::LeftToRight, index)
            == index - 1,
        spec_next_trigger_index("ArrowLeft"@, Orientation::Horizontal, Direction::RightToLeft, index)
            == 0,
        spec_next_trigger_index("ArrowRight"@, Orientation::Horizontal, Direction::RightToLeft, index)
            == index - 1,
{
    reveal_strlit("Home");
    reveal_strlit("End");
    reveal_strlit("ArrowLeft");
    reveal_strlit("ArrowRight");
    reveal_strlit("ArrowUp");
    reveal_strlit("ArrowDown");
    assert("Home"@.len() == 4 && "End"@.len() == 3);
    assert("ArrowLeft"@.len() == 9 && "ArrowRight"@.len() == 10 && "ArrowUp"@.len() == 7
        && "ArrowDown"@.len() == 9);
    assert("ArrowLeft"@[5] != "ArrowDown"@[5]);
}

} // verus!
