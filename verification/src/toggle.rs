//! Two-state controls: toggles, switches and radios.

use vstd::prelude::*;
use crate::text::str_equals;

verus! {

/// An unknown state counts as off.
pub open spec fn spec_is_on(value: Option<bool>) -> bool {
    match value {
        Some(b) => b,
        None => false,
    }
}

/// Whether a control holding `value` is on.
pub fn is_on(value: Option<bool>) -> (r: bool)
    ensures
        r == spec_is_on(value),
{
    match value {
        Some(b) => b,
        None => false,
    }
}

/// The state after a flip: the opposite of the current one, unknown counting
/// as off.
pub fn flipped(value: Option<bool>) -> (r: bool)
    ensures
        r == !spec_is_on(value),
{
    !is_on(value)
}

/// A click on a toggle flips it unless it is disabled; `None` leaves it as it
/// is.
pub fn toggle_click(pressed: Option<bool>, disabled: bool) -> (r: Option<bool>)
    ensures
        disabled ==> r.is_none(),
        !disabled ==> r == Some(!spec_is_on(pressed)),
{
    if disabled {
        None
    } else {
        Some(flipped(pressed))
    }
}

/// `"on"` or `"off"`, the `data-state` of a toggle.
pub fn pressed_data_state(pressed: bool) -> (r: &'static str)
    ensures
        r@ == (if pressed {
            "on"@
        } else {
            "off"@
        }),
{
    if pressed {
        "on"
    } else {
        "off"
    }
}

/// `"checked"` or `"unchecked"`, the `data-state` of a switch or a radio.
pub fn checked_data_state(checked: bool) -> (r: &'static str)
    ensures
        r@ == (if checked {
            "checked"@
        } else {
            "unchecked"@
        }),
{
    if checked {
        "checked"
    } else {
        "unchecked"
    }
}

/// `"true"` or `"false"`, as `aria-pressed` and `aria-checked` write a flag.
pub fn bool_text(b: bool) -> (r: &'static str)
    ensures
        r@ == (if b {
            "true"@
        } else {
            "false"@
        }),
{
    if b {
        "true"
    } else {
        "false"
    }
}

/// A click on a radio checks it only when it is not checked yet.
pub fn radio_click_checks(checked: bool) -> (r: bool)
    ensures
        r == !checked,
{
    !checked
}

/// An item of a radio group is checked when its value is the group's.
pub fn radio_item_checked(group_value: &Option<String>, item_value: &str) -> (r: bool)
    ensures
        r == (match group_value {
            Some(v) => v@ == item_value@,
            None => false,
        }),
{
    match group_value {
        Some(v) => str_equals(v.as_str(), item_value),
        None => false,
    }
}

/// A radio's indicator is present when mounted by force or when the radio is
/// checked.
pub fn radio_indicator_is_present(force_mount: Option<bool>, checked: bool) -> (r: bool)
    ensures
        r == (force_mount == Some(true) || checked),
{
    is_on(force_mount) || checked
}

/// The value a switch submits with its form: its own, or `"on"`.
pub fn switch_input_value(value: &Option<String>) -> (r: String)
    ensures
        r@ == (match value {
            Some(v) => v@,
            None => "on"@,
        }),
{
    match value {
        Some(v) => String::from_str(v.as_str()),
        None => String::from_str("on"),
    }
}

/// Flipping twice gives back the state that a control showed.
pub proof fn lemma_flip_twice(value: Option<bool>)
    ensures
        !spec_is_on(Some(!spec_is_on(value))) == spec_is_on(value),
{
}

} // verus!
