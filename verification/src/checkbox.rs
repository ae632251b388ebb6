//! Checkbox: its three states, what a click makes of them, and how each state
//! is shown to assistive technology and to style sheets.

use vstd::prelude::*;
use crate::text::str_equals;

verus! {

/// The state of a checkbox: checked or not, or indeterminate.
#[derive(Clone, Copy, Debug, PartialEq, Eq, Structural)]
pub enum CheckedState {
    Checked(bool),
    Indeterminate,
}

/// The state a checkbox shows: unchecked until a value is known.
pub open spec fn spec_shown_state(value: Option<CheckedState>) -> CheckedState {
    match value {
        Some(s) => s,
        None => CheckedState::Checked(false),
    }
}

/// The state that a checkbox holding `value` shows.
pub fn shown_state(value: Option<CheckedState>) -> (r: CheckedState)
    ensures
        r == spec_shown_state(value),
{
    match value {
        Some(s) => s,
        None => CheckedState::Checked(false),
    }
}

/// A click flips a checked box and checks an indeterminate one; an unknown
/// state counts as unchecked.
pub open spec fn spec_clicked(value: Option<CheckedState>) -> CheckedState {
    match spec_shown_state(value) {
        CheckedState::Checked(c) => CheckedState::Checked(!c),
        CheckedState::Indeterminate => CheckedState::Checked(true),
    }
}

/// The state of a checkbox after a click on it.
pub fn clicked(value: Option<CheckedState>) -> (r: CheckedState)
    ensures
        r == spec_clicked(value),
{
    match shown_state(value) {
        CheckedState::Checked(c) => CheckedState::Checked(!c),
        CheckedState::Indeterminate => CheckedState::Checked(true),
    }
}

/// The state a form reset restores: the state the checkbox started with, or
/// unchecked.
pub fn reset_state(initial: Option<CheckedState>) -> (r: CheckedState)
    ensures
        r == spec_shown_state(initial),
{
    shown_state(initial)
}

impl CheckedState {
    /// The `data-state` text of a state.
    pub open spec fn spec_data_state(self) -> Seq<char> {
        match self {
            CheckedState::Checked(true) => "checked"@,
            CheckedState::Checked(false) => "unchecked"@,
            CheckedState::Indeterminate => "indeterminate"@,
        }
    }

    /// `"checked"`, `"unchecked"` or `"indeterminate"`.
    pub fn data_state(&self) -> (r: &'static str)
        ensures
            r@ == self.spec_data_state(),
    {
        match self {
            CheckedState::Checked(true) => "checked",
            CheckedState::Checked(false) => "unchecked",
            CheckedState::Indeterminate => "indeterminate",
        }
    }

    /// The `aria-checked` text of a state.
    pub open spec fn spec_aria_checked(self) -> Seq<char> {
        match self {
            CheckedState::Checked(true) => "true"@,
            CheckedState::Checked(false) => "false"@,
            CheckedState::Indeterminate => "mixed"@,
        }
    }

    /// `"true"`, `"false"` or `"mixed"`.
    pub fn aria_checked(&self) -> (r: &'static str)
        ensures
            r@ == self.spec_aria_checked(),
    {
        match self {
            CheckedState::Checked(true) => "true",
            CheckedState::Checked(false) => "false",
            CheckedState::Indeterminate => "mixed",
        }
    }

    /// Whether the native input behind the checkbox is checked: only a
    /// checked state is.
    pub fn input_checked(&self) -> (r: bool)
        ensures
            r == (*self == CheckedState::Checked(true)),
    {
        match self {
            CheckedState::Checked(c) => *c,
            CheckedState::Indeterminate => false,
        }
    }

    /// Whether the native input behind the checkbox is indeterminate.
    pub fn input_indeterminate(&self) -> (r: bool)
        ensures
            r == (*self == CheckedState::Indeterminate),
    {
        match self {
            CheckedState::Checked(_) => false,
            CheckedState::Indeterminate => true,
        }
    }
}

/// The indicator is present when mounted by force or when the box is not
/// plainly unchecked.
pub fn indicator_is_present(force_mount: Option<bool>, state: CheckedState) -> (r: bool)
    ensures
        r == ((force_mount == Some(true)) || state != CheckedState::Checked(false)),
{
    let forced = match force_mount {
        Some(f) => f,
        None => false,
    };
    forced || !matches!(state, CheckedState::Checked(false))
}

/// Enter does not toggle a checkbox: its default is prevented.
pub fn prevents_key_default(key: &str) -> (r: bool)
    ensures
        r == (key@ == "Enter"@),
{
    str_equals(key, "Enter")
}

/// Clicking twice on a box that is checked or unchecked gives the state back;
/// an indeterminate box becomes checked and stays so after each second click.
pub proof fn lemma_click_twice(value: Option<CheckedState>)
    ensures
        spec_shown_state(value) != CheckedState::Indeterminate ==> spec_clicked(
            Some(spec_clicked(value)),
        ) == spec_shown_state(value),
        spec_shown_state(value) == CheckedState::Indeterminate ==> spec_clicked(value)
            == CheckedState::Checked(true) && spec_clicked(Some(spec_clicked(Some(spec_clicked(value)))))
            == CheckedState::Checked(true),
{
}

/// A click never leaves a box indeterminate.
pub proof fn lemma_click_decides(value: Option<CheckedState>)
    ensures
        spec_clicked(value) != CheckedState::Indeterminate,
{
}

} // verus!
