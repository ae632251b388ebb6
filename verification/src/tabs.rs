//! Tabs: element ids that tie triggers to panels, when a trigger activates
//! its tab, and how a panel is shown.

use vstd::prelude::*;
use crate::text::{join_with, str_equals};

verus! {

/// Whether focusing a trigger activates its tab.
#[derive(Clone, Copy, Debug, PartialEq, Eq, Structural)]
pub enum ActivationMode {
    /// Focus activates.
    Automatic,
    /// Only a click or Enter or Space activates.
    Manual,
}

impl Default for ActivationMode {
    fn default() -> (r: Self)
        ensures
            r == ActivationMode::Automatic,
    {
        ActivationMode::Automatic
    }
}

/// The id of the trigger of tab `value` in the tabs with id `base`.
pub open spec fn spec_trigger_id(base: Seq<char>, value: Seq<char>) -> Seq<char> {
    base + "-trigger-"@ + value
}

/// The id of the panel of tab `value` in the tabs with id `base`.
pub open spec fn spec_content_id(base: Seq<char>, value: Seq<char>) -> Seq<char> {
    base + "-content-"@ + value
}

/// The id of the trigger of tab `value` in the tabs with id `base`.
pub fn trigger_id(base: &str, value: &str) -> (r: String)
    ensures
        r@ == spec_trigger_id(base@, value@),
{
    join_with(base, "-trigger-", value)
}

/// The id of the panel of tab `value` in the tabs with id `base`.
pub fn content_id(base: &str, value: &str) -> (r: String)
    ensures
        r@ == spec_content_id(base@, value@),
{
    join_with(base, "-content-", value)
}

/// A tab is selected when it is the tabs' current value.
pub fn is_selected(current: &Option<String>, value: &str) -> (r: bool)
    ensures
        r == (match current {
            Some(c) => c@ == value@,
            None => false,
        }),
{
    match current {
        Some(c) => str_equals(c.as_str(), value),
        None => false,
    }
}

/// `"active"` or `"inactive"`, the `data-state` of a trigger or a panel.
pub fn selected_data_state(selected: bool) -> (r: &'static str)
    ensures
        r@ == (if selected {
            "active"@
        } else {
            "inactive"@
        }),
{
    if selected {
        "active"
    } else {
        "inactive"
    }
}

/// A press of the main button without Ctrl on an enabled trigger activates
/// its tab; any other press has its default prevented instead.
pub fn mouse_down_activates(disabled: Option<bool>, button: i16, ctrl: bool) -> (r: bool)
    ensures
        r == (disabled != Some(true) && button == 0 && !ctrl),
{
    let is_disabled = match disabled {
        Some(d) => d,
        None => false,
    };
    !is_disabled && button == 0 && !ctrl
}

/// Space and Enter activate the focused trigger's tab.
pub fn key_activates(key: &str) -> (r: bool)
    ensures
        r == (key@ == " "@ || key@ == "Enter"@),
{
    str_equals(key, " ") || str_equals(key, "Enter")
}

/// Focus activates a tab that is not selected yet and not disabled, unless
/// activation is manual.
pub fn focus_activates(selected: bool, disabled: Option<bool>, mode: ActivationMode) -> (r: bool)
    ensures
        r == (!selected && disabled != Some(true) && mode != ActivationMode::Manual),
{
    let is_disabled = match disabled {
        Some(d) => d,
        None => false,
    };
    let automatic = match mode {
        ActivationMode::Automatic => true,
        ActivationMode::Manual => false,
    };
    !selected && !is_disabled && automatic
}

/// Tab lists move focus round from the last trigger to the first unless told
/// otherwise.
pub fn list_loops(should_loop: Option<bool>) -> (r: bool)
    ensures
        r == (should_loop != Some(false)),
{
    match should_loop {
        Some(l) => l,
        None => true,
    }
}

/// A panel is in the tree while its tab is selected or when mounted by force.
pub fn content_is_present(selected: bool, force_mount: Option<bool>) -> (r: bool)
    ensures
        r == (selected || force_mount == Some(true)),
{
    selected || match force_mount {
        Some(f) => f,
        None => false,
    }
}

/// The `style` of a panel: the style it was given followed by `"; "`, then
/// `animation-duration: 0s` while the mount animation is suppressed.
pub open spec fn spec_content_style(given: Option<Seq<char>>, animation_prevented: bool) -> Seq<
    char,
> {
    (match given {
        Some(g) => g + "; "@,
        None => Seq::empty(),
    }) + (if animation_prevented {
        "animation-duration: 0s"@
    } else {
        Seq::empty()
    })
}

/// The `style` of a panel given the style it was passed.
pub fn content_style(given: &Option<String>, animation_prevented: bool) -> (r: String)
    ensures
        r@ == spec_content_style(
            match given {
                Some(g) => Some(g@),
                None => None,
            },
            animation_prevented,
        ),
{
    let mut s = String::new();
    match given {
        Some(g) => {
            s.append(g.as_str());
            s.append("; ");
        },
        None => {},
    }
    if animation_prevented {
        s.append("animation-duration: 0s");
    }
    proof {
        assert(Seq::<char>::empty() + Seq::<char>::empty() =~= Seq::<char>::empty());
    }
    s
}

/// Within one set of tabs, ids tell tabs apart: two tabs share a trigger id
/// (or a panel id) only when they share a value, and no trigger has the id of
/// a panel.
pub proof fn lemma_ids_identify_tabs(base: Seq<char>, v1: Seq<char>, v2: Seq<char>)
    ensures
        (spec_trigger_id(base, v1) == spec_trigger_id(base, v2)) <==> v1 == v2,
        (spec_content_id(base, v1) == spec_content_id(base, v2)) <==> v1 == v2,
        spec_trigger_id(base, v1) != spec_content_id(base, v2),
{
    reveal_strlit("-trigger-");
    reveal_strlit("-content-");
    let n = base.len() + 9;
    if spec_trigger_id(base, v1) == spec_trigger_id(base, v2) {
        assert(v1 =~= spec_trigger_id(base, v1).subrange(n as int, spec_trigger_id(base, v1).len() as int));
        assert(v2 =~= spec_trigger_id(base, v2).subrange(n as int, spec_trigger_id(base, v2).len() as int));
    }
    if spec_content_id(base, v1) == spec_content_id(base, v2) {
        assert(v1 =~= spec_content_id(base, v1).subrange(n as int, spec_content_id(base, v1).len() as int));
        assert(v2 =~= spec_content_id(base, v2).subrange(n as int, spec_content_id(base, v2).len() as int));
    }
    assert(spec_trigger_id(base, v1)[base.len() as int + 1] == 't');
    assert(spec_content_id(base, v2)[base.len() as int + 1] == 'c');
}

/// A panel's style keeps the style it was given, in front, and adds the
/// animation override only while the mount animation is suppressed.
pub proof fn lemma_content_style(given: Option<Seq<char>>, prevented: bool)
    ensures
        given matches Some(g) ==> spec_content_style(given, prevented).subrange(0, g.len() as int + 2)
            == g + "; "@,
        given is None ==> spec_content_style(given, prevented) == (if prevented {
            "animation-duration: 0s"@
        } else {
            Seq::<char>::empty()
        }),
        !prevented ==> (given matches Some(g) ==> spec_content_style(given, prevented) == g
            + "; "@),
{
    reveal_strlit("; ");
    match given {
        Some(g) => {
            let s = spec_content_style(given, prevented);
            assert(s.subrange(0, g.len() as int + 2) =~= g + "; "@);
            if !prevented {
                assert(s =~= g + "; "@);
            }
        },
        None => {
            assert(Seq::<char>::empty() + Seq::<char>::empty() =~= Seq::<char>::empty());
            assert(Seq::<char>::empty() + "animation-duration: 0s"@ =~= "animation-duration: 0s"@);
        },
    }
}

} // verus!
