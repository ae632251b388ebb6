//! Separators, labels and toolbars: the few decisions these simple parts
//! make.

use vstd::prelude::*;
use crate::layout::{Direction, Orientation};
use crate::slot::{AttrValue, AttrView, pairs_view};
use crate::text::str_equals;

verus! {

/// A decorative separator is hidden from assistive technology.
pub fn separator_role(decorative: bool) -> (r: &'static str)
    ensures
        r@ == (if decorative {
            "none"@
        } else {
            "separator"@
        }),
{
    if decorative {
        "none"
    } else {
        "separator"
    }
}

/// The `aria-orientation` of a separator: none for a decorative one.
pub fn separator_aria_orientation(decorative: bool, orientation: Orientation) -> (r: Option<
    &'static str,
>)
    ensures
        decorative ==> r.is_none(),
        !decorative ==> (r matches Some(s) && s@ == orientation.spec_attr()),
{
    if decorative {
        None
    } else {
        Some(orientation.as_str())
    }
}

/// A label prevents the default of a mouse press that was prevented already
/// and is part of a multiple click.
pub fn label_prevents_mouse_down(default_prevented: bool, detail: i32) -> (r: bool)
    ensures
        r == (default_prevented && detail > 1),
{
    default_prevented && detail > 1
}

/// Space on a toolbar link follows the link, as a click would.
pub fn link_key_clicks(key: &str) -> (r: bool)
    ensures
        r == (key@ == " "@),
{
    str_equals(key, " ")
}

/// The attributes of a toolbar: its role, its orientation and its reading
/// direction.
pub open spec fn spec_toolbar_attrs(orientation: Orientation, direction: Direction) -> Seq<
    (Seq<char>, AttrView),
> {
    seq![
        ("role"@, AttrView::Text("toolbar"@)),
        ("aria-orientation"@, AttrView::Text(orientation.spec_attr())),
        ("dir"@, AttrView::Text(direction.spec_attr())),
    ]
}

/// The attributes a toolbar puts before those it is given.
pub fn toolbar_attrs(orientation: Orientation, direction: Direction) -> (r: Vec<(String, AttrValue)>)
    ensures
        pairs_view(r@) == spec_toolbar_attrs(orientation, direction),
{
    let mut v: Vec<(String, AttrValue)> = Vec::new();
    v.push((String::from_str("role"), AttrValue::Text(String::from_str("toolbar"))));
    v.push(
        (
            String::from_str("aria-orientation"),
            AttrValue::Text(String::from_str(orientation.as_str())),
        ),
    );
    v.push((String::from_str("dir"), AttrValue::Text(String::from_str(direction.as_str()))));
    assert(pairs_view(v@) =~= spec_toolbar_attrs(orientation, direction));
    v
}

} // verus!
