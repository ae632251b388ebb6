use leptix_primitives::accordion::{
    is_collapsible, item_is_open, key_focus_index, multiple_on_item_close, multiple_on_item_open,
    single_on_item_close, single_on_item_open, single_open_values, trigger_aria_disabled,
    AccordionKind,
};
use leptix_primitives::collection::order_by_position;
use leptix_primitives::layout::{Direction, Orientation};
use leptix_primitives::roving_focus::{
    entry_candidates, focus_candidates, get_direction_aware_key, get_focus_intent,
    item_key_action, item_tab_index, FocusIntent, Modifiers, RovingGroup, RovingItem,
    RovingKeyAction,
};
use leptix_primitives::toggle_group::{
    item_has_radio_role, item_is_disabled, item_is_pressed, multiple_on_item_activate,
    multiple_on_item_deactivate, single_on_item_activate, single_on_item_deactivate,
    ToggleGroupKind,
};

fn s(v: &[&str]) -> Vec<String> {
    v.iter().map(|x| x.to_string()).collect()
}

fn item(focusable: bool, active: bool, is_current: bool) -> RovingItem {
    RovingItem { focusable, active, is_current }
}

const NONE: Modifiers = Modifiers { shift: false, ctrl: false, meta: false, alt: false };

#[test]
fn direction_aware_keys() {
    assert_eq!(get_direction_aware_key("ArrowLeft", Some(Direction::RightToLeft)), "ArrowRight");
    assert_eq!(get_direction_aware_key("ArrowRight", Some(Direction::RightToLeft)), "ArrowLeft");
    assert_eq!(get_direction_aware_key("ArrowLeft", Some(Direction::LeftToRight)), "ArrowLeft");
    assert_eq!(get_direction_aware_key("ArrowUp", Some(Direction::RightToLeft)), "ArrowUp");
    assert_eq!(get_direction_aware_key("ArrowLeft", None), "ArrowLeft");
}

#[test]
fn focus_intents() {
    assert_eq!(get_focus_intent("ArrowLeft", None, None), Some(FocusIntent::Prev));
    assert_eq!(get_focus_intent("ArrowDown", None, None), Some(FocusIntent::Next));
    assert_eq!(get_focus_intent("Home", None, None), Some(FocusIntent::First));
    assert_eq!(get_focus_intent("PageUp", None, None), Some(FocusIntent::First));
    assert_eq!(get_focus_intent("End", None, None), Some(FocusIntent::Last));
    assert_eq!(get_focus_intent("PageDown", None, None), Some(FocusIntent::Last));
    assert_eq!(get_focus_intent("ArrowLeft", Some(Orientation::Vertical), None), None);
    assert_eq!(get_focus_intent("ArrowUp", Some(Orientation::Horizontal), None), None);
    assert_eq!(
        get_focus_intent("ArrowLeft", Some(Orientation::Horizontal), Some(Direction::RightToLeft)),
        Some(FocusIntent::Next)
    );
    assert_eq!(get_focus_intent("Enter", None, None), None);
}

#[test]
fn roving_item_keys() {
    let shift = Modifiers { shift: true, ..NONE };
    assert_eq!(item_key_action("Tab", shift, false, None, None), RovingKeyAction::ShiftTab);
    assert_eq!(item_key_action("ArrowDown", NONE, false, None, None), RovingKeyAction::Ignore);
    assert_eq!(
        item_key_action("ArrowDown", NONE, true, None, None),
        RovingKeyAction::Move(FocusIntent::Next)
    );
    assert_eq!(item_key_action("ArrowDown", shift, true, None, None), RovingKeyAction::Ignore);
    assert_eq!(item_key_action("Tab", NONE, true, None, None), RovingKeyAction::Ignore);
}

#[test]
fn roving_candidates() {
    let items = vec![
        item(true, false, false),
        item(false, false, false),
        item(true, false, true),
        item(true, false, false),
    ];
    assert_eq!(focus_candidates(&items, FocusIntent::First, false), vec![0, 2, 3]);
    assert_eq!(focus_candidates(&items, FocusIntent::Last, false), vec![3, 2, 0]);
    assert_eq!(focus_candidates(&items, FocusIntent::Next, false), vec![3]);
    assert_eq!(focus_candidates(&items, FocusIntent::Prev, false), vec![0]);
    assert_eq!(focus_candidates(&items, FocusIntent::Next, true), vec![3]);
    let last = vec![item(true, false, false), item(true, false, true)];
    assert_eq!(focus_candidates(&last, FocusIntent::Next, false), Vec::<usize>::new());
    assert_eq!(focus_candidates(&last, FocusIntent::Next, true), vec![0, 1]);
    let none_current = vec![item(true, false, false), item(true, false, false)];
    assert_eq!(focus_candidates(&none_current, FocusIntent::Next, false), vec![0, 1]);
}

#[test]
fn roving_entry() {
    let items = vec![
        item(true, false, false),
        item(false, true, false),
        item(true, true, false),
        item(true, false, true),
    ];
    assert_eq!(entry_candidates(&items), vec![0, 2, 3, 2, 3]);
    assert_eq!(entry_candidates(&vec![item(false, true, true)]), Vec::<usize>::new());
}

#[test]
fn roving_group_state() {
    let mut g = RovingGroup::new();
    assert_eq!(g.tab_index(), -1);
    g.focusable_item_added();
    assert_eq!(g.tab_index(), 0);
    assert!(g.focus(true));
    g.mouse_down();
    assert!(!g.focus(true));
    assert!(g.focus(true));
    assert!(!g.focus(false));
    g.item_shift_tab();
    assert_eq!(g.tab_index(), -1);
    assert!(!g.focus(true));
    g.blur();
    assert_eq!(g.tab_index(), 0);
    g.focusable_item_removed();
    assert_eq!(g.tab_index(), -1);
    assert_eq!(item_tab_index(true), 0);
    assert_eq!(item_tab_index(false), -1);
}

#[test]
fn accordion_single() {
    assert_eq!(single_open_values(&None), Vec::<String>::new());
    assert_eq!(single_open_values(&Some("a".to_string())), s(&["a"]));
    assert_eq!(single_on_item_open(&"b".to_string()), Some("b".to_string()));
    assert_eq!(single_on_item_close(true), Some(String::new()));
    assert!(item_is_open(&s(&["a", "b"]), &"b".to_string()));
    assert!(!item_is_open(&s(&["a"]), &"b".to_string()));
    assert!(trigger_aria_disabled(true, false));
    assert!(!trigger_aria_disabled(true, true));
    assert!(!trigger_aria_disabled(false, false));
    assert!(is_collapsible(AccordionKind::Multiple, false));
    assert!(!is_collapsible(AccordionKind::Single, false));
}

#[test]
fn accordion_multiple() {
    assert_eq!(multiple_on_item_open(&None, &"a".to_string()), Vec::<String>::new());
    assert_eq!(multiple_on_item_open(&Some(s(&["a"])), &"b".to_string()), s(&["a", "b"]));
    assert_eq!(multiple_on_item_close(&Some(s(&["a", "b", "a"])), &"a".to_string()), s(&["b", "a"]));
    assert_eq!(multiple_on_item_close(&None, &"a".to_string()), Vec::<String>::new());
    let opened = multiple_on_item_open(&Some(s(&["x"])), &"y".to_string());
    assert_eq!(multiple_on_item_close(&Some(opened), &"y".to_string()), s(&["x"]));
}

#[test]
fn accordion_keys() {
    let h = Orientation::Horizontal;
    let v = Orientation::Vertical;
    let ltr = Direction::LeftToRight;
    let rtl = Direction::RightToLeft;
    assert_eq!(key_focus_index(false, "ArrowDown", v, ltr, 1, 3), None);
    assert_eq!(key_focus_index(true, "Home", v, ltr, 2, 3), Some(0));
    assert_eq!(key_focus_index(true, "End", v, ltr, 0, 3), Some(0));
    assert_eq!(key_focus_index(true, "ArrowDown", v, ltr, 1, 3), Some(0));
    assert_eq!(key_focus_index(true, "ArrowUp", v, ltr, 2, 3), Some(1));
    assert_eq!(key_focus_index(true, "ArrowLeft", h, ltr, 2, 3), Some(1));
    assert_eq!(key_focus_index(true, "ArrowRight", h, rtl, 2, 3), Some(1));
    assert_eq!(key_focus_index(true, "ArrowRight", h, ltr, 2, 3), Some(0));
    assert_eq!(key_focus_index(true, "ArrowLeft", v, ltr, 2, 3), Some(2));
    assert_eq!(key_focus_index(true, "x", v, ltr, 2, 3), Some(2));
}

#[test]
fn toggle_groups() {
    assert!(item_is_pressed(&s(&["a"]), &"a".to_string()));
    assert_eq!(single_on_item_activate(&"a".to_string()), "a");
    assert_eq!(single_on_item_deactivate(), "");
    assert_eq!(multiple_on_item_activate(&None, &"a".to_string()), s(&["a"]));
    assert_eq!(multiple_on_item_activate(&Some(s(&["a"])), &"b".to_string()), s(&["a", "b"]));
    assert_eq!(
        multiple_on_item_deactivate(&Some(s(&["a", "b", "a"])), &"a".to_string()),
        s(&["b"])
    );
    assert_eq!(multiple_on_item_deactivate(&None, &"a".to_string()), Vec::<String>::new());
    assert!(item_has_radio_role(ToggleGroupKind::Single));
    assert!(!item_has_radio_role(ToggleGroupKind::Multiple));
    assert!(item_is_disabled(true, Some(false)));
    assert!(item_is_disabled(false, Some(true)));
    assert!(!item_is_disabled(false, None));
}

#[test]
fn collection_order() {
    assert_eq!(order_by_position(&vec![]), Vec::<usize>::new());
    assert_eq!(order_by_position(&vec![2, 0, 1]), vec![1, 2, 0]);
    assert_eq!(order_by_position(&vec![1, -1, 1, 0]), vec![1, 3, 0, 2]);
}
