use leptix_primitives::dismissable_layer::{dismisses, focus_outside, LayerStack, OutsideAction};

#[test]
fn modal_layer_blocks_pointer_events_below() {
    let mut s = LayerStack::new();
    assert!(!s.is_body_pointer_events_disabled());
    s.register(1, false);
    assert_eq!(s.pointer_events_style(1), None);
    s.register(2, true);
    s.register(3, false);
    assert!(s.is_body_pointer_events_disabled());
    assert_eq!(s.highest_disabling_index(), Some(1));
    assert!(!s.is_pointer_events_enabled(1));
    assert!(s.is_pointer_events_enabled(2));
    assert!(s.is_pointer_events_enabled(3));
    assert_eq!(s.pointer_events_style(1), Some("none"));
    assert_eq!(s.pointer_events_style(3), Some("auto"));
    assert_eq!(s.pointer_down_outside(1, false), OutsideAction::Ignore);
    assert_eq!(s.pointer_down_outside(3, false), OutsideAction::Notify);
    assert_eq!(s.pointer_down_outside(3, true), OutsideAction::Ignore);
    s.unregister(2);
    assert!(!s.is_body_pointer_events_disabled());
    assert_eq!(s.index_of(3), Some(1));
}

#[test]
fn escape_reaches_the_top_layer_only() {
    let mut s = LayerStack::new();
    s.register(10, false);
    s.register(11, false);
    s.register(10, false);
    assert_eq!(s.index_of(10), Some(0));
    assert!(s.is_highest_layer(11));
    assert_eq!(s.escape_key_down(11), OutsideAction::Notify);
    assert_eq!(s.escape_key_down(10), OutsideAction::Ignore);
    s.unregister(11);
    assert_eq!(s.escape_key_down(10), OutsideAction::Notify);
}

#[test]
fn branches_and_dismissal() {
    let mut s = LayerStack::new();
    s.add_branch(5);
    s.add_branch(5);
    assert!(s.is_branch(5));
    s.remove_branch(5);
    assert!(!s.is_branch(5));
    assert_eq!(focus_outside(true), OutsideAction::Ignore);
    assert_eq!(focus_outside(false), OutsideAction::Notify);
    assert!(dismisses(OutsideAction::Notify, false));
    assert!(!dismisses(OutsideAction::Notify, true));
    assert!(!dismisses(OutsideAction::Ignore, false));
}
