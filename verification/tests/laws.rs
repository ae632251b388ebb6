use leptix_primitives::scroll_area::{send_scroll_event, ScrollbarScrollEvent, ScrollbarScrollState, HoverScrollbar, starts_hide_timer, scroll_counts};
use leptix_primitives::slider::ThumbRegistry;
use leptix_primitives::toggle::flipped;
use leptix_primitives::toggle_group::multiple_on_item_deactivate;
use leptix_primitives::toggle_group::multiple_on_item_activate;

#[test]
fn scroll_events_twice_land_where_once_does() {
    let states = [
        ScrollbarScrollState::Hidden,
        ScrollbarScrollState::Scrolling,
        ScrollbarScrollState::Interacting,
        ScrollbarScrollState::Idle,
    ];
    let events = [
        ScrollbarScrollEvent::Scroll,
        ScrollbarScrollEvent::ScrollEnd,
        ScrollbarScrollEvent::PointerEnter,
        ScrollbarScrollEvent::PointerLeave,
        ScrollbarScrollEvent::Hide,
    ];
    for s in states {
        for e in events {
            let once = send_scroll_event(s, e);
            assert_eq!(send_scroll_event(once, e), once);
        }
    }
}

#[test]
fn hover_scrollbar_timer() {
    let mut h = HoverScrollbar::new();
    assert!(!h.is_present(false));
    assert!(h.is_present(true));
    assert!(!h.pointer_enter());
    assert!(h.visible);
    h.pointer_leave();
    assert!(h.visible && h.hide_pending);
    assert!(h.pointer_enter());
    assert!(!h.hide_pending);
    h.pointer_leave();
    h.hide_timer_fired();
    assert!(!h.visible);
    assert!(starts_hide_timer(ScrollbarScrollState::Idle));
    assert!(!starts_hide_timer(ScrollbarScrollState::Scrolling));
    assert!(scroll_counts(0, 12));
    assert!(!scroll_counts(12, 12));
}

#[test]
fn flipping_twice_gives_the_state_back() {
    for v in [None, Some(false), Some(true)] {
        assert_eq!(flipped(Some(flipped(v))), v.unwrap_or(false));
    }
}

#[test]
fn releasing_a_pressed_item_leaves_the_others() {
    let values = vec!["a".to_string(), "b".to_string()];
    let pressed = multiple_on_item_activate(&Some(values.clone()), &"c".to_string());
    assert_eq!(multiple_on_item_deactivate(&Some(pressed), &"c".to_string()), values);
}

#[test]
fn unmounting_a_new_thumb_restores_the_registry() {
    let mut r = ThumbRegistry::new();
    r.register(1);
    r.register(2);
    r.register(3);
    r.unregister(3);
    assert_eq!((r.thumb_at(0), r.thumb_at(1), r.thumb_at(2)), (Some(1), Some(2), None));
}
