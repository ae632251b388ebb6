use leptix_primitives::layout::Orientation;
use leptix_primitives::scroll_area::{
    auto_scrollbar_visible, corner_is_shown, has_thumb, is_scrolling_within_scrollbar_bounds,
    scroll_hide_delay, scroll_scrollbar_data_state, scroll_scrollbar_is_present,
    scrollbar_variant, viewport_overflow, visibility_data_state, ScrollAreaKind,
    ScrollbarScrollState, ScrollbarSize, ScrollbarVariant, Sizes,
};

fn sizes(content: i32, viewport: i32, size: i32, start: i32, end: i32) -> Sizes {
    Sizes {
        content,
        viewport,
        scrollbar: ScrollbarSize { size, padding_start: start, padding_end: end },
    }
}

#[test]
fn scroll_area_defaults_and_states() {
    assert_eq!(ScrollAreaKind::default(), ScrollAreaKind::Hover);
    assert!(scroll_scrollbar_is_present(false, ScrollbarScrollState::Hidden));
    assert!(!scroll_scrollbar_is_present(false, ScrollbarScrollState::Idle));
    assert!(scroll_scrollbar_is_present(true, ScrollbarScrollState::Idle));
    assert_eq!(scroll_scrollbar_data_state(ScrollbarScrollState::Hidden), "hidden");
    assert_eq!(scroll_scrollbar_data_state(ScrollbarScrollState::Scrolling), "visible");
    assert_eq!(visibility_data_state(true), "visible");
    assert_eq!(visibility_data_state(false), "hidden");
    assert_eq!(viewport_overflow(true), "scroll");
    assert_eq!(viewport_overflow(false), "hidden");
}

#[test]
fn overflow_and_corner() {
    assert!(auto_scrollbar_visible(Orientation::Horizontal, 100, 200, 100, 50));
    assert!(!auto_scrollbar_visible(Orientation::Vertical, 100, 200, 100, 50));
    assert!(corner_is_shown(ScrollAreaKind::Auto, true, true, 0, 0));
    assert!(!corner_is_shown(ScrollAreaKind::Scroll, true, true, 0, 0));
    assert!(corner_is_shown(ScrollAreaKind::Scroll, false, false, 10, 10));
    assert!(!corner_is_shown(ScrollAreaKind::Hover, true, false, 10, 0));
    assert!(is_scrolling_within_scrollbar_bounds(5, 10));
    assert!(!is_scrolling_within_scrollbar_bounds(0, 10));
    assert!(!is_scrolling_within_scrollbar_bounds(10, 10));
}

#[test]
fn thumb_shown_when_viewport_is_smaller_than_content() {
    assert!(has_thumb(&sizes(600, 300, 300, 0, 0)));
    assert!(has_thumb(&sizes(200, 100, 300, 0, 0)));
    assert!(!has_thumb(&sizes(300, 300, 300, 0, 0)));
    assert!(!has_thumb(&sizes(100, 200, 300, 0, 0)));
    assert!(!has_thumb(&sizes(0, 200, 300, 0, 0)));
    assert!(!has_thumb(&sizes(200, 0, 300, 0, 0)));
    assert!(has_thumb(&sizes(-200, -100, 300, 0, 0)));
    assert!(!has_thumb(&sizes(-200, 100, 300, 0, 0)));
}

#[test]
fn scrollbar_variants_and_delay() {
    assert_eq!(scrollbar_variant(ScrollAreaKind::Hover), ScrollbarVariant::Hover);
    assert_eq!(scrollbar_variant(ScrollAreaKind::Scroll), ScrollbarVariant::Scroll);
    assert_eq!(scrollbar_variant(ScrollAreaKind::Auto), ScrollbarVariant::Auto);
    assert_eq!(scrollbar_variant(ScrollAreaKind::Always), ScrollbarVariant::Visible);
    assert_eq!(scroll_hide_delay(None), 600);
    assert_eq!(scroll_hide_delay(Some(50)), 50);
}
