use leptix_primitives::layout::{Direction, Orientation, Side};
use leptix_primitives::popper::{
    desired_placement, positioning_plan, Align, Placement, Sticky, UpdatePositionStrategy,
};
use leptix_primitives::slider::{
    bubble_input_name, find_closest_index, get_label, is_skip_key, key_action, key_update,
    slider_axis, slides_from_left, OrientationDirection, SlideDirection, SliderKeyAction,
    SliderUpdate, Size, StepTarget, ThumbRegistry,
};
use leptix_primitives::tabs::{
    content_id, content_is_present, content_style, focus_activates, is_selected, key_activates,
    list_loops, mouse_down_activates, selected_data_state, trigger_id, ActivationMode,
};

#[test]
fn tab_ids() {
    assert_eq!(trigger_id("tabs-1", "account"), "tabs-1-trigger-account");
    assert_eq!(content_id("tabs-1", "account"), "tabs-1-content-account");
    assert_ne!(trigger_id("b", "x"), content_id("b", "x"));
}

#[test]
fn tab_activation() {
    assert_eq!(ActivationMode::default(), ActivationMode::Automatic);
    assert!(is_selected(&Some("a".to_string()), "a"));
    assert!(!is_selected(&None, "a"));
    assert_eq!(selected_data_state(true), "active");
    assert_eq!(selected_data_state(false), "inactive");
    assert!(mouse_down_activates(None, 0, false));
    assert!(!mouse_down_activates(Some(true), 0, false));
    assert!(!mouse_down_activates(None, 2, false));
    assert!(!mouse_down_activates(None, 0, true));
    assert!(key_activates(" "));
    assert!(key_activates("Enter"));
    assert!(!key_activates("Tab"));
    assert!(focus_activates(false, None, ActivationMode::Automatic));
    assert!(!focus_activates(false, None, ActivationMode::Manual));
    assert!(!focus_activates(true, None, ActivationMode::Automatic));
    assert!(!focus_activates(false, Some(true), ActivationMode::Automatic));
    assert!(list_loops(None));
    assert!(!list_loops(Some(false)));
    assert!(content_is_present(false, Some(true)));
    assert!(!content_is_present(false, None));
}

#[test]
fn tab_content_style() {
    assert_eq!(content_style(&None, false), "");
    assert_eq!(content_style(&None, true), "animation-duration: 0s");
    assert_eq!(
        content_style(&Some("color: red".to_string()), true),
        "color: red; animation-duration: 0s"
    );
    assert_eq!(content_style(&Some("color: red".to_string()), false), "color: red; ");
}

#[test]
fn slider_axes() {
    assert!(slides_from_left(Direction::LeftToRight, false));
    assert!(!slides_from_left(Direction::RightToLeft, false));
    assert!(slides_from_left(Direction::RightToLeft, true));
    let a = slider_axis(Orientation::Horizontal, Direction::LeftToRight, false);
    assert_eq!((a.start_edge, a.end_edge, a.size), (Side::Left, Side::Right, Size::Width));
    assert_eq!(a.slide_direction, SlideDirection::FromLeft);
    let b = slider_axis(Orientation::Horizontal, Direction::LeftToRight, true);
    assert_eq!((b.start_edge, b.end_edge), (Side::Right, Side::Left));
    assert_eq!(b.direction, OrientationDirection::Backward);
    let v = slider_axis(Orientation::Vertical, Direction::RightToLeft, false);
    assert_eq!((v.start_edge, v.end_edge, v.size), (Side::Bottom, Side::Top, Size::Height));
    assert_eq!(v.slide_direction, SlideDirection::FromBottom);
    let w = slider_axis(Orientation::Vertical, Direction::LeftToRight, true);
    assert_eq!(w.slide_direction, SlideDirection::FromTop);
}

#[test]
fn slider_keys() {
    assert_eq!(key_action("Home", SlideDirection::FromLeft), SliderKeyAction::Home);
    assert_eq!(key_action("End", SlideDirection::FromTop), SliderKeyAction::End);
    assert_eq!(key_action("ArrowLeft", SlideDirection::FromLeft), SliderKeyAction::Step(OrientationDirection::Backward));
    assert_eq!(key_action("ArrowLeft", SlideDirection::FromRight), SliderKeyAction::Step(OrientationDirection::Forward));
    assert_eq!(key_action("ArrowRight", SlideDirection::FromRight), SliderKeyAction::Step(OrientationDirection::Backward));
    assert_eq!(key_action("ArrowUp", SlideDirection::FromBottom), SliderKeyAction::Step(OrientationDirection::Backward));
    assert_eq!(key_action("ArrowDown", SlideDirection::FromBottom), SliderKeyAction::Step(OrientationDirection::Forward));
    assert_eq!(key_action("PageUp", SlideDirection::FromTop), SliderKeyAction::Step(OrientationDirection::Forward));
    assert_eq!(key_action("PageDown", SlideDirection::FromTop), SliderKeyAction::Step(OrientationDirection::Backward));
    assert_eq!(key_action("a", SlideDirection::FromLeft), SliderKeyAction::Ignore);
    assert!(is_skip_key("PageUp", false));
    assert!(is_skip_key("ArrowUp", true));
    assert!(!is_skip_key("ArrowUp", false));
    assert!(!is_skip_key("Home", true));
}

#[test]
fn slider_key_updates() {
    assert_eq!(key_update(SliderKeyAction::Home, true, 3, Some(1), false), None);
    assert_eq!(
        key_update(SliderKeyAction::Home, false, 3, Some(1), false),
        Some(SliderUpdate { at_index: 0, target: StepTarget::Min })
    );
    assert_eq!(
        key_update(SliderKeyAction::End, false, 3, Some(1), false),
        Some(SliderUpdate { at_index: 2, target: StepTarget::Max })
    );
    assert_eq!(
        key_update(SliderKeyAction::Step(OrientationDirection::Backward), false, 3, Some(1), true),
        Some(SliderUpdate { at_index: 1, target: StepTarget::Steps(-10) })
    );
    assert_eq!(
        key_update(SliderKeyAction::Step(OrientationDirection::Forward), false, 3, Some(2), false),
        Some(SliderUpdate { at_index: 2, target: StepTarget::Steps(1) })
    );
    assert_eq!(key_update(SliderKeyAction::Step(OrientationDirection::Forward), false, 3, None, false), None);
    assert_eq!(key_update(SliderKeyAction::Ignore, false, 3, Some(0), false), None);
}

#[test]
fn slider_labels_and_names() {
    assert_eq!(get_label(0, 1), None);
    assert_eq!(get_label(0, 2), Some("Minimum".to_string()));
    assert_eq!(get_label(1, 2), Some("Maximum".to_string()));
    assert_eq!(get_label(2, 2), None);
    assert_eq!(get_label(0, 3), Some("Value 1 of 3".to_string()));
    assert_eq!(get_label(11, 12), Some("Value 12 of 12".to_string()));
    assert_eq!(bubble_input_name(&None, 2), None);
    assert_eq!(bubble_input_name(&Some("volume".to_string()), 1), Some("volume".to_string()));
    assert_eq!(bubble_input_name(&Some("range".to_string()), 2), Some("range[]".to_string()));
}

#[test]
fn slider_closest_value() {
    assert_eq!(find_closest_index(&vec![]), None);
    assert_eq!(find_closest_index(&vec![5]), Some(0));
    assert_eq!(find_closest_index(&vec![30, 4, 9, 4]), Some(1));
    assert_eq!(find_closest_index(&vec![2, 2]), Some(0));
}

#[test]
fn slider_thumbs() {
    let mut r = ThumbRegistry::new();
    r.register(7);
    r.register(9);
    r.register(7);
    assert_eq!(r.thumb_at(0), Some(7));
    assert_eq!(r.thumb_at(3), None);
    assert_eq!(r.index_of(9), Some(1));
    r.unregister(7);
    assert_eq!(r.thumb_at(0), Some(9));
    assert_eq!(r.thumb_at(1), Some(7));
    r.unregister(9);
    r.unregister(7);
    assert_eq!(r.thumb_at(0), None);
    assert_eq!(r.index_of(7), None);
}

#[test]
fn popper_placement() {
    assert_eq!(desired_placement(Side::Bottom, Align::Center), Placement::Bottom);
    assert_eq!(desired_placement(Side::Top, Align::Start), Placement::TopStart);
    assert_eq!(desired_placement(Side::Left, Align::End), Placement::LeftEnd);
    assert_eq!(desired_placement(Side::Right, Align::Center), Placement::Right);
    let p = positioning_plan(true, Sticky::Partial, false, UpdatePositionStrategy::Optimized);
    assert!(p.shift && p.limit_shift && !p.hide && !p.every_frame);
    let q = positioning_plan(true, Sticky::Always, true, UpdatePositionStrategy::Always);
    assert!(q.shift && !q.limit_shift && q.hide && q.every_frame);
    let n = positioning_plan(false, Sticky::Partial, false, UpdatePositionStrategy::Optimized);
    assert!(!n.shift && !n.limit_shift);
}
