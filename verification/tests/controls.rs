use leptix_primitives::avatar::{
    fallback_is_shown, image_is_shown, next_status, reports_status, ImageEvent, ImageLoadingStatus,
};
use leptix_primitives::checkbox::{
    clicked, indicator_is_present, prevents_key_default, reset_state, shown_state, CheckedState,
};
use leptix_primitives::disclosure::{
    content_is_hidden, content_is_open, is_modal, is_requested, open_data_state,
    overlay_is_rendered, resolve_force_mount, NonModalFocus,
};
use leptix_primitives::toggle::{
    bool_text, checked_data_state, flipped, is_on, pressed_data_state, radio_click_checks,
    radio_indicator_is_present, radio_item_checked, switch_input_value, toggle_click,
};

#[test]
fn checkbox_click_cycle() {
    assert_eq!(clicked(None), CheckedState::Checked(true));
    assert_eq!(clicked(Some(CheckedState::Checked(true))), CheckedState::Checked(false));
    assert_eq!(clicked(Some(CheckedState::Checked(false))), CheckedState::Checked(true));
    assert_eq!(clicked(Some(CheckedState::Indeterminate)), CheckedState::Checked(true));
    let once = clicked(Some(CheckedState::Checked(false)));
    assert_eq!(clicked(Some(once)), CheckedState::Checked(false));
}

#[test]
fn checkbox_states_and_texts() {
    assert_eq!(shown_state(None), CheckedState::Checked(false));
    assert_eq!(reset_state(None), CheckedState::Checked(false));
    assert_eq!(reset_state(Some(CheckedState::Indeterminate)), CheckedState::Indeterminate);
    assert_eq!(CheckedState::Checked(true).data_state(), "checked");
    assert_eq!(CheckedState::Checked(false).data_state(), "unchecked");
    assert_eq!(CheckedState::Indeterminate.data_state(), "indeterminate");
    assert_eq!(CheckedState::Checked(true).aria_checked(), "true");
    assert_eq!(CheckedState::Checked(false).aria_checked(), "false");
    assert_eq!(CheckedState::Indeterminate.aria_checked(), "mixed");
    assert!(CheckedState::Checked(true).input_checked());
    assert!(!CheckedState::Indeterminate.input_checked());
    assert!(CheckedState::Indeterminate.input_indeterminate());
    assert!(!CheckedState::Checked(false).input_indeterminate());
}

#[test]
fn checkbox_indicator_and_keys() {
    assert!(!indicator_is_present(None, CheckedState::Checked(false)));
    assert!(indicator_is_present(Some(true), CheckedState::Checked(false)));
    assert!(indicator_is_present(None, CheckedState::Indeterminate));
    assert!(indicator_is_present(Some(false), CheckedState::Checked(true)));
    assert!(prevents_key_default("Enter"));
    assert!(!prevents_key_default(" "));
}

#[test]
fn toggles_and_switches() {
    assert!(!is_on(None));
    assert!(flipped(None));
    assert!(!flipped(Some(true)));
    assert_eq!(toggle_click(Some(true), true), None);
    assert_eq!(toggle_click(Some(true), false), Some(false));
    assert_eq!(toggle_click(None, false), Some(true));
    assert_eq!(pressed_data_state(true), "on");
    assert_eq!(pressed_data_state(false), "off");
    assert_eq!(checked_data_state(true), "checked");
    assert_eq!(checked_data_state(false), "unchecked");
    assert_eq!(bool_text(true), "true");
    assert_eq!(bool_text(false), "false");
    assert_eq!(switch_input_value(&None), "on");
    assert_eq!(switch_input_value(&Some("yes".to_string())), "yes");
}

#[test]
fn radios() {
    assert!(radio_click_checks(false));
    assert!(!radio_click_checks(true));
    assert!(radio_indicator_is_present(None, true));
    assert!(radio_indicator_is_present(Some(true), false));
    assert!(!radio_indicator_is_present(Some(false), false));
    assert!(radio_item_checked(&Some("a".to_string()), "a"));
    assert!(!radio_item_checked(&Some("a".to_string()), "b"));
    assert!(!radio_item_checked(&None, "a"));
}

#[test]
fn collapsible_and_dialog() {
    assert_eq!(open_data_state(true), "open");
    assert_eq!(open_data_state(false), "closed");
    assert!(is_modal(None));
    assert!(!is_modal(Some(false)));
    assert!(resolve_force_mount(None, Some(true)));
    assert!(!resolve_force_mount(Some(false), Some(true)));
    assert!(!resolve_force_mount(None, None));
    assert!(is_requested(false, true));
    assert!(!is_requested(false, false));
    assert!(!overlay_is_rendered(false, true));
    assert!(overlay_is_rendered(true, true));
    assert!(content_is_open(false, true));
    assert!(content_is_hidden(false, false));
    assert!(!content_is_hidden(true, false));
}

#[test]
fn non_modal_dialog_focus() {
    let mut f = NonModalFocus::new();
    let close = f.close_auto_focus(false);
    assert!(close.focus_trigger && close.prevent_default);

    let mut f = NonModalFocus::new();
    assert!(f.interact_outside(false, true));
    assert!(f.interacted_outside);
    let close = f.close_auto_focus(false);
    assert!(!close.focus_trigger && close.prevent_default);
    assert!(!f.interacted_outside);

    let mut f = NonModalFocus::new();
    assert!(!f.interact_outside(true, false));
    assert!(!f.interacted_outside);
    let close = f.close_auto_focus(true);
    assert!(!close.focus_trigger && !close.prevent_default);
}

#[test]
fn avatar_status() {
    assert_eq!(next_status(ImageLoadingStatus::Idle, ImageEvent::NoSource, true), ImageLoadingStatus::Error);
    assert_eq!(next_status(ImageLoadingStatus::Idle, ImageEvent::NoElement, false), ImageLoadingStatus::Error);
    assert_eq!(next_status(ImageLoadingStatus::Idle, ImageEvent::Load, true), ImageLoadingStatus::Loaded);
    assert_eq!(next_status(ImageLoadingStatus::Idle, ImageEvent::Load, false), ImageLoadingStatus::Idle);
    assert_eq!(next_status(ImageLoadingStatus::Loaded, ImageEvent::Fail, true), ImageLoadingStatus::Error);
    assert_eq!(next_status(ImageLoadingStatus::Loaded, ImageEvent::Fail, false), ImageLoadingStatus::Loaded);
    assert!(image_is_shown(ImageLoadingStatus::Loaded));
    assert!(!image_is_shown(ImageLoadingStatus::Loading));
    assert!(!reports_status(ImageLoadingStatus::Idle));
    assert!(reports_status(ImageLoadingStatus::Error));
    assert!(fallback_is_shown(true, ImageLoadingStatus::Error));
    assert!(!fallback_is_shown(false, ImageLoadingStatus::Error));
    assert!(!fallback_is_shown(true, ImageLoadingStatus::Loaded));
    assert_eq!(ImageLoadingStatus::Idle.name(), "Idle");
    assert_eq!(ImageLoadingStatus::Loaded.name(), "Loaded");
    assert_eq!(ImageLoadingStatus::Loading.name(), "Loading");
    assert_eq!(ImageLoadingStatus::Error.name(), "Error");
}

#[test]
fn collapsible_content_style() {
    let given = Some("color: red".to_string());
    let h = Some("40".to_string());
    let w = Some("120.5".to_string());
    assert_eq!(
        leptix_primitives::disclosure::content_style(&given, &h, &w),
        "color: red; --primitive-collapsible-content-height: 40px; --primitive-collapsible-content-width: 120.5px"
    );
    assert_eq!(leptix_primitives::disclosure::content_style(&None, &None, &None), "");
    assert_eq!(
        leptix_primitives::disclosure::content_style(&None, &None, &w),
        "--primitive-collapsible-content-width: 120.5px"
    );
}
