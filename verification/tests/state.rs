use leptix_primitives::checkbox::CheckedState;
use leptix_primitives::controllable::{
    create_controllable_signal, create_previous, CreateControllableSignalProps,
    WriteControllableSignal,
};
use leptix_primitives::presence::{
    change_event, ends_exit, initial_state, is_rendered, send_event, tracked_animation,
    PresenceEvent, PresenceState,
};
use leptix_primitives::scroll_area::{
    send_scroll_event, ScrollbarScrollEvent, ScrollbarScrollState,
};
use leptix_primitives::state_machine::{step, InvalidState, MachineState};

#[test]
fn controlled_values_are_left_to_their_owner() {
    let mut s = create_controllable_signal(CreateControllableSignalProps {
        value: Some(1u32),
        default_value: Some(5),
    });
    assert!(s.is_controlled());
    assert_eq!(*s.current(), Some(1));
    let n = s.set(3);
    assert_eq!((n.value, n.times), (3, 1));
    assert_eq!(*s.current(), Some(1));
    assert_eq!(s.uncontrolled, Some(5));
}

#[test]
fn uncontrolled_values_are_stored() {
    let mut s: WriteControllableSignal<String> = create_controllable_signal(
        CreateControllableSignalProps { value: None, default_value: Some("a".to_string()) },
    );
    assert!(!s.is_controlled());
    assert_eq!(*s.current(), Some("a".to_string()));
    let n = s.set("b".to_string());
    assert_eq!(n.value, "b");
    assert_eq!(n.times, 2);
    assert_eq!(*s.current(), Some("b".to_string()));
    let again = s.set("b".to_string());
    assert_eq!(again.times, 1);
}

#[test]
fn update_writes_what_the_change_made() {
    let mut s = create_controllable_signal(CreateControllableSignalProps {
        value: None,
        default_value: None::<CheckedState>,
    });
    let n = s.update(Some(CheckedState::Checked(true))).unwrap();
    assert_eq!(n.value, CheckedState::Checked(true));
    assert_eq!(n.times, 2);
    assert_eq!(*s.current(), Some(CheckedState::Checked(true)));
    assert!(s.update(None).is_none());
    assert_eq!(*s.current(), None);
    let mut c = create_controllable_signal(CreateControllableSignalProps {
        value: Some(true),
        default_value: None,
    });
    let m = c.update(Some(false)).unwrap();
    assert_eq!((m.value, m.times), (false, 1));
    assert_eq!(*c.current(), Some(true));
}

#[test]
fn previous_value_tracking() {
    let mut p = create_previous(CheckedState::Checked(false));
    assert_eq!(p.observe(CheckedState::Checked(false)), CheckedState::Checked(false));
    assert_eq!(p.previous, CheckedState::Checked(false));
    assert_eq!(p.observe(CheckedState::Indeterminate), CheckedState::Indeterminate);
    assert_eq!(p.previous, CheckedState::Checked(false));
    assert_eq!(p.value, CheckedState::Indeterminate);
    p.observe(CheckedState::Indeterminate);
    assert_eq!(p.previous, CheckedState::Checked(false));
}

#[test]
fn presence_machine() {
    assert_eq!(initial_state(true), PresenceState::Mounted);
    assert_eq!(initial_state(false), PresenceState::Unmounted);
    assert_eq!(send_event(PresenceState::Mounted, PresenceEvent::Unmount), PresenceState::Unmounted);
    assert_eq!(send_event(PresenceState::Mounted, PresenceEvent::AnimationOut), PresenceState::UnmountSuspended);
    assert_eq!(send_event(PresenceState::UnmountSuspended, PresenceEvent::AnimationEnd), PresenceState::Unmounted);
    assert_eq!(send_event(PresenceState::UnmountSuspended, PresenceEvent::Mount), PresenceState::Mounted);
    assert_eq!(send_event(PresenceState::Unmounted, PresenceEvent::Mount), PresenceState::Mounted);
    assert_eq!(send_event(PresenceState::Unmounted, PresenceEvent::Unmount), PresenceState::Unmounted);
    assert_eq!(PresenceState::Mounted.send(PresenceEvent::Mount), Err(InvalidState));
    assert_eq!(step(PresenceState::Unmounted, PresenceEvent::AnimationEnd), PresenceState::Unmounted);
    assert!(is_rendered(PresenceState::UnmountSuspended));
    assert!(!is_rendered(PresenceState::Unmounted));
    // applying an event twice lands where applying it once does
    assert_eq!(send_event(send_event(PresenceState::Mounted, PresenceEvent::AnimationOut), PresenceEvent::AnimationOut), PresenceState::UnmountSuspended);
}

#[test]
fn presence_changes() {
    assert_eq!(change_event(true, true, "fade", None, "fade"), None);
    assert_eq!(change_event(false, true, "none", None, "none"), Some(PresenceEvent::Mount));
    assert_eq!(change_event(true, false, "none", None, "x"), Some(PresenceEvent::Unmount));
    assert_eq!(change_event(true, false, "fade", Some("none"), "x"), Some(PresenceEvent::Unmount));
    assert_eq!(change_event(true, false, "fade-out", Some("block"), "fade-in"), Some(PresenceEvent::AnimationOut));
    assert_eq!(change_event(true, false, "fade", None, "fade"), Some(PresenceEvent::Unmount));
    assert_eq!(tracked_animation(PresenceState::Mounted, "fade"), "fade");
    assert_eq!(tracked_animation(PresenceState::Unmounted, "fade"), "none");
    assert!(ends_exit("fade-out, spin", "spin", true));
    assert!(!ends_exit("fade-out", "spin", true));
    assert!(!ends_exit("fade-out", "fade-out", false));
}

#[test]
fn scrollbar_scroll_machine() {
    assert_eq!(send_scroll_event(ScrollbarScrollState::Hidden, ScrollbarScrollEvent::Scroll), ScrollbarScrollState::Scrolling);
    assert_eq!(send_scroll_event(ScrollbarScrollState::Scrolling, ScrollbarScrollEvent::ScrollEnd), ScrollbarScrollState::Idle);
    assert_eq!(send_scroll_event(ScrollbarScrollState::Scrolling, ScrollbarScrollEvent::PointerEnter), ScrollbarScrollState::Interacting);
    assert_eq!(send_scroll_event(ScrollbarScrollState::Interacting, ScrollbarScrollEvent::Scroll), ScrollbarScrollState::Interacting);
    assert_eq!(send_scroll_event(ScrollbarScrollState::Interacting, ScrollbarScrollEvent::PointerLeave), ScrollbarScrollState::Idle);
    assert_eq!(send_scroll_event(ScrollbarScrollState::Idle, ScrollbarScrollEvent::Hide), ScrollbarScrollState::Hidden);
    assert_eq!(send_scroll_event(ScrollbarScrollState::Idle, ScrollbarScrollEvent::Scroll), ScrollbarScrollState::Scrolling);
    assert_eq!(send_scroll_event(ScrollbarScrollState::Idle, ScrollbarScrollEvent::PointerEnter), ScrollbarScrollState::Interacting);
    assert_eq!(send_scroll_event(ScrollbarScrollState::Hidden, ScrollbarScrollEvent::Hide), ScrollbarScrollState::Hidden);
    assert_eq!(send_scroll_event(ScrollbarScrollState::Scrolling, ScrollbarScrollEvent::Hide), ScrollbarScrollState::Scrolling);
}
