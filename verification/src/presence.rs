//! Presence: keeps content mounted while its exit animation runs.

use vstd::prelude::*;

use crate::state_machine::{spec_step, step, InvalidState, MachineState};
use crate::text::{has_substring, str_contains, str_equals};

verus! {

/// Mount state of animated content.
#[derive(Clone, Copy, Debug, PartialEq, Eq, Structural)]
pub enum PresenceState {
    Mounted,
    UnmountSuspended,
    Unmounted,
}

/// What happened to the content or its animation.
#[derive(Clone, Copy, Debug, PartialEq, Eq, Structural)]
pub enum PresenceEvent {
    Mount,
    Unmount,
    AnimationOut,
    AnimationEnd,
}

impl MachineState<PresenceEvent> for PresenceState {
    open spec fn transition(self, event: PresenceEvent) -> Option<PresenceState> {
        match (self, event) {
            (PresenceState::Mounted, PresenceEvent::Unmount) => Some(PresenceState::Unmounted),
            (PresenceState::Mounted, PresenceEvent::AnimationOut) => Some(
                PresenceState::UnmountSuspended,
            ),
            (PresenceState::Unmounted, PresenceEvent::Mount) => Some(PresenceState::Mounted),
            (PresenceState::UnmountSuspended, PresenceEvent::AnimationEnd) => Some(
                PresenceState::Unmounted,
            ),
            (PresenceState::UnmountSuspended, PresenceEvent::Mount) => Some(PresenceState::Mounted),
            _ => None,
        }
    }

    fn send(&self, event: PresenceEvent) -> (r: Result<PresenceState, InvalidState>) {
        match (self, event) {
            (PresenceState::Mounted, PresenceEvent::Unmount) => Ok(PresenceState::Unmounted),
            (PresenceState::Mounted, PresenceEvent::AnimationOut) => Ok(
                PresenceState::UnmountSuspended,
            ),
            (PresenceState::Unmounted, PresenceEvent::Mount) => Ok(PresenceState::Mounted),
            (PresenceState::UnmountSuspended, PresenceEvent::AnimationEnd) => Ok(
                PresenceState::Unmounted,
            ),
            (PresenceState::UnmountSuspended, PresenceEvent::Mount) => Ok(PresenceState::Mounted),
            _ => Err(InvalidState),
        }
    }
}

/// The state a presence starts in.
pub fn initial_state(is_present: bool) -> (r: PresenceState)
    ensures
        r == if is_present {
            PresenceState::Mounted
        } else {
            PresenceState::Unmounted
        },
{
    if is_present {
        PresenceState::Mounted
    } else {
        PresenceState::Unmounted
    }
}

pub open spec fn spec_is_rendered(state: PresenceState) -> bool {
    state == PresenceState::Mounted || state == PresenceState::UnmountSuspended
}

/// Content is rendered while mounted and while its exit animation runs.
pub fn is_rendered(state: PresenceState) -> (r: bool)
    ensures
        r == spec_is_rendered(state),
{
    state == PresenceState::Mounted || state == PresenceState::UnmountSuspended
}

/// Applies an event to a presence state.
pub fn send_event(state: PresenceState, event: PresenceEvent) -> (r: PresenceState)
    ensures
        r == spec_step(state, event),
{
    step(state, event)
}

/// The event sent when the presence flag may have changed.
pub open spec fn spec_change_event(
    was_present: bool,
    is_present: bool,
    current_animation: Seq<char>,
    display: Option<Seq<char>>,
    previous_animation: Seq<char>,
) -> Option<PresenceEvent> {
    if was_present == is_present {
        None
    } else if is_present {
        Some(PresenceEvent::Mount)
    } else if current_animation == "none"@ || display == Some("none"@) {
        Some(PresenceEvent::Unmount)
    } else if was_present && previous_animation != current_animation {
        Some(PresenceEvent::AnimationOut)
    } else {
        Some(PresenceEvent::Unmount)
    }
}

/// The event to send when the presence flag is re-read: none while it keeps
/// its value; `Mount` when it turns on; when it turns off, `AnimationOut`
/// if an animation other than the last seen one is running, `Unmount`
/// otherwise (and always when there is no animation or the node is not
/// displayed). `display` is the computed `display` style, if it could be read.
pub fn change_event(
    was_present: bool,
    is_present: bool,
    current_animation: &str,
    display: Option<&str>,
    previous_animation: &str,
) -> (r: Option<PresenceEvent>)
    ensures
        r == spec_change_event(
            was_present,
            is_present,
            current_animation@,
            match display {
                Some(d) => Some(d@),
                None => None,
            },
            previous_animation@,
        ),
{
    if was_present == is_present {
        return None;
    }
    if is_present {
        return Some(PresenceEvent::Mount);
    }
    let display_none = match display {
        Some(d) => str_equals(d, "none"),
        None => false,
    };
    if str_equals(current_animation, "none") || display_none {
        Some(PresenceEvent::Unmount)
    } else if was_present && !str_equals(previous_animation, current_animation) {
        Some(PresenceEvent::AnimationOut)
    } else {
        Some(PresenceEvent::Unmount)
    }
}

/// The animation name remembered for the next change: the running one while
/// mounted, `"none"` otherwise.
pub fn tracked_animation<'a>(state: PresenceState, current_animation: &'a str) -> (r: &'a str)
    ensures
        r@ == if state == PresenceState::Mounted {
            current_animation@
        } else {
            "none"@
        },
{
    if state == PresenceState::Mounted {
        current_animation
    } else {
        "none"
    }
}

/// An animation end (or cancel) on the node itself, for an animation among
/// the node's current ones, finishes the exit.
pub fn ends_exit(current_animation: &str, ended_animation: &str, target_is_node: bool) -> (r: bool)
    ensures
        r == (target_is_node && has_substring(current_animation@, ended_animation@)),
{
    let is_current = str_contains(current_animation, ended_animation);
    target_is_node && is_current
}

/// Sending the same event twice leaves the machine where sending it once does.
pub proof fn lemma_step_idempotent(state: PresenceState, event: PresenceEvent)
    ensures
        spec_step(spec_step(state, event), event) == spec_step(state, event),
{
}

/// `Mount` always leaves the content mounted.
pub proof fn lemma_mount_mounts(state: PresenceState)
    ensures
        spec_step(state, PresenceEvent::Mount) == PresenceState::Mounted,
{
}

/// Unmounted content stays unmounted until it is mounted again.
pub proof fn lemma_unmounted_waits_for_mount(event: PresenceEvent)
    requires
        event != PresenceEvent::Mount,
    ensures
        spec_step(PresenceState::Unmounted, event) == PresenceState::Unmounted,
{
}

/// When mounted content stops being present, it is rendered on exactly as
/// long as the event decided says: it stays rendered (suspended) when an exit
/// animation starts, and is gone at once otherwise; the end of the animation
/// then removes it.
pub proof fn lemma_exit(
    current_animation: Seq<char>,
    display: Option<Seq<char>>,
    previous_animation: Seq<char>,
)
    ensures
        match spec_change_event(true, false, current_animation, display, previous_animation) {
            Some(PresenceEvent::AnimationOut) => {
                &&& spec_is_rendered(spec_step(PresenceState::Mounted, PresenceEvent::AnimationOut))
                &&& !spec_is_rendered(
                    spec_step(
                        spec_step(PresenceState::Mounted, PresenceEvent::AnimationOut),
                        PresenceEvent::AnimationEnd,
                    ),
                )
            },
            Some(PresenceEvent::Unmount) => !spec_is_rendered(
                spec_step(PresenceState::Mounted, PresenceEvent::Unmount),
            ),
            _ => false,
        },
{
}

/// Becoming present always mounts; an unchanged flag sends nothing; ceasing
/// to be present never mounts.
pub proof fn lemma_change_events(
    was_present: bool,
    current_animation: Seq<char>,
    display: Option<Seq<char>>,
    previous_animation: Seq<char>,
)
    ensures
        spec_change_event(false, true, current_animation, display, previous_animation) == Some(
            PresenceEvent::Mount,
        ),
        spec_change_event(was_present, was_present, current_animation, display, previous_animation)
            is None,
        spec_change_event(true, false, current_animation, display, previous_animation) matches Some(
            e,
        ) && (e == PresenceEvent::Unmount || e == PresenceEvent::AnimationOut),
        current_animation == previous_animation ==> spec_change_event(
            true,
            false,
            current_animation,
            display,
            previous_animation,
        ) == Some(PresenceEvent::Unmount),
{
}

} // verus!
