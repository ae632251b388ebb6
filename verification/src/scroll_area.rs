//! Scroll area: which scrollbar a kind of scroll area uses, scrollbar
//! visibility, the scrollbar's scroll state machine, and when a thumb is
//! drawn. The thumb's size and position are fractional pixel measures and
//! are computed by the caller in floating point.

use vstd::prelude::*;

use crate::layout::Orientation;
use crate::state_machine::{spec_step, step, InvalidState, MachineState};

verus! {

/// When the scrollbars of a scroll area are shown.
#[derive(Clone, Copy, Debug, PartialEq, Eq, Structural)]
pub enum ScrollAreaKind {
    Auto,
    Always,
    Scroll,
    Hover,
}

impl Default for ScrollAreaKind {
    fn default() -> (r: Self)
        ensures
            r == ScrollAreaKind::Hover,
    {
        ScrollAreaKind::Hover
    }
}

/// The scrollbar behaviour that each kind of scroll area uses.
#[derive(Clone, Copy, Debug, PartialEq, Eq, Structural)]
pub enum ScrollbarVariant {
    /// Shown while the pointer is over the area.
    Hover,
    /// Shown while scrolling.
    Scroll,
    /// Shown while the content overflows.
    Auto,
    /// Always shown.
    Visible,
}

/// Hover areas use hover scrollbars, scroll areas scroll scrollbars, auto
/// areas auto scrollbars, and areas that always show them visible ones.
pub fn scrollbar_variant(kind: ScrollAreaKind) -> (r: ScrollbarVariant)
    ensures
        r == (match kind {
            ScrollAreaKind::Hover => ScrollbarVariant::Hover,
            ScrollAreaKind::Scroll => ScrollbarVariant::Scroll,
            ScrollAreaKind::Auto => ScrollbarVariant::Auto,
            ScrollAreaKind::Always => ScrollbarVariant::Visible,
        }),
{
    match kind {
        ScrollAreaKind::Hover => ScrollbarVariant::Hover,
        ScrollAreaKind::Scroll => ScrollbarVariant::Scroll,
        ScrollAreaKind::Auto => ScrollbarVariant::Auto,
        ScrollAreaKind::Always => ScrollbarVariant::Visible,
    }
}

/// The delay, in milliseconds, before a hover or scroll scrollbar hides: the
/// one given, or 600.
pub fn scroll_hide_delay(given: Option<u64>) -> (r: u64)
    ensures
        r == (match given {
            Some(d) => d,
            None => 600u64,
        }),
{
    match given {
        Some(d) => d,
        None => 600,
    }
}

/// State of a scrollbar that shows while scrolling.
#[derive(Clone, Copy, Debug, PartialEq, Eq, Structural)]
pub enum ScrollbarScrollState {
    Hidden,
    Scrolling,
    Interacting,
    Idle,
}

/// What happened to a scrollbar that shows while scrolling.
#[derive(Clone, Copy, Debug, PartialEq, Eq, Structural)]
pub enum ScrollbarScrollEvent {
    Scroll,
    ScrollEnd,
    PointerEnter,
    PointerLeave,
    Hide,
}

impl MachineState<ScrollbarScrollEvent> for ScrollbarScrollState {
    open spec fn transition(self, event: ScrollbarScrollEvent) -> Option<ScrollbarScrollState> {
        match (self, event) {
            (ScrollbarScrollState::Hidden, ScrollbarScrollEvent::Scroll) => Some(
                ScrollbarScrollState::Scrolling,
            ),
            (ScrollbarScrollState::Scrolling, ScrollbarScrollEvent::ScrollEnd) => Some(
                ScrollbarScrollState::Idle,
            ),
            (ScrollbarScrollState::Scrolling, ScrollbarScrollEvent::PointerEnter) => Some(
                ScrollbarScrollState::Interacting,
            ),
            (ScrollbarScrollState::Interacting, ScrollbarScrollEvent::Scroll) => Some(
                ScrollbarScrollState::Interacting,
            ),
            (ScrollbarScrollState::Interacting, ScrollbarScrollEvent::PointerLeave) => Some(
                ScrollbarScrollState::Idle,
            ),
            (ScrollbarScrollState::Idle, ScrollbarScrollEvent::Hide) => Some(
                ScrollbarScrollState::Hidden,
            ),
            (ScrollbarScrollState::Idle, ScrollbarScrollEvent::Scroll) => Some(
                ScrollbarScrollState::Scrolling,
            ),
            (ScrollbarScrollState::Idle, ScrollbarScrollEvent::PointerEnter) => Some(
                ScrollbarScrollState::Interacting,
            ),
            _ => None,
        }
    }

    fn send(&self, event: ScrollbarScrollEvent) -> (r: Result<ScrollbarScrollState, InvalidState>) {
        match (self, event) {
            (ScrollbarScrollState::Hidden, ScrollbarScrollEvent::Scroll) => Ok(
                ScrollbarScrollState::Scrolling,
            ),
            (ScrollbarScrollState::Scrolling, ScrollbarScrollEvent::ScrollEnd) => Ok(
                ScrollbarScrollState::Idle,
            ),
            (ScrollbarScrollState::Scrolling, ScrollbarScrollEvent::PointerEnter) => Ok(
                ScrollbarScrollState::Interacting,
            ),
            (ScrollbarScrollState::Interacting, ScrollbarScrollEvent::Scroll) => Ok(
                ScrollbarScrollState::Interacting,
            ),
            (ScrollbarScrollState::Interacting, ScrollbarScrollEvent::PointerLeave) => Ok(
                ScrollbarScrollState::Idle,
            ),
            (ScrollbarScrollState::Idle, ScrollbarScrollEvent::Hide) => Ok(
                ScrollbarScrollState::Hidden,
            ),
            (ScrollbarScrollState::Idle, ScrollbarScrollEvent::Scroll) => Ok(
                ScrollbarScrollState::Scrolling,
            ),
            (ScrollbarScrollState::Idle, ScrollbarScrollEvent::PointerEnter) => Ok(
                ScrollbarScrollState::Interacting,
            ),
            _ => Err(InvalidState),
        }
    }
}

/// Applies an event to a scrollbar's scroll state.
pub fn send_scroll_event(state: ScrollbarScrollState, event: ScrollbarScrollEvent) -> (r:
    ScrollbarScrollState)
    ensures
        r == spec_step(state, event),
{
    step(state, event)
}

/// Sending the same event twice leaves the scrollbar where sending it once does.
pub proof fn lemma_scroll_step_idempotent(state: ScrollbarScrollState, event: ScrollbarScrollEvent)
    ensures
        spec_step(spec_step(state, event), event) == spec_step(state, event),
{
}

/// Any scroll makes a scrollbar leave the hidden state, and a hidden
/// scrollbar ignores every other event.
pub proof fn lemma_scroll_reveals(state: ScrollbarScrollState, event: ScrollbarScrollEvent)
    ensures
        spec_step(state, ScrollbarScrollEvent::Scroll) != ScrollbarScrollState::Hidden,
        state == ScrollbarScrollState::Hidden && event != ScrollbarScrollEvent::Scroll ==> spec_step(
            state,
            event,
        ) == ScrollbarScrollState::Hidden,
{
}

/// Only an idle scrollbar hides; while the pointer is on it, it never does.
pub proof fn lemma_hide_only_when_idle(state: ScrollbarScrollState, event: ScrollbarScrollEvent)
    ensures
        state != ScrollbarScrollState::Hidden && spec_step(state, event)
            == ScrollbarScrollState::Hidden ==> state == ScrollbarScrollState::Idle && event
            == ScrollbarScrollEvent::Hide,
{
}

/// A scroll-kind scrollbar starts its hide timer whenever it turns idle.
pub fn starts_hide_timer(state: ScrollbarScrollState) -> (r: bool)
    ensures
        r == (state == ScrollbarScrollState::Idle),
{
    state == ScrollbarScrollState::Idle
}

/// A scroll of the viewport counts for a scroll-kind scrollbar when the
/// position along its axis differs from the one the scrollbar first saw.
pub fn scroll_counts(first_position: i32, position: i32) -> (r: bool)
    ensures
        r == (first_position != position),
{
    first_position != position
}

/// A hover-kind scrollbar: shown while the pointer is over the scroll area,
/// and hidden by a timer some time after it leaves.
#[derive(Clone, Copy, Debug, PartialEq, Eq, Structural)]
pub struct HoverScrollbar {
    pub visible: bool,
    /// A hide timer is running.
    pub hide_pending: bool,
}

impl HoverScrollbar {
    /// Hidden, with no timer.
    pub fn new() -> (r: HoverScrollbar)
        ensures
            r == (HoverScrollbar { visible: false, hide_pending: false }),
    {
        HoverScrollbar { visible: false, hide_pending: false }
    }

    /// The pointer enters the area: a running hide timer is cancelled (the
    /// result says whether there was one) and the scrollbar shows.
    pub fn pointer_enter(&mut self) -> (r: bool)
        ensures
            r == old(self).hide_pending,
            *final(self) == (HoverScrollbar { visible: true, hide_pending: false }),
    {
        let cancel = self.hide_pending;
        self.visible = true;
        self.hide_pending = false;
        cancel
    }

    /// The pointer leaves the area: a hide timer starts.
    pub fn pointer_leave(&mut self)
        ensures
            *final(self) == (HoverScrollbar { hide_pending: true, ..*old(self) }),
    {
        self.hide_pending = true;
    }

    /// The hide timer fires: the scrollbar hides.
    pub fn hide_timer_fired(&mut self)
        ensures
            *final(self) == (HoverScrollbar { visible: false, hide_pending: false }),
    {
        self.visible = false;
        self.hide_pending = false;
    }

    /// The scrollbar is kept in the tree when forced or while visible.
    pub fn is_present(&self, force_mount: bool) -> (r: bool)
        ensures
            r == (force_mount || self.visible),
    {
        force_mount || self.visible
    }
}

/// A scroll-kind scrollbar is kept in the tree when forced or while its state
/// is hidden, and not while it shows.
pub fn scroll_scrollbar_is_present(force_mount: bool, state: ScrollbarScrollState) -> (r: bool)
    ensures
        r == (force_mount || state == ScrollbarScrollState::Hidden),
{
    force_mount || state == ScrollbarScrollState::Hidden
}

/// The `data-state` of a scroll-kind scrollbar.
pub fn scroll_scrollbar_data_state(state: ScrollbarScrollState) -> (r: &'static str)
    ensures
        r@ == if state == ScrollbarScrollState::Hidden {
            "hidden"@
        } else {
            "visible"@
        },
{
    if state == ScrollbarScrollState::Hidden {
        "hidden"
    } else {
        "visible"
    }
}

/// The `data-state` of a scrollbar that is visible or not.
pub fn visibility_data_state(visible: bool) -> (r: &'static str)
    ensures
        r@ == if visible {
            "visible"@
        } else {
            "hidden"@
        },
{
    if visible {
        "visible"
    } else {
        "hidden"
    }
}

/// An auto scrollbar shows when the viewport overflows along its axis.
pub fn auto_scrollbar_visible(
    orientation: Orientation,
    offset_width: i32,
    scroll_width: i32,
    offset_height: i32,
    scroll_height: i32,
) -> (r: bool)
    ensures
        r == if orientation == Orientation::Horizontal {
            offset_width < scroll_width
        } else {
            offset_height < scroll_height
        },
{
    if orientation == Orientation::Horizontal {
        offset_width < scroll_width
    } else {
        offset_height < scroll_height
    }
}

/// The viewport's `overflow-x`/`overflow-y` for a scrollbar that is enabled
/// or not.
pub fn viewport_overflow(scrollbar_enabled: bool) -> (r: &'static str)
    ensures
        r@ == if scrollbar_enabled {
            "scroll"@
        } else {
            "hidden"@
        },
{
    if scrollbar_enabled {
        "scroll"
    } else {
        "hidden"
    }
}

/// The corner between two scrollbars is shown when both scrollbars are there
/// (and the area does not scroll-hide them), or once it has a size.
pub fn corner_is_shown(
    kind: ScrollAreaKind,
    has_scrollbar_x: bool,
    has_scrollbar_y: bool,
    width: i32,
    height: i32,
) -> (r: bool)
    ensures
        r == ((kind != ScrollAreaKind::Scroll && has_scrollbar_x && has_scrollbar_y) || (width
            != 0 && height != 0)),
{
    let has_corner = kind != ScrollAreaKind::Scroll && has_scrollbar_x && has_scrollbar_y;
    let has_size = width != 0 && height != 0;
    has_corner || has_size
}

/// A wheel scroll inside the scrollbar keeps the page from scrolling while the
/// new position lies strictly between the ends.
pub fn is_scrolling_within_scrollbar_bounds(scroll_pos: i32, max_scroll_pos: i32) -> (r: bool)
    ensures
        r == (0 < scroll_pos && scroll_pos < max_scroll_pos),
{
    scroll_pos > 0 && scroll_pos < max_scroll_pos
}

/// Size and padding of a scrollbar track, in pixels.
#[derive(Clone, Copy, Debug, PartialEq, Eq, Structural)]
pub struct ScrollbarSize {
    pub size: i32,
    pub padding_start: i32,
    pub padding_end: i32,
}

/// Content, viewport and scrollbar sizes along one axis, in whole pixels.
#[derive(Clone, Copy, Debug, PartialEq, Eq, Structural)]
pub struct Sizes {
    pub content: i32,
    pub viewport: i32,
    pub scrollbar: ScrollbarSize,
}

/// A scrollbar draws a thumb when the viewport-to-content ratio lies strictly
/// between 0 and 1: the viewport is smaller than the content and has the same
/// sign. With no content there is no ratio and no thumb.
pub open spec fn spec_has_thumb(s: Sizes) -> bool {
    (s.content > 0 && 0 < s.viewport && s.viewport < s.content) || (s.content < 0 && s.content
        < s.viewport && s.viewport < 0)
}

/// Whether a scrollbar draws a thumb for these sizes.
pub fn has_thumb(sizes: &Sizes) -> (r: bool)
    ensures
        r == spec_has_thumb(*sizes),
        sizes.content > 0 ==> r == (0 < sizes.viewport && sizes.viewport < sizes.content),
{
    (sizes.content > 0 && 0 < sizes.viewport && sizes.viewport < sizes.content) || (sizes.content
        < 0 && sizes.content < sizes.viewport && sizes.viewport < 0)
}

} // verus!
