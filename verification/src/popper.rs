//! Popper: where floating content asks to be placed, and which positioning
//! steps it asks for. The positions themselves are computed by the floating
//! layout engine.

use vstd::prelude::*;
use crate::layout::Side;

verus! {

/// Where along its side floating content lines up with its anchor.
#[derive(Clone, Copy, Debug, PartialEq, Eq, Structural)]
pub enum Align {
    Start,
    Center,
    End,
}

/// How far floating content may be shifted to stay in view.
#[derive(Clone, Copy, Debug, PartialEq, Eq, Structural)]
pub enum Sticky {
    /// Shifted only while it still touches its anchor.
    Partial,
    /// Shifted as far as needed.
    Always,
}

/// How often the position is brought up to date.
#[derive(Clone, Copy, Debug, PartialEq, Eq, Structural)]
pub enum UpdatePositionStrategy {
    /// When the layout changes.
    Optimized,
    /// On every animation frame.
    Always,
}

/// A side together with an alignment along it, as the layout engine names
/// placements.
#[derive(Clone, Copy, Debug, PartialEq, Eq, Structural)]
pub enum Placement {
    Top,
    TopStart,
    TopEnd,
    Right,
    RightStart,
    RightEnd,
    Bottom,
    BottomStart,
    BottomEnd,
    Left,
    LeftStart,
    LeftEnd,
}

/// The placement for a side and an alignment: centred placements carry the
/// side's name alone.
pub open spec fn spec_placement(side: Side, align: Align) -> Placement {
    match side {
        Side::Top => match align {
            Align::Center => Placement::Top,
            Align::Start => Placement::TopStart,
            Align::End => Placement::TopEnd,
        },
        Side::Bottom => match align {
            Align::Center => Placement::Bottom,
            Align::Start => Placement::BottomStart,
            Align::End => Placement::BottomEnd,
        },
        Side::Left => match align {
            Align::Center => Placement::Left,
            Align::Start => Placement::LeftStart,
            Align::End => Placement::LeftEnd,
        },
        Side::Right => match align {
            Align::Center => Placement::Right,
            Align::Start => Placement::RightStart,
            Align::End => Placement::RightEnd,
        },
    }
}

/// The placement that floating content asks for.
pub fn desired_placement(side: Side, align: Align) -> (r: Placement)
    ensures
        r == spec_placement(side, align),
{
    match side {
        Side::Top => match align {
            Align::Center => Placement::Top,
            Align::Start => Placement::TopStart,
            Align::End => Placement::TopEnd,
        },
        Side::Bottom => match align {
            Align::Center => Placement::Bottom,
            Align::Start => Placement::BottomStart,
            Align::End => Placement::BottomEnd,
        },
        Side::Left => match align {
            Align::Center => Placement::Left,
            Align::Start => Placement::LeftStart,
            Align::End => Placement::LeftEnd,
        },
        Side::Right => match align {
            Align::Center => Placement::Right,
            Align::Start => Placement::RightStart,
            Align::End => Placement::RightEnd,
        },
    }
}

/// The positioning steps after the offset and the size step, which are
/// always taken.
#[derive(Clone, Copy, Debug, PartialEq, Eq, Structural)]
pub struct PositioningPlan {
    /// Shift the content back into view.
    pub shift: bool,
    /// Limit that shift to keep the content beside its anchor.
    pub limit_shift: bool,
    /// Hide the content when its anchor is out of view.
    pub hide: bool,
    /// Update the position on every animation frame.
    pub every_frame: bool,
}

/// Shifting is asked for when collisions are avoided, and limited when the
/// content sticks partially; hiding when asked to hide while detached.
pub fn positioning_plan(
    avoid_collisions: bool,
    sticky: Sticky,
    hide_when_detached: bool,
    strategy: UpdatePositionStrategy,
) -> (r: PositioningPlan)
    ensures
        r.shift == avoid_collisions,
        r.limit_shift == (avoid_collisions && sticky == Sticky::Partial),
        r.hide == hide_when_detached,
        r.every_frame == (strategy == UpdatePositionStrategy::Always),
{
    let partial = match sticky {
        Sticky::Partial => true,
        Sticky::Always => false,
    };
    let every_frame = match strategy {
        UpdatePositionStrategy::Optimized => false,
        UpdatePositionStrategy::Always => true,
    };
    PositioningPlan {
        shift: avoid_collisions,
        limit_shift: avoid_collisions && partial,
        hide: hide_when_detached,
        every_frame,
    }
}

/// Each placement comes from one side and one alignment.
pub proof fn lemma_placement_is_injective(s1: Side, a1: Align, s2: Side, a2: Align)
    ensures
        spec_placement(s1, a1) == spec_placement(s2, a2) <==> (s1 == s2 && a1 == a2),
{
}

/// The side a placement is on.
pub open spec fn placement_side(p: Placement) -> Side {
    match p {
        Placement::Top | Placement::TopStart | Placement::TopEnd => Side::Top,
        Placement::Right | Placement::RightStart | Placement::RightEnd => Side::Right,
        Placement::Bottom | Placement::BottomStart | Placement::BottomEnd => Side::Bottom,
        Placement::Left | Placement::LeftStart | Placement::LeftEnd => Side::Left,
    }
}

/// The alignment a placement names: `*Start`, `*End`, or centred.
pub open spec fn placement_align(p: Placement) -> Align {
    match p {
        Placement::TopStart | Placement::RightStart | Placement::BottomStart
        | Placement::LeftStart => Align::Start,
        Placement::TopEnd | Placement::RightEnd | Placement::BottomEnd | Placement::LeftEnd => Align::End,
        _ => Align::Center,
    }
}

/// The placement asked for keeps both the side and the alignment requested.
pub proof fn lemma_placement_keeps_request(side: Side, align: Align)
    ensures
        placement_side(spec_placement(side, align)) == side,
        placement_align(spec_placement(side, align)) == align,
{
}

} // verus!
