//! Reading direction and orientation shared by all components.

use vstd::prelude::*;

verus! {

/// Reading direction of a component; left-to-right unless stated otherwise.
#[derive(Clone, Copy, Debug, PartialEq, Eq, Structural)]
pub enum Direction {
    LeftToRight,
    RightToLeft,
}

/// Layout axis of a component; horizontal unless stated otherwise.
#[derive(Clone, Copy, Debug, PartialEq, Eq, Structural)]
pub enum Orientation {
    Horizontal,
    Vertical,
}

impl Default for Direction {
    fn default() -> (r: Self)
        ensures
            r == Direction::LeftToRight,
    {
        Direction::LeftToRight
    }
}

impl Default for Orientation {
    fn default() -> (r: Self)
        ensures
            r == Orientation::Horizontal,
    {
        Orientation::Horizontal
    }
}

impl Direction {
    /// The text of the `dir` attribute for this direction.
    pub open spec fn spec_attr(self) -> Seq<char> {
        match self {
            Direction::LeftToRight => "ltr"@,
            Direction::RightToLeft => "rtl"@,
        }
    }

    /// `"ltr"` or `"rtl"`, as the `dir` attribute spells it.
    pub fn as_str(&self) -> (r: &'static str)
        ensures
            r@ == self.spec_attr(),
    {
        match self {
            Direction::LeftToRight => "ltr",
            Direction::RightToLeft => "rtl",
        }
    }
}

impl Orientation {
    /// The text of the `aria-orientation`/`data-orientation` attributes.
    pub open spec fn spec_attr(self) -> Seq<char> {
        match self {
            Orientation::Horizontal => "horizontal"@,
            Orientation::Vertical => "vertical"@,
        }
    }

    /// `"horizontal"` or `"vertical"`.
    pub fn as_str(&self) -> (r: &'static str)
        ensures
            r@ == self.spec_attr(),
    {
        match self {
            Orientation::Horizontal => "horizontal",
            Orientation::Vertical => "vertical",
        }
    }

    /// The crossing axis: a separator inside a horizontal toolbar is vertical.
    pub fn flipped(&self) -> (r: Orientation)
        ensures
            r != *self,
    {
        match self {
            Orientation::Horizontal => Orientation::Vertical,
            Orientation::Vertical => Orientation::Horizontal,
        }
    }
}

/// An edge of a box: of a slider track, or the side a floating part is
/// placed on.
#[derive(Clone, Copy, Debug, PartialEq, Eq, Structural)]
pub enum Side {
    Top,
    Right,
    Bottom,
    Left,
}

impl Side {
    /// The CSS property that positions something from this edge.
    pub open spec fn spec_css_name(self) -> Seq<char> {
        match self {
            Side::Top => "top"@,
            Side::Right => "right"@,
            Side::Bottom => "bottom"@,
            Side::Left => "left"@,
        }
    }

    /// `"top"`, `"right"`, `"bottom"` or `"left"`.
    pub fn css_name(&self) -> (r: &'static str)
        ensures
            r@ == self.spec_css_name(),
    {
        match self {
            Side::Top => "top",
            Side::Right => "right",
            Side::Bottom => "bottom",
            Side::Left => "left",
        }
    }
}

} // verus!
