//! Slider: the axis a slider runs along, how keys move its thumbs, thumb
//! labels and the names of its hidden form inputs.
//!
//! Values, steps and pointer positions are floating point and are handled by
//! the caller; this module decides which value moves, towards which end and
//! by how many steps.

use vstd::prelude::*;
use crate::layout::{Direction, Orientation, Side};
use crate::text::{decimal, decimal_text, digit_char, str_equals};
use crate::dismissable_layer::{NodeId, position, find, remove_first};
use crate::value_list::lemma_remove_after_push;

verus! {

/// Whether growing values run along the axis or against it.
#[derive(Clone, Copy, Debug, PartialEq, Eq, Structural)]
pub enum OrientationDirection {
    Forward,
    Backward,
}

/// The edge that the smallest value sits at.
#[derive(Clone, Copy, Debug, PartialEq, Eq, Structural)]
pub enum SlideDirection {
    FromLeft,
    FromRight,
    FromBottom,
    FromTop,
}

/// The dimension of the track that spans the value range.
#[derive(Clone, Copy, Debug, PartialEq, Eq, Structural)]
pub enum Size {
    Width,
    Height,
}

/// Everything that follows from a slider's orientation, direction and
/// inversion.
#[derive(Clone, Copy, Debug, PartialEq, Eq, Structural)]
pub struct SliderAxis {
    pub start_edge: Side,
    pub end_edge: Side,
    pub size: Size,
    pub direction: OrientationDirection,
    pub slide_direction: SlideDirection,
}

/// A horizontal slider grows from the left when it reads left to right and is
/// not inverted, or reads right to left and is inverted.
pub open spec fn spec_slides_from_left(direction: Direction, inverted: bool) -> bool {
    (direction == Direction::LeftToRight && !inverted) || (direction != Direction::LeftToRight
        && inverted)
}

/// The axis of a horizontal slider.
pub open spec fn spec_horizontal_axis(direction: Direction, inverted: bool) -> SliderAxis {
    if spec_slides_from_left(direction, inverted) {
        SliderAxis {
            start_edge: Side::Left,
            end_edge: Side::Right,
            size: Size::Width,
            direction: OrientationDirection::Forward,
            slide_direction: SlideDirection::FromLeft,
        }
    } else {
        SliderAxis {
            start_edge: Side::Right,
            end_edge: Side::Left,
            size: Size::Width,
            direction: OrientationDirection::Backward,
            slide_direction: SlideDirection::FromRight,
        }
    }
}

/// The axis of a vertical slider: it grows from the bottom unless inverted.
pub open spec fn spec_vertical_axis(inverted: bool) -> SliderAxis {
    if !inverted {
        SliderAxis {
            start_edge: Side::Bottom,
            end_edge: Side::Top,
            size: Size::Height,
            direction: OrientationDirection::Forward,
            slide_direction: SlideDirection::FromBottom,
        }
    } else {
        SliderAxis {
            start_edge: Side::Top,
            end_edge: Side::Bottom,
            size: Size::Height,
            direction: OrientationDirection::Backward,
            slide_direction: SlideDirection::FromTop,
        }
    }
}

/// The axis of a slider of either orientation; a vertical slider ignores the
/// reading direction.
pub open spec fn spec_slider_axis(orientation: Orientation, direction: Direction, inverted: bool) -> SliderAxis {
    match orientation {
        Orientation::Horizontal => spec_horizontal_axis(direction, inverted),
        Orientation::Vertical => spec_vertical_axis(inverted),
    }
}

/// Whether a horizontal slider grows from the left.
pub fn slides_from_left(direction: Direction, inverted: bool) -> (r: bool)
    ensures
        r == spec_slides_from_left(direction, inverted),
{
    let ltr = match direction {
        Direction::LeftToRight => true,
        Direction::RightToLeft => false,
    };
    (ltr && !inverted) || (!ltr && inverted)
}

/// The axis of a slider with the given orientation, direction and inversion.
pub fn slider_axis(orientation: Orientation, direction: Direction, inverted: bool) -> (r: SliderAxis)
    ensures
        r == spec_slider_axis(orientation, direction, inverted),
{
    match orientation {
        Orientation::Horizontal => {
            if slides_from_left(direction, inverted) {
                SliderAxis {
                    start_edge: Side::Left,
                    end_edge: Side::Right,
                    size: Size::Width,
                    direction: OrientationDirection::Forward,
                    slide_direction: SlideDirection::FromLeft,
                }
            } else {
                SliderAxis {
                    start_edge: Side::Right,
                    end_edge: Side::Left,
                    size: Size::Width,
                    direction: OrientationDirection::Backward,
                    slide_direction: SlideDirection::FromRight,
                }
            }
        },
        Orientation::Vertical => {
            if !inverted {
                SliderAxis {
                    start_edge: Side::Bottom,
                    end_edge: Side::Top,
                    size: Size::Height,
                    direction: OrientationDirection::Forward,
                    slide_direction: SlideDirection::FromBottom,
                }
            } else {
                SliderAxis {
                    start_edge: Side::Top,
                    end_edge: Side::Bottom,
                    size: Size::Height,
                    direction: OrientationDirection::Backward,
                    slide_direction: SlideDirection::FromTop,
                }
            }
        },
    }
}

/// What a key press on the slider asks for.
#[derive(Clone, Copy, Debug, PartialEq, Eq, Structural)]
pub enum SliderKeyAction {
    /// Move the first value to the minimum.
    Home,
    /// Move the last value to the maximum.
    End,
    /// Move the active value one step (or one page) in a direction.
    Step(OrientationDirection),
    /// The key is not the slider's; nothing happens and the default is kept.
    Ignore,
}

/// The keys that move a value by steps.
pub open spec fn is_step_key(key: Seq<char>) -> bool {
    key == "PageUp"@ || key == "PageDown"@ || key == "ArrowLeft"@ || key == "ArrowRight"@ || key
        == "ArrowUp"@ || key == "ArrowDown"@
}

/// The keys that move towards the minimum, for each slide direction.
pub open spec fn is_back_key(key: Seq<char>, slide: SlideDirection) -> bool {
    match slide {
        SlideDirection::FromLeft => key == "Home"@ || key == "PageDown"@ || key == "ArrowDown"@
            || key == "ArrowLeft"@,
        SlideDirection::FromRight => key == "Home"@ || key == "PageDown"@ || key == "ArrowDown"@
            || key == "ArrowRight"@,
        SlideDirection::FromTop => key == "Home"@ || key == "PageDown"@ || key == "ArrowDown"@
            || key == "ArrowLeft"@,
        SlideDirection::FromBottom => key == "Home"@ || key == "PageDown"@ || key == "ArrowUp"@
            || key == "ArrowLeft"@,
    }
}

/// Home and End first, then the step keys, backwards or forwards.
pub open spec fn spec_key_action(key: Seq<char>, slide: SlideDirection) -> SliderKeyAction {
    if key == "Home"@ {
        SliderKeyAction::Home
    } else if key == "End"@ {
        SliderKeyAction::End
    } else if is_step_key(key) {
        if is_back_key(key, slide) {
            SliderKeyAction::Step(OrientationDirection::Backward)
        } else {
            SliderKeyAction::Step(OrientationDirection::Forward)
        }
    } else {
        SliderKeyAction::Ignore
    }
}

/// The action of a key press on a slider that slides in `slide`; every action
/// but `Ignore` also prevents the key's default.
pub fn key_action(key: &str, slide: SlideDirection) -> (r: SliderKeyAction)
    ensures
        r == spec_key_action(key@, slide),
{
    if str_equals(key, "Home") {
        return SliderKeyAction::Home;
    }
    if str_equals(key, "End") {
        return SliderKeyAction::End;
    }
    let page_up = str_equals(key, "PageUp");
    let page_down = str_equals(key, "PageDown");
    let left = str_equals(key, "ArrowLeft");
    let right = str_equals(key, "ArrowRight");
    let up = str_equals(key, "ArrowUp");
    let down = str_equals(key, "ArrowDown");
    if !(page_up || page_down || left || right || up || down) {
        return SliderKeyAction::Ignore;
    }
    let back = match slide {
        SlideDirection::FromLeft => page_down || down || left,
        SlideDirection::FromRight => page_down || down || right,
        SlideDirection::FromTop => page_down || down || left,
        SlideDirection::FromBottom => page_down || up || left,
    };
    if back {
        SliderKeyAction::Step(OrientationDirection::Backward)
    } else {
        SliderKeyAction::Step(OrientationDirection::Forward)
    }
}

/// Page keys, and arrow keys held with shift, move ten steps at once.
pub open spec fn spec_is_skip_key(key: Seq<char>, shift: bool) -> bool {
    key == "PageUp"@ || key == "PageDown"@ || (shift && (key == "ArrowUp"@ || key
        == "ArrowLeft"@ || key == "ArrowRight"@ || key == "ArrowDown"@))
}

/// Whether a step key moves ten steps rather than one.
pub fn is_skip_key(key: &str, shift: bool) -> (r: bool)
    ensures
        r == spec_is_skip_key(key@, shift),
{
    if str_equals(key, "PageUp") || str_equals(key, "PageDown") {
        return true;
    }
    shift && (str_equals(key, "ArrowUp") || str_equals(key, "ArrowLeft") || str_equals(
        key,
        "ArrowRight",
    ) || str_equals(key, "ArrowDown"))
}

/// Where a key moves a value to.
#[derive(Clone, Copy, Debug, PartialEq, Eq, Structural)]
pub enum StepTarget {
    /// The slider's minimum.
    Min,
    /// The slider's maximum.
    Max,
    /// The value's current position plus `steps` steps, negative towards the
    /// minimum.
    Steps(i32),
}

/// Which value a key moves, and where to; the move is committed.
#[derive(Clone, Copy, Debug, PartialEq, Eq, Structural)]
pub struct SliderUpdate {
    pub at_index: usize,
    pub target: StepTarget,
}

/// What a key action does to a slider: nothing while disabled; Home moves the
/// first value to the minimum, End the last value to the maximum, and a step
/// moves the value being changed, if there is one, by one or ten steps.
pub open spec fn spec_key_update(
    action: SliderKeyAction,
    disabled: bool,
    value_count: nat,
    index_to_change: Option<usize>,
    skip: bool,
) -> Option<SliderUpdate> {
    if disabled {
        None
    } else {
        match action {
            SliderKeyAction::Home => Some(SliderUpdate { at_index: 0, target: StepTarget::Min }),
            SliderKeyAction::End => Some(
                SliderUpdate { at_index: (value_count - 1) as usize, target: StepTarget::Max },
            ),
            SliderKeyAction::Step(direction) => match index_to_change {
                Some(i) => {
                    let n: int = if skip {
                        10
                    } else {
                        1
                    };
                    let steps: int = match direction {
                        OrientationDirection::Forward => n,
                        OrientationDirection::Backward => -n,
                    };
                    Some(SliderUpdate { at_index: i, target: StepTarget::Steps(steps as i32) })
                },
                None => None,
            },
            SliderKeyAction::Ignore => None,
        }
    }
}

/// The update that a key action asks of a slider with `value_count` values.
/// End on an enabled slider needs at least one value.
pub fn key_update(
    action: SliderKeyAction,
    disabled: bool,
    value_count: usize,
    index_to_change: Option<usize>,
    skip: bool,
) -> (r: Option<SliderUpdate>)
    requires
        !disabled && action == SliderKeyAction::End ==> value_count > 0,
    ensures
        r == spec_key_update(action, disabled, value_count as nat, index_to_change, skip),
{
    if disabled {
        return None;
    }
    match action {
        SliderKeyAction::Home => Some(SliderUpdate { at_index: 0, target: StepTarget::Min }),
        SliderKeyAction::End => Some(
            SliderUpdate { at_index: value_count - 1, target: StepTarget::Max },
        ),
        SliderKeyAction::Step(direction) => match index_to_change {
            Some(i) => {
                let n: i32 = if skip {
                    10
                } else {
                    1
                };
                let steps: i32 = match direction {
                    OrientationDirection::Forward => n,
                    OrientationDirection::Backward => -n,
                };
                Some(SliderUpdate { at_index: i, target: StepTarget::Steps(steps) })
            },
            None => None,
        },
        SliderKeyAction::Ignore => None,
    }
}

/// The accessible label of thumb `index` of `total`: "Minimum" and "Maximum"
/// for two thumbs, "Value i of n" for more, none for one.
pub open spec fn spec_label(index: nat, total: nat) -> Option<Seq<char>> {
    if total > 2 {
        Some("Value "@ + decimal(index + 1) + " of "@ + decimal(total))
    } else if total == 2 {
        if index == 0 {
            Some("Minimum"@)
        } else if index == 1 {
            Some("Maximum"@)
        } else {
            None
        }
    } else {
        None
    }
}

/// The accessible label of thumb `index` among `total_values` thumbs.
pub fn get_label(index: usize, total_values: usize) -> (r: Option<String>)
    requires
        total_values > 2 ==> index < usize::MAX,
    ensures
        match r {
            Some(s) => spec_label(index as nat, total_values as nat) == Some(s@),
            None => spec_label(index as nat, total_values as nat).is_none(),
        },
{
    if total_values > 2 {
        let mut s = String::from_str("Value ");
        let first = decimal_text(index + 1);
        s.append(first.as_str());
        s.append(" of ");
        let second = decimal_text(total_values);
        s.append(second.as_str());
        Some(s)
    } else if total_values == 2 {
        if index == 0 {
            Some(String::from_str("Minimum"))
        } else if index == 1 {
            Some(String::from_str("Maximum"))
        } else {
            None
        }
    } else {
        None
    }
}

/// The form name of a slider's hidden inputs: the slider's name, with `[]`
/// after it when the slider has more than one value.
pub fn bubble_input_name(name: &Option<String>, value_count: usize) -> (r: Option<String>)
    ensures
        match name {
            Some(n) => r matches Some(s) && s@ == (if value_count > 1 {
                n@ + "[]"@
            } else {
                n@
            }),
            None => r.is_none(),
        },
{
    match name {
        Some(n) => {
            let mut s = String::from_str(n.as_str());
            if value_count > 1 {
                s.append("[]");
            }
            Some(s)
        },
        None => None,
    }
}

/// The position of the first smallest distance: the value closest to where
/// the pointer went down, given each value's distance from it; none for no
/// values.
pub fn find_closest_index(distances: &Vec<i32>) -> (r: Option<usize>)
    ensures
        distances@.len() == 0 <==> r.is_none(),
        r matches Some(i) ==> i < distances@.len() && (forall|j: int|
            0 <= j < distances@.len() ==> distances@[i as int] <= distances@[j]) && (forall|j: int|
            0 <= j < i ==> distances@[j] > distances@[i as int]),
{
    if distances.len() == 0 {
        return None;
    }
    let mut best: usize = 0;
    let mut k: usize = 1;
    while k < distances.len()
        invariant
            0 < k <= distances@.len(),
            best < k,
            forall|j: int| 0 <= j < k ==> distances@[best as int] <= distances@[j],
            forall|j: int| 0 <= j < best ==> distances@[j] > distances@[best as int],
        decreases distances@.len() - k,
    {
        if distances[k] < distances[best] {
            best = k;
        }
        k = k + 1;
    }
    Some(best)
}

/// The thumbs of a slider in the order they were mounted; a value's thumb is
/// looked up here by the value's index to move focus to it.
pub struct ThumbRegistry {
    thumbs: Vec<NodeId>,
}

impl View for ThumbRegistry {
    type V = Seq<NodeId>;

    closed spec fn view(&self) -> Seq<NodeId> {
        self.thumbs@
    }
}

impl ThumbRegistry {
    /// No thumbs.
    pub fn new() -> (r: ThumbRegistry)
        ensures
            r@ == Seq::<NodeId>::empty(),
    {
        ThumbRegistry { thumbs: Vec::new() }
    }

    /// A mounted thumb joins at the end.
    pub fn register(&mut self, thumb: NodeId)
        ensures
            final(self)@ == old(self)@.push(thumb),
    {
        self.thumbs.push(thumb);
    }

    /// An unmounted thumb leaves: its first entry is removed, if it has one.
    pub fn unregister(&mut self, thumb: NodeId)
        ensures
            final(self)@ == old(self)@.remove_value(thumb),
    {
        remove_first(&mut self.thumbs, thumb);
    }

    /// The thumb at `index`, the one to focus when the value at `index`
    /// changes.
    pub fn thumb_at(&self, index: usize) -> (r: Option<NodeId>)
        ensures
            index < self@.len() ==> r == Some(self@[index as int]),
            index >= self@.len() ==> r.is_none(),
    {
        if index < self.thumbs.len() {
            Some(self.thumbs[index])
        } else {
            None
        }
    }

    /// The position of a thumb among the registered ones.
    pub fn index_of(&self, thumb: NodeId) -> (r: Option<usize>)
        ensures
            match r {
                Some(k) => position(self@, thumb) == Some(k as int),
                None => position(self@, thumb) is None,
            },
    {
        find(&self.thumbs, thumb)
    }
}

/// Unmounting a thumb right after mounting it leaves the registry as it was,
/// when the thumb was not registered before.
pub proof fn lemma_register_unregister(thumbs: Seq<NodeId>, thumb: NodeId)
    requires
        !thumbs.contains(thumb),
    ensures
        thumbs.push(thumb).remove_value(thumb) == thumbs,
{
    lemma_remove_after_push(thumbs, thumb);
}

/// Inverting a slider swaps its start and end edges and reverses the
/// direction in which values grow, in either orientation and reading
/// direction.
pub proof fn lemma_inversion_mirrors(orientation: Orientation, direction: Direction, inverted: bool)
    ensures
        spec_slider_axis(orientation, direction, !inverted).start_edge == spec_slider_axis(
            orientation,
            direction,
            inverted,
        ).end_edge,
        spec_slider_axis(orientation, direction, !inverted).end_edge == spec_slider_axis(
            orientation,
            direction,
            inverted,
        ).start_edge,
        spec_slider_axis(orientation, direction, !inverted).direction != spec_slider_axis(
            orientation,
            direction,
            inverted,
        ).direction,
        spec_slider_axis(orientation, direction, !inverted).size == spec_slider_axis(
            orientation,
            direction,
            inverted,
        ).size,
{
}

/// Page Up always steps towards the maximum and Page Down towards the
/// minimum; Arrow Left and Arrow Right always step in opposite directions.
pub proof fn lemma_key_directions(slide: SlideDirection)
    ensures
        spec_key_action("PageUp"@, slide) == SliderKeyAction::Step(OrientationDirection::Forward),
        spec_key_action("PageDown"@, slide) == SliderKeyAction::Step(
            OrientationDirection::Backward,
        ),
        spec_key_action("ArrowLeft"@, slide) is Step,
        spec_key_action("ArrowRight"@, slide) is Step,
        spec_key_action("ArrowLeft"@, slide) != spec_key_action("ArrowRight"@, slide),
{
    reveal_strlit("Home");
    reveal_strlit("End");
    reveal_strlit("PageUp");
    reveal_strlit("PageDown");
    reveal_strlit("ArrowLeft");
    reveal_strlit("ArrowRight");
    reveal_strlit("ArrowUp");
    reveal_strlit("ArrowDown");
    assert("Home"@.len() == 4 && "End"@.len() == 3 && "PageUp"@.len() == 6 && "PageDown"@.len()
        == 8);
    assert("ArrowLeft"@.len() == 9 && "ArrowRight"@.len() == 10 && "ArrowUp"@.len() == 7
        && "ArrowDown"@.len() == 9);
    assert("ArrowLeft"@[5] != "ArrowDown"@[5]);
}

/// Arrow Up and Arrow Down always step in opposite directions. Arrow Down
/// steps towards the minimum on every slider but one that grows from the
/// bottom, where Arrow Up does; on a horizontal slider the arrow pointing at
/// the edge the values start from steps towards the minimum.
pub proof fn lemma_arrow_directions(slide: SlideDirection)
    ensures
        spec_key_action("ArrowUp"@, slide) is Step,
        spec_key_action("ArrowDown"@, slide) is Step,
        spec_key_action("ArrowUp"@, slide) != spec_key_action("ArrowDown"@, slide),
        slide != SlideDirection::FromBottom ==> spec_key_action("ArrowDown"@, slide)
            == SliderKeyAction::Step(OrientationDirection::Backward),
        slide == SlideDirection::FromBottom ==> spec_key_action("ArrowUp"@, slide)
            == SliderKeyAction::Step(OrientationDirection::Backward),
        slide == SlideDirection::FromLeft ==> spec_key_action("ArrowLeft"@, slide)
            == SliderKeyAction::Step(OrientationDirection::Backward),
        slide == SlideDirection::FromRight ==> spec_key_action("ArrowRight"@, slide)
            == SliderKeyAction::Step(OrientationDirection::Backward),
{
    reveal_strlit("Home");
    reveal_strlit("End");
    reveal_strlit("PageUp");
    reveal_strlit("PageDown");
    reveal_strlit("ArrowLeft");
    reveal_strlit("ArrowRight");
    reveal_strlit("ArrowUp");
    reveal_strlit("ArrowDown");
    assert("Home"@.len() == 4 && "End"@.len() == 3 && "PageUp"@.len() == 6 && "PageDown"@.len()
        == 8);
    assert("ArrowLeft"@.len() == 9 && "ArrowRight"@.len() == 10 && "ArrowUp"@.len() == 7
        && "ArrowDown"@.len() == 9);
    assert("ArrowLeft"@[5] != "ArrowDown"@[5]);
    assert("ArrowUp"@ != "ArrowDown"@ && "ArrowUp"@ != "ArrowLeft"@ && "ArrowUp"@ != "PageDown"@
        && "ArrowUp"@ != "Home"@ && "ArrowUp"@ != "End"@ && "ArrowUp"@ != "ArrowRight"@);
    assert("ArrowDown"@ != "Home"@ && "ArrowDown"@ != "End"@ && "ArrowDown"@ != "PageDown"@
        && "ArrowDown"@ != "ArrowRight"@);
}

/// Home and End ask for the ends on every slider. An enabled slider moves
/// the first value to the minimum on Home and the last value to the maximum
/// on End; a step moves the value being changed, if any, one step (ten for a
/// skip key) up for forwards and down for backwards; a disabled slider moves
/// nothing.
pub proof fn lemma_key_updates(
    slide: SlideDirection,
    direction: OrientationDirection,
    value_count: nat,
    index: usize,
    skip: bool,
)
    requires
        0 < value_count <= usize::MAX,
    ensures
        spec_key_action("Home"@, slide) == SliderKeyAction::Home,
        spec_key_action("End"@, slide) == SliderKeyAction::End,
        spec_key_update(SliderKeyAction::Home, false, value_count, Some(index), skip) == Some(
            SliderUpdate { at_index: 0, target: StepTarget::Min },
        ),
        spec_key_update(SliderKeyAction::End, false, value_count, Some(index), skip) matches Some(u)
            && u.at_index == value_count - 1 && u.target == StepTarget::Max,
        spec_key_update(SliderKeyAction::Step(direction), false, value_count, Some(index), skip)
            matches Some(u) && u.at_index == index && (u.target matches StepTarget::Steps(n) && (
        if skip {
            n == 10 || n == -10
        } else {
            n == 1 || n == -1
        }) && (n > 0 <==> direction == OrientationDirection::Forward)),
        spec_key_update(SliderKeyAction::Step(direction), false, value_count, None, skip) is None,
        forall|a: SliderKeyAction|
            #![trigger spec_key_update(a, true, value_count, Some(index), skip)]
            spec_key_update(a, true, value_count, Some(index), skip) is None,
{
    reveal_strlit("Home");
    reveal_strlit("End");
    assert("Home"@.len() == 4 && "End"@.len() == 3);
}

/// A slider's axis runs between two different edges of the dimension that
/// matches its orientation; it grows forwards exactly when it starts from
/// the left or the bottom, and a left-to-right horizontal slider that is not
/// inverted starts from the left.
pub proof fn lemma_axis_shape(orientation: Orientation, direction: Direction, inverted: bool)
    ensures
        ({
            let a = spec_slider_axis(orientation, direction, inverted);
            &&& a.start_edge != a.end_edge
            &&& (a.size == Size::Width <==> orientation == Orientation::Horizontal)
            &&& (orientation == Orientation::Horizontal ==> (a.start_edge == Side::Left
                || a.start_edge == Side::Right))
            &&& (orientation == Orientation::Vertical ==> (a.start_edge == Side::Top
                || a.start_edge == Side::Bottom))
            &&& (a.direction == OrientationDirection::Forward <==> (a.slide_direction
                == SlideDirection::FromLeft || a.slide_direction == SlideDirection::FromBottom))
            &&& (a.slide_direction == SlideDirection::FromLeft <==> a.start_edge == Side::Left)
            &&& (a.slide_direction == SlideDirection::FromRight <==> a.start_edge == Side::Right)
            &&& (a.slide_direction == SlideDirection::FromTop <==> a.start_edge == Side::Top)
            &&& (a.slide_direction == SlideDirection::FromBottom <==> a.start_edge == Side::Bottom)
        }),
        spec_slider_axis(Orientation::Horizontal, Direction::LeftToRight, false).slide_direction
            == SlideDirection::FromLeft,
        spec_slider_axis(Orientation::Vertical, direction, false).slide_direction
            == SlideDirection::FromBottom,
{
}

/// Page keys always move ten steps; arrows move ten only with Shift; Home
/// and End are never skip keys.
pub proof fn lemma_skip_keys(shift: bool)
    ensures
        spec_is_skip_key("PageUp"@, shift),
        spec_is_skip_key("PageDown"@, shift),
        spec_is_skip_key("ArrowUp"@, shift) == shift,
        spec_is_skip_key("ArrowDown"@, shift) == shift,
        spec_is_skip_key("ArrowLeft"@, shift) == shift,
        spec_is_skip_key("ArrowRight"@, shift) == shift,
        !spec_is_skip_key("Home"@, shift),
        !spec_is_skip_key("End"@, shift),
{
    reveal_strlit("Home");
    reveal_strlit("End");
    reveal_strlit("PageUp");
    reveal_strlit("PageDown");
    reveal_strlit("ArrowLeft");
    reveal_strlit("ArrowRight");
    reveal_strlit("ArrowUp");
    reveal_strlit("ArrowDown");
    assert("Home"@.len() == 4 && "End"@.len() == 3 && "PageUp"@.len() == 6 && "PageDown"@.len()
        == 8);
    assert("ArrowLeft"@.len() == 9 && "ArrowRight"@.len() == 10 && "ArrowUp"@.len() == 7
        && "ArrowDown"@.len() == 9);
}

/// One thumb has no label; two are the minimum and the maximum; with more,
/// each thumb's label counts it from one and ends with the number of thumbs,
/// and different thumbs get different labels.
pub proof fn lemma_labels(index: nat, other: nat, total: nat)
    ensures
        total < 2 ==> spec_label(index, total) is None,
        spec_label(0, 2) == Some("Minimum"@),
        spec_label(1, 2) == Some("Maximum"@),
        total > 2 ==> spec_label(index, total) == Some(
            "Value "@ + decimal(index + 1) + " of "@ + decimal(total),
        ),
        total > 2 && index != other ==> spec_label(index, total) != spec_label(other, total),
{
    if total > 2 && index != other {
        reveal_strlit("Value ");
        reveal_strlit(" of ");
        let a = "Value "@ + decimal(index + 1) + " of "@ + decimal(total);
        let b = "Value "@ + decimal(other + 1) + " of "@ + decimal(total);
        lemma_decimal_injective_suffix(index + 1, other + 1, " of "@ + decimal(total));
        assert(a =~= "Value "@ + (decimal(index + 1) + (" of "@ + decimal(total))));
        assert(b =~= "Value "@ + (decimal(other + 1) + (" of "@ + decimal(total))));
        if a == b {
            assert(a.subrange(6, a.len() as int) =~= decimal(index + 1) + (" of "@ + decimal(total)));
            assert(b.subrange(6, b.len() as int) =~= decimal(other + 1) + (" of "@ + decimal(total)));
        }
    }
}

/// No decimal numeral contains a space, so two different numbers followed by
/// a tail that starts with a space differ.
proof fn lemma_decimal_injective_suffix(m: nat, n: nat, tail: Seq<char>)
    requires
        m != n,
        tail.len() > 0,
        tail[0] == ' ',
    ensures
        decimal(m) + tail != decimal(n) + tail,
    decreases m + n,
{
    lemma_decimal_digits(m);
    lemma_decimal_digits(n);
    let a = decimal(m) + tail;
    let b = decimal(n) + tail;
    if a == b {
        let lm = decimal(m).len() as int;
        let ln = decimal(n).len() as int;
        if lm < ln {
            assert(a[lm] == ' ');
            assert(b[lm] == decimal(n)[lm]);
        } else if ln < lm {
            assert(b[ln] == ' ');
            assert(a[ln] == decimal(m)[ln]);
        } else {
            assert(decimal(m) =~= a.subrange(0, lm));
            assert(decimal(n) =~= b.subrange(0, ln));
            lemma_decimal_injective(m, n);
        }
    }
}

/// Every character of a numeral is a digit.
proof fn lemma_decimal_digits(n: nat)
    ensures
        decimal(n).len() > 0,
        forall|i: int| 0 <= i < decimal(n).len() ==> decimal(n)[i] != ' ',
    decreases n,
{
    if n >= 10 {
        lemma_decimal_digits(n / 10);
        assert forall|i: int| 0 <= i < decimal(n).len() implies decimal(n)[i] != ' ' by {
            if i < decimal(n / 10).len() {
                assert(decimal(n)[i] == decimal(n / 10)[i]);
            }
        }
    }
}

/// Different numbers have different numerals.
proof fn lemma_decimal_injective(m: nat, n: nat)
    requires
        m != n,
    ensures
        decimal(m) != decimal(n),
    decreases m + n,
{
    if m < 10 && n < 10 {
        assert(decimal(m)[0] != decimal(n)[0]);
    } else if m < 10 {
        lemma_decimal_digits(n / 10);
        assert(decimal(n).len() >= 2);
    } else if n < 10 {
        lemma_decimal_digits(m / 10);
        assert(decimal(m).len() >= 2);
    } else {
        if decimal(m) == decimal(n) {
            let dm = decimal(m);
            assert(dm.last() == digit_char(m % 10));
            assert(decimal(n).last() == digit_char(n % 10));
            assert(decimal(m / 10) =~= dm.drop_last());
            assert(decimal(n / 10) =~= decimal(n).drop_last());
            if m / 10 != n / 10 {
                lemma_decimal_injective(m / 10, n / 10);
            }
            assert(m % 10 == n % 10);
            assert(m == (m / 10) * 10 + m % 10);
            assert(n == (n / 10) * 10 + n % 10);
        }
    }
}

} // verus!
