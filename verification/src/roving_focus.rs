//! Roving tab stop: which key moves focus where inside a group of items.

use vstd::prelude::*;

use crate::layout::{Direction, Orientation};
use crate::text::str_equals;

verus! {

/// Where a key press asks focus to go inside a roving group.
#[derive(Clone, Copy, Debug, PartialEq, Eq, Structural)]
pub enum FocusIntent {
    First,
    Last,
    Prev,
    Next,
}

/// The key as seen in left-to-right terms: in a right-to-left group the
/// horizontal arrows swap meaning.
pub open spec fn spec_direction_aware_key(key: Seq<char>, direction: Option<Direction>) -> Seq<char> {
    match direction {
        Some(Direction::RightToLeft) => if key == "ArrowLeft"@ {
            "ArrowRight"@
        } else if key == "ArrowRight"@ {
            "ArrowLeft"@
        } else {
            key
        },
        _ => key,
    }
}

/// The intent of a key in a group of the given orientation and direction.
/// Arrows across the group's axis do nothing.
pub open spec fn spec_focus_intent(
    key: Seq<char>,
    orientation: Option<Orientation>,
    direction: Option<Direction>,
) -> Option<FocusIntent> {
    let k = spec_direction_aware_key(key, direction);
    if orientation == Some(Orientation::Vertical) && (k == "ArrowLeft"@ || k == "ArrowRight"@) {
        None
    } else if orientation == Some(Orientation::Horizontal) && (k == "ArrowUp"@ || k
        == "ArrowDown"@) {
        None
    } else if k == "ArrowLeft"@ || k == "ArrowUp"@ {
        Some(FocusIntent::Prev)
    } else if k == "ArrowRight"@ || k == "ArrowDown"@ {
        Some(FocusIntent::Next)
    } else if k == "PageUp"@ || k == "Home"@ {
        Some(FocusIntent::First)
    } else if k == "PageDown"@ || k == "End"@ {
        Some(FocusIntent::Last)
    } else {
        None
    }
}

/// Swaps `ArrowLeft` and `ArrowRight` in a right-to-left group; every other
/// key, and every key in a left-to-right or undirected group, is unchanged.
pub fn get_direction_aware_key<'a>(key: &'a str, direction: Option<Direction>) -> (r: &'a str)
    ensures
        r@ == spec_direction_aware_key(key@, direction),
{
    match direction {
        Some(Direction::RightToLeft) => {
            if str_equals(key, "ArrowLeft") {
                "ArrowRight"
            } else if str_equals(key, "ArrowRight") {
                "ArrowLeft"
            } else {
                key
            }
        },
        _ => key,
    }
}

/// The focus intent of a pressed key (`None` for keys that do not move focus).
pub fn get_focus_intent(
    key: &str,
    orientation: Option<Orientation>,
    direction: Option<Direction>,
) -> (r: Option<FocusIntent>)
    ensures
        r == spec_focus_intent(key@, orientation, direction),
{
    let k = get_direction_aware_key(key, direction);
    let is_left = str_equals(k, "ArrowLeft");
    let is_right = str_equals(k, "ArrowRight");
    let is_up = str_equals(k, "ArrowUp");
    let is_down = str_equals(k, "ArrowDown");
    if orientation == Some(Orientation::Vertical) && (is_left || is_right) {
        None
    } else if orientation == Some(Orientation::Horizontal) && (is_up || is_down) {
        None
    } else if is_left || is_up {
        Some(FocusIntent::Prev)
    } else if is_right || is_down {
        Some(FocusIntent::Next)
    } else if str_equals(k, "PageUp") || str_equals(k, "Home") {
        Some(FocusIntent::First)
    } else if str_equals(k, "PageDown") || str_equals(k, "End") {
        Some(FocusIntent::Last)
    } else {
        None
    }
}

/// What an item of a roving group does with a key press.
#[derive(Clone, Copy, Debug, PartialEq, Eq, Structural)]
pub enum RovingKeyAction {
    /// Shift+Tab: the group lets focus leave backwards.
    ShiftTab,
    /// The key is left to the browser.
    Ignore,
    /// The default is prevented and focus moves as the intent says.
    Move(FocusIntent),
}

/// Modifier keys held during a key press.
#[derive(Clone, Copy, Debug, PartialEq, Eq, Structural)]
pub struct Modifiers {
    pub shift: bool,
    pub ctrl: bool,
    pub meta: bool,
    pub alt: bool,
}

pub open spec fn spec_item_key_action(
    key: Seq<char>,
    modifiers: Modifiers,
    target_is_item: bool,
    orientation: Option<Orientation>,
    direction: Option<Direction>,
) -> RovingKeyAction {
    if key == "Tab"@ && modifiers.shift {
        RovingKeyAction::ShiftTab
    } else if !target_is_item {
        RovingKeyAction::Ignore
    } else {
        match spec_focus_intent(key, orientation, direction) {
            Some(intent) => if modifiers.meta || modifiers.ctrl || modifiers.alt
                || modifiers.shift {
                RovingKeyAction::Ignore
            } else {
                RovingKeyAction::Move(intent)
            },
            None => RovingKeyAction::Ignore,
        }
    }
}

/// The key handling of a roving item: Shift+Tab first, then only key presses
/// aimed at the item itself, and no arrow moves while a modifier is held.
pub fn item_key_action(
    key: &str,
    modifiers: Modifiers,
    target_is_item: bool,
    orientation: Option<Orientation>,
    direction: Option<Direction>,
) -> (r: RovingKeyAction)
    ensures
        r == spec_item_key_action(key@, modifiers, target_is_item, orientation, direction),
{
    if str_equals(key, "Tab") && modifiers.shift {
        return RovingKeyAction::ShiftTab;
    }
    if !target_is_item {
        return RovingKeyAction::Ignore;
    }
    match get_focus_intent(key, orientation, direction) {
        Some(intent) => {
            if modifiers.meta || modifiers.ctrl || modifiers.alt || modifiers.shift {
                RovingKeyAction::Ignore
            } else {
                RovingKeyAction::Move(intent)
            }
        },
        None => RovingKeyAction::Ignore,
    }
}

/// A mounted member of a roving group, in document order.
#[derive(Clone, Copy, Debug, PartialEq, Eq, Structural)]
pub struct RovingItem {
    /// The item accepts focus.
    pub focusable: bool,
    /// The item is the active one of its group (the selected tab, the
    /// checked radio).
    pub active: bool,
    /// The item is the current one: the element a key press was aimed at,
    /// or, when focus enters the group, the group's current tab stop.
    pub is_current: bool,
}

/// Positions of the focusable items, in document order.
pub open spec fn focusable_positions(items: Seq<RovingItem>) -> Seq<usize>
    decreases items.len(),
{
    if items.len() == 0 {
        Seq::empty()
    } else {
        let rest = focusable_positions(items.drop_last());
        if items.last().focusable {
            rest.push((items.len() - 1) as usize)
        } else {
            rest
        }
    }
}

/// Focusable positions in the order the intent walks them: backwards for
/// `Last` and `Prev`.
pub open spec fn ordered_candidates(items: Seq<RovingItem>, intent: FocusIntent) -> Seq<usize> {
    if intent == FocusIntent::Last || intent == FocusIntent::Prev {
        focusable_positions(items).reverse()
    } else {
        focusable_positions(items)
    }
}

/// `p` is the first place in `order` holding the current item.
pub open spec fn is_first_current(order: Seq<usize>, items: Seq<RovingItem>, p: int) -> bool {
    &&& 0 <= p < order.len()
    &&& items[order[p] as int].is_current
    &&& forall|q: int| 0 <= q < p ==> !items[order[q] as int].is_current
}

pub open spec fn has_current(order: Seq<usize>, items: Seq<RovingItem>) -> bool {
    exists|p: int| 0 <= p < order.len() && items[order[p] as int].is_current
}

/// The positions, in the order focus is tried, that a roving move offers:
/// for `First`/`Last` every focusable item from the chosen end; for
/// `Prev`/`Next` the items after the current one in walking order,
/// wrapping round to the start when the group loops.
pub open spec fn spec_focus_candidates(
    items: Seq<RovingItem>,
    intent: FocusIntent,
    should_loop: bool,
) -> Seq<usize> {
    let order = ordered_candidates(items, intent);
    if (intent == FocusIntent::Prev || intent == FocusIntent::Next) && has_current(order, items) {
        let p = choose|p: int| is_first_current(order, items, p);
        if should_loop {
            order.skip((p + 1) % (order.len() as int))
        } else {
            order.skip(p + 1)
        }
    } else {
        order
    }
}

proof fn lemma_focusable_positions(items: Seq<RovingItem>)
    requires
        items.len() <= usize::MAX,
    ensures
        focusable_positions(items).len() <= items.len(),
        forall|k: int|
            0 <= k < focusable_positions(items).len() ==> {
                &&& (focusable_positions(items)[k] as int) < items.len()
                &&& items[focusable_positions(items)[k] as int].focusable
            },
    decreases items.len(),
{
    if items.len() > 0 {
        let init = items.drop_last();
        lemma_focusable_positions(init);
        let rest = focusable_positions(init);
        let all = focusable_positions(items);
        assert forall|k: int| 0 <= k < all.len() implies (all[k] as int) < items.len()
            && items[all[k] as int].focusable by {
            if items.last().focusable {
                assert(all == rest.push((items.len() - 1) as usize));
            } else {
                assert(all == rest);
            }
            if k < rest.len() {
                assert(all[k] == rest[k]);
                assert(init[rest[k] as int] == items[rest[k] as int]);
            } else {
                assert(all[k] as int == items.len() - 1);
            }
        }
    }
}

/// Positions of the focusable items, in document order.
fn collect_focusable(items: &Vec<RovingItem>) -> (r: Vec<usize>)
    ensures
        r@ == focusable_positions(items@),
{
    let mut out: Vec<usize> = Vec::new();
    let mut i: usize = 0;
    while i < items.len()
        invariant
            i <= items@.len(),
            out@ == focusable_positions(items@.subrange(0, i as int)),
        decreases items@.len() - i,
    {
        proof {
            let pre = items@.subrange(0, i + 1);
            assert(pre.drop_last() =~= items@.subrange(0, i as int));
            assert(pre.last() == items@[i as int]);
        }
        if items[i].focusable {
            out.push(i);
        }
        i = i + 1;
    }
    assert(items@.subrange(0, items@.len() as int) =~= items@);
    out
}

/// A vector with the elements of `v` in reverse order.
fn reversed(v: &Vec<usize>) -> (r: Vec<usize>)
    ensures
        r@ == v@.reverse(),
{
    let mut out: Vec<usize> = Vec::new();
    let mut i: usize = v.len();
    while i > 0
        invariant
            i <= v@.len(),
            out@.len() == v@.len() - i,
            forall|k: int| 0 <= k < out@.len() ==> out@[k] == v@[v@.len() - 1 - k],
        decreases i,
    {
        i = i - 1;
        out.push(v[i]);
    }
    assert(out@ =~= v@.reverse());
    out
}

/// Candidate positions for a roving move; see [`spec_focus_candidates`].
/// Every item is a mounted member of the group.
pub fn focus_candidates(items: &Vec<RovingItem>, intent: FocusIntent, should_loop: bool) -> (r: Vec<
    usize,
>)
    ensures
        r@ == spec_focus_candidates(items@, intent, should_loop),
{
    let forward = collect_focusable(items);
    let order = if intent == FocusIntent::Last || intent == FocusIntent::Prev {
        reversed(&forward)
    } else {
        forward
    };
    assert(order@ == ordered_candidates(items@, intent));
    let n = items.len();
    proof {
        lemma_focusable_positions(items@);
    }
    assert forall|k: int| 0 <= k < order@.len() implies (order@[k] as int) < items@.len() by {
        if intent == FocusIntent::Last || intent == FocusIntent::Prev {
            assert(order@[k] == focusable_positions(items@)[focusable_positions(items@).len() - 1
                - k]);
        }
    }
    if intent == FocusIntent::Prev || intent == FocusIntent::Next {
        let mut p: usize = 0;
        while p < order.len() && !items[order[p]].is_current
            invariant
                p <= order@.len(),
                forall|k: int| 0 <= k < order@.len() ==> (order@[k] as int) < items@.len(),
                forall|q: int| 0 <= q < p ==> !items@[order@[q] as int].is_current,
            decreases order@.len() - p,
        {
            p = p + 1;
        }
        if p < order.len() {
            assert(is_first_current(order@, items@, p as int));
            assert(has_current(order@, items@));
            proof {
                let c = choose|c: int| is_first_current(order@, items@, c);
                assert(c == p) by {
                    if c < p {
                    } else if c > p {
                    }
                }
            }
            let len = order.len();
            let start = if should_loop {
                (p + 1) % len
            } else {
                p + 1
            };
            let mut out: Vec<usize> = Vec::new();
            let mut k: usize = start;
            while k < len
                invariant
                    start <= k <= len,
                    len == order@.len(),
                    out@ == order@.subrange(start as int, k as int),
                decreases len - k,
            {
                out.push(order[k]);
                k = k + 1;
                assert(out@ =~= order@.subrange(start as int, k as int));
            }
            assert(out@ =~= order@.skip(start as int));
            return out;
        } else {
            assert(!has_current(order@, items@));
        }
    }
    order
}

/// Whether an item carries the mark looked for: active, or current.
pub open spec fn has_mark(item: RovingItem, active: bool) -> bool {
    if active {
        item.active
    } else {
        item.is_current
    }
}

/// The first position in `order` whose item carries the mark.
pub open spec fn first_marked(order: Seq<usize>, items: Seq<RovingItem>, active: bool) -> Option<
    usize,
>
    decreases order.len(),
{
    if order.len() == 0 {
        None
    } else if has_mark(items[order[0] as int], active) {
        Some(order[0])
    } else {
        first_marked(order.drop_first(), items, active)
    }
}

/// A position as a sequence of zero or one positions.
pub open spec fn optional(p: Option<usize>) -> Seq<usize> {
    match p {
        Some(i) => seq![i],
        None => Seq::empty(),
    }
}

/// The positions that focus is tried on when it enters a group from outside
/// by keyboard: every focusable item in document order, then again the first
/// focusable active item and the first focusable current item, where there
/// are such.
pub open spec fn spec_entry_candidates(items: Seq<RovingItem>) -> Seq<usize> {
    let order = focusable_positions(items);
    order + optional(first_marked(order, items, true)) + optional(first_marked(order, items, false))
}

/// The first position in `order` whose item carries the mark.
fn find_marked(order: &Vec<usize>, items: &Vec<RovingItem>, active: bool) -> (r: Option<usize>)
    requires
        forall|k: int| 0 <= k < order@.len() ==> (order@[k] as int) < items@.len(),
    ensures
        r == first_marked(order@, items@, active),
{
    let mut k: usize = 0;
    assert(order@.skip(0) =~= order@);
    while k < order.len()
        invariant
            k <= order@.len(),
            forall|j: int| 0 <= j < order@.len() ==> (order@[j] as int) < items@.len(),
            first_marked(order@, items@, active) == first_marked(order@.skip(k as int), items@, active),
        decreases order@.len() - k,
    {
        let i = order[k];
        let marked = if active {
            items[i].active
        } else {
            items[i].is_current
        };
        assert(order@.skip(k as int)[0] == order@[k as int]);
        if marked {
            return Some(i);
        }
        assert(order@.skip(k as int).drop_first() =~= order@.skip(k + 1));
        k = k + 1;
    }
    None
}

/// Candidate positions for focus entering a group; see
/// [`spec_entry_candidates`].
pub fn entry_candidates(items: &Vec<RovingItem>) -> (r: Vec<usize>)
    ensures
        r@ == spec_entry_candidates(items@),
{
    let n = items.len();
    proof {
        lemma_focusable_positions(items@);
    }
    let order = collect_focusable(items);
    let active = find_marked(&order, items, true);
    let current = find_marked(&order, items, false);
    let mut out = order;
    let ghost base = out@;
    match active {
        Some(a) => out.push(a),
        None => {},
    }
    let ghost mid = out@;
    assert(mid =~= base + optional(active));
    match current {
        Some(c) => out.push(c),
        None => {},
    }
    assert(out@ =~= mid + optional(current));
    out
}

/// What a roving group tracks between events: whether focus is leaving
/// backwards with Shift+Tab, whether the last focus came from a mouse press,
/// and how many of its items are focusable.
#[derive(Clone, Copy, Debug, PartialEq, Eq, Structural)]
pub struct RovingGroup {
    pub tabbing_back_out: bool,
    pub click_focus: bool,
    pub focusable_count: i32,
}

impl RovingGroup {
    /// A group with no items, not being left.
    pub fn new() -> (r: RovingGroup)
        ensures
            r == (RovingGroup { tabbing_back_out: false, click_focus: false, focusable_count: 0 }),
    {
        RovingGroup { tabbing_back_out: false, click_focus: false, focusable_count: 0 }
    }

    /// The group itself is reachable by Tab unless focus is leaving it
    /// backwards or nothing in it can take focus.
    pub fn tab_index(&self) -> (r: i32)
        ensures
            r == (if self.tabbing_back_out || self.focusable_count == 0 {
                -1i32
            } else {
                0i32
            }),
    {
        if self.tabbing_back_out || self.focusable_count == 0 {
            -1
        } else {
            0
        }
    }

    /// A mouse press inside the group: the focus that follows is a click's.
    pub fn mouse_down(&mut self)
        ensures
            *final(self) == (RovingGroup { click_focus: true, ..*old(self) }),
    {
        self.click_focus = true;
    }

    /// Focus lands on the group. Focus moves on into the group's items when
    /// it landed on the group itself, by keyboard, and not while leaving
    /// backwards. The click mark is cleared either way.
    pub fn focus(&mut self, target_is_group: bool) -> (r: bool)
        ensures
            r == (target_is_group && !old(self).click_focus && !old(self).tabbing_back_out),
            *final(self) == (RovingGroup { click_focus: false, ..*old(self) }),
    {
        let enters = target_is_group && !self.click_focus && !self.tabbing_back_out;
        self.click_focus = false;
        enters
    }

    /// Focus leaves the group: leaving is over.
    pub fn blur(&mut self)
        ensures
            *final(self) == (RovingGroup { tabbing_back_out: false, ..*old(self) }),
    {
        self.tabbing_back_out = false;
    }

    /// An item saw Shift+Tab: focus is leaving backwards.
    pub fn item_shift_tab(&mut self)
        ensures
            *final(self) == (RovingGroup { tabbing_back_out: true, ..*old(self) }),
    {
        self.tabbing_back_out = true;
    }

    /// A focusable item joined the group.
    pub fn focusable_item_added(&mut self)
        requires
            old(self).focusable_count < i32::MAX,
        ensures
            *final(self) == (RovingGroup {
                focusable_count: (old(self).focusable_count + 1) as i32,
                ..*old(self)
            }),
    {
        self.focusable_count = self.focusable_count + 1;
    }

    /// A focusable item left the group.
    pub fn focusable_item_removed(&mut self)
        requires
            old(self).focusable_count > i32::MIN,
        ensures
            *final(self) == (RovingGroup {
                focusable_count: (old(self).focusable_count - 1) as i32,
                ..*old(self)
            }),
    {
        self.focusable_count = self.focusable_count - 1;
    }
}

/// An item is reachable by Tab only when it is the group's current tab stop.
pub fn item_tab_index(is_current_tab_stop: bool) -> (r: i32)
    ensures
        r == (if is_current_tab_stop {
            0i32
        } else {
            -1i32
        }),
{
    if is_current_tab_stop {
        0
    } else {
        -1
    }
}

/// Every position offered for a roving move or for entering the group is
/// the position of a focusable item.
pub proof fn lemma_candidates_are_focusable(items: Seq<RovingItem>, intent: FocusIntent, should_loop: bool)
    requires
        items.len() <= usize::MAX,
    ensures
        forall|k: int|
            #![trigger spec_focus_candidates(items, intent, should_loop)[k]]
            0 <= k < spec_focus_candidates(items, intent, should_loop).len() ==> (spec_focus_candidates(
                items,
                intent,
                should_loop,
            )[k] as int) < items.len() && items[spec_focus_candidates(
                items,
                intent,
                should_loop,
            )[k] as int].focusable,
        forall|k: int|
            #![trigger spec_entry_candidates(items)[k]]
            0 <= k < spec_entry_candidates(items).len() ==> (spec_entry_candidates(items)[k] as int)
                < items.len() && items[spec_entry_candidates(items)[k] as int].focusable,
{
    lemma_focusable_positions(items);
    let fp = focusable_positions(items);
    let order = ordered_candidates(items, intent);
    assert forall|k: int| 0 <= k < order.len() implies (order[k] as int) < items.len()
        && items[order[k] as int].focusable by {
        if intent == FocusIntent::Last || intent == FocusIntent::Prev {
            assert(order[k] == fp[fp.len() - 1 - k]);
        }
    }
    let c = spec_focus_candidates(items, intent, should_loop);
    if (intent == FocusIntent::Prev || intent == FocusIntent::Next) && has_current(order, items) {
        let w = choose|w: int| 0 <= w < order.len() && items[order[w] as int].is_current;
        lemma_first_current_exists(order, items, w);
        let p = choose|p: int| is_first_current(order, items, p);
        let start = if should_loop {
            (p + 1) % (order.len() as int)
        } else {
            p + 1
        };
        assert(0 <= p < order.len());
        if should_loop {
            let n = order.len() as int;
            assert(0 <= (p + 1) % n < n) by (nonlinear_arith)
                requires
                    n > 0,
            ;
        }
        assert(0 <= start <= order.len());
        assert(c == order.skip(start));
        assert forall|k: int| 0 <= k < c.len() implies (c[k] as int) < items.len()
            && items[c[k] as int].focusable by {
            assert(c[k] == order[k + start]);
        }
    }
    lemma_first_marked_in(fp, items, true);
    lemma_first_marked_in(fp, items, false);
}

/// Some place holds the current item, so a first such place exists.
proof fn lemma_first_current_exists(order: Seq<usize>, items: Seq<RovingItem>, w: int)
    requires
        0 <= w < order.len(),
        items[order[w] as int].is_current,
    ensures
        exists|p: int| is_first_current(order, items, p),
    decreases w,
{
    if exists|q: int| 0 <= q < w && items[order[q] as int].is_current {
        let q = choose|q: int| 0 <= q < w && items[order[q] as int].is_current;
        lemma_first_current_exists(order, items, q);
    } else {
        assert(is_first_current(order, items, w));
    }
}

/// A marked position is one of the positions searched.
proof fn lemma_first_marked_in(order: Seq<usize>, items: Seq<RovingItem>, active: bool)
    ensures
        first_marked(order, items, active) matches Some(p) ==> order.contains(p),
    decreases order.len(),
{
    if order.len() > 0 && !has_mark(items[order[0] as int], active) {
        lemma_first_marked_in(order.drop_first(), items, active);
        match first_marked(order, items, active) {
            Some(p) => {
                let k = choose|k: int|
                    0 <= k < order.drop_first().len() && order.drop_first()[k] == p;
                assert(order[k + 1] == p);
            },
            None => {},
        }
    } else if order.len() > 0 {
        assert(order[0] == order[0]);
    }
}

/// In a horizontal group read right to left, each horizontal arrow does
/// what the other one does when read left to right.
pub proof fn lemma_right_to_left_mirrors_arrows()
    ensures
        spec_focus_intent("ArrowLeft"@, Some(Orientation::Horizontal), Some(Direction::RightToLeft))
            == spec_focus_intent(
            "ArrowRight"@,
            Some(Orientation::Horizontal),
            Some(Direction::LeftToRight),
        ),
        spec_focus_intent("ArrowRight"@, Some(Orientation::Horizontal), Some(Direction::RightToLeft))
            == spec_focus_intent(
            "ArrowLeft"@,
            Some(Orientation::Horizontal),
            Some(Direction::LeftToRight),
        ),
        spec_focus_intent("ArrowLeft"@, Some(Orientation::Horizontal), Some(Direction::LeftToRight))
            == Some(FocusIntent::Prev),
{
    reveal_strlit("ArrowLeft");
    reveal_strlit("ArrowRight");
    reveal_strlit("ArrowUp");
    reveal_strlit("ArrowDown");
    assert("ArrowLeft"@.len() == 9 && "ArrowRight"@.len() == 10 && "ArrowUp"@.len() == 7
        && "ArrowDown"@.len() == 9);
    assert("ArrowLeft"@[5] != "ArrowDown"@[5]);
}

/// Arrows across a group's axis give no intent, whatever the reading
/// direction: Left and Right in a vertical group, Up and Down in a
/// horizontal one. Along the axis, and in a group without orientation, Up
/// (and Left read left to right) go back and Down (and Right read left to
/// right) go forward.
pub proof fn lemma_arrow_intents(direction: Option<Direction>)
    ensures
        spec_focus_intent("ArrowLeft"@, Some(Orientation::Vertical), direction) is None,
        spec_focus_intent("ArrowRight"@, Some(Orientation::Vertical), direction) is None,
        spec_focus_intent("ArrowUp"@, Some(Orientation::Horizontal), direction) is None,
        spec_focus_intent("ArrowDown"@, Some(Orientation::Horizontal), direction) is None,
        spec_focus_intent("ArrowUp"@, Some(Orientation::Vertical), direction) == Some(
            FocusIntent::Prev,
        ),
        spec_focus_intent("ArrowDown"@, Some(Orientation::Vertical), direction) == Some(
            FocusIntent::Next,
        ),
        spec_focus_intent("ArrowUp"@, None, direction) == Some(FocusIntent::Prev),
        spec_focus_intent("ArrowDown"@, None, direction) == Some(FocusIntent::Next),
        direction != Some(Direction::RightToLeft) ==> spec_focus_intent(
            "ArrowLeft"@,
            Some(Orientation::Horizontal),
            direction,
        ) == Some(FocusIntent::Prev) && spec_focus_intent(
            "ArrowRight"@,
            Some(Orientation::Horizontal),
            direction,
        ) == Some(FocusIntent::Next),
        direction == Some(Direction::RightToLeft) ==> spec_focus_intent(
            "ArrowLeft"@,
            Some(Orientation::Horizontal),
            direction,
        ) == Some(FocusIntent::Next) && spec_focus_intent(
            "ArrowRight"@,
            Some(Orientation::Horizontal),
            direction,
        ) == Some(FocusIntent::Prev),
{
    reveal_strlit("ArrowLeft");
    reveal_strlit("ArrowRight");
    reveal_strlit("ArrowUp");
    reveal_strlit("ArrowDown");
    assert("ArrowLeft"@.len() == 9 && "ArrowRight"@.len() == 10 && "ArrowUp"@.len() == 7
        && "ArrowDown"@.len() == 9);
    assert("ArrowLeft"@[5] != "ArrowDown"@[5]);
}

/// Where a roving move goes from the current item, the `k`-th focusable one
/// (and the only current one): Next offers the focusable items after it and
/// Prev those before it, nearest first; in a looping group a move past
/// either end starts again from the other end, offering every focusable
/// item. First and Last offer every focusable item from their end.
pub proof fn lemma_moves_from_current(items: Seq<RovingItem>, k: int, should_loop: bool)
    requires
        items.len() <= usize::MAX,
        0 <= k < focusable_positions(items).len(),
        items[focusable_positions(items)[k] as int].is_current,
        forall|j: int|
            #![trigger focusable_positions(items)[j]]
            0 <= j < focusable_positions(items).len() && j != k
                ==> !items[focusable_positions(items)[j] as int].is_current,
    ensures
        ({
            let fp = focusable_positions(items);
            let n = fp.len() as int;
            &&& spec_focus_candidates(items, FocusIntent::Next, should_loop) == (if should_loop && k
                == n - 1 {
                fp
            } else {
                fp.subrange(k + 1, n)
            })
            &&& spec_focus_candidates(items, FocusIntent::Prev, should_loop) == (if should_loop && k
                == 0 {
                fp.reverse()
            } else {
                fp.subrange(0, k).reverse()
            })
            &&& spec_focus_candidates(items, FocusIntent::First, should_loop) == fp
            &&& spec_focus_candidates(items, FocusIntent::Last, should_loop) == fp.reverse()
        }),
{
    let fp = focusable_positions(items);
    let n = fp.len() as int;
    lemma_focusable_positions(items);
    // Next: walking order is document order, the current item sits at k.
    let next_order = ordered_candidates(items, FocusIntent::Next);
    assert(next_order == fp);
    assert(is_first_current(next_order, items, k));
    assert(has_current(next_order, items));
    let pn = choose|p: int| is_first_current(next_order, items, p);
    assert(pn == k) by {
        if pn != k {
            assert(!items[fp[pn] as int].is_current);
        }
    }
    if should_loop {
        if k == n - 1 {
            vstd::arithmetic::div_mod::lemma_mod_self_0(n);
            assert(fp.skip(0) =~= fp);
        } else {
            vstd::arithmetic::div_mod::lemma_small_mod((k + 1) as nat, n as nat);
            assert(fp.skip(k + 1) =~= fp.subrange(k + 1, n));
        }
    } else {
        assert(fp.skip(k + 1) =~= fp.subrange(k + 1, n));
    }
    // Prev: walking order is reversed, the current item sits at n - 1 - k.
    let prev_order = ordered_candidates(items, FocusIntent::Prev);
    let q = n - 1 - k;
    assert(prev_order == fp.reverse());
    assert(prev_order[q] == fp[k]);
    assert(is_first_current(prev_order, items, q)) by {
        assert forall|r: int| 0 <= r < q implies !items[prev_order[r] as int].is_current by {
            assert(prev_order[r] == fp[n - 1 - r]);
        }
    }
    assert(has_current(prev_order, items));
    let pp = choose|p: int| is_first_current(prev_order, items, p);
    assert(pp == q) by {
        if pp != q {
            assert(prev_order[pp] == fp[n - 1 - pp]);
            assert(!items[fp[n - 1 - pp] as int].is_current);
        }
    }
    if should_loop {
        if k == 0 {
            vstd::arithmetic::div_mod::lemma_mod_self_0(n);
            assert(prev_order.skip(0) =~= fp.reverse());
        } else {
            vstd::arithmetic::div_mod::lemma_small_mod((q + 1) as nat, n as nat);
            assert(prev_order.skip(q + 1) =~= fp.subrange(0, k).reverse());
        }
    } else {
        assert(prev_order.skip(q + 1) =~= fp.subrange(0, k).reverse());
    }
}

/// Home and Page Up go to the first item and End and Page Down to the last,
/// in any group. Shift+Tab always lets focus leave; otherwise a key aimed
/// at something inside an item, or pressed with a modifier, moves nothing.
pub proof fn lemma_end_keys_and_modifiers(
    key: Seq<char>,
    modifiers: Modifiers,
    target_is_item: bool,
    orientation: Option<Orientation>,
    direction: Option<Direction>,
)
    ensures
        spec_focus_intent("Home"@, orientation, direction) == Some(FocusIntent::First),
        spec_focus_intent("PageUp"@, orientation, direction) == Some(FocusIntent::First),
        spec_focus_intent("End"@, orientation, direction) == Some(FocusIntent::Last),
        spec_focus_intent("PageDown"@, orientation, direction) == Some(FocusIntent::Last),
        modifiers.shift ==> spec_item_key_action("Tab"@, modifiers, target_is_item, orientation, direction)
            == RovingKeyAction::ShiftTab,
        key != "Tab"@ && (!target_is_item || modifiers.shift || modifiers.ctrl || modifiers.meta
            || modifiers.alt) ==> spec_item_key_action(key, modifiers, target_is_item, orientation, direction)
            == RovingKeyAction::Ignore,
        spec_item_key_action(key, modifiers, target_is_item, orientation, direction) matches RovingKeyAction::Move(i)
            ==> spec_focus_intent(key, orientation, direction) == Some(i),
{
    reveal_strlit("Home");
    reveal_strlit("End");
    reveal_strlit("PageUp");
    reveal_strlit("PageDown");
    reveal_strlit("ArrowLeft");
    reveal_strlit("ArrowRight");
    reveal_strlit("ArrowUp");
    reveal_strlit("ArrowDown");
    assert("Home"@.len() == 4 && "End"@.len() == 3 && "PageUp"@.len() == 6 && "PageDown"@.len()
        == 8);
    assert("ArrowLeft"@.len() == 9 && "ArrowRight"@.len() == 10 && "ArrowUp"@.len() == 7
        && "ArrowDown"@.len() == 9);
}

} // verus!
