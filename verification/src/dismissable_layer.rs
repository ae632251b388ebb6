//! Dismissable layers: the stack of open layers (dialogs, popovers), which of
//! them blocks pointer events outside itself, and when a layer is dismissed.

use vstd::prelude::*;
use crate::value_list::lemma_remove_after_push;

verus! {

/// Identity of a mounted layer or branch element.
pub type NodeId = u64;

/// Position of the first occurrence of `n` in `s`.
pub open spec fn position(s: Seq<NodeId>, n: NodeId) -> Option<int> {
    s.index_of_first(n)
}

pub open spec fn push_absent(s: Seq<NodeId>, n: NodeId) -> Seq<NodeId> {
    if s.contains(n) {
        s
    } else {
        s.push(n)
    }
}

/// The registered layers (in opening order), the layers that disable
/// pointer events outside themselves (in opening order), and the branches
/// (elements that count as inside every layer).
pub struct LayerStack {
    layers: Vec<NodeId>,
    disabling: Vec<NodeId>,
    branches: Vec<NodeId>,
}

/// Abstract contents of a [`LayerStack`].
pub struct LayerStackView {
    pub layers: Seq<NodeId>,
    pub disabling: Seq<NodeId>,
    pub branches: Seq<NodeId>,
}

impl View for LayerStack {
    type V = LayerStackView;

    closed spec fn view(&self) -> LayerStackView {
        LayerStackView { layers: self.layers@, disabling: self.disabling@, branches: self.branches@ }
    }
}

/// No layer or branch is recorded twice.
pub open spec fn stack_wf(v: LayerStackView) -> bool {
    v.layers.no_duplicates() && v.disabling.no_duplicates() && v.branches.no_duplicates()
}

/// Index of the layer `n`, if registered.
pub open spec fn layer_index(v: LayerStackView, n: NodeId) -> Option<int> {
    position(v.layers, n)
}

/// Index, among all layers, of the most recently registered layer that
/// disables outside pointer events.
pub open spec fn highest_disabling_index(v: LayerStackView) -> Option<int> {
    if v.disabling.len() == 0 {
        None
    } else {
        position(v.layers, v.disabling.last())
    }
}

/// A layer receives pointer events when it lies at or above the highest
/// layer that disables outside pointer events.
pub open spec fn spec_pointer_events_enabled(v: LayerStackView, n: NodeId) -> bool {
    match (layer_index(v, n), highest_disabling_index(v)) {
        (Some(i), Some(h)) => i >= h,
        _ => false,
    }
}

/// The `pointer-events` style of a layer: untouched while no layer disables
/// outside pointer events, `auto` or `none` otherwise.
pub open spec fn spec_pointer_events_style(v: LayerStackView, n: NodeId) -> Option<Seq<char>> {
    if v.disabling.len() == 0 {
        None
    } else if spec_pointer_events_enabled(v, n) {
        Some("auto"@)
    } else {
        Some("none"@)
    }
}

/// What a layer does with an interaction outside it.
#[derive(Clone, Copy, Debug, PartialEq, Eq, Structural)]
pub enum OutsideAction {
    /// The interaction is not for this layer.
    Ignore,
    /// The layer's handlers run, then it is dismissed unless one of them
    /// prevented the default.
    Notify,
}

pub(crate) fn find(v: &Vec<NodeId>, n: NodeId) -> (r: Option<usize>)
    ensures
        match r {
            Some(k) => position(v@, n) == Some(k as int),
            None => position(v@, n) is None,
        },
{
    proof {
        v@.index_of_first_ensures(n);
    }
    let mut i: usize = 0;
    while i < v.len()
        invariant
            i <= v@.len(),
            forall|j: int| 0 <= j < i ==> v@[j] != n,
        decreases v@.len() - i,
    {
        if v[i] == n {
            proof {
                v@.index_of_first_ensures(n);
                assert(v@[i as int] == n);
                assert(v@.contains(n));
                let k = v@.index_of_first(n).unwrap();
                assert(k == i) by {
                    if k < i {
                    } else if k > i {
                    }
                }
            }
            return Some(i);
        }
        i = i + 1;
    }
    proof {
        assert(!v@.contains(n));
    }
    None
}

fn push_if_absent(v: &mut Vec<NodeId>, n: NodeId)
    requires
        old(v)@.no_duplicates(),
    ensures
        final(v)@ == push_absent(old(v)@, n),
        final(v)@.no_duplicates(),
{
    proof {
        old(v)@.index_of_first_ensures(n);
    }
    match find(v, n) {
        Some(_) => {},
        None => {
            v.push(n);
            assert forall|i: int, j: int|
                0 <= i < v@.len() && 0 <= j < v@.len() && i != j implies v@[i] != v@[j] by {
                if i == v@.len() - 1 {
                    assert(old(v)@[j] == v@[j]);
                } else if j == v@.len() - 1 {
                    assert(old(v)@[i] == v@[i]);
                }
            }
        },
    }
}

proof fn lemma_remove_value_no_dups(s: Seq<NodeId>, n: NodeId)
    requires
        s.no_duplicates(),
    ensures
        s.remove_value(n).no_duplicates(),
        !s.remove_value(n).contains(n),
        forall|m: NodeId| m != n ==> (s.remove_value(n).contains(m) <==> s.contains(m)),
{
    s.index_of_first_ensures(n);
    match s.index_of_first(n) {
        Some(i) => {
            s.remove_ensures(i);
            let r = s.remove(i);
            assert forall|a: int, b: int| 0 <= a < r.len() && 0 <= b < r.len() && a != b implies r[a]
                != r[b] by {
                let sa = if a < i {
                    a
                } else {
                    a + 1
                };
                let sb = if b < i {
                    b
                } else {
                    b + 1
                };
                assert(r[a] == s[sa]);
                assert(r[b] == s[sb]);
            }
            assert(!r.contains(n)) by {
                if r.contains(n) {
                    let a = choose|a: int| 0 <= a < r.len() && r[a] == n;
                    if a < i {
                        assert(s[a] == n);
                    } else {
                        assert(s[a + 1] == n);
                    }
                }
            }
            assert forall|m: NodeId| m != n implies (r.contains(m) <==> s.contains(m)) by {
                if s.contains(m) {
                    let a = choose|a: int| 0 <= a < s.len() && s[a] == m;
                    if a < i {
                        assert(r[a] == m);
                    } else {
                        assert(a != i);
                        assert(r[a - 1] == m);
                    }
                }
                if r.contains(m) {
                    let a = choose|a: int| 0 <= a < r.len() && r[a] == m;
                    if a < i {
                        assert(s[a] == m);
                    } else {
                        assert(s[a + 1] == m);
                    }
                }
            }
        },
        None => {},
    }
}

pub(crate) fn remove_first(v: &mut Vec<NodeId>, n: NodeId)
    ensures
        final(v)@ == old(v)@.remove_value(n),
        old(v)@.no_duplicates() ==> final(v)@.no_duplicates(),
{
    proof {
        old(v)@.index_of_first_ensures(n);
        if old(v)@.no_duplicates() {
            lemma_remove_value_no_dups(old(v)@, n);
        }
    }
    match find(v, n) {
        Some(i) => {
            v.remove(i);
            assert(v@ =~= old(v)@.remove(i as int));
        },
        None => {},
    }
}

impl LayerStack {
    /// An empty stack.
    pub fn new() -> (r: LayerStack)
        ensures
            r@.layers.len() == 0,
            r@.disabling.len() == 0,
            r@.branches.len() == 0,
            stack_wf(r@),
    {
        LayerStack { layers: Vec::new(), disabling: Vec::new(), branches: Vec::new() }
    }

    /// Registers a mounted layer (once; registering it again changes
    /// nothing). A layer that disables outside pointer events is recorded
    /// among those too.
    pub fn register(&mut self, node: NodeId, disable_outside_pointer_events: bool)
        requires
            stack_wf(old(self)@),
        ensures
            stack_wf(final(self)@),
            final(self)@.layers == push_absent(old(self)@.layers, node),
            final(self)@.disabling == if disable_outside_pointer_events {
                push_absent(old(self)@.disabling, node)
            } else {
                old(self)@.disabling
            },
            final(self)@.branches == old(self)@.branches,
    {
        if disable_outside_pointer_events {
            push_if_absent(&mut self.disabling, node);
        }
        push_if_absent(&mut self.layers, node);
    }

    /// Forgets an unmounted layer.
    pub fn unregister(&mut self, node: NodeId)
        requires
            stack_wf(old(self)@),
        ensures
            stack_wf(final(self)@),
            final(self)@.layers == old(self)@.layers.remove_value(node),
            final(self)@.disabling == old(self)@.disabling.remove_value(node),
            final(self)@.branches == old(self)@.branches,
    {
        remove_first(&mut self.layers, node);
        remove_first(&mut self.disabling, node);
    }

    /// Registers a branch element (once).
    pub fn add_branch(&mut self, node: NodeId)
        requires
            stack_wf(old(self)@),
        ensures
            stack_wf(final(self)@),
            final(self)@.branches == push_absent(old(self)@.branches, node),
            final(self)@.layers == old(self)@.layers,
            final(self)@.disabling == old(self)@.disabling,
    {
        push_if_absent(&mut self.branches, node);
    }

    /// Forgets a branch element.
    pub fn remove_branch(&mut self, node: NodeId)
        requires
            stack_wf(old(self)@),
        ensures
            stack_wf(final(self)@),
            final(self)@.branches == old(self)@.branches.remove_value(node),
            final(self)@.layers == old(self)@.layers,
            final(self)@.disabling == old(self)@.disabling,
    {
        remove_first(&mut self.branches, node);
    }

    /// Whether `node` is a registered branch.
    pub fn is_branch(&self, node: NodeId) -> (r: bool)
        ensures
            r == self@.branches.contains(node),
    {
        proof {
            self@.branches.index_of_first_ensures(node);
        }
        find(&self.branches, node).is_some()
    }

    /// Index of the layer `node` among the registered layers.
    pub fn index_of(&self, node: NodeId) -> (r: Option<usize>)
        ensures
            match r {
                Some(k) => layer_index(self@, node) == Some(k as int),
                None => layer_index(self@, node) is None,
            },
    {
        find(&self.layers, node)
    }

    /// Index of the most recently registered layer that disables outside
    /// pointer events.
    pub fn highest_disabling_index(&self) -> (r: Option<usize>)
        ensures
            match r {
                Some(k) => highest_disabling_index(self@) == Some(k as int),
                None => highest_disabling_index(self@) is None,
            },
    {
        let n = self.disabling.len();
        if n == 0 {
            None
        } else {
            find(&self.layers, self.disabling[n - 1])
        }
    }

    /// The body's pointer events are off while some layer disables them.
    pub fn is_body_pointer_events_disabled(&self) -> (r: bool)
        ensures
            r == (self@.disabling.len() > 0),
    {
        self.disabling.len() > 0
    }

    /// Whether the layer `node` receives pointer events.
    pub fn is_pointer_events_enabled(&self, node: NodeId) -> (r: bool)
        ensures
            r == spec_pointer_events_enabled(self@, node),
    {
        match (self.index_of(node), self.highest_disabling_index()) {
            (Some(i), Some(h)) => i >= h,
            _ => false,
        }
    }

    /// The `pointer-events` style to give the layer `node`.
    pub fn pointer_events_style(&self, node: NodeId) -> (r: Option<&'static str>)
        ensures
            match spec_pointer_events_style(self@, node) {
                Some(s) => r matches Some(t) && t@ == s,
                None => r is None,
            },
    {
        if !self.is_body_pointer_events_disabled() {
            None
        } else if self.is_pointer_events_enabled(node) {
            Some("auto")
        } else {
            Some("none")
        }
    }

    /// Whether `node` is the top layer, the one Escape dismisses.
    pub fn is_highest_layer(&self, node: NodeId) -> (r: bool)
        requires
            self@.layers.len() > 0,
        ensures
            r == (layer_index(self@, node) == Some(self@.layers.len() - 1)),
    {
        let top = self.layers.len() - 1;
        match self.index_of(node) {
            Some(i) => i == top,
            None => false,
        }
    }

    /// A pointer press outside the layer `node` reaches its handlers only
    /// when the layer receives pointer events and the press is not on a
    /// branch.
    pub fn pointer_down_outside(&self, node: NodeId, on_branch: bool) -> (r: OutsideAction)
        ensures
            r == if !spec_pointer_events_enabled(self@, node) || on_branch {
                OutsideAction::Ignore
            } else {
                OutsideAction::Notify
            },
    {
        if !self.is_pointer_events_enabled(node) || on_branch {
            OutsideAction::Ignore
        } else {
            OutsideAction::Notify
        }
    }

    /// A key press anywhere in the document reaches the handlers of the top
    /// layer only, whichever key it is (the layer listens to every key, not
    /// just Escape).
    pub fn escape_key_down(&self, node: NodeId) -> (r: OutsideAction)
        requires
            self@.layers.len() > 0,
        ensures
            r == if layer_index(self@, node) == Some(self@.layers.len() - 1) {
                OutsideAction::Notify
            } else {
                OutsideAction::Ignore
            },
    {
        if self.is_highest_layer(node) {
            OutsideAction::Notify
        } else {
            OutsideAction::Ignore
        }
    }
}

/// Focus moving outside a layer reaches its handlers unless it lands on a
/// branch.
pub fn focus_outside(focus_in_branch: bool) -> (r: OutsideAction)
    ensures
        r == if focus_in_branch {
            OutsideAction::Ignore
        } else {
            OutsideAction::Notify
        },
{
    if focus_in_branch {
        OutsideAction::Ignore
    } else {
        OutsideAction::Notify
    }
}

/// A notified layer is dismissed unless a handler prevented the default.
pub fn dismisses(action: OutsideAction, default_prevented: bool) -> (r: bool)
    ensures
        r == (action == OutsideAction::Notify && !default_prevented),
{
    action == OutsideAction::Notify && !default_prevented
}

/// Registering a layer that was not there and then unregistering it gives
/// back the stack as it was.
pub proof fn lemma_register_unregister(v: LayerStackView, node: NodeId, disable: bool)
    requires
        stack_wf(v),
        !v.layers.contains(node),
        !v.disabling.contains(node),
    ensures
        push_absent(v.layers, node).remove_value(node) == v.layers,
        (if disable {
            push_absent(v.disabling, node)
        } else {
            v.disabling
        }).remove_value(node) == v.disabling,
{
    lemma_remove_after_push(v.layers, node);
    lemma_remove_after_push(v.disabling, node);
    v.disabling.index_of_first_ensures(node);
}

/// A newly opened layer that disables outside pointer events becomes the
/// top layer, receives pointer events itself, and blocks them for every
/// layer opened before it.
pub proof fn lemma_new_modal_layer_blocks_below(
    v: LayerStackView,
    node: NodeId,
    other: NodeId,
)
    requires
        stack_wf(v),
        !v.layers.contains(node),
        !v.disabling.contains(node),
        v.layers.contains(other),
    ensures
        ({
            let w = LayerStackView {
                layers: push_absent(v.layers, node),
                disabling: push_absent(v.disabling, node),
                branches: v.branches,
            };
            &&& layer_index(w, node) == Some(w.layers.len() - 1)
            &&& spec_pointer_events_enabled(w, node)
            &&& !spec_pointer_events_enabled(w, other)
            &&& spec_pointer_events_style(w, other) == Some("none"@)
            &&& spec_pointer_events_style(w, node) == Some("auto"@)
        }),
{
    let layers = v.layers.push(node);
    let disabling = v.disabling.push(node);
    layers.index_of_first_ensures(node);
    layers.index_of_first_ensures(other);
    v.layers.index_of_first_ensures(other);
    assert(layers[v.layers.len() as int] == node);
    let i = layers.index_of_first(node).unwrap();
    assert(i == v.layers.len()) by {
        if i < v.layers.len() {
            assert(v.layers[i] == node);
        }
    }
    assert(disabling.last() == node);
    let k = v.layers.index_of_first(other).unwrap();
    assert(layers[k] == other);
    assert(layers.contains(other));
    let j = layers.index_of_first(other).unwrap();
    assert(j == k) by {
        if j < k {
            assert(v.layers[j] == layers[j]);
        } else if j > k {
        }
    }
}

/// With no layer disabling outside pointer events, no layer's
/// `pointer-events` style is touched.
pub proof fn lemma_no_modal_no_style(v: LayerStackView, node: NodeId)
    requires
        v.disabling.len() == 0,
    ensures
        spec_pointer_events_style(v, node) is None,
{
}

} // verus!
