//! Values that a component's user may control or leave to the component, and
//! the tracker that remembers a value's previous state.

use vstd::prelude::*;
use vstd::std_specs::cmp::PartialEqSpec;

verus! {

/// The write side of a value that the component's user controls when
/// `controlled` holds one, and that the component keeps in `uncontrolled`
/// otherwise.
pub struct WriteControllableSignal<T> {
    pub controlled: Option<T>,
    pub uncontrolled: Option<T>,
}

/// What a controllable value starts from: the value its user passes, if any,
/// and the value the component starts with otherwise.
pub struct CreateControllableSignalProps<T> {
    pub value: Option<T>,
    pub default_value: Option<T>,
}

/// A value controlled by `props.value` if it holds one, starting from
/// `props.default_value` otherwise.
pub fn create_controllable_signal<T>(props: CreateControllableSignalProps<T>) -> (r:
    WriteControllableSignal<T>)
    ensures
        r.controlled == props.value,
        r.uncontrolled == props.default_value,
{
    WriteControllableSignal { controlled: props.value, uncontrolled: props.default_value }
}

/// What a write asks of the caller: the value to hand to the change handler,
/// and how many times the handler hears of it.
pub struct Notification<T> {
    pub value: T,
    pub times: usize,
}

impl<T: Clone + PartialEq> WriteControllableSignal<T> {
    /// The value in force: the controlled one when there is one, else the
    /// component's own.
    pub open spec fn spec_current(&self) -> Option<T> {
        if self.controlled.is_some() {
            self.controlled
        } else {
            self.uncontrolled
        }
    }

    /// Whether the user controls the value.
    pub fn is_controlled(&self) -> (r: bool)
        ensures
            r == self.controlled.is_some(),
    {
        self.controlled.is_some()
    }

    /// The value in force.
    pub fn current(&self) -> (r: &Option<T>)
        ensures
            *r == self.spec_current(),
    {
        if self.controlled.is_some() {
            &self.controlled
        } else {
            &self.uncontrolled
        }
    }

    /// Writes `value`. A controlled value is left to its owner, who hears of
    /// the request once. An uncontrolled one is stored (a clone of `value`)
    /// and the handler hears of it once directly and once more from the
    /// watcher of the stored value when that value changed.
    ///
    /// Whether the stored value changed is decided by `T`'s `==`; for types
    /// whose `==` follows `eq_spec` the count is stated exactly, and for any
    /// type it is one or two, and two when nothing was stored before.
    pub fn set(&mut self, value: T) -> (r: Notification<T>)
        ensures
            r.value == value,
            old(self).controlled.is_some() ==> *final(self) == *old(self) && r.times == 1,
            old(self).controlled.is_none() ==> {
                &&& final(self).controlled.is_none()
                &&& final(self).uncontrolled matches Some(v) && cloned(value, v)
                &&& (r.times == 1 || r.times == 2)
                &&& old(self).uncontrolled.is_none() ==> r.times == 2
                &&& T::obeys_eq_spec() ==> r.times == (if (old(self).uncontrolled matches Some(o)
                    && o.eq_spec(&value)) {
                    1usize
                } else {
                    2usize
                })
            },
    {
        if self.controlled.is_some() {
            return Notification { value, times: 1 };
        }
        let same = match &self.uncontrolled {
            Some(o) => o.eq(&value),
            None => false,
        };
        let stored = value.clone();
        self.uncontrolled = Some(stored);
        Notification {
            value,
            times: if same {
                1
            } else {
                2
            },
        }
    }
    /// Writes `updated`, the result of a change that the caller applied to
    /// the value in force. A controlled value is left to its owner; an
    /// uncontrolled one is stored. The handler hears of a new value only, and
    /// as often as `set` says; `None` means it hears nothing.
    pub fn update(&mut self, updated: Option<T>) -> (r: Option<Notification<T>>)
        ensures
            old(self).controlled.is_some() ==> *final(self) == *old(self),
            old(self).controlled.is_none() ==> final(self).controlled.is_none() && (match updated {
                Some(u) => final(self).uncontrolled matches Some(v) && cloned(u, v),
                None => final(self).uncontrolled.is_none(),
            }),
            match updated {
                None => r.is_none(),
                Some(u) => r matches Some(n) && n.value == u && (n.times == 1 || n.times == 2) && (
                old(self).controlled.is_some() ==> n.times == 1) && (old(self).controlled.is_none()
                    && old(self).uncontrolled.is_none() ==> n.times == 2) && (T::obeys_eq_spec()
                    ==> n.times == (if old(self).controlled.is_none() && !(old(
                    self,
                ).uncontrolled matches Some(o) && o.eq_spec(&u)) {
                    2usize
                } else {
                    1usize
                })),
            },
    {
        match updated {
            None => {
                if self.controlled.is_none() {
                    self.uncontrolled = None;
                }
                None
            },
            Some(u) => Some(self.set(u)),
        }
    }
}

/// The last value seen and the one before it, as a component watches a value
/// change.
pub struct Previous<T> {
    pub value: T,
    pub previous: T,
}

/// A tracker that has seen only `initial`.
pub fn create_previous<T: Copy>(initial: T) -> (r: Previous<T>)
    ensures
        r.value == initial,
        r.previous == initial,
{
    Previous { value: initial, previous: initial }
}

impl<T: Copy + PartialEq> Previous<T> {
    /// Sees `next`: when it differs from the last value, the last value
    /// becomes the previous one. Returns the last value seen after that,
    /// which is `next` unless `T`'s `==` calls the two equal. For types whose
    /// `==` follows `eq_spec` the outcome is stated exactly.
    pub fn observe(&mut self, next: T) -> (r: T)
        ensures
            *final(self) == *old(self) || (final(self).value == next && final(self).previous
                == old(self).value),
            T::obeys_eq_spec() ==> (old(self).value.eq_spec(&next) ==> *final(self) == *old(self)),
            T::obeys_eq_spec() ==> (!old(self).value.eq_spec(&next) ==> final(self).value == next
                && final(self).previous == old(self).value),
            r == final(self).value,
    {
        if !self.value.eq(&next) {
            self.previous = self.value;
            self.value = next;
        }
        self.value
    }
}

} // verus!
