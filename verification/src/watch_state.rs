//! A watched value: the current value, if any, and a count of its changes
//! by which watchers learn that it changed.
use vstd::prelude::*;

verus! {

/// A value that can be set and unset, with the number of changes so far.
pub struct State<T> {
    value: Option<T>,
    changes: u64,
}

impl<T> State<T> {
    /// The current value.
    pub closed spec fn value(&self) -> Option<T> {
        self.value
    }

    /// How many times the value was set or unset.
    pub closed spec fn changes(&self) -> u64 {
        self.changes
    }

    /// A state without a value and without changes.
    pub fn new() -> (r: State<T>)
        ensures
            r.value() is None,
            r.changes() == 0,
    {
        State { value: None, changes: 0 }
    }

    /// Sets the value; watchers see one change more.
    pub fn set(&mut self, new_state: T)
        requires
            old(self).changes() < u64::MAX,
        ensures
            final(self).value() == Some(new_state),
            final(self).changes() == old(self).changes() + 1,
    {
        self.value = Some(new_state);
        self.changes = self.changes + 1;
    }

    /// Unsets the value; watchers see one change more.
    pub fn unset(&mut self)
        requires
            old(self).changes() < u64::MAX,
        ensures
            final(self).value() is None,
            final(self).changes() == old(self).changes() + 1,
    {
        self.value = None;
        self.changes = self.changes + 1;
    }

    /// The current value.
    pub fn current(&self) -> (r: &Option<T>)
        ensures
            *r == self.value(),
    {
        &self.value
    }

    /// The number of changes so far.
    pub fn version(&self) -> (r: u64)
        ensures
            r == self.changes(),
    {
        self.changes
    }

    /// Whether the value changed since a watcher saw the given version.
    pub fn changed_since(&self, seen: u64) -> (b: bool)
        ensures
            b == (self.changes() != seen),
    {
        self.changes != seen
    }
}

} // verus!
