//! A value paired with the action that disposes of it.

use vstd::prelude::*;

verus! {

/// Holds a value until it is released, and then hands it to an action.
pub struct ScopeGuard<T, F: FnOnce(T)> {
    value: T,
    dropfn: F,
}

impl<T, F: FnOnce(T)> ScopeGuard<T, F> {
    /// The value that is guarded.
    pub closed spec fn value(&self) -> T {
        self.value
    }

    /// The action that the value will be handed to.
    pub closed spec fn action(&self) -> F {
        self.dropfn
    }

    /// Guards `value`, which `dropfn` will dispose of.
    pub fn new(value: T, dropfn: F) -> (g: Self)
        ensures
            g.value() == value,
            g.action() == dropfn,
    {
        Self { value, dropfn }
    }

    /// The value that is guarded.
    pub fn get(&self) -> (v: &T)
        ensures
            *v == self.value(),
    {
        &self.value
    }

    /// Replaces the value that is guarded.
    pub fn set(&mut self, value: T)
        ensures
            final(self).value() == value,
            final(self).action() == old(self).action(),
    {
        self.value = value;
    }

    /// Hands the value to the action, once.
    pub fn release(self)
        requires
            call_requires(self.action(), (self.value(),)),
        ensures
            call_ensures(self.action(), (self.value(),), ()),
    {
        (self.dropfn)(self.value)
    }
}

} // verus!
