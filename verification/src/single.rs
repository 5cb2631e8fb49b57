//! Single-consumption holder.
//!
//! The connection handle hands the whole persistence subsystem to its host
//! exactly once: the handle cannot be duplicated or rebuilt, so the holder
//! it waits in must refuse a second extraction. This is that holder, kept
//! generic so the unverified host code can wrap its own handle type in it.

use vstd::prelude::*;

verus! {

/// A holder whose value can be extracted at most once. Built full; the
/// first extraction empties it for good.
pub struct TakeOnce<T> {
    value: Option<T>,
}

impl<T> TakeOnce<T> {
    /// What the holder still holds: the wrapped value until it is taken,
    /// nothing afterwards.
    pub closed spec fn holds(self) -> Option<T> {
        self.value
    }

    /// Wraps a freshly built value, ready to be handed out once.
    pub fn new(value: T) -> (r: Self)
        ensures
            r.holds() == Some(value),
    {
        TakeOnce { value: Some(value) }
    }

    /// Extracts the value. The first call returns it and leaves the holder
    /// empty; every later call returns nothing.
    pub fn take(&mut self) -> (r: Option<T>)
        ensures
            r == old(self).holds(),
            final(self).holds() is None,
    {
        self.value.take()
    }

    /// Whether the value has already been extracted.
    pub fn is_taken(&self) -> (r: bool)
        ensures
            r == (self.holds() is None),
    {
        self.value.is_none()
    }
}

} // verus!
