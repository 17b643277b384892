//! The agile reference: a handle that may be stored, cloned and moved
//! across threads, then resolved into a usable handle right where it is
//! needed.
//!
//! Every concurrent caller and every callback needs its own owning handle
//! to the one shared underlying object, because a callback runs on a thread
//! this layer does not control; sharing one resolved handle across threads
//! is exactly what the wrapper exists to avoid. Here the thread-agile slot
//! is an atomically reference-counted cell: cloning is a cheap
//! reference-count increment, resolving borrows the shared referent, and
//! the referent is released when the last clone is dropped.

use std::sync::Arc;

use vstd::prelude::*;

verus! {

/// Relies on Arc's Deref: borrowing the slot yields a reference to the one
/// shared referent.
#[verifier::external_body]
fn arc_borrow<T>(slot: &Arc<T>) -> (r: &T)
    ensures
        *r == **slot,
{
    &**slot
}

/// Relies on Arc::clone: the clone is a new owning handle to the same
/// referent, incrementing its reference count.
#[verifier::external_body]
fn arc_clone<T>(slot: &Arc<T>) -> (r: Arc<T>)
    ensures
        r == *slot,
{
    slot.clone()
}

/// An agile wrapper around a shared underlying object: safe to store, to
/// clone for every concurrent caller and callback, and to resolve from any
/// thread. Its view is the wrapped object itself, which every clone shares.
pub struct AgileRef<T> {
    slot: Arc<T>,
}

impl<T> View for AgileRef<T> {
    type V = T;

    closed spec fn view(&self) -> T {
        *self.slot
    }
}

impl<T> AgileRef<T> {
    /// Wraps a freshly obtained handle in the agile slot, so that any
    /// thread may later resolve its own handle to it.
    pub fn new(handle: T) -> (r: AgileRef<T>)
        ensures
            r@ == handle,
    {
        AgileRef { slot: Arc::new(handle) }
    }

    /// Resolves a handle valid for the calling context: a reference to the
    /// same underlying object that every clone of this wrapper shares.
    pub fn resolve(&self) -> (r: &T)
        ensures
            *r == self@,
    {
        arc_borrow(&self.slot)
    }
}

impl<T> Clone for AgileRef<T> {
    /// Cheap: one more owning handle to the shared slot, leaving the
    /// underlying object untouched.
    fn clone(&self) -> (r: AgileRef<T>)
        ensures
            r@ == self@,
    {
        AgileRef { slot: arc_clone(&self.slot) }
    }
}

} // verus!
