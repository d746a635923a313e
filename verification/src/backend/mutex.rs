//! A lock that owns what it protects.

use vstd::prelude::*;

verus! {

/// A raw lock, as a backend provides it.
///
/// `lock` returns once the caller holds the lock; `try_lock` does not wait
/// and tells whether the caller now holds it; `unlock` lets go of it and must
/// only be called by the holder. A raw lock is not re-entrant, and it is not
/// fair beyond that a waiting caller gets the lock at some time.
pub trait RawMutex: Sized {
    /// A lock that nobody holds.
    const INIT: Self;

    fn lock(&self);

    fn try_lock(&self) -> bool;

    fn unlock(&self);
}

/// A value together with the raw lock that guards it.
pub struct Mutex<R: RawMutex, T> {
    raw: R,
    inner: T,
}

impl<R: RawMutex, T> View for Mutex<R, T> {
    type V = T;

    closed spec fn view(&self) -> T {
        self.inner
    }
}

impl<R: RawMutex, T> Mutex<R, T> {
    /// The raw lock of this mutex.
    pub closed spec fn raw(&self) -> R {
        self.raw
    }

    /// A mutex that guards `inner`, with a lock that nobody holds.
    pub fn new(inner: T) -> (mutex: Self)
        ensures
            mutex@ == inner,
            mutex.raw() == R::INIT,
    {
        Self { raw: R::INIT, inner }
    }

    /// Gives up the mutex for the value it guards.
    pub fn into_inner(self) -> (inner: T)
        ensures
            inner == self@,
    {
        self.inner
    }
}

} // verus!
