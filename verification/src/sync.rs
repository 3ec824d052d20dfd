//! The error values of lock operations. The locks themselves are spin locks that the
//! embedding layer supplies; they never poison.
use vstd::prelude::*;

verus! {

/// A lock's value handed back together with the report that the lock was poisoned.
#[derive(Debug)]
pub struct PoisonError<T>(T);

/// The result of taking a lock.
pub type LockResult<G> = core::result::Result<G, PoisonError<G>>;

/// The result of trying to take a lock without waiting.
pub type TryLockResult<G> = core::result::Result<G, TryLockError<G>>;

/// Why a lock could not be taken without waiting.
#[derive(Debug)]
pub enum TryLockError<T> {
    Poisoned(PoisonError<T>),
    WouldBlock,
}

impl<T> PoisonError<T> {
    /// The value it carries.
    pub closed spec fn spec_value(&self) -> T {
        self.0
    }

    /// Wraps a lock's value as poisoned.
    pub fn new(t: T) -> (e: Self)
        ensures
            e.spec_value() == t,
    {
        PoisonError(t)
    }

    pub fn into_inner(self) -> (t: T)
        ensures
            t == self.spec_value(),
    {
        self.0
    }

    pub fn get_ref(&self) -> (t: &T)
        ensures
            *t == self.spec_value(),
    {
        &self.0
    }

    pub fn get_mut(&mut self) -> (t: &mut T)
        ensures
            *t == old(self).spec_value(),
            final(self).spec_value() == *final(t),
    {
        &mut self.0
    }
}

} // verus!
