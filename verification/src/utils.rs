//! Small ownership utilities: certain unwrapping and a single-fire guard.

use vstd::prelude::*;

verus! {

pub trait OptionExt<T> {
    spec fn spec_is_set(&self) -> bool;

    spec fn spec_value(&self) -> T;

    /// Takes a value that is certainly present.
    fn unwrap_certain(self) -> (r: T)
        requires
            self.spec_is_set(),
        ensures
            r == self.spec_value(),
    ;
}

impl<T> OptionExt<T> for Option<T> {
    open spec fn spec_is_set(&self) -> bool {
        *self is Some
    }

    open spec fn spec_value(&self) -> T {
        (*self)->0
    }

    fn unwrap_certain(self) -> T {
        match self {
            Some(res) => res,
            None => vstd::pervasive::unreached(),
        }
    }
}

/// A single-fire cleanup guard. Where a destructor would run the cleanup
/// implicitly, this guard makes disposal explicit: `fire` hands the pending
/// payload back to be acted on, `forget` discards it so the cleanup never
/// runs. Ownership guarantees that exactly one of the two happens.
pub struct DropGuard<T> {
    inner: T,
}

impl<T> DropGuard<T> {
    /// The payload the guard holds for its disposal.
    pub closed spec fn spec_inner(&self) -> T {
        self.inner
    }

    pub fn new(inner: T) -> (g: Self)
        ensures
            g.spec_inner() == inner,
    {
        DropGuard { inner }
    }

    /// Disarms the guard: the pending cleanup is dropped unseen.
    pub fn forget(self) {
    }

    /// Fires the guard: hands the payload back for the caller to act on.
    pub fn fire(self) -> (r: T)
        ensures
            r == self.spec_inner(),
    {
        self.inner
    }
}

} // verus!
