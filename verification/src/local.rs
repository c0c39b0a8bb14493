//! The thread-confined cell: once-initializable state with no locking.
//!
//! A [`LocalCell`] has the same protocol as [`crate::Global`] — empty until
//! initialized exactly once, then accessed exclusively — but it is meant for
//! state that only one execution context ever observes. Exclusivity therefore
//! needs no lock: it is carried by ownership, since every operation that can
//! observe or change the cell takes the cell by reference from its single
//! owner. That makes the whole protocol visible to the verifier, and every
//! operation below has an exact contract over the cell's state.

use vstd::prelude::*;
use crate::errors::CellError;
use crate::latch::OneShotLatch;
use crate::latch::init_outcome;
use crate::latch::state_after_init;

verus! {

/// A per-context, once-initializable container for a payload of type `T`.
///
/// The view `self@` is the cell's state: `None` while empty, `Some(v)` once
/// initialized with `v`. No operation ever blocks, and none panics.
pub struct LocalCell<T> {
    latch: OneShotLatch<T>,
}

impl<T> View for LocalCell<T> {
    type V = Option<T>;

    closed spec fn view(&self) -> Option<T> {
        self.latch@
    }
}

impl<T> LocalCell<T> {
    /// Constructs an empty cell: no payload, no side effect.
    pub fn new() -> (r: LocalCell<T>)
        ensures
            r@ is None,
    {
        LocalCell { latch: OneShotLatch::new() }
    }

    /// Attempts the one-time initialization of the cell with payload `v`.
    ///
    /// Succeeds exactly when the cell is still empty; every later call
    /// returns [`CellError::AlreadyInitialized`] and leaves the stored
    /// payload untouched.
    pub fn init(&mut self, v: T) -> (r: Result<(), CellError>)
        ensures
            r == init_outcome(old(self)@, v),
            final(self)@ == state_after_init(old(self)@, v),
    {
        self.latch.init(v)
    }

    /// Grants access to the payload: a mutable accessor on an initialized
    /// cell, [`CellError::Uninitialized`] on a cell that was never
    /// initialized. Never blocks — an empty cell is rejected, never waited
    /// for — and the error leaves the cell exactly as it was.
    pub fn fetch(&mut self) -> (r: Result<&mut T, CellError>)
        ensures
            old(self)@ is None ==> r == Err::<&mut T, CellError>(CellError::Uninitialized)
                && final(self)@ is None,
            old(self)@ matches Some(x) ==> (r matches Ok(p) && *p == x && final(self)@
                == Some(*final(p))),
    {
        match self.latch.get_mut() {
            Some(p) => Ok(p),
            None => Err(CellError::Uninitialized),
        }
    }
}

} // verus!
