//! A one-time commit mechanism: empty until filled, filled at most once.

use vstd::prelude::*;
use crate::errors::CellError;

verus! {

/// The outcome of an initialization attempt on a latch whose state is `s`.
///
/// Exactly the empty latch accepts a value; a filled latch refuses with
/// [`CellError::AlreadyInitialized`].
pub open spec fn init_outcome<T>(s: Option<T>, v: T) -> Result<(), CellError> {
    if s is None {
        Ok(())
    } else {
        Err(CellError::AlreadyInitialized)
    }
}

/// The state of a latch after an initialization attempt with value `v` on
/// state `s`: the empty latch commits to `v`; a filled latch is untouched.
pub open spec fn state_after_init<T>(s: Option<T>, v: T) -> Option<T> {
    if s is None {
        Some(v)
    } else {
        s
    }
}

/// A container that is either empty or filled with a value, and whose
/// empty-to-filled transition happens at most once for its whole lifetime.
///
/// There is no reset: once filled, the latch refuses every further
/// initialization attempt and keeps its first value.
pub struct OneShotLatch<T> {
    slot: Option<T>,
}

impl<T> View for OneShotLatch<T> {
    type V = Option<T>;

    closed spec fn view(&self) -> Option<T> {
        self.slot
    }
}

impl<T> OneShotLatch<T> {
    /// Constructs an empty latch.
    pub fn new() -> (r: OneShotLatch<T>)
        ensures
            r@ is None,
    {
        OneShotLatch { slot: None }
    }

    /// Attempts the empty-to-filled transition.
    ///
    /// Succeeds exactly when the latch is still empty; every later attempt
    /// fails with [`CellError::AlreadyInitialized`] and leaves the stored
    /// value untouched.
    pub fn init(&mut self, v: T) -> (r: Result<(), CellError>)
        ensures
            r == init_outcome(old(self)@, v),
            final(self)@ == state_after_init(old(self)@, v),
    {
        match self.slot {
            None => {
                self.slot = Some(v);
                Ok(())
            }
            Some(_) => Err(CellError::AlreadyInitialized),
        }
    }

    /// Returns a mutable reference to the stored value if the latch is
    /// filled, and `None` while it is still empty. Never blocks, and on an
    /// empty latch leaves the state untouched.
    pub fn get_mut(&mut self) -> (r: Option<&mut T>)
        ensures
            old(self)@ is None ==> r is None && final(self)@ is None,
            old(self)@ matches Some(x) ==> (r matches Some(p) && *p == x && final(self)@
                == Some(*final(p))),
    {
        match &mut self.slot {
            Some(p) => Some(p),
            None => None,
        }
    }

    /// Returns a reference to the stored value if the latch is filled, and
    /// `None` while it is still empty. Never blocks.
    pub fn get(&self) -> (r: Option<&T>)
        ensures
            match r {
                Some(x) => self@ == Some(*x),
                None => self@ is None,
            },
    {
        match &self.slot {
            Some(x) => Some(x),
            None => None,
        }
    }
}

} // verus!
