//! The failure conditions of the cell protocol.

use vstd::prelude::*;

verus! {

/// Why an operation on a cell was refused.
///
/// Every variant marks a sequencing bug or an unrecoverable invariant
/// violation, never a transient condition: callers conventionally treat each
/// as fatal. No variant is ever silently absorbed by the library.
#[derive(Clone, Copy, Debug, PartialEq, Eq, Structural)]
pub enum CellError {
    /// A second initialization was attempted on a cell that already holds a
    /// value. The stored value is left untouched.
    AlreadyInitialized,
    /// Access was requested from a cell that was never initialized.
    Uninitialized,
    /// A previous holder of exclusive access failed mid-use, so the payload
    /// may be in a partial state that cannot be trusted.
    Corrupted,
}

impl CellError {
    /// A short diagnostic naming the violated condition.
    pub fn describe(&self) -> (r: &'static str)
        ensures
            *self is AlreadyInitialized ==> r@ == "cell already initialized"@,
            *self is Uninitialized ==> r@ == "cell not yet initialized"@,
            *self is Corrupted ==> r@ == "cell access left corrupted"@,
    {
        proof {
            reveal_strlit("cell already initialized");
            reveal_strlit("cell not yet initialized");
            reveal_strlit("cell access left corrupted");
        }
        match self {
            CellError::AlreadyInitialized => "cell already initialized",
            CellError::Uninitialized => "cell not yet initialized",
            CellError::Corrupted => "cell access left corrupted",
        }
    }
}

} // verus!
