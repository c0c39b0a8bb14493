//! The laws of the one-shot protocol, stated over whole histories.
//!
//! The contracts on [`crate::OneShotLatch`] and [`crate::LocalCell`] pin down
//! each single transition. The proof functions here state what those
//! transitions add up to over any sequence of attempts: initialization
//! succeeds exactly once, the winner's value is the one kept, and a cell's
//! evolution depends on nothing but its own state.

use vstd::prelude::*;
use crate::errors::CellError;
use crate::latch::init_outcome;
use crate::latch::state_after_init;

verus! {

/// The state of a latch after a whole sequence of initialization attempts,
/// applied in order.
pub open spec fn state_after_inits<T>(s: Option<T>, vs: Seq<T>) -> Option<T>
    decreases vs.len(),
{
    if vs.len() == 0 {
        s
    } else {
        state_after_inits(state_after_init(s, vs[0]), vs.subrange(1, vs.len() as int))
    }
}

/// How many attempts of the sequence, applied in order, succeed.
pub open spec fn successful_inits<T>(s: Option<T>, vs: Seq<T>) -> nat
    decreases vs.len(),
{
    if vs.len() == 0 {
        0
    } else {
        (if init_outcome(s, vs[0]) is Ok {
            1nat
        } else {
            0nat
        }) + successful_inits(state_after_init(s, vs[0]), vs.subrange(1, vs.len() as int))
    }
}

/// A filled latch is immutable: every further attempt fails and the stored
/// value outlives them all untouched.
pub proof fn lemma_filled_latch_immutable<T>(x: T, vs: Seq<T>)
    ensures
        successful_inits(Some(x), vs) == 0,
        state_after_inits(Some(x), vs) == Some(x),
    decreases vs.len(),
{
    if vs.len() > 0 {
        lemma_filled_latch_immutable(x, vs.subrange(1, vs.len() as int));
    }
}

/// Single-init law: starting from an empty latch, any sequence of
/// initialization attempts — however it was interleaved before being
/// serialized by the commit — has exactly one success, the first; every
/// later attempt is refused with [`CellError::AlreadyInitialized`]; and the
/// stored value is the winning attempt's value, whatever the losers carried.
pub proof fn lemma_single_init<T>(vs: Seq<T>)
    requires
        vs.len() >= 1,
    ensures
        successful_inits(None::<T>, vs) == 1,
        state_after_inits(None::<T>, vs) == Some(vs[0]),
        forall|i: int|
            1 <= i < vs.len() ==> init_outcome(state_after_inits(None::<T>, vs.take(i)), vs[i])
                == Err::<(), CellError>(CellError::AlreadyInitialized),
{
    lemma_filled_latch_immutable(vs[0], vs.subrange(1, vs.len() as int));
    assert forall|i: int|
        1 <= i < vs.len() implies init_outcome(state_after_inits(None::<T>, vs.take(i)), vs[i])
        == Err::<(), CellError>(CellError::AlreadyInitialized) by {
        let prefix = vs.take(i);
        lemma_filled_latch_immutable(vs[0], prefix.subrange(1, i));
        assert(state_after_inits(None::<T>, prefix) == Some(vs[0]));
    }
}

/// The joint state of two cells after an initialization attempt addressed to
/// the first: only the addressed cell steps.
pub open spec fn pair_after_first_init<T>(a: Option<T>, b: Option<T>, v: T) -> (
    Option<T>,
    Option<T>,
) {
    (state_after_init(a, v), b)
}

/// Context-isolation law: each cell's transition is a function of that
/// cell's own state and argument alone, so in any pair of cells an
/// initialization attempt on one leaves the other exactly as it was — two
/// contexts holding cells of the same shape observe fully independent state.
pub proof fn lemma_context_isolation<T>(a: Option<T>, b: Option<T>, v: T)
    ensures
        pair_after_first_init(a, b, v).0 == state_after_init(a, v),
        pair_after_first_init(a, b, v).1 == b,
{
}

} // verus!
