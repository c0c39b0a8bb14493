//! The thread-safe cell: a once-initializable payload behind an exclusive lock.
//!
//! A [`Global`] starts empty, accepts a payload exactly once through
//! [`Global::init`], and thereafter hands out exclusive, scoped access through
//! [`Global::fetch`]. The one-time commit is performed by
//! `once_cell::sync::OnceCell` and the mutual exclusion by `std::sync::Mutex`;
//! both are relied on through the trusted declarations below, since their
//! guarantees rest on atomics that this library does not reprove. The
//! dispatching logic around them, and the guard's view of the payload, are
//! verified.

use vstd::prelude::*;
use crate::errors::CellError;

verus! {

#[verifier::external_type_specification]
#[verifier::external_body]
#[verifier::reject_recursive_types(T)]
pub struct ExOnceCell<T>(once_cell::sync::OnceCell<T>);

#[verifier::external_type_specification]
#[verifier::external_body]
#[verifier::reject_recursive_types(T)]
pub struct ExMutex<T: ?Sized>(std::sync::Mutex<T>);

#[verifier::external_type_specification]
#[verifier::external_body]
#[verifier::reject_recursive_types(T)]
pub struct ExMutexGuard<'a, T: ?Sized + 'a>(std::sync::MutexGuard<'a, T>);

/// Relies on `once_cell::sync::OnceCell::new`: constructs an empty cell, with
/// no other effect.
#[verifier::external_body]
fn latch_cell_new<T>() -> once_cell::sync::OnceCell<T> {
    once_cell::sync::OnceCell::new()
}

/// Relies on `once_cell::sync::OnceCell::set`: an atomic one-time commit.
/// Exactly one concurrent caller wins; `Ok` means this call committed its
/// value, `Err` hands the rejected value back and the cell keeps the value it
/// already had (or was concurrently given). Never blocks for long and never
/// overwrites. Which outcome occurs depends on the cell's hidden state, so
/// nothing more is promised here.
#[verifier::external_body]
fn latch_cell_set<T>(c: &once_cell::sync::OnceCell<T>, v: T) -> Result<(), T> {
    c.set(v)
}

/// Relies on `once_cell::sync::OnceCell::get`: returns the committed value if
/// the one-time commit has happened, `None` if it has not; never blocks.
/// Which outcome occurs depends on the cell's hidden state, so nothing more
/// is promised here.
#[verifier::external_body]
fn latch_cell_get<T>(c: &once_cell::sync::OnceCell<T>) -> Option<&T> {
    c.get()
}

/// Relies on `std::sync::Mutex::new`: wraps the payload in a fresh, unlocked
/// lock.
#[verifier::external_body]
fn lock_new<T>(v: T) -> std::sync::Mutex<T> {
    std::sync::Mutex::new(v)
}

/// Relies on `std::sync::Mutex::lock`: blocks the calling thread until the
/// lock is available, then grants exclusive access until the returned guard
/// is dropped. Returns `Err` exactly when a previous holder panicked while
/// holding the lock, leaving it poisoned; this is surfaced as
/// [`CellError::Corrupted`]. By std's documentation a thread that already
/// holds the lock and acquires it again may block forever or panic; that is
/// the accepted cost of a blocking primitive with no deadlock detection, and
/// the one way a fetch can fail to return.
#[verifier::external_body]
fn lock_acquire<'a, T>(m: &'a std::sync::Mutex<T>) -> (r: Result<
    std::sync::MutexGuard<'a, T>,
    CellError,
>)
    ensures
        r matches Err(e) ==> e == CellError::Corrupted,
{
    match m.lock() {
        Ok(g) => Ok(g),
        Err(_) => Err(CellError::Corrupted),
    }
}

/// A scoped handle to the payload of a [`Global`], produced only by
/// [`Global::fetch`]. While it is alive no other guard for the same cell can
/// exist; dropping it (by any exit path, normal or panicking) releases the
/// access.
///
/// The guard's view `self@` is the payload as this guard sees it. Its value
/// right after `fetch` is unspecified, since any earlier holder may have
/// changed the payload; thereafter [`read`](GlobalGuard::read) and
/// [`write`](GlobalGuard::write) track it exactly, which is sound precisely
/// because the access is exclusive.
#[verifier::reject_recursive_types(T)]
pub struct GlobalGuard<'a, T> {
    handle: std::sync::MutexGuard<'a, T>,
    current: Ghost<T>,
}

impl<'a, T> View for GlobalGuard<'a, T> {
    type V = T;

    closed spec fn view(&self) -> T {
        self.current@
    }
}

impl<'a, T> GlobalGuard<'a, T> {
    /// Relies on `std::sync::MutexGuard`'s `Deref`: dereferences to the
    /// guarded payload. While the guard is alive the lock keeps every other
    /// thread out, so the payload is exactly the guard's view of it.
    #[verifier::external_body]
    pub fn read(&self) -> (r: &T)
        ensures
            *r == self@,
    {
        &*self.handle
    }

    /// Relies on `std::sync::MutexGuard`'s `DerefMut`: writes the guarded
    /// payload. While the guard is alive the lock keeps every other thread
    /// out, so the write is never lost and the guard's view becomes `v`.
    #[verifier::external_body]
    pub fn write(&mut self, v: T)
        ensures
            final(self)@ == v,
    {
        *self.handle = v;
    }

    /// Relies on `std::sync::MutexGuard`'s `DerefMut`: a mutable reference
    /// to the guarded payload, for mutation in place. It starts at the
    /// guard's view, and whatever the caller leaves behind becomes the
    /// guard's view — exclusive access makes both exact.
    #[verifier::external_body]
    pub fn borrow_mut(&mut self) -> (r: &mut T)
        ensures
            *r == old(self)@,
            final(self)@ == *final(r),
    {
        &mut *self.handle
    }
}

/// A thread-safe, once-initializable container guarding a payload of type `T`
/// with an exclusive-access lock.
///
/// The cell starts empty. [`Global::init`] commits a payload exactly once;
/// [`Global::fetch`] then hands out one [`GlobalGuard`] at a time. The cell's
/// own state lives behind the atomic one-time commit of the underlying
/// once-cell, which any number of threads may race on through a shared
/// reference, so the state is not visible to the verifier; each method
/// instead states exactly which outcomes it can have and what each outcome
/// means.
#[verifier::reject_recursive_types(T)]
pub struct Global<T> {
    cell: once_cell::sync::OnceCell<std::sync::Mutex<T>>,
}

impl<T> Global<T> {
    /// Constructs an empty cell: no payload, no lock, no side effect.
    pub fn new() -> Global<T> {
        Global { cell: latch_cell_new() }
    }

    /// Attempts the one-time initialization of the cell with payload `v`.
    ///
    /// The first call (the winner, under any interleaving of concurrent
    /// callers) wraps `v` in the lock and commits it; every other call
    /// returns [`CellError::AlreadyInitialized`] and leaves the committed
    /// payload untouched. Never blocks on the lock and never panics; callers
    /// that regard a refused initialization as a startup-sequencing bug
    /// should terminate loudly themselves.
    pub fn init(&self, v: T) -> (r: Result<(), CellError>)
        ensures
            r matches Err(e) ==> e == CellError::AlreadyInitialized,
    {
        let locked = lock_new(v);
        match latch_cell_set(&self.cell, locked) {
            Ok(()) => Ok(()),
            Err(_) => Err(CellError::AlreadyInitialized),
        }
    }

    /// Acquires exclusive access to the payload.
    ///
    /// On a cell whose initialization has committed, blocks until every
    /// earlier guard is released and then returns the next guard — unless a
    /// previous holder panicked mid-access, in which case the payload cannot
    /// be trusted and [`CellError::Corrupted`] is returned, now and on every
    /// later call. On a cell that was never initialized it returns
    /// [`CellError::Uninitialized`] without blocking: an empty cell is
    /// rejected, never waited for. No other error can come back; the one way
    /// to get no answer at all is the deliberate block on a lock that is
    /// already held.
    pub fn fetch(&self) -> (r: Result<GlobalGuard<'_, T>, CellError>)
        ensures
            r matches Err(e) ==> (e == CellError::Uninitialized || e == CellError::Corrupted),
    {
        match latch_cell_get(&self.cell) {
            None => Err(CellError::Uninitialized),
            Some(m) => match lock_acquire(m) {
                Ok(handle) => Ok(GlobalGuard { handle, current: Ghost(arbitrary()) }),
                Err(e) => Err(e),
            },
        }
    }
}

} // verus!
