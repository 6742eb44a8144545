//! Capability-split access to a shared value behind a reader/writer lock:
//! a handle type that can only read, and a handle type that can also write.

use std::sync::Arc;
use vstd::prelude::*;

verus! {

#[verifier::external_type_specification]
#[verifier::external_body]
pub struct ExRawRwLock(parking_lot::RawRwLock);

#[verifier::external_type_specification]
#[verifier::external_body]
#[verifier::reject_recursive_types(R)]
#[verifier::reject_recursive_types(T)]
pub struct ExRwLock<R, T: ?Sized>(parking_lot::lock_api::RwLock<R, T>);

/// The cell shared by every handle: the protected value inside its lock.
#[verifier::reject_recursive_types(T)]
struct RwLockInner<T> {
    lock: parking_lot::RwLock<T>,
}

/// A handle that can only acquire read access to its cell.
#[verifier::reject_recursive_types(T)]
pub struct RwLockReader<T> {
    inner: Arc<RwLockInner<T>>,
}

impl<T> RwLockReader<T> {
    /// The protected cell this handle references. Two handles with equal
    /// cells grant access to the same lock and the same value.
    pub closed spec fn cell(&self) -> parking_lot::RwLock<T> {
        self.inner.lock
    }

    /// Blocks until no write guard on this handle's cell is live, then
    /// returns a read guard on that cell. Cannot fail; may block
    /// indefinitely while a writer never releases.
    pub fn read(&self) -> (g: RwLockReadGuard<'_, T>)
        ensures
            g.cell() == self.cell(),
    {
        acquire_read(&self.inner.lock)
    }

    /// Never blocks: returns a read guard on this handle's cell when the
    /// underlying primitive grants shared access at once, and `None` when
    /// it could not be granted at this time — in particular while a write
    /// guard is live on the cell.
    pub fn try_read(&self) -> (r: Option<RwLockReadGuard<'_, T>>)
        ensures
            r matches Some(g) ==> g.cell() == self.cell(),
    {
        try_acquire_read(&self.inner.lock)
    }
}

/// A handle that can acquire both read and write access to its cell, and
/// can mint new read-only handles for it. The reverse conversion, from
/// [`RwLockReader`] to `RwLockWriter`, is deliberately absent: no method of
/// the library produces a writer from a reader.
#[verifier::reject_recursive_types(T)]
pub struct RwLockWriter<T> {
    inner: Arc<RwLockInner<T>>,
}

impl<T> RwLockWriter<T> {
    /// The protected cell this handle references. Two handles with equal
    /// cells grant access to the same lock and the same value.
    pub closed spec fn cell(&self) -> parking_lot::RwLock<T> {
        self.inner.lock
    }

    /// Blocks until no guard on this handle's cell is live, read or write,
    /// then returns a write guard on that cell. Cannot fail; may block
    /// indefinitely under contention.
    pub fn write(&self) -> (g: RwLockWriteGuard<'_, T>)
        ensures
            g.cell() == self.cell(),
    {
        acquire_write(&self.inner.lock)
    }

    /// Never blocks: returns a write guard on this handle's cell when the
    /// underlying primitive grants exclusive access at once, and `None`
    /// when it could not be granted at this time — in particular while any
    /// guard is live on the cell.
    pub fn try_write(&self) -> (r: Option<RwLockWriteGuard<'_, T>>)
        ensures
            r matches Some(g) ==> g.cell() == self.cell(),
    {
        try_acquire_write(&self.inner.lock)
    }

    /// A writer can always also act as a reader: same semantics as
    /// [`RwLockReader::read`], on this handle's cell.
    pub fn read(&self) -> (g: RwLockReadGuard<'_, T>)
        ensures
            g.cell() == self.cell(),
    {
        acquire_read(&self.inner.lock)
    }

    /// Same semantics as [`RwLockReader::try_read`], on this handle's cell.
    pub fn try_read(&self) -> (r: Option<RwLockReadGuard<'_, T>>)
        ensures
            r matches Some(g) ==> g.cell() == self.cell(),
    {
        try_acquire_read(&self.inner.lock)
    }

    /// Convert this writer into a reader.
    ///
    /// The conversion is only allowed in this direction: it mints a fresh
    /// read-only handle on the same cell, leaves this writer usable, and
    /// touches no lock state.
    pub fn to_reader(&self) -> (r: RwLockReader<T>)
        ensures
            r.cell() == self.cell(),
    {
        RwLockReader { inner: share_inner(&self.inner) }
    }
}

/// Builds one protected cell around `value` and returns the only two handles
/// that reference it: a read-only one and a read/write one, both on the same
/// cell. Every further handle comes from cloning these or from
/// [`RwLockWriter::to_reader`], and each of those operations preserves the
/// cell, so all handles derived from one call reference one cell.
pub fn new<T>(value: T) -> (handles: (RwLockReader<T>, RwLockWriter<T>))
    ensures
        handles.0.cell() == handles.1.cell(),
{
    let inner = Arc::new(RwLockInner { lock: new_lock(value) });
    let reader = RwLockReader { inner: share_inner(&inner) };
    let writer = RwLockWriter { inner };
    (reader, writer)
}

impl<T> Clone for RwLockReader<T> {
    /// An independent read-only handle on the same cell; no lock is touched.
    fn clone(&self) -> (r: Self)
        ensures
            r.cell() == self.cell(),
    {
        RwLockReader { inner: share_inner(&self.inner) }
    }
}

impl<T> Clone for RwLockWriter<T> {
    /// An independent read/write handle on the same cell; no lock is touched.
    fn clone(&self) -> (r: Self)
        ensures
            r.cell() == self.cell(),
    {
        RwLockWriter { inner: share_inner(&self.inner) }
    }
}

/// Holds parking_lot's read guard. Verus cannot be told that guard type's
/// declaration (its struct is bounded by an outside trait), so the hold is
/// kept opaque here and reached only through trusted wrappers.
#[verifier::external_body]
#[verifier::reject_recursive_types(T)]
struct RawReadGuard<'a, T> {
    guard: parking_lot::RwLockReadGuard<'a, T>,
}

/// Holds parking_lot's write guard; opaque for the same reason as
/// [`RawReadGuard`].
#[verifier::external_body]
#[verifier::reject_recursive_types(T)]
struct RawWriteGuard<'a, T> {
    guard: parking_lot::RwLockWriteGuard<'a, T>,
}

/// A scoped hold of shared read access to one cell's value. The hold is
/// released when the guard is dropped; while it is live, no write guard on
/// the same cell can be granted, so the protected value is one fixed value:
/// [`Self::contents`] names it, and every dereference returns it.
///
/// The ghost contents is set only inside the trusted wrapper that acquires
/// the lock, where it stands for the protected value at that instant; no
/// verified code of the library builds a guard, so the model cannot drift
/// from the cell.
#[verifier::reject_recursive_types(T)]
pub struct RwLockReadGuard<'a, T> {
    raw: RawReadGuard<'a, T>,
    for_cell: Ghost<parking_lot::RwLock<T>>,
    holding: Ghost<T>,
}

impl<'a, T> RwLockReadGuard<'a, T> {
    /// The cell whose lock this guard holds shared access to.
    pub closed spec fn cell(&self) -> parking_lot::RwLock<T> {
        self.for_cell@
    }

    /// The protected value, fixed for this guard's whole lifetime.
    pub closed spec fn contents(&self) -> T {
        self.holding@
    }

    /// Borrows the protected value for the guard's lifetime. Repeated calls
    /// on one live guard return one value, [`Self::contents`].
    pub fn value(&self) -> (r: &T)
        ensures
            *r == self.contents(),
    {
        read_guard_value(self)
    }
}

/// A scoped hold of exclusive write access to one cell's value. The hold is
/// released when the guard is dropped; while it is live, no other guard on
/// the same cell, read or write, can be granted, so the protected value
/// changes only through this guard: [`Self::contents`] tracks it.
///
/// The ghost contents is set only inside the trusted wrappers that acquire
/// the lock and store through the guard; no verified code of the library
/// builds a guard, so the model cannot drift from the cell.
#[verifier::reject_recursive_types(T)]
pub struct RwLockWriteGuard<'a, T> {
    raw: RawWriteGuard<'a, T>,
    for_cell: Ghost<parking_lot::RwLock<T>>,
    holding: Ghost<T>,
}

impl<'a, T> RwLockWriteGuard<'a, T> {
    /// The cell whose lock this guard holds exclusive access to.
    pub closed spec fn cell(&self) -> parking_lot::RwLock<T> {
        self.for_cell@
    }

    /// The protected value: what the cell held when this guard was granted,
    /// or the last value stored through this guard since.
    pub closed spec fn contents(&self) -> T {
        self.holding@
    }

    /// Borrows the protected value for the guard's lifetime: the cell's
    /// value when the guard was granted, or the last value stored since.
    pub fn value(&self) -> (r: &T)
        ensures
            *r == self.contents(),
    {
        write_guard_value(self)
    }

    /// Stores `value` in the cell, dropping the value it held. Exclusive
    /// access makes this safe: no reader can observe the cell while this
    /// guard is live, and later dereferences of the guard return `value`.
    pub fn set(&mut self, value: T)
        ensures
            final(self).cell() == old(self).cell(),
            final(self).contents() == value,
    {
        write_guard_store(self, value);
    }

    /// Stores `value` in the cell and returns the value it held, so a
    /// caller can read, modify and write back without cloning.
    pub fn replace(&mut self, value: T) -> (r: T)
        ensures
            final(self).cell() == old(self).cell(),
            final(self).contents() == value,
            r == old(self).contents(),
    {
        write_guard_replace(self, value)
    }
}

/// Relies on parking_lot's `RwLock::read`: blocks while a writer holds the
/// lock, then returns a scoped hold of shared read access on `*lock`,
/// released when the result is dropped. The guard's ghost contents stands
/// for the protected value, which the lock keeps fixed while the guard is
/// live; the wrapper leaves it unconstrained, since under concurrency no
/// caller can know it.
#[verifier::external_body]
fn acquire_read<'a, T>(lock: &'a parking_lot::RwLock<T>) -> (g: RwLockReadGuard<'a, T>)
    ensures
        g.cell() == *lock,
{
    let raw = RawReadGuard { guard: lock.read() };
    RwLockReadGuard { raw, for_cell: Ghost(arbitrary()), holding: Ghost(arbitrary()) }
}

/// Relies on parking_lot's `RwLock::try_read`: never blocks; returns a hold
/// of shared read access on `*lock` when the primitive grants it at once,
/// and `None` when it could not be granted at this time (a writer holds the
/// lock, or waits for it and is preferred).
#[verifier::external_body]
fn try_acquire_read<'a, T>(lock: &'a parking_lot::RwLock<T>) -> (r: Option<
    RwLockReadGuard<'a, T>,
>)
    ensures
        r matches Some(g) ==> g.cell() == *lock,
{
    match lock.try_read() {
        Some(guard) => {
            let raw = RawReadGuard { guard };
            Some(RwLockReadGuard { raw, for_cell: Ghost(arbitrary()), holding: Ghost(arbitrary()) })
        },
        None => None,
    }
}

/// Relies on parking_lot's `RwLock::write`: blocks while any reader or
/// another writer holds the lock, then returns a scoped hold of exclusive
/// write access on `*lock`, released when the result is dropped. The
/// guard's ghost contents stands for the protected value; the wrapper
/// leaves it unconstrained, since under concurrency no caller can know it.
#[verifier::external_body]
fn acquire_write<'a, T>(lock: &'a parking_lot::RwLock<T>) -> (g: RwLockWriteGuard<'a, T>)
    ensures
        g.cell() == *lock,
{
    let raw = RawWriteGuard { guard: lock.write() };
    RwLockWriteGuard { raw, for_cell: Ghost(arbitrary()), holding: Ghost(arbitrary()) }
}

/// Relies on parking_lot's `RwLock::try_write`: never blocks; returns a
/// hold of exclusive write access on `*lock` when the primitive grants it
/// at once, and `None` when it could not be granted at this time (the lock
/// is held in any mode, or contended).
#[verifier::external_body]
fn try_acquire_write<'a, T>(lock: &'a parking_lot::RwLock<T>) -> (r: Option<
    RwLockWriteGuard<'a, T>,
>)
    ensures
        r matches Some(g) ==> g.cell() == *lock,
{
    match lock.try_write() {
        Some(guard) => {
            let raw = RawWriteGuard { guard };
            Some(RwLockWriteGuard { raw, for_cell: Ghost(arbitrary()), holding: Ghost(arbitrary()) })
        },
        None => None,
    }
}

/// Relies on the `Deref` impl of parking_lot's read guard: borrows the
/// protected value. While the guard is live the lock admits no writer, so
/// every dereference returns the one value the guard's ghost contents
/// stands for.
#[verifier::external_body]
fn read_guard_value<'a, 'b, T>(g: &'b RwLockReadGuard<'a, T>) -> (r: &'b T)
    ensures
        *r == g.contents(),
{
    &*g.raw.guard
}

/// Relies on the `Deref` impl of parking_lot's write guard: borrows the
/// protected value. The guard's access is exclusive, so the value is the
/// one its ghost contents tracks: the value at acquisition, or the last
/// value stored through the guard.
#[verifier::external_body]
fn write_guard_value<'a, 'b, T>(g: &'b RwLockWriteGuard<'a, T>) -> (r: &'b T)
    ensures
        *r == g.contents(),
{
    &*g.raw.guard
}

/// Relies on the `DerefMut` impl of parking_lot's write guard: stores
/// `value` in the cell the guard's lock protects, dropping the old value;
/// the guard's ghost contents records the store.
#[verifier::external_body]
fn write_guard_store<'a, T>(g: &mut RwLockWriteGuard<'a, T>, value: T)
    ensures
        final(g).cell() == old(g).cell(),
        final(g).contents() == value,
{
    *g.raw.guard = value;
}

/// Relies on std's `mem::replace` through the write guard's `DerefMut`:
/// swaps `value` into the cell and returns the value it held, which is what
/// the guard's ghost contents stood for before the call.
#[verifier::external_body]
fn write_guard_replace<'a, T>(g: &mut RwLockWriteGuard<'a, T>, value: T) -> (r: T)
    ensures
        final(g).cell() == old(g).cell(),
        final(g).contents() == value,
        r == old(g).contents(),
{
    std::mem::replace(&mut *g.raw.guard, value)
}

/// Relies on std's `Arc::clone`: the result is a new handle to the same
/// allocation as the argument, hence the same value.
#[verifier::external_body]
fn share_inner<T>(inner: &Arc<RwLockInner<T>>) -> (r: Arc<RwLockInner<T>>)
    ensures
        r == *inner,
{
    Arc::clone(inner)
}

/// Relies on parking_lot's `RwLock::new`: creates an unlocked lock that
/// protects `value`.
#[verifier::external_body]
fn new_lock<T>(value: T) -> parking_lot::RwLock<T> {
    parking_lot::RwLock::new(value)
}

} // verus!
