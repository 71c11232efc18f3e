use vstd::prelude::*;
use vstd::std_specs::cmp::{PartialEqSpec, PartialEqSpecImpl};
use std::hash::{Hash, Hasher};
use std::ops::{Deref, DerefMut};
use std::sync::Arc;
use std::sync::{Mutex, MutexGuard};

pub mod free_list;
pub mod bytes;
pub mod pool;

use crate::free_list::FreeList;

verus! {

/// An exclusively owned value lent by a pool; read and written through this handle only.
#[verifier::reject_recursive_types(T)]
pub struct Unique<T> {
    inner: Inner<T>,
}

/// A read-only, reference-counted view of a frozen value.
#[verifier::reject_recursive_types(T)]
pub struct Shared<T> {
    inner: Arc<Inner<T>>,
}

/// The value of a handle together with the pool it returns to.
#[verifier::reject_recursive_types(T)]
pub(crate) struct Inner<T> {
    entry: Option<T>,
    pool_head: Arc<PoolHead<T>>,
}

/// std's mutex; opaque to proofs.
#[verifier::external_type_specification]
#[verifier::external_body]
#[verifier::reject_recursive_types(V)]
pub struct ExMutex<V: ?Sized>(Mutex<V>);

/// The proof that a thread holds a std mutex; opaque to proofs.
#[verifier::external_type_specification]
#[verifier::external_body]
#[verifier::reject_recursive_types(V)]
pub struct ExMutexGuard<'a, V: ?Sized + 'a>(MutexGuard<'a, V>);

/// Relies on Mutex::new: a lock, not held, around the value.
pub assume_specification<V>[ Mutex::<V>::new ](value: V) -> Mutex<V>;

/// Relies on Mutex::lock: blocks until this thread holds the lock. A lock left
/// poisoned by a panicking holder is taken as it stands: every change made to an
/// idle list under the lock is a single push or pop.
#[verifier::external_body]
fn lock_idle<T>(lock: &Mutex<FreeList<T>>) -> MutexGuard<'_, FreeList<T>>
    opens_invariants none
{
    match lock.lock() {
        Ok(guard) => guard,
        Err(poisoned) => poisoned.into_inner(),
    }
}

/// Relies on MutexGuard's DerefMut: the value behind a lock that this thread holds.
#[verifier::external_body]
fn guarded<'a, 'b, T>(guard: &'a mut MutexGuard<'b, FreeList<T>>) -> &'a mut FreeList<T>
    opens_invariants none
{
    &mut **guard
}

/// State shared by a pool and every handle lent from it: whether it takes values
/// back, and the idle values that wait to be lent again, newest last.
#[verifier::reject_recursive_types(T)]
pub struct PoolHead<T> {
    is_detached: bool,
    free: Mutex<FreeList<T>>,
}

impl<T> PoolHead<T> {
    /// Whether released values are kept here for reuse.
    pub closed spec fn is_open(&self) -> bool {
        !self.is_detached
    }

    /// An empty head, open to returns unless `detached`.
    pub(crate) fn new(detached: bool) -> (r: Self)
        ensures
            r.is_open() == !detached,
    {
        PoolHead { is_detached: detached, free: Mutex::new(FreeList::new()) }
    }

    /// Takes the idle value released last, if any: `FreeList::pop`, run under the lock.
    /// Other handles may return or take values at any time, so which one comes back is
    /// not fixed here.
    pub(crate) fn pop(&self) -> Option<T> {
        let mut guard = lock_idle(&self.free);
        guarded(&mut guard).pop()
    }

    /// Takes back the value of a released handle: kept on the idle list when the
    /// head is open, dropped otherwise. Returns whether it was kept. What happens to
    /// the list is the contract of `FreeList::put_back`, run under the lock.
    fn give_back(&self, entry: Option<T>) -> (kept: bool)
        ensures
            kept == (self.is_open() && entry is Some),
        opens_invariants none
    {
        let mut guard = lock_idle(&self.free);
        guarded(&mut guard).put_back(!self.is_detached, entry)
    }
}

impl<T> Inner<T> {
    #[verifier::type_invariant]
    spec fn holds_value(&self) -> bool {
        self.entry is Some
    }

    pub(crate) closed spec fn value(&self) -> T {
        self.entry->Some_0
    }

    /// The head the value returns to.
    pub(crate) closed spec fn home(&self) -> PoolHead<T> {
        *self.pool_head
    }

    pub(crate) fn new(value: T, pool_head: Arc<PoolHead<T>>) -> (r: Self)
        ensures
            r.value() == value,
            r.home() == *pool_head,
    {
        Inner { entry: Some(value), pool_head }
    }

    fn new_detached(value: T) -> (r: Self)
        ensures
            r.value() == value,
            !r.home().is_open(),
    {
        Inner::new(value, Arc::new(PoolHead::new(true)))
    }

    /// The value, for reading.
    fn get(&self) -> (r: &T)
        ensures
            *r == self.value(),
    {
        proof {
            use_type_invariant(self);
        }
        self.entry.as_ref().unwrap()
    }

    /// The value, for writing.
    fn get_mut(&mut self) -> (r: &mut T)
        ensures
            *r == old(self).value(),
            final(self).value() == *final(r),
            final(self).home() == old(self).home(),
    {
        proof {
            use_type_invariant(&*self);
        }
        slot_mut(&mut self.entry)
    }
}

/// The value in a slot known to hold one, for writing.
fn slot_mut<T>(slot: &mut Option<T>) -> (r: &mut T)
    requires
        *old(slot) is Some,
    ensures
        *r == (*old(slot))->Some_0,
        *final(slot) == Some(*final(r)),
    no_unwind
{
    match slot {
        Some(v) => v,
        None => unreached(),
    }
}

impl<T> Drop for Inner<T> {
    /// Hands the value to the verified `give_back`. Verus cannot check this body: taking
    /// the value out breaks `Inner`'s type invariant, which holds until the handle is
    /// gone. `give_back` opens no invariant. Growing the idle list aborts rather than
    /// unwinds on failure; on a detached head the value is dropped, which unwinds only
    /// if the value's own `drop` panics.
    #[verifier::external_body]
    fn drop(&mut self)
        opens_invariants none
        no_unwind
    {
        self.pool_head.give_back(self.entry.take());
    }
}

impl<T> Unique<T> {
    /// The value the handle gives access to.
    pub closed spec fn value(&self) -> T {
        self.inner.value()
    }

    /// The head of the pool the value returns to when the handle is released.
    pub closed spec fn home(&self) -> PoolHead<T> {
        self.inner.home()
    }

    /// A standalone handle whose value is never recycled: its head takes nothing back.
    pub fn new_detached(value: T) -> (r: Self)
        ensures
            r.value() == value,
            !r.home().is_open(),
    {
        Unique { inner: Inner::new_detached(value) }
    }

    /// Turns the exclusive handle into the first of a set of shared ones.
    pub fn freeze(self) -> (r: Shared<T>)
        ensures
            r.value() == self.value(),
            r.home() == self.home(),
    {
        Shared { inner: Arc::new(self.inner) }
    }

    /// The value, for reading.
    pub fn get(&self) -> (r: &T)
        ensures
            *r == self.value(),
    {
        self.inner.get()
    }

    /// The value, for writing.
    pub fn get_mut(&mut self) -> (r: &mut T)
        ensures
            *r == old(self).value(),
            final(self).value() == *final(r),
            final(self).home() == old(self).home(),
    {
        self.inner.get_mut()
    }
}

impl<T> Shared<T> {
    /// The value all clones of the handle read.
    pub closed spec fn value(&self) -> T {
        self.inner.value()
    }

    /// The head of the pool the value returns to once the last clone is released.
    pub closed spec fn home(&self) -> PoolHead<T> {
        self.inner.home()
    }

    /// The value, for reading.
    pub fn get(&self) -> (r: &T)
        ensures
            *r == self.value(),
    {
        self.inner.get()
    }
}

impl<T> Clone for Shared<T> {
    /// Another handle on the same value; the value returns to its pool once the last
    /// of them is gone.
    fn clone(&self) -> (r: Self)
        ensures
            r.value() == self.value(),
            r.home() == self.home(),
    {
        Shared { inner: self.inner.clone() }
    }
}

impl<T> Deref for Unique<T> {
    type Target = T;

    fn deref(&self) -> (r: &T)
        ensures
            *r == self.value(),
    {
        self.get()
    }
}

impl<T> DerefMut for Unique<T> {
    fn deref_mut(&mut self) -> (r: &mut T)
        ensures
            *r == old(self).value(),
            final(self).value() == *final(r),
            final(self).home() == old(self).home(),
    {
        self.get_mut()
    }
}

impl<T> AsRef<T> for Unique<T> {
    fn as_ref(&self) -> (r: &T)
        ensures
            *r == self.value(),
    {
        self.get()
    }
}

impl<T> AsMut<T> for Unique<T> {
    fn as_mut(&mut self) -> (r: &mut T)
        ensures
            *r == old(self).value(),
            final(self).value() == *final(r),
            final(self).home() == old(self).home(),
    {
        self.get_mut()
    }
}

impl<T: PartialEq> PartialEq for Unique<T> {
    fn eq(&self, other: &Unique<T>) -> (r: bool) {
        *self.get() == *other.get()
    }
}

impl<T: PartialEq> PartialEqSpecImpl for Unique<T> {
    open spec fn obeys_eq_spec() -> bool {
        T::obeys_eq_spec()
    }

    open spec fn eq_spec(&self, other: &Unique<T>) -> bool {
        self.value().eq_spec(&other.value())
    }
}

impl<T: PartialEq> PartialEq<T> for Unique<T> {
    fn eq(&self, other: &T) -> (r: bool) {
        *self.get() == *other
    }
}

impl<T: PartialEq> PartialEqSpecImpl<T> for Unique<T> {
    open spec fn obeys_eq_spec() -> bool {
        T::obeys_eq_spec()
    }

    open spec fn eq_spec(&self, other: &T) -> bool {
        self.value().eq_spec(other)
    }
}

impl<T: Hash> Hash for Unique<T> {
    /// Relies on T's Hash::hash, which Verus cannot call through: the handle hashes
    /// as its value does. Nothing is claimed of the hasher's state.
    #[verifier::external_body]
    fn hash<H: Hasher>(&self, state: &mut H) {
        self.get().hash(state)
    }
}

impl<T> Deref for Shared<T> {
    type Target = T;

    fn deref(&self) -> (r: &T)
        ensures
            *r == self.value(),
    {
        self.get()
    }
}

impl<T: PartialEq> PartialEq for Shared<T> {
    fn eq(&self, other: &Shared<T>) -> (r: bool) {
        *self.get() == *other.get()
    }
}

impl<T: PartialEq> PartialEqSpecImpl for Shared<T> {
    open spec fn obeys_eq_spec() -> bool {
        T::obeys_eq_spec()
    }

    open spec fn eq_spec(&self, other: &Shared<T>) -> bool {
        self.value().eq_spec(&other.value())
    }
}

impl<T: PartialEq> PartialEq<T> for Shared<T> {
    fn eq(&self, other: &T) -> (r: bool) {
        *self.get() == *other
    }
}

impl<T: PartialEq> PartialEqSpecImpl<T> for Shared<T> {
    open spec fn obeys_eq_spec() -> bool {
        T::obeys_eq_spec()
    }

    open spec fn eq_spec(&self, other: &T) -> bool {
        self.value().eq_spec(other)
    }
}

impl<T> AsRef<T> for Shared<T> {
    fn as_ref(&self) -> (r: &T)
        ensures
            *r == self.value(),
    {
        self.get()
    }
}

impl<T: Eq> Eq for Shared<T> {
}

impl<T: Hash> Hash for Shared<T> {
    /// Relies on T's Hash::hash, which Verus cannot call through: the handle hashes
    /// as its value does. Nothing is claimed of the hasher's state.
    #[verifier::external_body]
    fn hash<H: Hasher>(&self, state: &mut H) {
        self.get().hash(state)
    }
}

} // verus!
