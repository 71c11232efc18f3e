use vstd::prelude::*;
use std::sync::Arc;

use crate::{Inner, PoolHead, Unique};

verus! {

/// A source of recyclable values: every handle it lends returns its value here
/// when released, and `lend` hands such values out again before making new ones.
#[verifier::reject_recursive_types(T)]
pub struct Pool<T> {
    inner: Arc<PoolHead<T>>,
}

impl<T> Clone for Pool<T> {
    /// Another handle on the same pool; the idle values are not copied.
    fn clone(&self) -> (r: Self)
        ensures
            r.home() == self.home(),
    {
        proof {
            use_type_invariant(self);
        }
        Pool { inner: self.inner.clone() }
    }
}

impl<T> Pool<T> {
    /// A pool's head stays open to returns for as long as the pool exists.
    #[verifier::type_invariant]
    spec fn head_is_open(&self) -> bool {
        self.inner.is_open()
    }

    /// The head that this pool, its clones and every handle it lends share.
    pub closed spec fn home(&self) -> PoolHead<T> {
        *self.inner
    }

    /// A pool with no idle values, open to returns.
    pub fn new() -> (r: Self)
        ensures
            r.home().is_open(),
    {
        Pool { inner: Arc::new(PoolHead::new(false)) }
    }

    /// Lends a value: one released earlier into this pool, exactly as it was left,
    /// or, when none is idle, a new one that `make_value` builds.
    pub fn lend<F>(&self, make_value: F) -> (r: Unique<T>)
        where
            F: FnOnce() -> T,
        requires
            make_value.requires(()),
        ensures
            r.home() == self.home(),
            r.home().is_open(),
    {
        let idle = self.inner.pop();
        self.lend_from(idle, make_value)
    }

    /// The step of `lend` after the idle list was read: lends `idle` if it holds a
    /// value, exactly as it is, without running `make_value`; else the value that
    /// `make_value` builds. Either way the handle returns its value to this pool.
    pub fn lend_from<F>(&self, idle: Option<T>, make_value: F) -> (r: Unique<T>)
        where
            F: FnOnce() -> T,
        requires
            idle is None ==> make_value.requires(()),
        ensures
            r.home() == self.home(),
            r.home().is_open(),
            idle is Some ==> r.value() == idle->Some_0,
            idle is None ==> make_value.ensures((), r.value()),
    {
        proof {
            use_type_invariant(self);
        }
        let value = match idle {
            Some(value) => value,
            None => make_value(),
        };
        Unique { inner: Inner::new(value, self.inner.clone()) }
    }
}

} // verus!
