use vstd::prelude::*;

verus! {

/// The reservoir of idle values of a pool: a stack, so that the value
/// released last is the one lent next.
pub struct FreeList<T> {
    items: Vec<T>,
}

/// Relies on Vec::push: appends the value. Stated here as well as in vstd so that the
/// release path can show it opens no invariant, which std code never does.
#[verifier::external_body]
fn push_item<T>(items: &mut Vec<T>, value: T)
    ensures
        final(items)@ == old(items)@.push(value),
    opens_invariants none
{
    items.push(value)
}

impl<T> View for FreeList<T> {
    type V = Seq<T>;

    closed spec fn view(&self) -> Seq<T> {
        self.items@
    }
}

impl<T> FreeList<T> {
    /// An empty list.
    pub fn new() -> (r: Self)
        ensures
            r@ == Seq::<T>::empty(),
    {
        FreeList { items: Vec::new() }
    }

    /// Puts a released value on top of the stack.
    pub fn push(&mut self, value: T)
        ensures
            final(self)@ == old(self)@.push(value),
        opens_invariants none
    {
        push_item(&mut self.items, value);
    }

    /// Takes back the value of a released handle: put on top of the stack when the
    /// pool it belongs to is `open`, left out otherwise, so that its owner drops it.
    /// Returns whether it was kept.
    pub fn put_back(&mut self, open: bool, entry: Option<T>) -> (kept: bool)
        ensures
            kept == (open && entry is Some),
            kept ==> final(self)@ == old(self)@.push(entry->Some_0),
            !kept ==> final(self)@ == old(self)@,
        opens_invariants none
    {
        if !open {
            return false;
        }
        match entry {
            Some(value) => {
                self.push(value);
                true
            },
            None => false,
        }
    }

    /// Takes the value on top of the stack, if there is one.
    pub fn pop(&mut self) -> (r: Option<T>)
        ensures
            old(self)@.len() == 0 ==> r is None && final(self)@ == old(self)@,
            old(self)@.len() > 0 ==> r == Some(old(self)@.last()) && final(self)@
                == old(self)@.drop_last(),
    {
        self.items.pop()
    }
}

} // verus!
