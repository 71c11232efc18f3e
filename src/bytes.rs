use vstd::prelude::*;
use vstd::slice::slice_subrange;
use vstd::std_specs::cmp::{PartialEqSpec, PartialEqSpecImpl};
use std::hash::{Hash, Hasher};
use std::ops::{Bound, Deref, DerefMut, Range, RangeFrom, RangeFull, RangeInclusive, RangeTo, RangeToInclusive};

use crate::pool::Pool;
use crate::{PoolHead, Shared, Unique};

verus! {

/// std's `a..`, with its public bound open to proofs.
#[verifier::external_type_specification]
#[verifier::reject_recursive_types(Idx)]
pub struct ExRangeFrom<Idx>(RangeFrom<Idx>);

/// std's `..b`, with its public bound open to proofs.
#[verifier::external_type_specification]
#[verifier::reject_recursive_types(Idx)]
pub struct ExRangeTo<Idx>(RangeTo<Idx>);

/// std's `..=b`, with its public bound open to proofs.
#[verifier::external_type_specification]
#[verifier::reject_recursive_types(Idx)]
pub struct ExRangeToInclusive<Idx>(RangeToInclusive<Idx>);

/// std's `..`.
#[verifier::external_type_specification]
pub struct ExRangeFull(RangeFull);

/// std's bound of a range, with its three variants open to proofs.
#[verifier::external_type_specification]
#[verifier::reject_recursive_types(Idx)]
pub struct ExBound<Idx>(Bound<Idx>);

/// Relies on RangeInclusive::start: the lower bound the range was built with.
pub assume_specification<Idx>[ RangeInclusive::<Idx>::start ](range: &RangeInclusive<Idx>) -> (r: &Idx)
    ensures
        *r == range@.start,
;

/// Relies on RangeInclusive::end: the upper bound the range was built with.
pub assume_specification<Idx>[ RangeInclusive::<Idx>::end ](range: &RangeInclusive<Idx>) -> (r: &Idx)
    ensures
        *r == range@.end,
;

/// Relies on Vec::shrink_to_fit: only the reserved capacity changes, never the contents.
#[verifier::external_body]
fn shrink_to_fit(buffer: &mut Vec<u8>)
    ensures
        final(buffer)@ == old(buffer)@,
{
    buffer.shrink_to_fit()
}

/// First index of the window a range selects.
pub open spec fn window_from(first: Bound<usize>) -> int {
    match first {
        Bound::Included(k) => k as int,
        Bound::Excluded(k) => k + 1,
        Bound::Unbounded => 0,
    }
}

/// Index just past the window a range selects, in a buffer of `len` bytes.
pub open spec fn window_to(end: Bound<usize>, len: nat) -> int {
    match end {
        Bound::Unbounded => len as int,
        Bound::Included(k) => k + 1,
        Bound::Excluded(k) => k as int,
    }
}

/// Whether a range lies within a buffer of `len` bytes: no start or an included
/// start of at most `len`, no end, an included end below `len` or an excluded end
/// of at most `len`, and a window that does not end before it starts.
pub open spec fn span_fits(first: Bound<usize>, end: Bound<usize>, len: nat) -> bool {
    &&& match first {
        Bound::Unbounded => true,
        Bound::Included(k) => k <= len,
        Bound::Excluded(_) => false,
    }
    &&& match end {
        Bound::Unbounded => true,
        Bound::Included(k) => k < len,
        Bound::Excluded(k) => k <= len,
    }
    &&& window_from(first) <= window_to(end, len)
}

/// The ranges a frozen buffer can be narrowed to: how each one starts and ends.
pub trait SpanBounds {
    spec fn spec_window_first(&self) -> Bound<usize>;

    spec fn spec_window_end(&self) -> Bound<usize>;

    fn window_first(&self) -> (r: Bound<usize>)
        ensures
            r == self.spec_window_first(),
    ;

    fn window_end(&self) -> (r: Bound<usize>)
        ensures
            r == self.spec_window_end(),
    ;
}

impl SpanBounds for Range<usize> {
    open spec fn spec_window_first(&self) -> Bound<usize> {
        Bound::Included(self.start)
    }

    open spec fn spec_window_end(&self) -> Bound<usize> {
        Bound::Excluded(self.end)
    }

    fn window_first(&self) -> (r: Bound<usize>) {
        Bound::Included(self.start)
    }

    fn window_end(&self) -> (r: Bound<usize>) {
        Bound::Excluded(self.end)
    }
}

impl SpanBounds for RangeFull {
    open spec fn spec_window_first(&self) -> Bound<usize> {
        Bound::Unbounded
    }

    open spec fn spec_window_end(&self) -> Bound<usize> {
        Bound::Unbounded
    }

    fn window_first(&self) -> (r: Bound<usize>) {
        Bound::Unbounded
    }

    fn window_end(&self) -> (r: Bound<usize>) {
        Bound::Unbounded
    }
}

impl SpanBounds for RangeFrom<usize> {
    open spec fn spec_window_first(&self) -> Bound<usize> {
        Bound::Included(self.start)
    }

    open spec fn spec_window_end(&self) -> Bound<usize> {
        Bound::Unbounded
    }

    fn window_first(&self) -> (r: Bound<usize>) {
        Bound::Included(self.start)
    }

    fn window_end(&self) -> (r: Bound<usize>) {
        Bound::Unbounded
    }
}

/// Read by its current `start()` and `end()`, the end taken as included. A range
/// iterated to its end is not told apart from one that was not.
impl SpanBounds for RangeInclusive<usize> {
    open spec fn spec_window_first(&self) -> Bound<usize> {
        Bound::Included(self@.start)
    }

    open spec fn spec_window_end(&self) -> Bound<usize> {
        Bound::Included(self@.end)
    }

    fn window_first(&self) -> (r: Bound<usize>) {
        Bound::Included(*self.start())
    }

    fn window_end(&self) -> (r: Bound<usize>) {
        Bound::Included(*self.end())
    }
}

impl SpanBounds for RangeToInclusive<usize> {
    open spec fn spec_window_first(&self) -> Bound<usize> {
        Bound::Unbounded
    }

    open spec fn spec_window_end(&self) -> Bound<usize> {
        Bound::Included(self.end)
    }

    fn window_first(&self) -> (r: Bound<usize>) {
        Bound::Unbounded
    }

    fn window_end(&self) -> (r: Bound<usize>) {
        Bound::Included(self.end)
    }
}

impl SpanBounds for (Bound<usize>, Bound<usize>) {
    open spec fn spec_window_first(&self) -> Bound<usize> {
        self.0
    }

    open spec fn spec_window_end(&self) -> Bound<usize> {
        self.1
    }

    fn window_first(&self) -> (r: Bound<usize>) {
        self.0
    }

    fn window_end(&self) -> (r: Bound<usize>) {
        self.1
    }
}

impl SpanBounds for RangeTo<usize> {
    open spec fn spec_window_first(&self) -> Bound<usize> {
        Bound::Unbounded
    }

    open spec fn spec_window_end(&self) -> Bound<usize> {
        Bound::Excluded(self.end)
    }

    fn window_first(&self) -> (r: Bound<usize>) {
        Bound::Unbounded
    }

    fn window_end(&self) -> (r: Bound<usize>) {
        Bound::Excluded(self.end)
    }
}

/// A byte buffer lent exclusively, open to writes until it is frozen.
pub struct BytesMut {
    unique: Unique<Vec<u8>>,
}

impl View for BytesMut {
    type V = Seq<u8>;

    closed spec fn view(&self) -> Seq<u8> {
        self.unique.value()@
    }
}

/// A read-only window `[offset_from, offset_to)` on a frozen, shared byte buffer.
pub struct Bytes {
    inner: Shared<Vec<u8>>,
    offset_from: usize,
    offset_to: usize,
}

impl Bytes {
    #[verifier::type_invariant]
    spec fn window_in_buffer(&self) -> bool {
        self.offset_from <= self.offset_to <= self.inner.value()@.len()
    }

    /// The head of the pool the buffer returns to once the last window on it is gone.
    pub closed spec fn home(&self) -> PoolHead<Vec<u8>> {
        self.inner.home()
    }

    /// Narrows the window to `[from, to)` of the underlying buffer.
    fn with_window(self, from: usize, to: usize) -> (r: Bytes)
        requires
            from <= to <= self.inner.value()@.len(),
        ensures
            r@ == self.inner.value()@.subrange(from as int, to as int),
            r.home() == self.home(),
    {
        Bytes { inner: self.inner, offset_from: from, offset_to: to }
    }

    /// The bytes of the window.
    pub fn as_slice(&self) -> (r: &[u8])
        ensures
            r@ == self@,
    {
        proof {
            use_type_invariant(self);
        }
        let buffer: &Vec<u8> = self.inner.get();
        slice_subrange(buffer.as_slice(), self.offset_from, self.offset_to)
    }

    /// Number of bytes in the window.
    pub fn len(&self) -> (r: usize)
        ensures
            r == self@.len(),
    {
        proof {
            use_type_invariant(self);
        }
        self.offset_to - self.offset_from
    }
}

impl View for Bytes {
    type V = Seq<u8>;

    closed spec fn view(&self) -> Seq<u8> {
        self.inner.value()@.subrange(self.offset_from as int, self.offset_to as int)
    }
}

impl BytesMut {
    /// The head of the pool the buffer returns to.
    pub closed spec fn home(&self) -> PoolHead<Vec<u8>> {
        self.unique.home()
    }

    /// A standalone buffer whose storage is never recycled: its head takes nothing back.
    pub fn new_detached(value: Vec<u8>) -> (r: Self)
        ensures
            r@ == value@,
            !r.home().is_open(),
    {
        BytesMut { unique: Unique::new_detached(value) }
    }

    /// Gives up the reserved capacity beyond the bytes written, and shares the
    /// buffer read-only through a window on all of it.
    pub fn freeze(self) -> (r: Bytes)
        ensures
            r@ == self@,
            r.home() == self.home(),
    {
        let r = self.share_whole();
        proof {
            assert(r@ =~= self@);
        }
        r
    }

    /// `freeze`, stated over the whole underlying buffer.
    fn share_whole(self) -> (r: Bytes)
        ensures
            r.inner.value()@ == self@,
            r.offset_from == 0,
            r.offset_to == self@.len(),
            r.home() == self.home(),
    {
        let mut unique = self.unique;
        shrink_to_fit(unique.get_mut());
        let inner = unique.freeze();
        let offset_to = inner.get().len();
        Bytes { inner, offset_from: 0, offset_to }
    }

    /// Freezes the buffer and narrows the window to `range`, which must lie within
    /// the buffer's length.
    pub fn freeze_range<R: SpanBounds>(self, range: R) -> (r: Bytes)
        requires
            span_fits(range.spec_window_first(), range.spec_window_end(), self@.len()),
        ensures
            r@ == self@.subrange(
                window_from(range.spec_window_first()),
                window_to(range.spec_window_end(), self@.len()),
            ),
            r.home() == self.home(),
    {
        let bytes = self.share_whole();
        let len = bytes.len();
        let from = match range.window_first() {
            Bound::Included(k) => k,
            Bound::Excluded(k) => k + 1,
            Bound::Unbounded => 0,
        };
        let to = match range.window_end() {
            Bound::Unbounded => len,
            Bound::Included(k) => k + 1,
            Bound::Excluded(k) => k,
        };
        proof {
            use_type_invariant(&bytes);
        }
        bytes.with_window(from, to)
    }

    /// The buffer, for reading.
    pub fn get(&self) -> (r: &Vec<u8>)
        ensures
            r@ == self@,
    {
        self.unique.get()
    }

    /// The buffer, for writing.
    pub fn get_mut(&mut self) -> (r: &mut Vec<u8>)
        ensures
            r@ == old(self)@,
            final(self)@ == final(r)@,
            final(self).home() == old(self).home(),
    {
        self.unique.get_mut()
    }
}

/// A pool of byte buffers that lends each one empty, its capacity kept.
pub struct BytesPool {
    pool: Pool<Vec<u8>>,
}

impl BytesPool {
    /// The head this pool and every buffer it lends share.
    pub closed spec fn home(&self) -> PoolHead<Vec<u8>> {
        self.pool.home()
    }

    /// A pool with no idle buffers, open to returns.
    pub fn new() -> (r: Self)
        ensures
            r.home().is_open(),
    {
        BytesPool { pool: Pool::new() }
    }

    /// Lends an empty buffer: a recycled one, cleared, or a new one.
    pub fn lend(&self) -> (r: BytesMut)
        ensures
            r@.len() == 0,
            r.home() == self.home(),
            r.home().is_open(),
    {
        let mut unique = self.pool.lend(|| Vec::new());
        unique.get_mut().clear();
        BytesMut { unique }
    }
}

impl Clone for BytesPool {
    /// Another handle on the same pool.
    fn clone(&self) -> (r: Self)
        ensures
            r.home() == self.home(),
    {
        BytesPool { pool: self.pool.clone() }
    }
}

/// Whether two byte sequences are equal, byte by byte.
fn same_bytes(a: &[u8], b: &[u8]) -> (r: bool)
    ensures
        r == (a@ == b@),
{
    if a.len() != b.len() {
        return false;
    }
    let mut i: usize = 0;
    while i < a.len()
        invariant
            a@.len() == b@.len(),
            i <= a@.len(),
            forall|j: int| 0 <= j < i ==> a@[j] == b@[j],
        decreases a@.len() - i,
    {
        if a[i] != b[i] {
            return false;
        }
        i = i + 1;
    }
    proof {
        assert(a@ =~= b@);
    }
    true
}

impl Deref for BytesMut {
    type Target = Unique<Vec<u8>>;

    fn deref(&self) -> (r: &Unique<Vec<u8>>)
        ensures
            r.value()@ == self@,
            r.home() == self.home(),
    {
        &self.unique
    }
}

impl DerefMut for BytesMut {
    fn deref_mut(&mut self) -> (r: &mut Unique<Vec<u8>>)
        ensures
            r.value()@ == old(self)@,
            r.home() == old(self).home(),
            final(self)@ == final(r).value()@,
            final(self).home() == final(r).home(),
    {
        &mut self.unique
    }
}

impl AsRef<Vec<u8>> for BytesMut {
    fn as_ref(&self) -> (r: &Vec<u8>)
        ensures
            r@ == self@,
    {
        self.get()
    }
}

impl AsMut<Vec<u8>> for BytesMut {
    fn as_mut(&mut self) -> (r: &mut Vec<u8>)
        ensures
            r@ == old(self)@,
            final(self)@ == final(r)@,
            final(self).home() == old(self).home(),
    {
        self.get_mut()
    }
}

impl PartialEq for BytesMut {
    fn eq(&self, other: &BytesMut) -> (r: bool) {
        same_bytes(self.get().as_slice(), other.get().as_slice())
    }
}

impl PartialEqSpecImpl for BytesMut {
    open spec fn obeys_eq_spec() -> bool {
        true
    }

    open spec fn eq_spec(&self, other: &BytesMut) -> bool {
        self@ == other@
    }
}

impl Hash for BytesMut {
    /// Relies on Vec's Hash::hash, which Verus cannot call through: the buffer hashes
    /// as its bytes do. Nothing is claimed of the hasher's state.
    #[verifier::external_body]
    fn hash<H: Hasher>(&self, state: &mut H) {
        self.get().hash(state)
    }
}

impl Clone for Bytes {
    /// Another window on the same shared buffer; no bytes are copied.
    fn clone(&self) -> (r: Bytes)
        ensures
            r@ == self@,
            r.home() == self.home(),
    {
        proof {
            use_type_invariant(self);
        }
        Bytes { inner: self.inner.clone(), offset_from: self.offset_from, offset_to: self.offset_to }
    }
}

impl Deref for Bytes {
    type Target = [u8];

    fn deref(&self) -> (r: &[u8])
        ensures
            r@ == self@,
    {
        self.as_slice()
    }
}

impl AsRef<[u8]> for Bytes {
    fn as_ref(&self) -> (r: &[u8])
        ensures
            r@ == self@,
    {
        self.as_slice()
    }
}

impl PartialEq for Bytes {
    /// Windows are equal when they hold the same bytes, wherever those bytes are stored.
    fn eq(&self, other: &Bytes) -> (r: bool) {
        same_bytes(self.as_slice(), other.as_slice())
    }
}

impl PartialEqSpecImpl for Bytes {
    open spec fn obeys_eq_spec() -> bool {
        true
    }

    open spec fn eq_spec(&self, other: &Bytes) -> bool {
        self@ == other@
    }
}

impl Eq for Bytes {
}

/// Shared byte buffers compare by content alone: `==` on them obeys its stated meaning,
/// and that meaning is that both hold the same bytes, whatever storage or pool each
/// comes from.
pub proof fn lemma_shared_bytes_eq(a: Shared<Vec<u8>>, b: Shared<Vec<u8>>)
    ensures
        <Shared<Vec<u8>> as PartialEqSpec>::obeys_eq_spec(),
        PartialEqSpec::eq_spec(&a, &b) == (a.value()@ == b.value()@),
{
    if a.value()@ == b.value()@ {
        assert(a.value()@.len() == b.value()@.len());
    }
    if PartialEqSpec::eq_spec(&a, &b) {
        assert(a.value()@ =~= b.value()@);
    }
}

impl Hash for Bytes {
    /// Relies on the Hash::hash of byte slices, which Verus cannot call through: a
    /// window hashes as its bytes do. Nothing is claimed of the hasher's state.
    #[verifier::external_body]
    fn hash<H: Hasher>(&self, state: &mut H) {
        self.as_slice().hash(state)
    }
}

} // verus!
