use vstd::prelude::*;

verus! {

use vstd::std_specs::cmp::PartialEqSpec;
use vstd::std_specs::iter::IteratorSpec;

/// The number of slots that a buffer asked for `capacity` slots of `T` really has:
/// a zero-sized `T`, or a request for no slot, gives a buffer of no slot.
pub open spec fn slots_for<T>(capacity: usize) -> usize {
    if vstd::layout::size_of::<T>() == 0 || capacity == 0 {
        0
    } else {
        capacity
    }
}

/// Whether `capacity` slots of `T` fit in a single allocation (at most `isize::MAX` bytes).
pub open spec fn fits_allocation<T>(capacity: usize) -> bool {
    capacity * vstd::layout::size_of::<T>() <= isize::MAX
}

/// The number of slots that a buffer asked for `capacity` slots of `T` gets.
pub fn slot_count<T>(capacity: usize) -> (n: usize)
    ensures
        n == slots_for::<T>(capacity),
        vstd::layout::size_of::<T>() == 0 ==> n == 0,
        vstd::layout::size_of::<T>() > 0 ==> n == capacity,
{
    if core::mem::size_of::<T>() == 0 || capacity == 0 {
        0
    } else {
        capacity
    }
}

/// Whether `capacity` slots of `T` fit in a single allocation.
pub fn allocation_fits<T>(capacity: usize) -> (b: bool)
    ensures
        b == fits_allocation::<T>(capacity),
        b <==> capacity * vstd::layout::size_of::<T>() <= isize::MAX,
{
    match capacity.checked_mul(core::mem::size_of::<T>()) {
        Some(bytes) => bytes <= isize::MAX as usize,
        None => false,
    }
}

/// The storage of a `NoResizableVec`: `cap` slots, of which the first `items.len()` hold a value.
#[derive(Debug)]
struct RawVec<T> {
    items: Vec<T>,
    cap: usize,
}

impl<T> RawVec<T> {
    /// A buffer without any slot.
    fn new_zero_sized() -> (buf: Self)
        ensures
            buf.items@ == Seq::<T>::empty(),
            buf.cap == 0,
    {
        Self { items: Vec::new(), cap: 0 }
    }

    /// A buffer of `capacity` empty slots; zero-sized items take no slot.
    fn new(capacity: usize) -> (buf: Self)
        requires
            fits_allocation::<T>(capacity),
        ensures
            buf.items@ == Seq::<T>::empty(),
            buf.cap == slots_for::<T>(capacity),
    {
        if slot_count::<T>(capacity) == 0 {
            return RawVec::new_zero_sized();
        }
        let items: Vec<T> = Vec::with_capacity(capacity);
        Self { items, cap: capacity }
    }
}

/// A vector of at most `capacity()` items, which never reallocates.
///
/// The items it still holds are dropped together with it.
#[derive(Debug)]
pub struct NoResizableVec<T> {
    buf: RawVec<T>,
}

impl<T> View for NoResizableVec<T> {
    type V = Seq<T>;

    /// The items, in order.
    closed spec fn view(&self) -> Seq<T> {
        self.buf.items@
    }
}

/// A well-formed vector never holds more items than its capacity.
pub proof fn lemma_len_le_capacity<T>(v: &NoResizableVec<T>)
    requires
        v.wf(),
    ensures
        v@.len() <= v.capacity(),
{
}

impl<T> NoResizableVec<T> {
    /// The number of slots of the vector.
    pub closed spec fn spec_capacity(&self) -> usize {
        self.buf.cap
    }

    /// The vector's invariant: its items fit in its slots, and its slots in one allocation.
    pub closed spec fn wf(&self) -> bool {
        &&& self.buf.items@.len() <= self.buf.cap
        &&& fits_allocation::<T>(self.buf.cap)
        &&& self.buf.cap == slots_for::<T>(self.buf.cap)
    }

    /// An empty vector with room for 10 items.
    pub fn new() -> (v: Self)
        requires
            fits_allocation::<T>(10),
        ensures
            v.wf(),
            v@ == Seq::<T>::empty(),
            v.capacity() == slots_for::<T>(10),
    {
        Self::with_capacity(10)
    }

    /// An empty vector with room for `capacity` items (none, for zero-sized items).
    pub fn with_capacity(capacity: usize) -> (v: Self)
        requires
            fits_allocation::<T>(capacity),
        ensures
            v.wf(),
            v@ == Seq::<T>::empty(),
            v.capacity() == slots_for::<T>(capacity),
    {
        Self { buf: RawVec::new(capacity) }
    }

    /// An empty vector with room for `capacity` items, as `with_capacity` makes it,
    /// or `None` where `capacity` slots of `T` would not fit in one allocation.
    pub fn try_with_capacity(capacity: usize) -> (r: Option<Self>)
        ensures
            r is Some <==> fits_allocation::<T>(capacity),
            r is Some <==> capacity * vstd::layout::size_of::<T>() <= isize::MAX,
            r matches Some(v) ==> (vstd::layout::size_of::<T>() > 0 ==> v.capacity() == capacity),
            r matches Some(v) ==> v.wf() && v@ == Seq::<T>::empty() && v.capacity()
                == slots_for::<T>(capacity),
    {
        if allocation_fits::<T>(capacity) {
            Some(Self::with_capacity(capacity))
        } else {
            None
        }
    }

    /// The number of items.
    pub fn len(&self) -> (n: usize)
        ensures
            n == self@.len(),
    {
        self.buf.items.len()
    }

    /// Whether the vector holds no item.
    pub fn is_empty(&self) -> (b: bool)
        ensures
            b == (self@.len() == 0),
    {
        self.len() == 0
    }

    /// The number of items the vector can hold.
    #[verifier::when_used_as_spec(spec_capacity)]
    pub fn capacity(&self) -> (c: usize)
        ensures
            c == self.capacity(),
    {
        self.buf.cap
    }

    /// Appends `value`; there must be a free slot.
    pub fn push(&mut self, value: T)
        requires
            old(self).wf(),
            old(self)@.len() < old(self).capacity(),
        ensures
            final(self).wf(),
            final(self)@ == old(self)@.push(value),
            final(self).capacity() == old(self).capacity(),
    {
        self.buf.items.push(value);
    }

    /// Takes the last item out, or gives `None` when the vector is empty.
    pub fn pop(&mut self) -> (r: Option<T>)
        requires
            old(self).wf(),
        ensures
            final(self).wf(),
            final(self).capacity() == old(self).capacity(),
            old(self)@.len() == 0 ==> r == None::<T> && final(self)@ == old(self)@,
            old(self)@.len() > 0 ==> r == Some(old(self)@.last())
                && final(self)@ == old(self)@.drop_last(),
    {
        self.buf.items.pop()
    }

    /// Puts `value` at position `index`, moving the items from there one place up;
    /// there must be a free slot, and `index` may be at most the length.
    pub fn insert(&mut self, index: usize, value: T)
        requires
            old(self).wf(),
            old(self)@.len() < old(self).capacity(),
            index <= old(self)@.len(),
        ensures
            final(self).wf(),
            final(self)@ == old(self)@.insert(index as int, value),
            final(self).capacity() == old(self).capacity(),
    {
        self.buf.items.insert(index, value);
    }

    /// Takes out the item at position `index`, moving the items after it one place down.
    pub fn remove(&mut self, index: usize) -> (r: T)
        requires
            old(self).wf(),
            index < old(self)@.len(),
        ensures
            final(self).wf(),
            r == old(self)@[index as int],
            final(self)@ == old(self)@.remove(index as int),
            final(self).capacity() == old(self).capacity(),
    {
        self.buf.items.remove(index)
    }

    /// The items, as a slice.
    pub fn as_slice(&self) -> (s: &[T])
        ensures
            s@ == self@,
    {
        self.buf.items.as_slice()
    }

    /// The items, as a slice that can be written through; the capacity stays.
    pub fn as_mut_slice(&mut self) -> (s: &mut [T])
        requires
            old(self).wf(),
        ensures
            s@ == old(self)@,
            final(s)@ == final(self)@,
            final(self).capacity() == old(self).capacity(),
            final(self)@.len() == old(self)@.len() ==> final(self).wf(),
    {
        self.buf.items.as_mut_slice()
    }

    /// The item at position `index`, to be written through.
    pub fn index_mut(&mut self, index: usize) -> (item: &mut T)
        requires
            old(self).wf(),
            index < old(self)@.len(),
        ensures
            *item == old(self)@[index as int],
            final(self)@ == old(self)@.update(index as int, *final(item)),
            final(self).capacity() == old(self).capacity(),
            final(self).wf(),
    {
        &mut self.buf.items[index]
    }

    /// The position of the first item equal to `value`, or `None` when no item is.
    pub fn find(&self, value: &T) -> (r: Option<usize>)
        where
            T: Ord,
        ensures
            r matches Some(i) ==> i < self@.len(),
            T::obeys_eq_spec() ==> match r {
                Some(i) => self@[i as int].eq_spec(value)
                    && forall|j: int| 0 <= j < i ==> !(#[trigger] self@[j]).eq_spec(value),
                None => forall|j: int| 0 <= j < self@.len() ==> !(#[trigger] self@[j]).eq_spec(value),
            },
    {
        let n = self.buf.items.len();
        let mut i: usize = 0;
        while i < n
            invariant
                n == self@.len(),
                i <= n,
                T::obeys_eq_spec() ==> forall|j: int| 0 <= j < i ==> !(#[trigger] self@[j]).eq_spec(value),
            decreases n - i,
        {
            if self.buf.items[i] == *value {
                return Some(i);
            }
            i = i + 1;
        }
        None
    }
}

impl<T: Clone> Clone for NoResizableVec<T> {
    /// A vector of the same capacity, whose items are clones of these, each made by
    /// `T::clone`; where that clone gives an equal value, so are the contents equal.
    fn clone(&self) -> (c: Self)
        ensures
            c.capacity() == self.capacity(),
            c@.len() == self@.len(),
            forall|i: int| 0 <= i < self@.len() ==> cloned::<T>(self@[i], #[trigger] c@[i]),
            self.wf() ==> c.wf(),
    {
        let mut items: Vec<T> = Vec::with_capacity(self.buf.cap);
        items.extend_from_slice(self.buf.items.as_slice());
        Self { buf: RawVec { items, cap: self.buf.cap } }
    }
}

/// `items` in reverse order, taken by popping them one by one.
fn reversed<T>(items: Vec<T>) -> (r: Vec<T>)
    ensures
        r@ == items@.reverse(),
{
    let ghost all = items@;
    let mut rest = items;
    let mut r: Vec<T> = Vec::new();
    while rest.len() > 0
        invariant
            all == rest@ + r@.reverse(),
        decreases rest@.len(),
    {
        let ghost before = r@;
        let x = rest.pop().unwrap();
        r.push(x);
        assert(r@.reverse() =~= seq![x] + before.reverse());
        assert(all =~= rest@ + r@.reverse());
    }
    assert(rest@ =~= Seq::<T>::empty());
    assert(all =~= r@.reverse());
    assert(r@.reverse().reverse() =~= r@);
    r
}

/// The items of a `NoResizableVec`, handed out one by one from the first.
pub struct IntoIter<T> {
    /// The items not handed out yet, the next one last.
    rest: Vec<T>,
}

impl<T> View for IntoIter<T> {
    type V = Seq<T>;

    /// The items not handed out yet, in the order they come.
    closed spec fn view(&self) -> Seq<T> {
        self.rest@.reverse()
    }
}

impl<T> IntoIter<T> {
    /// The next item, or `None` once all have been handed out.
    pub fn next(&mut self) -> (r: Option<T>)
        ensures
            old(self)@.len() == 0 ==> r == None::<T> && final(self)@ == old(self)@,
            old(self)@.len() > 0 ==> r == Some(old(self)@[0]) && final(self)@ == old(self)@.drop_first(),
    {
        let r = self.rest.pop();
        proof {
            if old(self).rest@.len() > 0 {
                assert(self@ =~= old(self)@.drop_first());
            }
        }
        r
    }

    /// The number of items left, as a lower and an upper bound.
    pub fn size_hint(&self) -> (r: (usize, Option<usize>))
        ensures
            r.0 == self@.len(),
            r.1 == Some(r.0),
    {
        let exact = self.rest.len();
        (exact, Some(exact))
    }
}

impl<T> NoResizableVec<T> {
    /// Hands the items out one by one, from the first.
    pub fn into_iter(self) -> (it: IntoIter<T>)
        ensures
            it@ == self@,
    {
        IntoIter { rest: reversed(self.buf.items) }
    }

    /// A vector made by `new` and filled with `items`, in order; they must fit.
    pub fn from_iter(items: Vec<T>) -> (v: Self)
        requires
            fits_allocation::<T>(10),
            items@.len() <= slots_for::<T>(10),
        ensures
            v.wf(),
            v@ == items@,
            v.capacity() == slots_for::<T>(10),
    {
        let mut v = Self::new();
        let mut it = IntoIter { rest: reversed(items) };
        assert(it@ =~= items@) by {
            assert(items@.reverse().reverse() =~= items@);
        }
        loop
            invariant
                v.wf(),
                v.capacity() == slots_for::<T>(10),
                items@ == v@ + it@,
                items@.len() <= slots_for::<T>(10),
            ensures
                v.wf(),
                v.capacity() == slots_for::<T>(10),
                v@ == items@,
            decreases it@.len(),
        {
            let ghost before = it@;
            match it.next() {
                Some(item) => {
                    assert(v@.push(item) + it@ =~= v@ + before);
                    v.push(item);
                },
                None => {
                    assert(v@ =~= items@);
                    break;
                },
            }
        }
        v
    }
}

impl<'a, T> IntoIterator for &'a NoResizableVec<T> {
    type Item = &'a T;

    type IntoIter = core::slice::Iter<'a, T>;

    /// Walks the items by reference, from the first.
    fn into_iter(self) -> (it: core::slice::Iter<'a, T>)
        ensures
            it.remaining() == self@.as_ref(),
    {
        broadcast use vstd::std_specs::slice::axiom_spec_slice_iter;
        self.as_slice().iter()
    }
}

impl<T> core::ops::Index<usize> for NoResizableVec<T> {
    type Output = T;

    /// The item at position `index`.
    fn index(&self, index: usize) -> (item: &T)
        ensures
            *item == self@[index as int],
    {
        &self.buf.items[index]
    }
}

impl<T> vstd::std_specs::core::IndexSpecImpl<usize> for NoResizableVec<T> {
    /// Indexing asks for a position below the length.
    open spec fn index_req(&self, index: &usize) -> bool {
        *index < self@.len()
    }
}

impl<T> core::ops::Deref for NoResizableVec<T> {
    type Target = [T];

    /// The items, as a slice.
    fn deref(&self) -> (s: &[T])
        ensures
            s@ == self@,
    {
        self.buf.items.as_slice()
    }
}

} // verus!
