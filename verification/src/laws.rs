//! Properties that relate several operations of `NoResizableVec`, stated over the
//! views and spec functions that the operations' contracts use.
use vstd::prelude::*;

verus! {

use crate::no_resizable_vec::{fits_allocation, slots_for};

use vstd::std_specs::cmp::PartialOrdIs;

/// A request for `capacity` slots of `T` fits in one allocation exactly when its
/// size in bytes, `capacity` times the size of `T`, is at most `isize::MAX`; that
/// byte count is the only ground on which a request is refused.
pub proof fn law_allocation_fits_is_byte_limit<T>(capacity: usize)
    ensures
        fits_allocation::<T>(capacity) <==> capacity * vstd::layout::size_of::<T>() <= isize::MAX,
        vstd::layout::size_of::<T>() == 0 ==> fits_allocation::<T>(capacity),
        capacity == 0 ==> fits_allocation::<T>(capacity),
{
}

/// A buffer asked for `capacity` slots of a sized `T` gets exactly `capacity`
/// slots; zero-sized items get none, whatever was asked; and the slots a buffer
/// gets never exceed what was asked.
pub proof fn law_slots_are_what_was_asked<T>(capacity: usize)
    ensures
        vstd::layout::size_of::<T>() > 0 ==> slots_for::<T>(capacity) == capacity,
        vstd::layout::size_of::<T>() == 0 ==> slots_for::<T>(capacity) == 0,
        slots_for::<T>(capacity) <= capacity,
{
}

/// `pop` undoes `push`: the contents after a push, taken back by a pop, are the
/// contents before, and the item popped is the one pushed.
pub proof fn law_pop_undoes_push<T>(items: Seq<T>, value: T)
    ensures
        items.push(value).len() > 0,
        items.push(value).last() == value,
        items.push(value).drop_last() == items,
{
    assert(items.push(value).drop_last() =~= items);
}

/// `remove` undoes `insert` at the same position: the item removed is the one
/// inserted, and the contents are those before the insert.
pub proof fn law_remove_undoes_insert<T>(items: Seq<T>, index: int, value: T)
    requires
        0 <= index <= items.len(),
    ensures
        index < items.insert(index, value).len(),
        items.insert(index, value)[index] == value,
        items.insert(index, value).remove(index) == items,
{
    assert(items.insert(index, value).remove(index) =~= items);
}

/// Handing out the next item of an iterator that holds `items` gives the first of
/// them and leaves the rest; doing so `k` times leaves the items from position `k` on.
pub proof fn law_items_come_out_in_order<T>(items: Seq<T>, k: nat)
    requires
        k <= items.len(),
    ensures
        drop_first_times(items, k) == items.subrange(k as int, items.len() as int),
    decreases k,
{
    if k > 0 {
        law_items_come_out_in_order(items, (k - 1) as nat);
        assert(drop_first_times(items, (k - 1) as nat).drop_first() =~= items.subrange(
            k as int,
            items.len() as int,
        ));
    } else {
        assert(items.subrange(0, items.len() as int) =~= items);
    }
}

/// What is left of `items` after the first item was handed out `k` times.
pub open spec fn drop_first_times<T>(items: Seq<T>, k: nat) -> Seq<T>
    decreases k,
{
    if k == 0 {
        items
    } else {
        drop_first_times(items, (k - 1) as nat).drop_first()
    }
}

/// Whether `items` are in ascending order (each item at most every later one), by
/// vstd's `partial_cmp_spec` of `T`: that is the order `T`'s `partial_cmp` computes
/// for the types that obey vstd's specification of it (`obeys_partial_cmp_spec`).
pub open spec fn sorted<T: PartialOrd>(items: Seq<T>) -> bool {
    forall|i: int, j: int|
        #![trigger items[i], items[j]]
        0 <= i < j < items.len() ==> items[i].is_le(&items[j])
}

/// Inserting a value at the position where a search of sorted items says it belongs
/// (after every item smaller than it, before every item not smaller) keeps the items
/// sorted, and puts the value at that position, where a later search finds it.
pub proof fn law_insert_at_search_position_keeps_sorted<T: PartialOrd>(
    items: Seq<T>,
    index: int,
    value: T,
)
    requires
        sorted(items),
        0 <= index <= items.len(),
        forall|i: int| #![trigger items[i]] 0 <= i < index ==> items[i].is_lt(&value),
        forall|i: int| #![trigger items[i]] index <= i < items.len() ==> value.is_le(&items[i]),
    ensures
        sorted(items.insert(index, value)),
        items.insert(index, value)[index] == value,
        items.insert(index, value).len() == items.len() + 1,
{
    let r = items.insert(index, value);
    assert forall|i: int, j: int|
        #![trigger r[i], r[j]]
        0 <= i < j < r.len() implies r[i].is_le(&r[j]) by {
        if i < index && j > index {
            assert(r[i] == items[i]);
            assert(r[j] == items[j - 1]);
            assert(items[i].is_le(&items[j - 1]));
        } else if i < index && j == index {
            assert(items[i].is_lt(&value));
        } else if i == index && j > index {
            assert(value.is_le(&items[j - 1]));
        } else if i > index {
            assert(r[i] == items[i - 1]);
            assert(r[j] == items[j - 1]);
            assert(items[i - 1].is_le(&items[j - 1]));
        } else if j < index {
            assert(items[i].is_le(&items[j]));
        }
    }
}

} // verus!
