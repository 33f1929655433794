//! The eviction discipline shared by every bounded buffer of the crate:
//! append at the back, evict from the front, never hold more than the capacity.

use vstd::prelude::*;

verus! {

/// The last `capacity` entries of `items`, or all of them if there are fewer.
pub open spec fn keep_last<T>(items: Seq<T>, capacity: nat) -> Seq<T> {
    if items.len() <= capacity {
        items
    } else {
        items.subrange(items.len() - capacity, items.len() as int)
    }
}

/// What a bounded first-in-first-out buffer holds after `item` arrives:
/// the item is appended, then the oldest entries leave until at most
/// `capacity` remain.
pub open spec fn fifo_push<T>(held: Seq<T>, item: T, capacity: nat) -> Seq<T> {
    keep_last(held.push(item), capacity)
}

/// What the buffer holds after every entry of `items` has arrived in order.
pub open spec fn fifo_extend<T>(held: Seq<T>, items: Seq<T>, capacity: nat) -> Seq<T>
    decreases items.len(),
{
    if items.len() == 0 {
        held
    } else {
        fifo_push(fifo_extend(held, items.drop_last(), capacity), items.last(), capacity)
    }
}

/// One arrival never leaves more than `capacity` entries behind, whatever was
/// held before; a buffer within its capacity grows by one until it is full.
pub proof fn lemma_fifo_push_len<T>(held: Seq<T>, item: T, capacity: nat)
    ensures
        fifo_push(held, item, capacity).len() <= capacity,
        held.len() < capacity ==> fifo_push(held, item, capacity) == held.push(item),
        held.len() == capacity && capacity > 0 ==> fifo_push(held, item, capacity)
            == held.subrange(1, held.len() as int).push(item),
        capacity == 0 ==> fifo_push(held, item, capacity) == Seq::<T>::empty(),
{
    let grown = held.push(item);
    if held.len() == capacity && capacity > 0 {
        assert(grown.subrange(1, grown.len() as int) =~= held.subrange(1, held.len() as int).push(
            item,
        ));
    }
    if capacity == 0 {
        assert(grown.subrange(grown.len() as int, grown.len() as int) =~= Seq::<T>::empty());
    }
}

/// Trimming before an arrival changes nothing: only the newest `capacity`
/// entries can survive the push.
proof fn lemma_keep_last_push<T>(items: Seq<T>, item: T, capacity: nat)
    ensures
        keep_last(keep_last(items, capacity).push(item), capacity) == keep_last(
            items.push(item),
            capacity,
        ),
{
    assert(keep_last(keep_last(items, capacity).push(item), capacity) =~= keep_last(
        items.push(item),
        capacity,
    ));
}

/// After any run of arrivals, a buffer that started within its capacity holds
/// exactly the newest `capacity` entries of everything it has seen, in
/// arrival order.
pub proof fn lemma_fifo_extend_keeps_newest<T>(held: Seq<T>, items: Seq<T>, capacity: nat)
    requires
        held.len() <= capacity,
    ensures
        fifo_extend(held, items, capacity) == keep_last(held + items, capacity),
        fifo_extend(held, items, capacity).len() <= capacity,
    decreases items.len(),
{
    if items.len() == 0 {
        assert(held + items =~= held);
    } else {
        let front = items.drop_last();
        lemma_fifo_extend_keeps_newest(held, front, capacity);
        lemma_keep_last_push(held + front, items.last(), capacity);
        assert((held + front).push(items.last()) =~= held + items);
    }
}

/// Once at least `capacity` entries have arrived, nothing of what was held
/// before is left: the buffer is full and holds the last `capacity` arrivals.
pub proof fn lemma_fifo_extend_fills<T>(held: Seq<T>, items: Seq<T>, capacity: nat)
    requires
        held.len() <= capacity,
        items.len() >= capacity,
    ensures
        fifo_extend(held, items, capacity) == items.subrange(
            items.len() - capacity,
            items.len() as int,
        ),
        fifo_extend(held, items, capacity).len() == capacity,
{
    lemma_fifo_extend_keeps_newest(held, items, capacity);
    assert(keep_last(held + items, capacity) =~= items.subrange(
        items.len() - capacity,
        items.len() as int,
    ));
}

/// Arrivals can be fed in two batches or in one: the buffer ends up the same.
pub proof fn lemma_fifo_extend_concat<T>(held: Seq<T>, first: Seq<T>, second: Seq<T>, capacity: nat)
    ensures
        fifo_extend(fifo_extend(held, first, capacity), second, capacity) == fifo_extend(
            held,
            first + second,
            capacity,
        ),
    decreases second.len(),
{
    if second.len() == 0 {
        assert(first + second =~= first);
    } else {
        lemma_fifo_extend_concat(held, first, second.drop_last(), capacity);
        assert((first + second).drop_last() =~= first + second.drop_last());
        assert((first + second).last() == second.last());
    }
}

} // verus!
