//! The size protocol: every measurable value reports the bytes it occupies in
//! place and the bytes it owns on the heap.

use crate::tracker::{GetSizeTracker, Visited};
use vstd::layout::size_of;
use vstd::prelude::*;

verus! {

/// The byte count that is reported for a size of `bytes`: sizes that do not
/// fit the machine word are reported as the largest word.
pub open spec fn saturate(bytes: nat) -> usize {
    if bytes > usize::MAX {
        usize::MAX
    } else {
        bytes as usize
    }
}

/// `value` can be found to own `bytes` on the heap by a measurement that
/// starts knowing `before` and ends knowing `after`.
pub open spec fn measured<T: GetSize>(value: &T, before: Visited, bytes: nat, after: Visited) -> bool {
    value.heap_outcome(before, bytes, after) && before.within(after)
}

/// `value` can be found to occupy `bytes` in total: its size in place plus
/// what it owns on the heap.
pub open spec fn sized<T: GetSize>(value: &T, before: Visited, bytes: nat, after: Visited) -> bool {
    exists|heap: nat| #[trigger] measured(value, before, heap, after) && bytes == size_of::<T>() + heap
}

/// A value that owns nothing on the heap and never consults the tracker.
pub open spec fn plain<T: GetSize>(value: &T) -> bool {
    forall|before: Visited, bytes: nat, after: Visited| #[trigger]
        value.heap_outcome(before, bytes, after) <==> bytes == 0 && after == before
}

/// Names the point between two measurements: `sum` bytes have been found and
/// the tracker knows `mid`.
pub open spec fn between(sum: nat, mid: Visited) -> bool {
    true
}

/// The outcome of measuring `count` parts one after the other, each starting
/// with what the one before it left in the tracker: `bytes` is the sum of the
/// parts' sizes. `part(i, before, bytes, after)` says what measuring part `i`
/// can yield.
pub open spec fn chain(
    count: nat,
    part: spec_fn(int, Visited, nat, Visited) -> bool,
    before: Visited,
    bytes: nat,
    after: Visited,
) -> bool
    decreases count,
{
    if count == 0 {
        bytes == 0 && after == before
    } else {
        exists|sum: nat, mid: Visited| #[trigger]
            between(sum, mid) && chain((count - 1) as nat, part, before, sum, mid) && sum <= bytes
                && part(
                count - 1,
                mid,
                (bytes - sum) as nat,
                after,
            )
    }
}

/// A chain of `count` parts that found `sum` bytes is extended by part
/// `count`, which found `bytes`.
pub proof fn lemma_chain_extend(
    count: nat,
    part: spec_fn(int, Visited, nat, Visited) -> bool,
    before: Visited,
    sum: nat,
    mid: Visited,
    bytes: nat,
    after: Visited,
)
    requires
        chain(count, part, before, sum, mid),
        part(count as int, mid, bytes, after),
    ensures
        chain(count + 1, part, before, sum + bytes, after),
{
    assert((sum + bytes - sum) as nat == bytes);
    assert((count + 1 - 1) as nat == count);
    assert(between(sum, mid));
}

/// The elements of a container are measured in order, each in full: its size
/// in place plus what it owns on the heap.
pub open spec fn elements_outcome<T: GetSize>(
    items: Seq<T>,
    before: Visited,
    bytes: nat,
    after: Visited,
) -> bool {
    chain(
        items.len(),
        |i: int, b: Visited, n: nat, a: Visited| sized(&items[i], b, n, a),
        before,
        bytes,
        after,
    )
}

/// The slots of a buffer with room for `capacity` items that `length` items
/// leave unused.
pub open spec fn spare(capacity: nat, length: nat) -> nat {
    if capacity >= length {
        (capacity - length) as nat
    } else {
        0
    }
}

/// The heap size of a sequence container that holds `items` in a buffer with
/// room for `capacity` of them: every element in full, and the size in place
/// of an element for every unused slot.
pub open spec fn sequence_outcome<T: GetSize>(
    items: Seq<T>,
    capacity: nat,
    before: Visited,
    bytes: nat,
    after: Visited,
) -> bool {
    exists|contents: nat| #[trigger]
        elements_outcome(items, before, contents, after) && bytes == contents + spare(
            capacity,
            items.len(),
        ) * size_of::<T>()
}

/// The elements of a fixed-size array are measured in order, each for what it
/// owns on the heap: the array's size in place holds the elements' sizes in
/// place.
pub open spec fn heaps_outcome<T: GetSize>(
    items: Seq<T>,
    before: Visited,
    bytes: nat,
    after: Visited,
) -> bool {
    chain(
        items.len(),
        |i: int, b: Visited, n: nat, a: Visited| measured(&items[i], b, n, a),
        before,
        bytes,
        after,
    )
}

/// What measuring one entry of a map can yield: the key in full, then the
/// value in full.
pub open spec fn entry_outcome<K: GetSize, V: GetSize>(
    key: &K,
    value: &V,
    before: Visited,
    bytes: nat,
    after: Visited,
) -> bool {
    exists|first: nat, mid: Visited| #[trigger]
        between(first, mid) && sized(key, before, first, mid) && first <= bytes && sized(
            value,
            mid,
            (bytes - first) as nat,
            after,
        )
}

/// The entries of a map are measured in order.
pub open spec fn entries_outcome<K: GetSize, V: GetSize>(
    entries: Seq<(K, V)>,
    before: Visited,
    bytes: nat,
    after: Visited,
) -> bool {
    chain(
        entries.len(),
        |i: int, b: Visited, n: nat, a: Visited| entry_outcome(&entries[i].0, &entries[i].1, b, n, a),
        before,
        bytes,
        after,
    )
}

/// The heap size of a map that holds `entries` in a table with room for
/// `capacity` of them: every key and value in full, and the sizes in place of
/// a key and of a value for every unused slot.
pub open spec fn map_outcome<K: GetSize, V: GetSize>(
    entries: Seq<(K, V)>,
    capacity: nat,
    before: Visited,
    bytes: nat,
    after: Visited,
) -> bool {
    exists|contents: nat| #[trigger]
        entries_outcome(entries, before, contents, after) && bytes == contents + spare(
            capacity,
            entries.len(),
        ) * size_of::<K>() + spare(capacity, entries.len()) * size_of::<V>()
}

/// The first `count` elements of a container whose elements own nothing on
/// the heap are found to take their sizes in place, and measuring them leaves
/// the tracker as it was.
pub proof fn lemma_plain_prefix<T: GetSize>(
    items: Seq<T>,
    count: nat,
    before: Visited,
    bytes: nat,
    after: Visited,
)
    requires
        count <= items.len(),
        forall|i: int| 0 <= i < items.len() ==> plain(&#[trigger] items[i]),
        chain(
            count,
            |i: int, b: Visited, n: nat, a: Visited| sized(&items[i], b, n, a),
            before,
            bytes,
            after,
        ),
    ensures
        bytes == count * size_of::<T>(),
        after == before,
    decreases count,
{
    let part = |i: int, b: Visited, n: nat, a: Visited| sized(&items[i], b, n, a);
    if count > 0 {
        let (sum, mid) = choose|sum: nat, mid: Visited| #[trigger]
            between(sum, mid) && chain((count - 1) as nat, part, before, sum, mid) && sum <= bytes
                && part(count - 1, mid, (bytes - sum) as nat, after);
        lemma_plain_prefix(items, (count - 1) as nat, before, sum, mid);
        assert(plain(&items[count - 1]));
        assert(sized(&items[count - 1], mid, (bytes - sum) as nat, after));
        assert(count * size_of::<T>() == (count - 1) * size_of::<T>() + size_of::<T>())
            by (nonlinear_arith);
    } else {
        assert(count * size_of::<T>() == 0) by (nonlinear_arith)
            requires
                count == 0,
        ;
    }
}

/// The heap size of a sequence container whose elements own nothing on the
/// heap is the size of its buffer: the size in place of an element for every
/// slot, used or unused.
pub proof fn lemma_plain_sequence<T: GetSize>(
    items: Seq<T>,
    capacity: nat,
    before: Visited,
    bytes: nat,
    after: Visited,
)
    requires
        forall|i: int| 0 <= i < items.len() ==> plain(&#[trigger] items[i]),
        capacity >= items.len(),
        sequence_outcome(items, capacity, before, bytes, after),
    ensures
        bytes == capacity * size_of::<T>(),
        after == before,
{
    let contents = choose|contents: nat| #[trigger]
        elements_outcome(items, before, contents, after) && bytes == contents + spare(
            capacity,
            items.len(),
        ) * size_of::<T>();
    lemma_plain_prefix(items, items.len(), before, contents, after);
    assert(items.len() * size_of::<T>() + (capacity - items.len()) * size_of::<T>() == capacity
        * size_of::<T>()) by (nonlinear_arith);
}

/// Whatever a measurement finds, the total size is the size in place plus
/// the heap size that the same measurement finds.
pub proof fn lemma_total_is_stack_plus_heap<T: GetSize>(
    value: &T,
    before: Visited,
    bytes: nat,
    after: Visited,
)
    ensures
        sized(value, before, bytes, after) <==> bytes >= size_of::<T>() && measured(
            value,
            before,
            (bytes - size_of::<T>()) as nat,
            after,
        ),
{
    if sized(value, before, bytes, after) {
        let heap = choose|heap: nat| #[trigger]
            measured(value, before, heap, after) && bytes == size_of::<T>() + heap;
        assert((bytes - size_of::<T>()) as nat == heap);
    }
    if bytes >= size_of::<T>() && measured(
        value,
        before,
        (bytes - size_of::<T>()) as nat,
        after,
    ) {
        assert(bytes == size_of::<T>() + (bytes - size_of::<T>()) as nat);
    }
}

/// Determine the size in bytes an object occupies inside RAM.
pub trait GetSize: Sized {
    /// The heap sizes that measuring this value can yield. A value that is
    /// given no rule of its own owns nothing on the heap.
    open spec fn heap_outcome(&self, before: Visited, bytes: nat, after: Visited) -> bool {
        bytes == 0 && after == before
    }

    /// Determines how many bytes this object occupies inside the stack: the
    /// size of its type's native representation.
    fn get_stack_size() -> (n: usize)
        ensures
            n == size_of::<Self>(),
    {
        std::mem::size_of::<Self>()
    }

    /// Determines how many bytes this object occupies inside the heap.
    fn get_heap_size<Tr: GetSizeTracker>(&self, tracker: &mut Tr) -> (n: usize)
        ensures
            old(tracker).visited().within(final(tracker).visited()),
            exists|bytes: nat| #[trigger]
                self.heap_outcome(old(tracker).visited(), bytes, final(tracker).visited()) && n
                    == saturate(bytes),
    ;

    /// Determines the total size of the object: always the stack size plus the
    /// heap size.
    fn get_size<Tr: GetSizeTracker>(&self, tracker: &mut Tr) -> (n: usize)
        ensures
            old(tracker).visited().within(final(tracker).visited()),
            exists|bytes: nat| #[trigger]
                self.heap_outcome(old(tracker).visited(), bytes, final(tracker).visited()) && n
                    == saturate(size_of::<Self>() + bytes),
    {
        let ghost before = tracker.visited();
        let heap = self.get_heap_size(tracker);
        proof {
            let bytes = choose|bytes: nat| #[trigger]
                self.heap_outcome(before, bytes, tracker.visited()) && heap == saturate(bytes);
            assert(self.heap_outcome(before, bytes, tracker.visited()));
        }
        Self::get_stack_size().saturating_add(heap)
    }
}

} // verus!
