//! Sizes of the standard containers.

use crate::size::{
    between, chain, elements_outcome, entries_outcome, entry_outcome, heaps_outcome,
    lemma_chain_extend, map_outcome, measured, saturate, sequence_outcome, sized, spare, GetSize,
};
use crate::tracker::{GetSizeTracker, Visited};
use std::collections::{BTreeMap, BTreeSet, HashMap, HashSet, VecDeque};
use vstd::layout::size_of;
use vstd::prelude::*;
use vstd::std_specs::btree::key_obeys_cmp_spec;
use vstd::std_specs::hash::{builds_valid_hashers, obeys_key_model};
use vstd::std_specs::iter::IteratorSpec;

verus! {

/// The number of elements that the vector's buffer has room for. Calls
/// `Vec::capacity`.
#[verifier::external_body]
pub(crate) fn vec_capacity<T>(vec: &Vec<T>) -> (capacity: usize) {
    vec.capacity()
}

/// The number of elements that the deque's buffer has room for. Calls
/// `VecDeque::capacity`.
#[verifier::external_body]
fn deque_capacity<T>(deque: &VecDeque<T>) -> (capacity: usize) {
    deque.capacity()
}

/// The number of elements that the set's table has room for. Calls
/// `HashSet::capacity`.
#[verifier::external_body]
fn hash_set_capacity<T, S>(set: &HashSet<T, S>) -> (capacity: usize) {
    set.capacity()
}

/// The number of entries that the map's table has room for. Calls
/// `HashMap::capacity`.
#[verifier::external_body]
fn hash_map_capacity<K, V, S>(map: &HashMap<K, V, S>) -> (capacity: usize) {
    map.capacity()
}

/// `items` holds every element of `set`, each once.
pub open spec fn lists<T>(items: Seq<T>, set: Set<T>) -> bool {
    items.no_duplicates() && items.to_set() == set
}

/// `entries` holds every entry of `map`, each once.
pub open spec fn lists_entries<K, V>(entries: Seq<(K, V)>, map: Map<K, V>) -> bool {
    entries.no_duplicates() && entries.to_set() == map.kv_pairs()
}

/// Advances a walk by one item: the first of the items that are still to
/// come, or nothing at the end.
fn next_item<I: Iterator>(walk: &mut I) -> (item: Option<I::Item>)
    ensures
        (*final(walk)).obeys_prophetic_iter_laws() == (*old(walk)).obeys_prophetic_iter_laws(),
        (*old(walk)).obeys_prophetic_iter_laws() ==> if (*old(walk)).remaining().len() > 0 {
            (*final(walk)).remaining() == (*old(walk)).remaining().drop_first() && item == Some(
                (*old(walk)).remaining()[0],
            )
        } else {
            (*final(walk)).remaining() == (*old(walk)).remaining() && item is None
        },
{
    walk.next()
}

/// The elements of the set in the order in which it is walked, one step for
/// each element that the set counts. Where keys hash and compare as the set
/// expects, they are the elements of the set's view, each once.
fn hash_set_items<T, S>(set: &HashSet<T, S>) -> (items: Vec<&T>)
    ensures
        obeys_key_model::<T>() && builds_valid_hashers::<S>() ==> lists(referents(items@), set@),
{
    broadcast use vstd::std_specs::hash::group_hash_axioms;

    let mut walk = set.iter();
    let ghost all = walk.remaining();
    let ghost modelled = obeys_key_model::<T>() && builds_valid_hashers::<S>();
    let count = set.len();
    let mut items: Vec<&T> = Vec::new();
    for step in 0..count
        invariant
            walk.obeys_prophetic_iter_laws(),
            all == items@ + walk.remaining(),
            modelled ==> all.len() == count && items@.len() == step,
    {
        let ghost sofar = items@;
        let ghost rest = walk.remaining();
        if let Some(item) = next_item(&mut walk) {
            items.push(item);
            assert(sofar.push(item) + rest.drop_first() =~= sofar + rest);
        }
    }
    proof {
        if modelled {
            assert(items@ =~= all);
            assert(referents(items@) =~= all.unref());
        }
    }
    items
}

/// The entries of the map in the order in which it is walked, one step for
/// each entry that the map counts. Where keys hash and compare as the map
/// expects, they are the entries of the map's view, each once.
fn hash_map_entries<K, V, S>(map: &HashMap<K, V, S>) -> (entries: Vec<(&K, &V)>)
    ensures
        obeys_key_model::<K>() && builds_valid_hashers::<S>() ==> lists_entries(
            referent_entries(entries@),
            map@,
        ),
{
    broadcast use vstd::std_specs::hash::group_hash_axioms;

    let mut walk = map.iter();
    let ghost all = walk.remaining();
    let ghost modelled = obeys_key_model::<K>() && builds_valid_hashers::<S>();
    let count = map.len();
    let mut entries: Vec<(&K, &V)> = Vec::new();
    for step in 0..count
        invariant
            walk.obeys_prophetic_iter_laws(),
            all == entries@ + walk.remaining(),
            modelled ==> all.len() == count && entries@.len() == step,
    {
        let ghost sofar = entries@;
        let ghost rest = walk.remaining();
        if let Some(entry) = next_item(&mut walk) {
            entries.push(entry);
            assert(sofar.push(entry) + rest.drop_first() =~= sofar + rest);
        }
    }
    proof {
        if modelled {
            assert(entries@ =~= all);
            assert(referent_entries(entries@) =~= all.unref());
        }
    }
    entries
}

/// The elements of the set in the order in which it is walked, one step for
/// each element that the set counts. Where the elements are ordered as the
/// set expects, they are the elements of the set's view, each once.
fn tree_set_items<T>(set: &BTreeSet<T>) -> (items: Vec<&T>)
    ensures
        key_obeys_cmp_spec::<T>() ==> lists(referents(items@), set@),
{
    broadcast use vstd::std_specs::btree::group_btree_axioms;

    let mut walk = set.iter();
    let ghost all = walk.remaining();
    let ghost modelled = key_obeys_cmp_spec::<T>();
    let count = set.len();
    let mut items: Vec<&T> = Vec::new();
    for step in 0..count
        invariant
            walk.obeys_prophetic_iter_laws(),
            all == items@ + walk.remaining(),
            modelled ==> all.len() == count && items@.len() == step,
    {
        let ghost sofar = items@;
        let ghost rest = walk.remaining();
        if let Some(item) = next_item(&mut walk) {
            items.push(item);
            assert(sofar.push(item) + rest.drop_first() =~= sofar + rest);
        }
    }
    proof {
        if modelled {
            assert(items@ =~= all);
            assert(referents(items@) =~= all.unref());
        }
    }
    items
}

/// The entries of the map in the order in which it is walked, one step for
/// each entry that the map counts. Where the keys are ordered as the map
/// expects, they are the entries of the map's view, each once.
fn tree_map_entries<K, V>(map: &BTreeMap<K, V>) -> (entries: Vec<(&K, &V)>)
    ensures
        key_obeys_cmp_spec::<K>() ==> lists_entries(referent_entries(entries@), map@),
{
    broadcast use vstd::std_specs::btree::group_btree_axioms;

    let mut walk = map.iter();
    let ghost all = walk.remaining();
    let ghost modelled = key_obeys_cmp_spec::<K>();
    let count = map.len();
    let mut entries: Vec<(&K, &V)> = Vec::new();
    for step in 0..count
        invariant
            walk.obeys_prophetic_iter_laws(),
            all == entries@ + walk.remaining(),
            modelled ==> all.len() == count && entries@.len() == step,
    {
        let ghost sofar = entries@;
        let ghost rest = walk.remaining();
        if let Some(entry) = next_item(&mut walk) {
            entries.push(entry);
            assert(sofar.push(entry) + rest.drop_first() =~= sofar + rest);
        }
    }
    proof {
        if modelled {
            assert(entries@ =~= all);
            assert(referent_entries(entries@) =~= all.unref());
        }
    }
    entries
}

/// The values that a list of references refers to.
pub open spec fn referents<T>(items: Seq<&T>) -> Seq<T> {
    items.map_values(|item: &T| *item)
}

/// The entries that a list of pairs of references refers to.
pub open spec fn referent_entries<K, V>(entries: Seq<(&K, &V)>) -> Seq<(K, V)> {
    entries.map_values(|entry: (&K, &V)| (*entry.0, *entry.1))
}

/// Measures `items` in order, each in full, and adds the sizes up.
pub fn elements_size<T: GetSize, Tr: GetSizeTracker>(items: &[T], tracker: &mut Tr) -> (n: usize)
    ensures
        old(tracker).visited().within(final(tracker).visited()),
        exists|bytes: nat| #[trigger]
            elements_outcome(items@, old(tracker).visited(), bytes, final(tracker).visited()) && n
                == saturate(bytes),
{
    let mut total: usize = 0;
    let ghost start = tracker.visited();
    let ghost mut sum: nat = 0;
    let ghost part = |i: int, b: Visited, n: nat, a: Visited| sized(&items@[i], b, n, a);
    for index in 0..items.len()
        invariant
            start.within(tracker.visited()),
            chain(index as nat, part, start, sum, tracker.visited()),
            total == saturate(sum),
            part == |i: int, b: Visited, n: nat, a: Visited| sized(&items@[i], b, n, a),
    {
        let ghost mid = tracker.visited();
        let size = items[index].get_size(tracker);
        proof {
            let heap = choose|heap: nat| #[trigger]
                items@[index as int].heap_outcome(mid, heap, tracker.visited()) && size == saturate(
                    size_of::<T>() + heap,
                );
            assert(measured(&items@[index as int], mid, heap, tracker.visited()));
            assert(part(index as int, mid, size_of::<T>() + heap, tracker.visited()));
            lemma_chain_extend(
                index as nat,
                part,
                start,
                sum,
                mid,
                size_of::<T>() + heap,
                tracker.visited(),
            );
            sum = sum + size_of::<T>() + heap;
        }
        total = total.saturating_add(size);
    }
    proof {
        assert(elements_outcome(items@, start, sum, tracker.visited()));
    }
    total
}

/// Measures the values that `items` refer to in order, each in full, and adds
/// the sizes up.
pub fn referents_size<T: GetSize, Tr: GetSizeTracker>(items: &[&T], tracker: &mut Tr) -> (n: usize)
    ensures
        old(tracker).visited().within(final(tracker).visited()),
        exists|bytes: nat| #[trigger]
            elements_outcome(
                referents(items@),
                old(tracker).visited(),
                bytes,
                final(tracker).visited(),
            ) && n == saturate(bytes),
{
    let mut total: usize = 0;
    let ghost start = tracker.visited();
    let ghost mut sum: nat = 0;
    let ghost values = referents(items@);
    let ghost part = |i: int, b: Visited, n: nat, a: Visited| sized(&values[i], b, n, a);
    for index in 0..items.len()
        invariant
            values == referents(items@),
            start.within(tracker.visited()),
            chain(index as nat, part, start, sum, tracker.visited()),
            total == saturate(sum),
            part == |i: int, b: Visited, n: nat, a: Visited| sized(&values[i], b, n, a),
    {
        let ghost mid = tracker.visited();
        let size = items[index].get_size(tracker);
        proof {
            let heap = choose|heap: nat| #[trigger]
                values[index as int].heap_outcome(mid, heap, tracker.visited()) && size == saturate(
                    size_of::<T>() + heap,
                );
            assert(measured(&values[index as int], mid, heap, tracker.visited()));
            assert(part(index as int, mid, size_of::<T>() + heap, tracker.visited()));
            lemma_chain_extend(
                index as nat,
                part,
                start,
                sum,
                mid,
                size_of::<T>() + heap,
                tracker.visited(),
            );
            sum = sum + size_of::<T>() + heap;
        }
        total = total.saturating_add(size);
    }
    proof {
        assert(elements_outcome(values, start, sum, tracker.visited()));
    }
    total
}

/// Measures `items` in order, each for what it owns on the heap, and adds the
/// sizes up.
pub fn heaps_size<T: GetSize, Tr: GetSizeTracker>(items: &[T], tracker: &mut Tr) -> (n: usize)
    ensures
        old(tracker).visited().within(final(tracker).visited()),
        exists|bytes: nat| #[trigger]
            heaps_outcome(items@, old(tracker).visited(), bytes, final(tracker).visited()) && n
                == saturate(bytes),
{
    let mut total: usize = 0;
    let ghost start = tracker.visited();
    let ghost mut sum: nat = 0;
    let ghost part = |i: int, b: Visited, n: nat, a: Visited| measured(&items@[i], b, n, a);
    for index in 0..items.len()
        invariant
            start.within(tracker.visited()),
            chain(index as nat, part, start, sum, tracker.visited()),
            total == saturate(sum),
            part == |i: int, b: Visited, n: nat, a: Visited| measured(&items@[i], b, n, a),
    {
        let ghost mid = tracker.visited();
        // The array's stack size already accounts for the stack size of its elements.
        let size = items[index].get_heap_size(tracker);
        proof {
            let heap = choose|heap: nat| #[trigger]
                items@[index as int].heap_outcome(mid, heap, tracker.visited()) && size == saturate(
                    heap,
                );
            assert(part(index as int, mid, heap, tracker.visited()));
            lemma_chain_extend(index as nat, part, start, sum, mid, heap, tracker.visited());
            sum = sum + heap;
        }
        total = total.saturating_add(size);
    }
    proof {
        assert(heaps_outcome(items@, start, sum, tracker.visited()));
    }
    total
}

/// The size in place of `count` values of one type, each of `size` bytes.
pub(crate) fn slack(count: usize, size: usize) -> (n: usize)
    ensures
        n == saturate((count * size) as nat),
{
    assert(count * size >= 0) by (nonlinear_arith)
        requires
            count >= 0,
            size >= 0,
    ;
    match count.checked_mul(size) {
        Some(product) => product,
        None => usize::MAX,
    }
}

/// Measures a sequence container that holds `items` in a buffer with room for
/// `capacity` of them.
pub fn sequence_size<T: GetSize, Tr: GetSizeTracker>(
    items: &[T],
    capacity: usize,
    tracker: &mut Tr,
) -> (n: usize)
    ensures
        old(tracker).visited().within(final(tracker).visited()),
        exists|bytes: nat| #[trigger]
            sequence_outcome(
                items@,
                capacity as nat,
                old(tracker).visited(),
                bytes,
                final(tracker).visited(),
            ) && n == saturate(bytes),
{
    let ghost before = tracker.visited();
    let mut total = elements_size(items, tracker);
    let additional: usize = capacity.saturating_sub(items.len());
    proof {
        let contents = choose|contents: nat| #[trigger]
            elements_outcome(items@, before, contents, tracker.visited()) && total == saturate(
                contents,
            );
        assert(additional == spare(capacity as nat, items@.len()));
        assert(additional * size_of::<T>() >= 0) by (nonlinear_arith)
            requires
                additional >= 0,
                size_of::<T>() >= 0,
        ;
        assert(sequence_outcome(
            items@,
            capacity as nat,
            before,
            contents + spare(capacity as nat, items@.len()) * size_of::<T>(),
            tracker.visited(),
        ));
    }
    total = total.saturating_add(slack(additional, T::get_stack_size()));
    total
}

impl<T: GetSize> GetSize for Vec<T> {
    /// The elements in full, and the unused slots of a buffer with some
    /// room in place. That the room is that of this vector's buffer is not
    /// stated.
    open spec fn heap_outcome(&self, before: Visited, bytes: nat, after: Visited) -> bool {
        exists|capacity: usize| #[trigger]
            sequence_outcome(self@, capacity as nat, before, bytes, after)
    }

    fn get_heap_size<Tr: GetSizeTracker>(&self, tracker: &mut Tr) -> (n: usize) {
        let ghost before = tracker.visited();
        let capacity = vec_capacity(self);
        let size = sequence_size(self.as_slice(), capacity, tracker);
        proof {
            let bytes = choose|bytes: nat| #[trigger]
                sequence_outcome(self@, capacity as nat, before, bytes, tracker.visited()) && size
                    == saturate(bytes);
            assert(sequence_outcome(self@, capacity as nat, before, bytes, tracker.visited()));
            assert(self.heap_outcome(before, bytes, tracker.visited()));
        }
        size
    }
}

/// Measures a sequence container that holds the values that `items` refer
/// to, in this order, in room for `capacity` of them.
pub fn referents_sequence_size<T: GetSize, Tr: GetSizeTracker>(
    items: &[&T],
    capacity: usize,
    tracker: &mut Tr,
) -> (n: usize)
    ensures
        old(tracker).visited().within(final(tracker).visited()),
        exists|bytes: nat| #[trigger]
            sequence_outcome(
                referents(items@),
                capacity as nat,
                old(tracker).visited(),
                bytes,
                final(tracker).visited(),
            ) && n == saturate(bytes),
{
    let ghost before = tracker.visited();
    let mut total = referents_size(items, tracker);
    let additional: usize = capacity.saturating_sub(items.len());
    proof {
        let values = referents(items@);
        let contents = choose|contents: nat| #[trigger]
            elements_outcome(values, before, contents, tracker.visited()) && total == saturate(
                contents,
            );
        assert(additional == spare(capacity as nat, values.len()));
        assert(additional * size_of::<T>() >= 0) by (nonlinear_arith)
            requires
                additional >= 0,
                size_of::<T>() >= 0,
        ;
        assert(sequence_outcome(
            values,
            capacity as nat,
            before,
            contents + spare(capacity as nat, values.len()) * size_of::<T>(),
            tracker.visited(),
        ));
    }
    total = total.saturating_add(slack(additional, T::get_stack_size()));
    total
}

/// Measures the entries that `entries` refer to in order, key and value in
/// full, and adds the sizes up.
pub fn entries_size<K: GetSize, V: GetSize, Tr: GetSizeTracker>(
    entries: &[(&K, &V)],
    tracker: &mut Tr,
) -> (n: usize)
    ensures
        old(tracker).visited().within(final(tracker).visited()),
        exists|bytes: nat| #[trigger]
            entries_outcome(
                referent_entries(entries@),
                old(tracker).visited(),
                bytes,
                final(tracker).visited(),
            ) && n == saturate(bytes),
{
    let mut total: usize = 0;
    let ghost start = tracker.visited();
    let ghost mut sum: nat = 0;
    let ghost values = referent_entries(entries@);
    let ghost part = |i: int, b: Visited, n: nat, a: Visited|
        entry_outcome(&values[i].0, &values[i].1, b, n, a);
    for index in 0..entries.len()
        invariant
            values == referent_entries(entries@),
            start.within(tracker.visited()),
            chain(index as nat, part, start, sum, tracker.visited()),
            total == saturate(sum),
            part == |i: int, b: Visited, n: nat, a: Visited|
                entry_outcome(&values[i].0, &values[i].1, b, n, a),
    {
        let ghost first = tracker.visited();
        let (key, value) = entries[index];
        // We assume that keys and values are held inside the heap.
        let key_size = key.get_size(tracker);
        let ghost second = tracker.visited();
        let value_size = value.get_size(tracker);
        proof {
            let key_heap = choose|heap: nat| #[trigger]
                key.heap_outcome(first, heap, second) && key_size == saturate(
                    size_of::<K>() + heap,
                );
            let value_heap = choose|heap: nat| #[trigger]
                value.heap_outcome(second, heap, tracker.visited()) && value_size == saturate(
                    size_of::<V>() + heap,
                );
            assert(measured(key, first, key_heap, second));
            assert(measured(value, second, value_heap, tracker.visited()));
            let key_bytes = size_of::<K>() + key_heap;
            let value_bytes = size_of::<V>() + value_heap;
            assert(sized(key, first, key_bytes, second));
            assert(sized(value, second, value_bytes, tracker.visited()));
            assert(between(key_bytes, second));
            assert(((key_bytes + value_bytes) - key_bytes) as nat == value_bytes);
            assert(entry_outcome(key, value, first, key_bytes + value_bytes, tracker.visited()));
            assert(part(index as int, first, key_bytes + value_bytes, tracker.visited()));
            lemma_chain_extend(
                index as nat,
                part,
                start,
                sum,
                first,
                key_bytes + value_bytes,
                tracker.visited(),
            );
            sum = sum + key_bytes + value_bytes;
        }
        total = total.saturating_add(key_size);
        total = total.saturating_add(value_size);
    }
    proof {
        assert(entries_outcome(values, start, sum, tracker.visited()));
    }
    total
}

/// Measures a map that holds the entries that `entries` refer to, in this
/// order, in room for `capacity` of them.
pub fn map_size<K: GetSize, V: GetSize, Tr: GetSizeTracker>(
    entries: &[(&K, &V)],
    capacity: usize,
    tracker: &mut Tr,
) -> (n: usize)
    ensures
        old(tracker).visited().within(final(tracker).visited()),
        exists|bytes: nat| #[trigger]
            map_outcome(
                referent_entries(entries@),
                capacity as nat,
                old(tracker).visited(),
                bytes,
                final(tracker).visited(),
            ) && n == saturate(bytes),
{
    let ghost before = tracker.visited();
    let mut total = entries_size(entries, tracker);
    let additional: usize = capacity.saturating_sub(entries.len());
    proof {
        let values = referent_entries(entries@);
        let contents = choose|contents: nat| #[trigger]
            entries_outcome(values, before, contents, tracker.visited()) && total == saturate(
                contents,
            );
        assert(additional == spare(capacity as nat, values.len()));
        assert(additional * size_of::<K>() >= 0 && additional * size_of::<V>() >= 0)
            by (nonlinear_arith)
            requires
                additional >= 0,
                size_of::<K>() >= 0,
                size_of::<V>() >= 0,
        ;
        assert(map_outcome(
            values,
            capacity as nat,
            before,
            contents + spare(capacity as nat, values.len()) * size_of::<K>() + spare(
                capacity as nat,
                values.len(),
            ) * size_of::<V>(),
            tracker.visited(),
        ));
    }
    total = total.saturating_add(slack(additional, K::get_stack_size()));
    total = total.saturating_add(slack(additional, V::get_stack_size()));
    total
}

/// The elements of the deque, front to back.
fn deque_items<T>(deque: &VecDeque<T>) -> (items: Vec<&T>)
    ensures
        referents(items@) == deque@,
{
    let mut items: Vec<&T> = Vec::new();
    for index in 0..deque.len()
        invariant
            items@.len() == index,
            forall|i: int| 0 <= i < index ==> *(#[trigger] items@[i]) == deque@[i],
    {
        items.push(&deque[index]);
    }
    assert(referents(items@) =~= deque@);
    items
}

impl<T: GetSize> GetSize for VecDeque<T> {
    /// The elements in full, front to back, and the unused slots of a
    /// buffer with some room in place. That the room is that of this
    /// deque's buffer is not stated.
    open spec fn heap_outcome(&self, before: Visited, bytes: nat, after: Visited) -> bool {
        exists|capacity: usize| #[trigger]
            sequence_outcome(self@, capacity as nat, before, bytes, after)
    }

    fn get_heap_size<Tr: GetSizeTracker>(&self, tracker: &mut Tr) -> (n: usize) {
        let ghost before = tracker.visited();
        let capacity = deque_capacity(self);
        let items = deque_items(self);
        let size = referents_sequence_size(items.as_slice(), capacity, tracker);
        proof {
            let bytes = choose|bytes: nat| #[trigger]
                sequence_outcome(self@, capacity as nat, before, bytes, tracker.visited()) && size
                    == saturate(bytes);
            assert(sequence_outcome(self@, capacity as nat, before, bytes, tracker.visited()));
            assert(self.heap_outcome(before, bytes, tracker.visited()));
        }
        size
    }
}

impl<T: GetSize> GetSize for HashSet<T> {
    /// The heap size of a set with some elements in some order and with some
    /// room: those elements in full, and the unused room in place. Where
    /// keys hash and compare as the set expects, the elements are those of
    /// this set, each once.
    open spec fn heap_outcome(&self, before: Visited, bytes: nat, after: Visited) -> bool {
        exists|items: Seq<T>, capacity: usize| #[trigger]
            sequence_outcome(items, capacity as nat, before, bytes, after) && (obeys_key_model::<
                T,
            >() ==> lists(items, self@))
    }

    fn get_heap_size<Tr: GetSizeTracker>(&self, tracker: &mut Tr) -> (n: usize) {
        broadcast use vstd::std_specs::hash::group_hash_axioms;

        let ghost before = tracker.visited();
        let capacity = hash_set_capacity(self);
        let items = hash_set_items(self);
        let size = referents_sequence_size(items.as_slice(), capacity, tracker);
        proof {
            let bytes = choose|bytes: nat| #[trigger]
                sequence_outcome(
                    referents(items@),
                    capacity as nat,
                    before,
                    bytes,
                    tracker.visited(),
                ) && size == saturate(bytes);
            assert(sequence_outcome(
                referents(items@),
                capacity as nat,
                before,
                bytes,
                tracker.visited(),
            ));
            assert(self.heap_outcome(before, bytes, tracker.visited()));
        }
        size
    }
}

impl<K: GetSize, V: GetSize> GetSize for HashMap<K, V> {
    /// The heap size of a map with some entries in some order and with some
    /// room: those entries in full, and the unused room in place. Where keys
    /// hash and compare as the map expects, the entries are those of this
    /// map, each once.
    open spec fn heap_outcome(&self, before: Visited, bytes: nat, after: Visited) -> bool {
        exists|entries: Seq<(K, V)>, capacity: usize| #[trigger]
            map_outcome(entries, capacity as nat, before, bytes, after) && (obeys_key_model::<K>()
                ==> lists_entries(entries, self@))
    }

    fn get_heap_size<Tr: GetSizeTracker>(&self, tracker: &mut Tr) -> (n: usize) {
        broadcast use vstd::std_specs::hash::group_hash_axioms;

        let ghost before = tracker.visited();
        let capacity = hash_map_capacity(self);
        let entries = hash_map_entries(self);
        let size = map_size(entries.as_slice(), capacity, tracker);
        proof {
            let bytes = choose|bytes: nat| #[trigger]
                map_outcome(
                    referent_entries(entries@),
                    capacity as nat,
                    before,
                    bytes,
                    tracker.visited(),
                ) && size == saturate(bytes);
            assert(map_outcome(
                referent_entries(entries@),
                capacity as nat,
                before,
                bytes,
                tracker.visited(),
            ));
            assert(self.heap_outcome(before, bytes, tracker.visited()));
        }
        size
    }
}

impl<T: GetSize> GetSize for BTreeSet<T> {
    /// The heap size of some elements in some order, each in full. Where the
    /// elements are ordered as the set expects, they are those of this set,
    /// each once.
    open spec fn heap_outcome(&self, before: Visited, bytes: nat, after: Visited) -> bool {
        exists|items: Seq<T>| #[trigger]
            elements_outcome(items, before, bytes, after) && (key_obeys_cmp_spec::<T>() ==> lists(
                items,
                self@,
            ))
    }

    fn get_heap_size<Tr: GetSizeTracker>(&self, tracker: &mut Tr) -> (n: usize) {
        let ghost before = tracker.visited();
        let items = tree_set_items(self);
        let size = referents_size(items.as_slice(), tracker);
        proof {
            let bytes = choose|bytes: nat| #[trigger]
                elements_outcome(referents(items@), before, bytes, tracker.visited()) && size
                    == saturate(bytes);
            assert(elements_outcome(referents(items@), before, bytes, tracker.visited()));
            assert(self.heap_outcome(before, bytes, tracker.visited()));
        }
        size
    }
}

impl<K: GetSize, V: GetSize> GetSize for BTreeMap<K, V> {
    /// The heap size of some entries in some order, each in full. Where the
    /// keys are ordered as the map expects, they are those of this map, each
    /// once.
    open spec fn heap_outcome(&self, before: Visited, bytes: nat, after: Visited) -> bool {
        exists|entries: Seq<(K, V)>| #[trigger]
            entries_outcome(entries, before, bytes, after) && (key_obeys_cmp_spec::<K>()
                ==> lists_entries(entries, self@))
    }

    fn get_heap_size<Tr: GetSizeTracker>(&self, tracker: &mut Tr) -> (n: usize) {
        let ghost before = tracker.visited();
        let entries = tree_map_entries(self);
        let size = entries_size(entries.as_slice(), tracker);
        proof {
            let bytes = choose|bytes: nat| #[trigger]
                entries_outcome(referent_entries(entries@), before, bytes, tracker.visited())
                    && size == saturate(bytes);
            assert(entries_outcome(referent_entries(entries@), before, bytes, tracker.visited()));
            assert(self.heap_outcome(before, bytes, tracker.visited()));
        }
        size
    }
}

impl<T: GetSize, const SIZE: usize> GetSize for [T; SIZE] {
    open spec fn heap_outcome(&self, before: Visited, bytes: nat, after: Visited) -> bool {
        heaps_outcome(self@, before, bytes, after)
    }

    fn get_heap_size<Tr: GetSizeTracker>(&self, tracker: &mut Tr) -> (n: usize) {
        let ghost before = tracker.visited();
        let size = heaps_size(self.as_slice(), tracker);
        proof {
            let bytes = choose|bytes: nat| #[trigger]
                heaps_outcome(self@, before, bytes, tracker.visited()) && size == saturate(bytes);
            assert(self.heap_outcome(before, bytes, tracker.visited()));
        }
        size
    }
}

impl<T: GetSize> GetSize for Box<[T]> {
    open spec fn heap_outcome(&self, before: Visited, bytes: nat, after: Visited) -> bool {
        elements_outcome(self@, before, bytes, after)
    }

    fn get_heap_size<Tr: GetSizeTracker>(&self, tracker: &mut Tr) -> (n: usize) {
        let ghost before = tracker.visited();
        let size = elements_size(&**self, tracker);
        proof {
            let bytes = choose|bytes: nat| #[trigger]
                elements_outcome(self@, before, bytes, tracker.visited()) && size == saturate(
                    bytes,
                );
            assert(self.heap_outcome(before, bytes, tracker.visited()));
        }
        size
    }
}

} // verus!
