//! Sizes of the insertion-ordered map and set of `indexmap`.

use crate::containers::{map_size, referent_entries, referents, referents_sequence_size};
use crate::size::{map_outcome, saturate, sequence_outcome, GetSize};
use crate::tracker::{GetSizeTracker, Visited};
use indexmap::{IndexMap, IndexSet};
use vstd::prelude::*;

verus! {

/// A hash map that keeps its entries in the order of insertion,
/// `indexmap::IndexMap`. Nothing is said of what it holds.
#[verifier::external_type_specification]
#[verifier::external_body]
#[verifier::reject_recursive_types(K)]
#[verifier::reject_recursive_types(V)]
#[verifier::reject_recursive_types(S)]
pub struct ExIndexMap<K, V, S>(indexmap::IndexMap<K, V, S>);

/// A hash set that keeps its elements in the order of insertion,
/// `indexmap::IndexSet`. Nothing is said of what it holds.
#[verifier::external_type_specification]
#[verifier::external_body]
#[verifier::reject_recursive_types(T)]
#[verifier::reject_recursive_types(S)]
pub struct ExIndexSet<T, S>(indexmap::IndexSet<T, S>);

/// The entries of the map in their order. Calls `IndexMap::iter`.
#[verifier::external_body]
fn index_map_entries<K, V, S>(map: &IndexMap<K, V, S>) -> (entries: Vec<(&K, &V)>) {
    map.iter().collect()
}

/// The number of entries that the map has room for. Calls
/// `IndexMap::capacity`.
#[verifier::external_body]
fn index_map_capacity<K, V, S>(map: &IndexMap<K, V, S>) -> (capacity: usize) {
    map.capacity()
}

/// The elements of the set in their order. Calls `IndexSet::iter`.
#[verifier::external_body]
fn index_set_items<T, S>(set: &IndexSet<T, S>) -> (items: Vec<&T>) {
    set.iter().collect()
}

/// The number of elements that the set has room for. Calls
/// `IndexSet::capacity`.
#[verifier::external_body]
fn index_set_capacity<T, S>(set: &IndexSet<T, S>) -> (capacity: usize) {
    set.capacity()
}

impl<K: GetSize, V: GetSize> GetSize for IndexMap<K, V> {
    /// The heap size of a map with some entries in some order and with some
    /// room: those entries in full, and the unused room in place. That the
    /// entries and the room are those of this map is not stated.
    open spec fn heap_outcome(&self, before: Visited, bytes: nat, after: Visited) -> bool {
        exists|entries: Seq<(K, V)>, capacity: usize| #[trigger]
            map_outcome(entries, capacity as nat, before, bytes, after)
    }

    fn get_heap_size<Tr: GetSizeTracker>(&self, tracker: &mut Tr) -> (n: usize) {
        let ghost before = tracker.visited();
        let capacity = index_map_capacity(self);
        let entries = index_map_entries(self);
        let size = map_size(entries.as_slice(), capacity, tracker);
        proof {
            let bytes = choose|bytes: nat| #[trigger]
                map_outcome(
                    referent_entries(entries@),
                    capacity as nat,
                    before,
                    bytes,
                    tracker.visited(),
                ) && size == saturate(bytes);
            assert(map_outcome(
                referent_entries(entries@),
                capacity as nat,
                before,
                bytes,
                tracker.visited(),
            ));
            assert(self.heap_outcome(before, bytes, tracker.visited()));
        }
        size
    }
}

impl<T: GetSize> GetSize for IndexSet<T> {
    /// The heap size of a set with some elements in some order and with some
    /// room: those elements in full, and the unused room in place. That the
    /// elements and the room are those of this set is not stated.
    open spec fn heap_outcome(&self, before: Visited, bytes: nat, after: Visited) -> bool {
        exists|items: Seq<T>, capacity: usize| #[trigger]
            sequence_outcome(items, capacity as nat, before, bytes, after)
    }

    fn get_heap_size<Tr: GetSizeTracker>(&self, tracker: &mut Tr) -> (n: usize) {
        let ghost before = tracker.visited();
        let capacity = index_set_capacity(self);
        let items = index_set_items(self);
        let size = referents_sequence_size(items.as_slice(), capacity, tracker);
        proof {
            let bytes = choose|bytes: nat| #[trigger]
                sequence_outcome(
                    referents(items@),
                    capacity as nat,
                    before,
                    bytes,
                    tracker.visited(),
                ) && size == saturate(bytes);
            assert(sequence_outcome(
                referents(items@),
                capacity as nat,
                before,
                bytes,
                tracker.visited(),
            ));
            assert(self.heap_outcome(before, bytes, tracker.visited()));
        }
        size
    }
}

} // verus!
