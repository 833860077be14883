//! Trackers remember which heap allocations a measurement has already
//! counted, so that an allocation with several owners is counted once.

use std::collections::{BTreeSet, HashSet};
use vstd::prelude::*;

verus! {

/// What a tracker knows: the addresses it reports as already visited, and
/// whether it adds the addresses it is asked about.
pub struct Visited {
    pub addresses: Set<usize>,
    pub recording: bool,
}

impl Visited {
    /// A recording tracker that has seen nothing.
    pub open spec fn fresh() -> Visited {
        Visited { addresses: Set::empty(), recording: true }
    }

    /// A tracker that never remembers anything.
    pub open spec fn oblivious() -> Visited {
        Visited { addresses: Set::empty(), recording: false }
    }

    /// Whether `address` has not been visited yet.
    pub open spec fn is_new(self, address: usize) -> bool {
        !self.addresses.contains(address)
    }

    /// The knowledge after being asked about `address`.
    pub open spec fn track(self, address: usize) -> Visited {
        if self.recording {
            Visited { addresses: self.addresses.insert(address), recording: true }
        } else {
            self
        }
    }

    /// `later` can be reached from `self` by tracking addresses.
    pub open spec fn within(self, later: Visited) -> bool {
        &&& self.recording == later.recording
        &&& self.addresses.subset_of(later.addresses)
        &&& !self.recording ==> later.addresses == self.addresses
    }
}

/// A bucket of addresses that have already been visited.
pub trait GetSizeTracker {
    /// What the tracker knows. A tracker that is given no model of its own
    /// remembers nothing.
    open spec fn visited(&self) -> Visited {
        Visited::oblivious()
    }

    /// Reports whether `address` is visited for the first time.
    fn track(&mut self, address: usize) -> (first: bool)
        ensures
            first == old(self).visited().is_new(address),
            final(self).visited() == old(self).visited().track(address),
    ;
}

impl GetSizeTracker for BTreeSet<usize> {
    open spec fn visited(&self) -> Visited {
        Visited { addresses: self@, recording: true }
    }

    fn track(&mut self, address: usize) -> (first: bool) {
        broadcast use vstd::laws_cmp::group_laws_cmp;

        self.insert(address)
    }
}

impl GetSizeTracker for HashSet<usize> {
    open spec fn visited(&self) -> Visited {
        Visited { addresses: self@, recording: true }
    }

    fn track(&mut self, address: usize) -> (first: bool) {
        broadcast use vstd::std_specs::hash::group_hash_axioms;

        self.insert(address)
    }
}

/// A tracker that treats every address as new: shared allocations are counted
/// once for each owner that is reached.
pub struct GetSizeNoTracker;

impl GetSizeTracker for GetSizeNoTracker {
    fn track(&mut self, address: usize) -> (first: bool) {
        true
    }
}

/// The tracker of a top-level measurement: it starts empty and remembers
/// every address it is asked about.
pub struct StandardTracker {
    seen: BTreeSet<usize>,
}

impl StandardTracker {
    /// A tracker that has seen nothing.
    pub fn new() -> (tracker: StandardTracker)
        ensures
            tracker.visited() == Visited::fresh(),
    {
        StandardTracker { seen: BTreeSet::new() }
    }
}

impl Default for StandardTracker {
    fn default() -> (tracker: StandardTracker)
        ensures
            tracker.visited() == Visited::fresh(),
    {
        StandardTracker::new()
    }
}

impl GetSizeTracker for StandardTracker {
    closed spec fn visited(&self) -> Visited {
        Visited { addresses: self.seen@, recording: true }
    }

    fn track(&mut self, address: usize) -> (first: bool) {
        broadcast use vstd::laws_cmp::group_laws_cmp;

        self.seen.insert(address)
    }
}

} // verus!
