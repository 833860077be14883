//! Sizes of tuples: the heap sizes of the positions, added up in order. The
//! tuple's size in place holds the sizes in place of its positions.

use crate::size::{chain, lemma_chain_extend, measured, saturate, GetSize};
use crate::tracker::{GetSizeTracker, Visited};
use vstd::prelude::*;

verus! {

/// Adds the heap size of `value`, which is part `count` of the chain `part`,
/// to the `total` of the parts before it.
fn add_position<T: GetSize, Tr: GetSizeTracker>(
    total: usize,
    value: &T,
    tracker: &mut Tr,
    Ghost(count): Ghost<nat>,
    Ghost(part): Ghost<spec_fn(int, Visited, nat, Visited) -> bool>,
    Ghost(start): Ghost<Visited>,
    Ghost(sum): Ghost<nat>,
) -> (next: (usize, Ghost<nat>))
    requires
        chain(count, part, start, sum, old(tracker).visited()),
        total == saturate(sum),
        start.within(old(tracker).visited()),
        forall|b: Visited, n: nat, a: Visited|
            measured(value, b, n, a) ==> #[trigger] part(count as int, b, n, a),
    ensures
        chain(count + 1, part, start, next.1@, final(tracker).visited()),
        next.0 == saturate(next.1@),
        start.within(final(tracker).visited()),
{
    let ghost mid = tracker.visited();
    let size = value.get_heap_size(tracker);
    let ghost heap = choose|heap: nat| #[trigger]
        value.heap_outcome(mid, heap, tracker.visited()) && size == saturate(heap);
    proof {
        assert(measured(value, mid, heap, tracker.visited()));
        lemma_chain_extend(count, part, start, sum, mid, heap, tracker.visited());
    }
    (total.saturating_add(size), Ghost(sum + heap))
}

impl<V1: GetSize> GetSize for (V1,) {
    open spec fn heap_outcome(&self, before: Visited, bytes: nat, after: Visited) -> bool {
        chain(
            1,
            |i: int, b: Visited, n: nat, a: Visited|
                measured(&self.0, b, n, a),
            before,
            bytes,
            after,
        )
    }

    fn get_heap_size<Tr: GetSizeTracker>(&self, tracker: &mut Tr) -> (n: usize) {
        let ghost start = tracker.visited();
        let ghost part = |i: int, b: Visited, n: nat, a: Visited|
            measured(&self.0, b, n, a);
        let total: usize = 0;
        let sum: Ghost<nat> = Ghost(0);
        let (total, sum) = add_position(
            total,
            &self.0,
            tracker,
            Ghost(0),
            Ghost(part),
            Ghost(start),
            sum,
        );
        proof {
            assert(self.heap_outcome(start, sum@, tracker.visited()));
        }
        total
    }
}

impl<V1: GetSize, V2: GetSize> GetSize for (V1, V2) {
    open spec fn heap_outcome(&self, before: Visited, bytes: nat, after: Visited) -> bool {
        chain(
            2,
            |i: int, b: Visited, n: nat, a: Visited|
                if i == 0 {
                    measured(&self.0, b, n, a)
                } else {
                    measured(&self.1, b, n, a)
                },
            before,
            bytes,
            after,
        )
    }

    fn get_heap_size<Tr: GetSizeTracker>(&self, tracker: &mut Tr) -> (n: usize) {
        let ghost start = tracker.visited();
        let ghost part = |i: int, b: Visited, n: nat, a: Visited|
            if i == 0 {
                measured(&self.0, b, n, a)
            } else {
                measured(&self.1, b, n, a)
            };
        let total: usize = 0;
        let sum: Ghost<nat> = Ghost(0);
        let (total, sum) = add_position(
            total,
            &self.0,
            tracker,
            Ghost(0),
            Ghost(part),
            Ghost(start),
            sum,
        );
        let (total, sum) = add_position(
            total,
            &self.1,
            tracker,
            Ghost(1),
            Ghost(part),
            Ghost(start),
            sum,
        );
        proof {
            assert(self.heap_outcome(start, sum@, tracker.visited()));
        }
        total
    }
}

impl<V1: GetSize, V2: GetSize, V3: GetSize> GetSize for (V1, V2, V3) {
    open spec fn heap_outcome(&self, before: Visited, bytes: nat, after: Visited) -> bool {
        chain(
            3,
            |i: int, b: Visited, n: nat, a: Visited|
                if i == 0 {
                    measured(&self.0, b, n, a)
                } else if i == 1 {
                    measured(&self.1, b, n, a)
                } else {
                    measured(&self.2, b, n, a)
                },
            before,
            bytes,
            after,
        )
    }

    fn get_heap_size<Tr: GetSizeTracker>(&self, tracker: &mut Tr) -> (n: usize) {
        let ghost start = tracker.visited();
        let ghost part = |i: int, b: Visited, n: nat, a: Visited|
            if i == 0 {
                measured(&self.0, b, n, a)
            } else if i == 1 {
                measured(&self.1, b, n, a)
            } else {
                measured(&self.2, b, n, a)
            };
        let total: usize = 0;
        let sum: Ghost<nat> = Ghost(0);
        let (total, sum) = add_position(
            total,
            &self.0,
            tracker,
            Ghost(0),
            Ghost(part),
            Ghost(start),
            sum,
        );
        let (total, sum) = add_position(
            total,
            &self.1,
            tracker,
            Ghost(1),
            Ghost(part),
            Ghost(start),
            sum,
        );
        let (total, sum) = add_position(
            total,
            &self.2,
            tracker,
            Ghost(2),
            Ghost(part),
            Ghost(start),
            sum,
        );
        proof {
            assert(self.heap_outcome(start, sum@, tracker.visited()));
        }
        total
    }
}

impl<V1: GetSize, V2: GetSize, V3: GetSize, V4: GetSize> GetSize for (V1, V2, V3, V4) {
    open spec fn heap_outcome(&self, before: Visited, bytes: nat, after: Visited) -> bool {
        chain(
            4,
            |i: int, b: Visited, n: nat, a: Visited|
                if i == 0 {
                    measured(&self.0, b, n, a)
                } else if i == 1 {
                    measured(&self.1, b, n, a)
                } else if i == 2 {
                    measured(&self.2, b, n, a)
                } else {
                    measured(&self.3, b, n, a)
                },
            before,
            bytes,
            after,
        )
    }

    fn get_heap_size<Tr: GetSizeTracker>(&self, tracker: &mut Tr) -> (n: usize) {
        let ghost start = tracker.visited();
        let ghost part = |i: int, b: Visited, n: nat, a: Visited|
            if i == 0 {
                measured(&self.0, b, n, a)
            } else if i == 1 {
                measured(&self.1, b, n, a)
            } else if i == 2 {
                measured(&self.2, b, n, a)
            } else {
                measured(&self.3, b, n, a)
            };
        let total: usize = 0;
        let sum: Ghost<nat> = Ghost(0);
        let (total, sum) = add_position(
            total,
            &self.0,
            tracker,
            Ghost(0),
            Ghost(part),
            Ghost(start),
            sum,
        );
        let (total, sum) = add_position(
            total,
            &self.1,
            tracker,
            Ghost(1),
            Ghost(part),
            Ghost(start),
            sum,
        );
        let (total, sum) = add_position(
            total,
            &self.2,
            tracker,
            Ghost(2),
            Ghost(part),
            Ghost(start),
            sum,
        );
        let (total, sum) = add_position(
            total,
            &self.3,
            tracker,
            Ghost(3),
            Ghost(part),
            Ghost(start),
            sum,
        );
        proof {
            assert(self.heap_outcome(start, sum@, tracker.visited()));
        }
        total
    }
}

impl<V1: GetSize, V2: GetSize, V3: GetSize, V4: GetSize, V5: GetSize> GetSize for (V1, V2, V3, V4, V5) {
    open spec fn heap_outcome(&self, before: Visited, bytes: nat, after: Visited) -> bool {
        chain(
            5,
            |i: int, b: Visited, n: nat, a: Visited|
                if i == 0 {
                    measured(&self.0, b, n, a)
                } else if i == 1 {
                    measured(&self.1, b, n, a)
                } else if i == 2 {
                    measured(&self.2, b, n, a)
                } else if i == 3 {
                    measured(&self.3, b, n, a)
                } else {
                    measured(&self.4, b, n, a)
                },
            before,
            bytes,
            after,
        )
    }

    fn get_heap_size<Tr: GetSizeTracker>(&self, tracker: &mut Tr) -> (n: usize) {
        let ghost start = tracker.visited();
        let ghost part = |i: int, b: Visited, n: nat, a: Visited|
            if i == 0 {
                measured(&self.0, b, n, a)
            } else if i == 1 {
                measured(&self.1, b, n, a)
            } else if i == 2 {
                measured(&self.2, b, n, a)
            } else if i == 3 {
                measured(&self.3, b, n, a)
            } else {
                measured(&self.4, b, n, a)
            };
        let total: usize = 0;
        let sum: Ghost<nat> = Ghost(0);
        let (total, sum) = add_position(
            total,
            &self.0,
            tracker,
            Ghost(0),
            Ghost(part),
            Ghost(start),
            sum,
        );
        let (total, sum) = add_position(
            total,
            &self.1,
            tracker,
            Ghost(1),
            Ghost(part),
            Ghost(start),
            sum,
        );
        let (total, sum) = add_position(
            total,
            &self.2,
            tracker,
            Ghost(2),
            Ghost(part),
            Ghost(start),
            sum,
        );
        let (total, sum) = add_position(
            total,
            &self.3,
            tracker,
            Ghost(3),
            Ghost(part),
            Ghost(start),
            sum,
        );
        let (total, sum) = add_position(
            total,
            &self.4,
            tracker,
            Ghost(4),
            Ghost(part),
            Ghost(start),
            sum,
        );
        proof {
            assert(self.heap_outcome(start, sum@, tracker.visited()));
        }
        total
    }
}

impl<V1: GetSize, V2: GetSize, V3: GetSize, V4: GetSize, V5: GetSize, V6: GetSize> GetSize for (V1, V2, V3, V4, V5, V6) {
    open spec fn heap_outcome(&self, before: Visited, bytes: nat, after: Visited) -> bool {
        chain(
            6,
            |i: int, b: Visited, n: nat, a: Visited|
                if i == 0 {
                    measured(&self.0, b, n, a)
                } else if i == 1 {
                    measured(&self.1, b, n, a)
                } else if i == 2 {
                    measured(&self.2, b, n, a)
                } else if i == 3 {
                    measured(&self.3, b, n, a)
                } else if i == 4 {
                    measured(&self.4, b, n, a)
                } else {
                    measured(&self.5, b, n, a)
                },
            before,
            bytes,
            after,
        )
    }

    fn get_heap_size<Tr: GetSizeTracker>(&self, tracker: &mut Tr) -> (n: usize) {
        let ghost start = tracker.visited();
        let ghost part = |i: int, b: Visited, n: nat, a: Visited|
            if i == 0 {
                measured(&self.0, b, n, a)
            } else if i == 1 {
                measured(&self.1, b, n, a)
            } else if i == 2 {
                measured(&self.2, b, n, a)
            } else if i == 3 {
                measured(&self.3, b, n, a)
            } else if i == 4 {
                measured(&self.4, b, n, a)
            } else {
                measured(&self.5, b, n, a)
            };
        let total: usize = 0;
        let sum: Ghost<nat> = Ghost(0);
        let (total, sum) = add_position(
            total,
            &self.0,
            tracker,
            Ghost(0),
            Ghost(part),
            Ghost(start),
            sum,
        );
        let (total, sum) = add_position(
            total,
            &self.1,
            tracker,
            Ghost(1),
            Ghost(part),
            Ghost(start),
            sum,
        );
        let (total, sum) = add_position(
            total,
            &self.2,
            tracker,
            Ghost(2),
            Ghost(part),
            Ghost(start),
            sum,
        );
        let (total, sum) = add_position(
            total,
            &self.3,
            tracker,
            Ghost(3),
            Ghost(part),
            Ghost(start),
            sum,
        );
        let (total, sum) = add_position(
            total,
            &self.4,
            tracker,
            Ghost(4),
            Ghost(part),
            Ghost(start),
            sum,
        );
        let (total, sum) = add_position(
            total,
            &self.5,
            tracker,
            Ghost(5),
            Ghost(part),
            Ghost(start),
            sum,
        );
        proof {
            assert(self.heap_outcome(start, sum@, tracker.visited()));
        }
        total
    }
}

impl<V1: GetSize, V2: GetSize, V3: GetSize, V4: GetSize, V5: GetSize, V6: GetSize, V7: GetSize> GetSize for (V1, V2, V3, V4, V5, V6, V7) {
    open spec fn heap_outcome(&self, before: Visited, bytes: nat, after: Visited) -> bool {
        chain(
            7,
            |i: int, b: Visited, n: nat, a: Visited|
                if i == 0 {
                    measured(&self.0, b, n, a)
                } else if i == 1 {
                    measured(&self.1, b, n, a)
                } else if i == 2 {
                    measured(&self.2, b, n, a)
                } else if i == 3 {
                    measured(&self.3, b, n, a)
                } else if i == 4 {
                    measured(&self.4, b, n, a)
                } else if i == 5 {
                    measured(&self.5, b, n, a)
                } else {
                    measured(&self.6, b, n, a)
                },
            before,
            bytes,
            after,
        )
    }

    fn get_heap_size<Tr: GetSizeTracker>(&self, tracker: &mut Tr) -> (n: usize) {
        let ghost start = tracker.visited();
        let ghost part = |i: int, b: Visited, n: nat, a: Visited|
            if i == 0 {
                measured(&self.0, b, n, a)
            } else if i == 1 {
                measured(&self.1, b, n, a)
            } else if i == 2 {
                measured(&self.2, b, n, a)
            } else if i == 3 {
                measured(&self.3, b, n, a)
            } else if i == 4 {
                measured(&self.4, b, n, a)
            } else if i == 5 {
                measured(&self.5, b, n, a)
            } else {
                measured(&self.6, b, n, a)
            };
        let total: usize = 0;
        let sum: Ghost<nat> = Ghost(0);
        let (total, sum) = add_position(
            total,
            &self.0,
            tracker,
            Ghost(0),
            Ghost(part),
            Ghost(start),
            sum,
        );
        let (total, sum) = add_position(
            total,
            &self.1,
            tracker,
            Ghost(1),
            Ghost(part),
            Ghost(start),
            sum,
        );
        let (total, sum) = add_position(
            total,
            &self.2,
            tracker,
            Ghost(2),
            Ghost(part),
            Ghost(start),
            sum,
        );
        let (total, sum) = add_position(
            total,
            &self.3,
            tracker,
            Ghost(3),
            Ghost(part),
            Ghost(start),
            sum,
        );
        let (total, sum) = add_position(
            total,
            &self.4,
            tracker,
            Ghost(4),
            Ghost(part),
            Ghost(start),
            sum,
        );
        let (total, sum) = add_position(
            total,
            &self.5,
            tracker,
            Ghost(5),
            Ghost(part),
            Ghost(start),
            sum,
        );
        let (total, sum) = add_position(
            total,
            &self.6,
            tracker,
            Ghost(6),
            Ghost(part),
            Ghost(start),
            sum,
        );
        proof {
            assert(self.heap_outcome(start, sum@, tracker.visited()));
        }
        total
    }
}

impl<V1: GetSize, V2: GetSize, V3: GetSize, V4: GetSize, V5: GetSize, V6: GetSize, V7: GetSize, V8: GetSize> GetSize for (V1, V2, V3, V4, V5, V6, V7, V8) {
    open spec fn heap_outcome(&self, before: Visited, bytes: nat, after: Visited) -> bool {
        chain(
            8,
            |i: int, b: Visited, n: nat, a: Visited|
                if i == 0 {
                    measured(&self.0, b, n, a)
                } else if i == 1 {
                    measured(&self.1, b, n, a)
                } else if i == 2 {
                    measured(&self.2, b, n, a)
                } else if i == 3 {
                    measured(&self.3, b, n, a)
                } else if i == 4 {
                    measured(&self.4, b, n, a)
                } else if i == 5 {
                    measured(&self.5, b, n, a)
                } else if i == 6 {
                    measured(&self.6, b, n, a)
                } else {
                    measured(&self.7, b, n, a)
                },
            before,
            bytes,
            after,
        )
    }

    fn get_heap_size<Tr: GetSizeTracker>(&self, tracker: &mut Tr) -> (n: usize) {
        let ghost start = tracker.visited();
        let ghost part = |i: int, b: Visited, n: nat, a: Visited|
            if i == 0 {
                measured(&self.0, b, n, a)
            } else if i == 1 {
                measured(&self.1, b, n, a)
            } else if i == 2 {
                measured(&self.2, b, n, a)
            } else if i == 3 {
                measured(&self.3, b, n, a)
            } else if i == 4 {
                measured(&self.4, b, n, a)
            } else if i == 5 {
                measured(&self.5, b, n, a)
            } else if i == 6 {
                measured(&self.6, b, n, a)
            } else {
                measured(&self.7, b, n, a)
            };
        let total: usize = 0;
        let sum: Ghost<nat> = Ghost(0);
        let (total, sum) = add_position(
            total,
            &self.0,
            tracker,
            Ghost(0),
            Ghost(part),
            Ghost(start),
            sum,
        );
        let (total, sum) = add_position(
            total,
            &self.1,
            tracker,
            Ghost(1),
            Ghost(part),
            Ghost(start),
            sum,
        );
        let (total, sum) = add_position(
            total,
            &self.2,
            tracker,
            Ghost(2),
            Ghost(part),
            Ghost(start),
            sum,
        );
        let (total, sum) = add_position(
            total,
            &self.3,
            tracker,
            Ghost(3),
            Ghost(part),
            Ghost(start),
            sum,
        );
        let (total, sum) = add_position(
            total,
            &self.4,
            tracker,
            Ghost(4),
            Ghost(part),
            Ghost(start),
            sum,
        );
        let (total, sum) = add_position(
            total,
            &self.5,
            tracker,
            Ghost(5),
            Ghost(part),
            Ghost(start),
            sum,
        );
        let (total, sum) = add_position(
            total,
            &self.6,
            tracker,
            Ghost(6),
            Ghost(part),
            Ghost(start),
            sum,
        );
        let (total, sum) = add_position(
            total,
            &self.7,
            tracker,
            Ghost(7),
            Ghost(part),
            Ghost(start),
            sum,
        );
        proof {
            assert(self.heap_outcome(start, sum@, tracker.visited()));
        }
        total
    }
}

impl<V1: GetSize, V2: GetSize, V3: GetSize, V4: GetSize, V5: GetSize, V6: GetSize, V7: GetSize, V8: GetSize, V9: GetSize> GetSize for (V1, V2, V3, V4, V5, V6, V7, V8, V9) {
    open spec fn heap_outcome(&self, before: Visited, bytes: nat, after: Visited) -> bool {
        chain(
            9,
            |i: int, b: Visited, n: nat, a: Visited|
                if i == 0 {
                    measured(&self.0, b, n, a)
                } else if i == 1 {
                    measured(&self.1, b, n, a)
                } else if i == 2 {
                    measured(&self.2, b, n, a)
                } else if i == 3 {
                    measured(&self.3, b, n, a)
                } else if i == 4 {
                    measured(&self.4, b, n, a)
                } else if i == 5 {
                    measured(&self.5, b, n, a)
                } else if i == 6 {
                    measured(&self.6, b, n, a)
                } else if i == 7 {
                    measured(&self.7, b, n, a)
                } else {
                    measured(&self.8, b, n, a)
                },
            before,
            bytes,
            after,
        )
    }

    fn get_heap_size<Tr: GetSizeTracker>(&self, tracker: &mut Tr) -> (n: usize) {
        let ghost start = tracker.visited();
        let ghost part = |i: int, b: Visited, n: nat, a: Visited|
            if i == 0 {
                measured(&self.0, b, n, a)
            } else if i == 1 {
                measured(&self.1, b, n, a)
            } else if i == 2 {
                measured(&self.2, b, n, a)
            } else if i == 3 {
                measured(&self.3, b, n, a)
            } else if i == 4 {
                measured(&self.4, b, n, a)
            } else if i == 5 {
                measured(&self.5, b, n, a)
            } else if i == 6 {
                measured(&self.6, b, n, a)
            } else if i == 7 {
                measured(&self.7, b, n, a)
            } else {
                measured(&self.8, b, n, a)
            };
        let total: usize = 0;
        let sum: Ghost<nat> = Ghost(0);
        let (total, sum) = add_position(
            total,
            &self.0,
            tracker,
            Ghost(0),
            Ghost(part),
            Ghost(start),
            sum,
        );
        let (total, sum) = add_position(
            total,
            &self.1,
            tracker,
            Ghost(1),
            Ghost(part),
            Ghost(start),
            sum,
        );
        let (total, sum) = add_position(
            total,
            &self.2,
            tracker,
            Ghost(2),
            Ghost(part),
            Ghost(start),
            sum,
        );
        let (total, sum) = add_position(
            total,
            &self.3,
            tracker,
            Ghost(3),
            Ghost(part),
            Ghost(start),
            sum,
        );
        let (total, sum) = add_position(
            total,
            &self.4,
            tracker,
            Ghost(4),
            Ghost(part),
            Ghost(start),
            sum,
        );
        let (total, sum) = add_position(
            total,
            &self.5,
            tracker,
            Ghost(5),
            Ghost(part),
            Ghost(start),
            sum,
        );
        let (total, sum) = add_position(
            total,
            &self.6,
            tracker,
            Ghost(6),
            Ghost(part),
            Ghost(start),
            sum,
        );
        let (total, sum) = add_position(
            total,
            &self.7,
            tracker,
            Ghost(7),
            Ghost(part),
            Ghost(start),
            sum,
        );
        let (total, sum) = add_position(
            total,
            &self.8,
            tracker,
            Ghost(8),
            Ghost(part),
            Ghost(start),
            sum,
        );
        proof {
            assert(self.heap_outcome(start, sum@, tracker.visited()));
        }
        total
    }
}

impl<V1: GetSize, V2: GetSize, V3: GetSize, V4: GetSize, V5: GetSize, V6: GetSize, V7: GetSize, V8: GetSize, V9: GetSize, V10: GetSize> GetSize for (V1, V2, V3, V4, V5, V6, V7, V8, V9, V10) {
    open spec fn heap_outcome(&self, before: Visited, bytes: nat, after: Visited) -> bool {
        chain(
            10,
            |i: int, b: Visited, n: nat, a: Visited|
                if i == 0 {
                    measured(&self.0, b, n, a)
                } else if i == 1 {
                    measured(&self.1, b, n, a)
                } else if i == 2 {
                    measured(&self.2, b, n, a)
                } else if i == 3 {
                    measured(&self.3, b, n, a)
                } else if i == 4 {
                    measured(&self.4, b, n, a)
                } else if i == 5 {
                    measured(&self.5, b, n, a)
                } else if i == 6 {
                    measured(&self.6, b, n, a)
                } else if i == 7 {
                    measured(&self.7, b, n, a)
                } else if i == 8 {
                    measured(&self.8, b, n, a)
                } else {
                    measured(&self.9, b, n, a)
                },
            before,
            bytes,
            after,
        )
    }

    fn get_heap_size<Tr: GetSizeTracker>(&self, tracker: &mut Tr) -> (n: usize) {
        let ghost start = tracker.visited();
        let ghost part = |i: int, b: Visited, n: nat, a: Visited|
            if i == 0 {
                measured(&self.0, b, n, a)
            } else if i == 1 {
                measured(&self.1, b, n, a)
            } else if i == 2 {
                measured(&self.2, b, n, a)
            } else if i == 3 {
                measured(&self.3, b, n, a)
            } else if i == 4 {
                measured(&self.4, b, n, a)
            } else if i == 5 {
                measured(&self.5, b, n, a)
            } else if i == 6 {
                measured(&self.6, b, n, a)
            } else if i == 7 {
                measured(&self.7, b, n, a)
            } else if i == 8 {
                measured(&self.8, b, n, a)
            } else {
                measured(&self.9, b, n, a)
            };
        let total: usize = 0;
        let sum: Ghost<nat> = Ghost(0);
        let (total, sum) = add_position(
            total,
            &self.0,
            tracker,
            Ghost(0),
            Ghost(part),
            Ghost(start),
            sum,
        );
        let (total, sum) = add_position(
            total,
            &self.1,
            tracker,
            Ghost(1),
            Ghost(part),
            Ghost(start),
            sum,
        );
        let (total, sum) = add_position(
            total,
            &self.2,
            tracker,
            Ghost(2),
            Ghost(part),
            Ghost(start),
            sum,
        );
        let (total, sum) = add_position(
            total,
            &self.3,
            tracker,
            Ghost(3),
            Ghost(part),
            Ghost(start),
            sum,
        );
        let (total, sum) = add_position(
            total,
            &self.4,
            tracker,
            Ghost(4),
            Ghost(part),
            Ghost(start),
            sum,
        );
        let (total, sum) = add_position(
            total,
            &self.5,
            tracker,
            Ghost(5),
            Ghost(part),
            Ghost(start),
            sum,
        );
        let (total, sum) = add_position(
            total,
            &self.6,
            tracker,
            Ghost(6),
            Ghost(part),
            Ghost(start),
            sum,
        );
        let (total, sum) = add_position(
            total,
            &self.7,
            tracker,
            Ghost(7),
            Ghost(part),
            Ghost(start),
            sum,
        );
        let (total, sum) = add_position(
            total,
            &self.8,
            tracker,
            Ghost(8),
            Ghost(part),
            Ghost(start),
            sum,
        );
        let (total, sum) = add_position(
            total,
            &self.9,
            tracker,
            Ghost(9),
            Ghost(part),
            Ghost(start),
            sum,
        );
        proof {
            assert(self.heap_outcome(start, sum@, tracker.visited()));
        }
        total
    }
}

impl<V1: GetSize, V2: GetSize, V3: GetSize, V4: GetSize, V5: GetSize, V6: GetSize, V7: GetSize, V8: GetSize, V9: GetSize, V10: GetSize, V11: GetSize> GetSize for (V1, V2, V3, V4, V5, V6, V7, V8, V9, V10, V11) {
    open spec fn heap_outcome(&self, before: Visited, bytes: nat, after: Visited) -> bool {
        chain(
            11,
            |i: int, b: Visited, n: nat, a: Visited|
                if i == 0 {
                    measured(&self.0, b, n, a)
                } else if i == 1 {
                    measured(&self.1, b, n, a)
                } else if i == 2 {
                    measured(&self.2, b, n, a)
                } else if i == 3 {
                    measured(&self.3, b, n, a)
                } else if i == 4 {
                    measured(&self.4, b, n, a)
                } else if i == 5 {
                    measured(&self.5, b, n, a)
                } else if i == 6 {
                    measured(&self.6, b, n, a)
                } else if i == 7 {
                    measured(&self.7, b, n, a)
                } else if i == 8 {
                    measured(&self.8, b, n, a)
                } else if i == 9 {
                    measured(&self.9, b, n, a)
                } else {
                    measured(&self.10, b, n, a)
                },
            before,
            bytes,
            after,
        )
    }

    fn get_heap_size<Tr: GetSizeTracker>(&self, tracker: &mut Tr) -> (n: usize) {
        let ghost start = tracker.visited();
        let ghost part = |i: int, b: Visited, n: nat, a: Visited|
            if i == 0 {
                measured(&self.0, b, n, a)
            } else if i == 1 {
                measured(&self.1, b, n, a)
            } else if i == 2 {
                measured(&self.2, b, n, a)
            } else if i == 3 {
                measured(&self.3, b, n, a)
            } else if i == 4 {
                measured(&self.4, b, n, a)
            } else if i == 5 {
                measured(&self.5, b, n, a)
            } else if i == 6 {
                measured(&self.6, b, n, a)
            } else if i == 7 {
                measured(&self.7, b, n, a)
            } else if i == 8 {
                measured(&self.8, b, n, a)
            } else if i == 9 {
                measured(&self.9, b, n, a)
            } else {
                measured(&self.10, b, n, a)
            };
        let total: usize = 0;
        let sum: Ghost<nat> = Ghost(0);
        let (total, sum) = add_position(
            total,
            &self.0,
            tracker,
            Ghost(0),
            Ghost(part),
            Ghost(start),
            sum,
        );
        let (total, sum) = add_position(
            total,
            &self.1,
            tracker,
            Ghost(1),
            Ghost(part),
            Ghost(start),
            sum,
        );
        let (total, sum) = add_position(
            total,
            &self.2,
            tracker,
            Ghost(2),
            Ghost(part),
            Ghost(start),
            sum,
        );
        let (total, sum) = add_position(
            total,
            &self.3,
            tracker,
            Ghost(3),
            Ghost(part),
            Ghost(start),
            sum,
        );
        let (total, sum) = add_position(
            total,
            &self.4,
            tracker,
            Ghost(4),
            Ghost(part),
            Ghost(start),
            sum,
        );
        let (total, sum) = add_position(
            total,
            &self.5,
            tracker,
            Ghost(5),
            Ghost(part),
            Ghost(start),
            sum,
        );
        let (total, sum) = add_position(
            total,
            &self.6,
            tracker,
            Ghost(6),
            Ghost(part),
            Ghost(start),
            sum,
        );
        let (total, sum) = add_position(
            total,
            &self.7,
            tracker,
            Ghost(7),
            Ghost(part),
            Ghost(start),
            sum,
        );
        let (total, sum) = add_position(
            total,
            &self.8,
            tracker,
            Ghost(8),
            Ghost(part),
            Ghost(start),
            sum,
        );
        let (total, sum) = add_position(
            total,
            &self.9,
            tracker,
            Ghost(9),
            Ghost(part),
            Ghost(start),
            sum,
        );
        let (total, sum) = add_position(
            total,
            &self.10,
            tracker,
            Ghost(10),
            Ghost(part),
            Ghost(start),
            sum,
        );
        proof {
            assert(self.heap_outcome(start, sum@, tracker.visited()));
        }
        total
    }
}

impl<V1: GetSize, V2: GetSize, V3: GetSize, V4: GetSize, V5: GetSize, V6: GetSize, V7: GetSize, V8: GetSize, V9: GetSize, V10: GetSize, V11: GetSize, V12: GetSize> GetSize for (V1, V2, V3, V4, V5, V6, V7, V8, V9, V10, V11, V12) {
    open spec fn heap_outcome(&self, before: Visited, bytes: nat, after: Visited) -> bool {
        chain(
            12,
            |i: int, b: Visited, n: nat, a: Visited|
                if i == 0 {
                    measured(&self.0, b, n, a)
                } else if i == 1 {
                    measured(&self.1, b, n, a)
                } else if i == 2 {
                    measured(&self.2, b, n, a)
                } else if i == 3 {
                    measured(&self.3, b, n, a)
                } else if i == 4 {
                    measured(&self.4, b, n, a)
                } else if i == 5 {
                    measured(&self.5, b, n, a)
                } else if i == 6 {
                    measured(&self.6, b, n, a)
                } else if i == 7 {
                    measured(&self.7, b, n, a)
                } else if i == 8 {
                    measured(&self.8, b, n, a)
                } else if i == 9 {
                    measured(&self.9, b, n, a)
                } else if i == 10 {
                    measured(&self.10, b, n, a)
                } else {
                    measured(&self.11, b, n, a)
                },
            before,
            bytes,
            after,
        )
    }

    fn get_heap_size<Tr: GetSizeTracker>(&self, tracker: &mut Tr) -> (n: usize) {
        let ghost start = tracker.visited();
        let ghost part = |i: int, b: Visited, n: nat, a: Visited|
            if i == 0 {
                measured(&self.0, b, n, a)
            } else if i == 1 {
                measured(&self.1, b, n, a)
            } else if i == 2 {
                measured(&self.2, b, n, a)
            } else if i == 3 {
                measured(&self.3, b, n, a)
            } else if i == 4 {
                measured(&self.4, b, n, a)
            } else if i == 5 {
                measured(&self.5, b, n, a)
            } else if i == 6 {
                measured(&self.6, b, n, a)
            } else if i == 7 {
                measured(&self.7, b, n, a)
            } else if i == 8 {
                measured(&self.8, b, n, a)
            } else if i == 9 {
                measured(&self.9, b, n, a)
            } else if i == 10 {
                measured(&self.10, b, n, a)
            } else {
                measured(&self.11, b, n, a)
            };
        let total: usize = 0;
        let sum: Ghost<nat> = Ghost(0);
        let (total, sum) = add_position(
            total,
            &self.0,
            tracker,
            Ghost(0),
            Ghost(part),
            Ghost(start),
            sum,
        );
        let (total, sum) = add_position(
            total,
            &self.1,
            tracker,
            Ghost(1),
            Ghost(part),
            Ghost(start),
            sum,
        );
        let (total, sum) = add_position(
            total,
            &self.2,
            tracker,
            Ghost(2),
            Ghost(part),
            Ghost(start),
            sum,
        );
        let (total, sum) = add_position(
            total,
            &self.3,
            tracker,
            Ghost(3),
            Ghost(part),
            Ghost(start),
            sum,
        );
        let (total, sum) = add_position(
            total,
            &self.4,
            tracker,
            Ghost(4),
            Ghost(part),
            Ghost(start),
            sum,
        );
        let (total, sum) = add_position(
            total,
            &self.5,
            tracker,
            Ghost(5),
            Ghost(part),
            Ghost(start),
            sum,
        );
        let (total, sum) = add_position(
            total,
            &self.6,
            tracker,
            Ghost(6),
            Ghost(part),
            Ghost(start),
            sum,
        );
        let (total, sum) = add_position(
            total,
            &self.7,
            tracker,
            Ghost(7),
            Ghost(part),
            Ghost(start),
            sum,
        );
        let (total, sum) = add_position(
            total,
            &self.8,
            tracker,
            Ghost(8),
            Ghost(part),
            Ghost(start),
            sum,
        );
        let (total, sum) = add_position(
            total,
            &self.9,
            tracker,
            Ghost(9),
            Ghost(part),
            Ghost(start),
            sum,
        );
        let (total, sum) = add_position(
            total,
            &self.10,
            tracker,
            Ghost(10),
            Ghost(part),
            Ghost(start),
            sum,
        );
        let (total, sum) = add_position(
            total,
            &self.11,
            tracker,
            Ghost(11),
            Ghost(part),
            Ghost(start),
            sum,
        );
        proof {
            assert(self.heap_outcome(start, sum@, tracker.visited()));
        }
        total
    }
}

impl<V1: GetSize, V2: GetSize, V3: GetSize, V4: GetSize, V5: GetSize, V6: GetSize, V7: GetSize, V8: GetSize, V9: GetSize, V10: GetSize, V11: GetSize, V12: GetSize, V13: GetSize> GetSize for (V1, V2, V3, V4, V5, V6, V7, V8, V9, V10, V11, V12, V13) {
    open spec fn heap_outcome(&self, before: Visited, bytes: nat, after: Visited) -> bool {
        chain(
            13,
            |i: int, b: Visited, n: nat, a: Visited|
                if i == 0 {
                    measured(&self.0, b, n, a)
                } else if i == 1 {
                    measured(&self.1, b, n, a)
                } else if i == 2 {
                    measured(&self.2, b, n, a)
                } else if i == 3 {
                    measured(&self.3, b, n, a)
                } else if i == 4 {
                    measured(&self.4, b, n, a)
                } else if i == 5 {
                    measured(&self.5, b, n, a)
                } else if i == 6 {
                    measured(&self.6, b, n, a)
                } else if i == 7 {
                    measured(&self.7, b, n, a)
                } else if i == 8 {
                    measured(&self.8, b, n, a)
                } else if i == 9 {
                    measured(&self.9, b, n, a)
                } else if i == 10 {
                    measured(&self.10, b, n, a)
                } else if i == 11 {
                    measured(&self.11, b, n, a)
                } else {
                    measured(&self.12, b, n, a)
                },
            before,
            bytes,
            after,
        )
    }

    fn get_heap_size<Tr: GetSizeTracker>(&self, tracker: &mut Tr) -> (n: usize) {
        let ghost start = tracker.visited();
        let ghost part = |i: int, b: Visited, n: nat, a: Visited|
            if i == 0 {
                measured(&self.0, b, n, a)
            } else if i == 1 {
                measured(&self.1, b, n, a)
            } else if i == 2 {
                measured(&self.2, b, n, a)
            } else if i == 3 {
                measured(&self.3, b, n, a)
            } else if i == 4 {
                measured(&self.4, b, n, a)
            } else if i == 5 {
                measured(&self.5, b, n, a)
            } else if i == 6 {
                measured(&self.6, b, n, a)
            } else if i == 7 {
                measured(&self.7, b, n, a)
            } else if i == 8 {
                measured(&self.8, b, n, a)
            } else if i == 9 {
                measured(&self.9, b, n, a)
            } else if i == 10 {
                measured(&self.10, b, n, a)
            } else if i == 11 {
                measured(&self.11, b, n, a)
            } else {
                measured(&self.12, b, n, a)
            };
        let total: usize = 0;
        let sum: Ghost<nat> = Ghost(0);
        let (total, sum) = add_position(
            total,
            &self.0,
            tracker,
            Ghost(0),
            Ghost(part),
            Ghost(start),
            sum,
        );
        let (total, sum) = add_position(
            total,
            &self.1,
            tracker,
            Ghost(1),
            Ghost(part),
            Ghost(start),
            sum,
        );
        let (total, sum) = add_position(
            total,
            &self.2,
            tracker,
            Ghost(2),
            Ghost(part),
            Ghost(start),
            sum,
        );
        let (total, sum) = add_position(
            total,
            &self.3,
            tracker,
            Ghost(3),
            Ghost(part),
            Ghost(start),
            sum,
        );
        let (total, sum) = add_position(
            total,
            &self.4,
            tracker,
            Ghost(4),
            Ghost(part),
            Ghost(start),
            sum,
        );
        let (total, sum) = add_position(
            total,
            &self.5,
            tracker,
            Ghost(5),
            Ghost(part),
            Ghost(start),
            sum,
        );
        let (total, sum) = add_position(
            total,
            &self.6,
            tracker,
            Ghost(6),
            Ghost(part),
            Ghost(start),
            sum,
        );
        let (total, sum) = add_position(
            total,
            &self.7,
            tracker,
            Ghost(7),
            Ghost(part),
            Ghost(start),
            sum,
        );
        let (total, sum) = add_position(
            total,
            &self.8,
            tracker,
            Ghost(8),
            Ghost(part),
            Ghost(start),
            sum,
        );
        let (total, sum) = add_position(
            total,
            &self.9,
            tracker,
            Ghost(9),
            Ghost(part),
            Ghost(start),
            sum,
        );
        let (total, sum) = add_position(
            total,
            &self.10,
            tracker,
            Ghost(10),
            Ghost(part),
            Ghost(start),
            sum,
        );
        let (total, sum) = add_position(
            total,
            &self.11,
            tracker,
            Ghost(11),
            Ghost(part),
            Ghost(start),
            sum,
        );
        let (total, sum) = add_position(
            total,
            &self.12,
            tracker,
            Ghost(12),
            Ghost(part),
            Ghost(start),
            sum,
        );
        proof {
            assert(self.heap_outcome(start, sum@, tracker.visited()));
        }
        total
    }
}

impl<V1: GetSize, V2: GetSize, V3: GetSize, V4: GetSize, V5: GetSize, V6: GetSize, V7: GetSize, V8: GetSize, V9: GetSize, V10: GetSize, V11: GetSize, V12: GetSize, V13: GetSize, V14: GetSize> GetSize for (V1, V2, V3, V4, V5, V6, V7, V8, V9, V10, V11, V12, V13, V14) {
    open spec fn heap_outcome(&self, before: Visited, bytes: nat, after: Visited) -> bool {
        chain(
            14,
            |i: int, b: Visited, n: nat, a: Visited|
                if i == 0 {
                    measured(&self.0, b, n, a)
                } else if i == 1 {
                    measured(&self.1, b, n, a)
                } else if i == 2 {
                    measured(&self.2, b, n, a)
                } else if i == 3 {
                    measured(&self.3, b, n, a)
                } else if i == 4 {
                    measured(&self.4, b, n, a)
                } else if i == 5 {
                    measured(&self.5, b, n, a)
                } else if i == 6 {
                    measured(&self.6, b, n, a)
                } else if i == 7 {
                    measured(&self.7, b, n, a)
                } else if i == 8 {
                    measured(&self.8, b, n, a)
                } else if i == 9 {
                    measured(&self.9, b, n, a)
                } else if i == 10 {
                    measured(&self.10, b, n, a)
                } else if i == 11 {
                    measured(&self.11, b, n, a)
                } else if i == 12 {
                    measured(&self.12, b, n, a)
                } else {
                    measured(&self.13, b, n, a)
                },
            before,
            bytes,
            after,
        )
    }

    fn get_heap_size<Tr: GetSizeTracker>(&self, tracker: &mut Tr) -> (n: usize) {
        let ghost start = tracker.visited();
        let ghost part = |i: int, b: Visited, n: nat, a: Visited|
            if i == 0 {
                measured(&self.0, b, n, a)
            } else if i == 1 {
                measured(&self.1, b, n, a)
            } else if i == 2 {
                measured(&self.2, b, n, a)
            } else if i == 3 {
                measured(&self.3, b, n, a)
            } else if i == 4 {
                measured(&self.4, b, n, a)
            } else if i == 5 {
                measured(&self.5, b, n, a)
            } else if i == 6 {
                measured(&self.6, b, n, a)
            } else if i == 7 {
                measured(&self.7, b, n, a)
            } else if i == 8 {
                measured(&self.8, b, n, a)
            } else if i == 9 {
                measured(&self.9, b, n, a)
            } else if i == 10 {
                measured(&self.10, b, n, a)
            } else if i == 11 {
                measured(&self.11, b, n, a)
            } else if i == 12 {
                measured(&self.12, b, n, a)
            } else {
                measured(&self.13, b, n, a)
            };
        let total: usize = 0;
        let sum: Ghost<nat> = Ghost(0);
        let (total, sum) = add_position(
            total,
            &self.0,
            tracker,
            Ghost(0),
            Ghost(part),
            Ghost(start),
            sum,
        );
        let (total, sum) = add_position(
            total,
            &self.1,
            tracker,
            Ghost(1),
            Ghost(part),
            Ghost(start),
            sum,
        );
        let (total, sum) = add_position(
            total,
            &self.2,
            tracker,
            Ghost(2),
            Ghost(part),
            Ghost(start),
            sum,
        );
        let (total, sum) = add_position(
            total,
            &self.3,
            tracker,
            Ghost(3),
            Ghost(part),
            Ghost(start),
            sum,
        );
        let (total, sum) = add_position(
            total,
            &self.4,
            tracker,
            Ghost(4),
            Ghost(part),
            Ghost(start),
            sum,
        );
        let (total, sum) = add_position(
            total,
            &self.5,
            tracker,
            Ghost(5),
            Ghost(part),
            Ghost(start),
            sum,
        );
        let (total, sum) = add_position(
            total,
            &self.6,
            tracker,
            Ghost(6),
            Ghost(part),
            Ghost(start),
            sum,
        );
        let (total, sum) = add_position(
            total,
            &self.7,
            tracker,
            Ghost(7),
            Ghost(part),
            Ghost(start),
            sum,
        );
        let (total, sum) = add_position(
            total,
            &self.8,
            tracker,
            Ghost(8),
            Ghost(part),
            Ghost(start),
            sum,
        );
        let (total, sum) = add_position(
            total,
            &self.9,
            tracker,
            Ghost(9),
            Ghost(part),
            Ghost(start),
            sum,
        );
        let (total, sum) = add_position(
            total,
            &self.10,
            tracker,
            Ghost(10),
            Ghost(part),
            Ghost(start),
            sum,
        );
        let (total, sum) = add_position(
            total,
            &self.11,
            tracker,
            Ghost(11),
            Ghost(part),
            Ghost(start),
            sum,
        );
        let (total, sum) = add_position(
            total,
            &self.12,
            tracker,
            Ghost(12),
            Ghost(part),
            Ghost(start),
            sum,
        );
        let (total, sum) = add_position(
            total,
            &self.13,
            tracker,
            Ghost(13),
            Ghost(part),
            Ghost(start),
            sum,
        );
        proof {
            assert(self.heap_outcome(start, sum@, tracker.visited()));
        }
        total
    }
}

impl<V1: GetSize, V2: GetSize, V3: GetSize, V4: GetSize, V5: GetSize, V6: GetSize, V7: GetSize, V8: GetSize, V9: GetSize, V10: GetSize, V11: GetSize, V12: GetSize, V13: GetSize, V14: GetSize, V15: GetSize> GetSize for (V1, V2, V3, V4, V5, V6, V7, V8, V9, V10, V11, V12, V13, V14, V15) {
    open spec fn heap_outcome(&self, before: Visited, bytes: nat, after: Visited) -> bool {
        chain(
            15,
            |i: int, b: Visited, n: nat, a: Visited|
                if i == 0 {
                    measured(&self.0, b, n, a)
                } else if i == 1 {
                    measured(&self.1, b, n, a)
                } else if i == 2 {
                    measured(&self.2, b, n, a)
                } else if i == 3 {
                    measured(&self.3, b, n, a)
                } else if i == 4 {
                    measured(&self.4, b, n, a)
                } else if i == 5 {
                    measured(&self.5, b, n, a)
                } else if i == 6 {
                    measured(&self.6, b, n, a)
                } else if i == 7 {
                    measured(&self.7, b, n, a)
                } else if i == 8 {
                    measured(&self.8, b, n, a)
                } else if i == 9 {
                    measured(&self.9, b, n, a)
                } else if i == 10 {
                    measured(&self.10, b, n, a)
                } else if i == 11 {
                    measured(&self.11, b, n, a)
                } else if i == 12 {
                    measured(&self.12, b, n, a)
                } else if i == 13 {
                    measured(&self.13, b, n, a)
                } else {
                    measured(&self.14, b, n, a)
                },
            before,
            bytes,
            after,
        )
    }

    fn get_heap_size<Tr: GetSizeTracker>(&self, tracker: &mut Tr) -> (n: usize) {
        let ghost start = tracker.visited();
        let ghost part = |i: int, b: Visited, n: nat, a: Visited|
            if i == 0 {
                measured(&self.0, b, n, a)
            } else if i == 1 {
                measured(&self.1, b, n, a)
            } else if i == 2 {
                measured(&self.2, b, n, a)
            } else if i == 3 {
                measured(&self.3, b, n, a)
            } else if i == 4 {
                measured(&self.4, b, n, a)
            } else if i == 5 {
                measured(&self.5, b, n, a)
            } else if i == 6 {
                measured(&self.6, b, n, a)
            } else if i == 7 {
                measured(&self.7, b, n, a)
            } else if i == 8 {
                measured(&self.8, b, n, a)
            } else if i == 9 {
                measured(&self.9, b, n, a)
            } else if i == 10 {
                measured(&self.10, b, n, a)
            } else if i == 11 {
                measured(&self.11, b, n, a)
            } else if i == 12 {
                measured(&self.12, b, n, a)
            } else if i == 13 {
                measured(&self.13, b, n, a)
            } else {
                measured(&self.14, b, n, a)
            };
        let total: usize = 0;
        let sum: Ghost<nat> = Ghost(0);
        let (total, sum) = add_position(
            total,
            &self.0,
            tracker,
            Ghost(0),
            Ghost(part),
            Ghost(start),
            sum,
        );
        let (total, sum) = add_position(
            total,
            &self.1,
            tracker,
            Ghost(1),
            Ghost(part),
            Ghost(start),
            sum,
        );
        let (total, sum) = add_position(
            total,
            &self.2,
            tracker,
            Ghost(2),
            Ghost(part),
            Ghost(start),
            sum,
        );
        let (total, sum) = add_position(
            total,
            &self.3,
            tracker,
            Ghost(3),
            Ghost(part),
            Ghost(start),
            sum,
        );
        let (total, sum) = add_position(
            total,
            &self.4,
            tracker,
            Ghost(4),
            Ghost(part),
            Ghost(start),
            sum,
        );
        let (total, sum) = add_position(
            total,
            &self.5,
            tracker,
            Ghost(5),
            Ghost(part),
            Ghost(start),
            sum,
        );
        let (total, sum) = add_position(
            total,
            &self.6,
            tracker,
            Ghost(6),
            Ghost(part),
            Ghost(start),
            sum,
        );
        let (total, sum) = add_position(
            total,
            &self.7,
            tracker,
            Ghost(7),
            Ghost(part),
            Ghost(start),
            sum,
        );
        let (total, sum) = add_position(
            total,
            &self.8,
            tracker,
            Ghost(8),
            Ghost(part),
            Ghost(start),
            sum,
        );
        let (total, sum) = add_position(
            total,
            &self.9,
            tracker,
            Ghost(9),
            Ghost(part),
            Ghost(start),
            sum,
        );
        let (total, sum) = add_position(
            total,
            &self.10,
            tracker,
            Ghost(10),
            Ghost(part),
            Ghost(start),
            sum,
        );
        let (total, sum) = add_position(
            total,
            &self.11,
            tracker,
            Ghost(11),
            Ghost(part),
            Ghost(start),
            sum,
        );
        let (total, sum) = add_position(
            total,
            &self.12,
            tracker,
            Ghost(12),
            Ghost(part),
            Ghost(start),
            sum,
        );
        let (total, sum) = add_position(
            total,
            &self.13,
            tracker,
            Ghost(13),
            Ghost(part),
            Ghost(start),
            sum,
        );
        let (total, sum) = add_position(
            total,
            &self.14,
            tracker,
            Ghost(14),
            Ghost(part),
            Ghost(start),
            sum,
        );
        proof {
            assert(self.heap_outcome(start, sum@, tracker.visited()));
        }
        total
    }
}

impl<V1: GetSize, V2: GetSize, V3: GetSize, V4: GetSize, V5: GetSize, V6: GetSize, V7: GetSize, V8: GetSize, V9: GetSize, V10: GetSize, V11: GetSize, V12: GetSize, V13: GetSize, V14: GetSize, V15: GetSize, V16: GetSize> GetSize for (V1, V2, V3, V4, V5, V6, V7, V8, V9, V10, V11, V12, V13, V14, V15, V16) {
    open spec fn heap_outcome(&self, before: Visited, bytes: nat, after: Visited) -> bool {
        chain(
            16,
            |i: int, b: Visited, n: nat, a: Visited|
                if i == 0 {
                    measured(&self.0, b, n, a)
                } else if i == 1 {
                    measured(&self.1, b, n, a)
                } else if i == 2 {
                    measured(&self.2, b, n, a)
                } else if i == 3 {
                    measured(&self.3, b, n, a)
                } else if i == 4 {
                    measured(&self.4, b, n, a)
                } else if i == 5 {
                    measured(&self.5, b, n, a)
                } else if i == 6 {
                    measured(&self.6, b, n, a)
                } else if i == 7 {
                    measured(&self.7, b, n, a)
                } else if i == 8 {
                    measured(&self.8, b, n, a)
                } else if i == 9 {
                    measured(&self.9, b, n, a)
                } else if i == 10 {
                    measured(&self.10, b, n, a)
                } else if i == 11 {
                    measured(&self.11, b, n, a)
                } else if i == 12 {
                    measured(&self.12, b, n, a)
                } else if i == 13 {
                    measured(&self.13, b, n, a)
                } else if i == 14 {
                    measured(&self.14, b, n, a)
                } else {
                    measured(&self.15, b, n, a)
                },
            before,
            bytes,
            after,
        )
    }

    fn get_heap_size<Tr: GetSizeTracker>(&self, tracker: &mut Tr) -> (n: usize) {
        let ghost start = tracker.visited();
        let ghost part = |i: int, b: Visited, n: nat, a: Visited|
            if i == 0 {
                measured(&self.0, b, n, a)
            } else if i == 1 {
                measured(&self.1, b, n, a)
            } else if i == 2 {
                measured(&self.2, b, n, a)
            } else if i == 3 {
                measured(&self.3, b, n, a)
            } else if i == 4 {
                measured(&self.4, b, n, a)
            } else if i == 5 {
                measured(&self.5, b, n, a)
            } else if i == 6 {
                measured(&self.6, b, n, a)
            } else if i == 7 {
                measured(&self.7, b, n, a)
            } else if i == 8 {
                measured(&self.8, b, n, a)
            } else if i == 9 {
                measured(&self.9, b, n, a)
            } else if i == 10 {
                measured(&self.10, b, n, a)
            } else if i == 11 {
                measured(&self.11, b, n, a)
            } else if i == 12 {
                measured(&self.12, b, n, a)
            } else if i == 13 {
                measured(&self.13, b, n, a)
            } else if i == 14 {
                measured(&self.14, b, n, a)
            } else {
                measured(&self.15, b, n, a)
            };
        let total: usize = 0;
        let sum: Ghost<nat> = Ghost(0);
        let (total, sum) = add_position(
            total,
            &self.0,
            tracker,
            Ghost(0),
            Ghost(part),
            Ghost(start),
            sum,
        );
        let (total, sum) = add_position(
            total,
            &self.1,
            tracker,
            Ghost(1),
            Ghost(part),
            Ghost(start),
            sum,
        );
        let (total, sum) = add_position(
            total,
            &self.2,
            tracker,
            Ghost(2),
            Ghost(part),
            Ghost(start),
            sum,
        );
        let (total, sum) = add_position(
            total,
            &self.3,
            tracker,
            Ghost(3),
            Ghost(part),
            Ghost(start),
            sum,
        );
        let (total, sum) = add_position(
            total,
            &self.4,
            tracker,
            Ghost(4),
            Ghost(part),
            Ghost(start),
            sum,
        );
        let (total, sum) = add_position(
            total,
            &self.5,
            tracker,
            Ghost(5),
            Ghost(part),
            Ghost(start),
            sum,
        );
        let (total, sum) = add_position(
            total,
            &self.6,
            tracker,
            Ghost(6),
            Ghost(part),
            Ghost(start),
            sum,
        );
        let (total, sum) = add_position(
            total,
            &self.7,
            tracker,
            Ghost(7),
            Ghost(part),
            Ghost(start),
            sum,
        );
        let (total, sum) = add_position(
            total,
            &self.8,
            tracker,
            Ghost(8),
            Ghost(part),
            Ghost(start),
            sum,
        );
        let (total, sum) = add_position(
            total,
            &self.9,
            tracker,
            Ghost(9),
            Ghost(part),
            Ghost(start),
            sum,
        );
        let (total, sum) = add_position(
            total,
            &self.10,
            tracker,
            Ghost(10),
            Ghost(part),
            Ghost(start),
            sum,
        );
        let (total, sum) = add_position(
            total,
            &self.11,
            tracker,
            Ghost(11),
            Ghost(part),
            Ghost(start),
            sum,
        );
        let (total, sum) = add_position(
            total,
            &self.12,
            tracker,
            Ghost(12),
            Ghost(part),
            Ghost(start),
            sum,
        );
        let (total, sum) = add_position(
            total,
            &self.13,
            tracker,
            Ghost(13),
            Ghost(part),
            Ghost(start),
            sum,
        );
        let (total, sum) = add_position(
            total,
            &self.14,
            tracker,
            Ghost(14),
            Ghost(part),
            Ghost(start),
            sum,
        );
        let (total, sum) = add_position(
            total,
            &self.15,
            tracker,
            Ghost(15),
            Ghost(part),
            Ghost(start),
            sum,
        );
        proof {
            assert(self.heap_outcome(start, sum@, tracker.visited()));
        }
        total
    }
}

} // verus!
