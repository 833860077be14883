//! Sizes of values that own, share or may hold another value.

use crate::size::{measured, saturate, sized, GetSize};
use crate::tracker::{GetSizeTracker, Visited};
use std::rc::Rc;
use std::borrow::Cow;
use std::sync::{Arc, Mutex, MutexGuard, RwLock, RwLockReadGuard};
use vstd::layout::size_of;
use vstd::prelude::*;

verus! {

/// A lock with one holder at a time, `std::sync::Mutex`. Nothing is said of
/// what it guards.
#[verifier::external_type_specification]
#[verifier::external_body]
#[verifier::reject_recursive_types(T)]
pub struct ExMutex<T: ?Sized>(std::sync::Mutex<T>);

/// The hold on a `Mutex`, `std::sync::MutexGuard`: the lock is released when
/// the guard goes out of scope.
#[verifier::external_type_specification]
#[verifier::external_body]
#[verifier::reject_recursive_types(T)]
pub struct ExMutexGuard<'a, T: ?Sized + 'a>(std::sync::MutexGuard<'a, T>);

/// A lock with many readers or one writer, `std::sync::RwLock`. Nothing is
/// said of what it guards.
#[verifier::external_type_specification]
#[verifier::external_body]
#[verifier::reject_recursive_types(T)]
pub struct ExRwLock<T: ?Sized>(std::sync::RwLock<T>);

/// A reader's hold on a `RwLock`, `std::sync::RwLockReadGuard`: it is
/// released when the guard goes out of scope.
#[verifier::external_type_specification]
#[verifier::external_body]
#[verifier::reject_recursive_types(T)]
pub struct ExRwLockReadGuard<'a, T: ?Sized>(std::sync::RwLockReadGuard<'a, T>);

/// The address of the allocation that `rc` shares. Calls `Rc::as_ptr`.
#[verifier::external_body]
fn rc_address<T>(rc: &Rc<T>) -> (address: usize) {
    Rc::as_ptr(rc).addr()
}

/// The address of the allocation that `arc` shares. Calls `Arc::as_ptr`.
#[verifier::external_body]
fn arc_address<T>(arc: &Arc<T>) -> (address: usize) {
    Arc::as_ptr(arc).addr()
}

/// Takes the lock and gives the hold on it. Calls `Mutex::lock`, which does
/// not return while another holder keeps the lock; the guard of a poisoned
/// lock is taken out of the error.
#[verifier::external_body]
fn lock<'a, T>(mutex: &'a Mutex<T>) -> (guard: MutexGuard<'a, T>) {
    match mutex.lock() {
        Ok(guard) => guard,
        Err(poisoned) => poisoned.into_inner(),
    }
}

/// The value that the lock guards while `guard` is held. Calls the guard's
/// `deref`.
#[verifier::external_body]
fn locked<'a, 'b, T>(guard: &'b MutexGuard<'a, T>) -> (value: &'b T) {
    guard
}

/// Takes the lock for reading and gives the hold on it. Calls `RwLock::read`,
/// which does not return while a writer keeps the lock; the guard of a
/// poisoned lock is taken out of the error.
#[verifier::external_body]
fn read<'a, T>(lock: &'a RwLock<T>) -> (guard: RwLockReadGuard<'a, T>) {
    match lock.read() {
        Ok(guard) => guard,
        Err(poisoned) => poisoned.into_inner(),
    }
}

/// The value that the lock guards while `guard` is held. Calls the guard's
/// `deref`.
#[verifier::external_body]
fn read_locked<'a, 'b, T>(guard: &'b RwLockReadGuard<'a, T>) -> (value: &'b T) {
    guard
}

/// What measuring a reference to a shared allocation at `address` can yield:
/// the first visit counts the pointee in full, every later visit counts
/// nothing.
pub open spec fn shared_outcome<T: GetSize>(
    address: usize,
    pointee: &T,
    before: Visited,
    bytes: nat,
    after: Visited,
) -> bool {
    if before.is_new(address) {
        sized(pointee, before.track(address), bytes, after)
    } else {
        bytes == 0 && after == before.track(address)
    }
}

/// Within one measurement a shared allocation counts once: the first
/// reference that is reached counts the pointee in full, and every reference
/// to the same allocation that is reached later counts nothing and leaves the
/// tracker as it was.
pub proof fn lemma_shared_counted_once<T: GetSize, U: GetSize>(
    address: usize,
    first: &T,
    start: Visited,
    first_bytes: nat,
    mid: Visited,
    later: Visited,
    second: &U,
    second_bytes: nat,
    end: Visited,
)
    requires
        start.recording,
        start.is_new(address),
        shared_outcome(address, first, start, first_bytes, mid),
        mid.within(later),
        shared_outcome(address, second, later, second_bytes, end),
    ensures
        sized(first, start.track(address), first_bytes, mid),
        second_bytes == 0,
        end == later,
{
    let heap = choose|heap: nat| #[trigger]
        measured(first, start.track(address), heap, mid) && first_bytes == size_of::<T>() + heap;
    assert(start.track(address).addresses.contains(address));
    assert(mid.addresses.contains(address));
    assert(later.addresses.contains(address));
    assert(later.addresses.insert(address) =~= later.addresses);
}

/// A measurement of its own, which starts with a tracker that has seen
/// nothing, counts a shared allocation in full, whatever other measurements
/// counted before.
pub proof fn lemma_fresh_measurement_counts_shared<T: GetSize>(
    address: usize,
    pointee: &T,
    bytes: nat,
    after: Visited,
)
    requires
        shared_outcome(address, pointee, Visited::fresh(), bytes, after),
    ensures
        sized(pointee, Visited::fresh().track(address), bytes, after),
        bytes >= size_of::<T>(),
{
}

/// Without tracking every reference to a shared allocation counts the
/// pointee in full.
pub proof fn lemma_untracked_counts_every_owner<T: GetSize>(
    address: usize,
    pointee: &T,
    before: Visited,
    bytes: nat,
    after: Visited,
)
    requires
        before == Visited::oblivious(),
        shared_outcome(address, pointee, before, bytes, after),
    ensures
        sized(pointee, before, bytes, after),
        after == before,
{
}

/// Measures a reference to the shared allocation at `address`, which holds
/// `pointee`.
pub fn shared_heap_size<T: GetSize, Tr: GetSizeTracker>(
    address: usize,
    pointee: &T,
    tracker: &mut Tr,
) -> (n: usize)
    ensures
        old(tracker).visited().within(final(tracker).visited()),
        exists|bytes: nat| #[trigger]
            shared_outcome(
                address,
                pointee,
                old(tracker).visited(),
                bytes,
                final(tracker).visited(),
            ) && n == saturate(bytes),
{
    if tracker.track(address) {
        let ghost mid = tracker.visited();
        let size = pointee.get_size(tracker);
        proof {
            let heap = choose|heap: nat| #[trigger]
                pointee.heap_outcome(mid, heap, tracker.visited()) && size == saturate(
                    size_of::<T>() + heap,
                );
            assert(crate::size::measured(pointee, mid, heap, tracker.visited()));
            assert(shared_outcome(
                address,
                pointee,
                old(tracker).visited(),
                size_of::<T>() + heap,
                tracker.visited(),
            ));
        }
        size
    } else {
        proof {
            assert(shared_outcome(address, pointee, old(tracker).visited(), 0, tracker.visited()));
        }
        0
    }
}

impl<T: GetSize> GetSize for Rc<T> {
    /// The outcome for the pointee at some address. That the address is
    /// that of this allocation is not stated.
    open spec fn heap_outcome(&self, before: Visited, bytes: nat, after: Visited) -> bool {
        exists|address: usize| #[trigger] shared_outcome(address, &**self, before, bytes, after)
    }

    fn get_heap_size<Tr: GetSizeTracker>(&self, tracker: &mut Tr) -> (n: usize) {
        let ghost before = tracker.visited();
        let address = rc_address(self);
        let size = shared_heap_size(address, &**self, tracker);
        proof {
            let bytes = choose|bytes: nat| #[trigger]
                shared_outcome(address, &**self, before, bytes, tracker.visited()) && size
                    == saturate(bytes);
            assert(self.heap_outcome(before, bytes, tracker.visited()));
        }
        size
    }
}

impl<T: GetSize> GetSize for Arc<T> {
    /// The outcome for the pointee at some address. That the address is
    /// that of this allocation is not stated.
    open spec fn heap_outcome(&self, before: Visited, bytes: nat, after: Visited) -> bool {
        exists|address: usize| #[trigger] shared_outcome(address, &**self, before, bytes, after)
    }

    fn get_heap_size<Tr: GetSizeTracker>(&self, tracker: &mut Tr) -> (n: usize) {
        let ghost before = tracker.visited();
        let address = arc_address(self);
        let size = shared_heap_size(address, &**self, tracker);
        proof {
            let bytes = choose|bytes: nat| #[trigger]
                shared_outcome(address, &**self, before, bytes, tracker.visited()) && size
                    == saturate(bytes);
            assert(self.heap_outcome(before, bytes, tracker.visited()));
        }
        size
    }
}

/// What measuring a reference that does not keep its allocation alive can
/// yield. `target` is what the reference resolves to: the value in the
/// allocation at `address`, or nothing once the allocation is freed. The
/// first visit counts a live target in full; a freed target and every later
/// visit count nothing.
pub open spec fn weak_outcome<T: GetSize>(
    address: usize,
    target: Option<&T>,
    before: Visited,
    bytes: nat,
    after: Visited,
) -> bool {
    match target {
        Some(pointee) => shared_outcome(address, pointee, before, bytes, after),
        None => bytes == 0 && after == before.track(address),
    }
}

/// Measures a reference that does not keep its allocation alive. `address`
/// is the address that the reference holds, `target` the value that it
/// resolves to, if the allocation is still alive.
pub fn weak_heap_size<T: GetSize, Tr: GetSizeTracker>(
    address: usize,
    target: Option<&T>,
    tracker: &mut Tr,
) -> (n: usize)
    ensures
        old(tracker).visited().within(final(tracker).visited()),
        exists|bytes: nat| #[trigger]
            weak_outcome(address, target, old(tracker).visited(), bytes, final(tracker).visited())
                && n == saturate(bytes),
        target is None ==> n == 0 && final(tracker).visited() == old(tracker).visited().track(
            address,
        ),
        !old(tracker).visited().is_new(address) ==> n == 0,
{
    match target {
        Some(pointee) => {
            let ghost before = tracker.visited();
            let size = shared_heap_size(address, pointee, tracker);
            proof {
                let bytes = choose|bytes: nat| #[trigger]
                    shared_outcome(address, pointee, before, bytes, tracker.visited()) && size
                        == saturate(bytes);
                assert(weak_outcome(address, target, before, bytes, tracker.visited()));
            }
            size
        },
        None => {
            let ghost before = tracker.visited();
            let _ = tracker.track(address);
            proof {
                assert(weak_outcome(address, target, before, 0, tracker.visited()));
            }
            0
        },
    }
}

impl<T: GetSize> GetSize for Box<T> {
    open spec fn heap_outcome(&self, before: Visited, bytes: nat, after: Visited) -> bool {
        sized(&**self, before, bytes, after)
    }

    fn get_heap_size<Tr: GetSizeTracker>(&self, tracker: &mut Tr) -> (n: usize) {
        let ghost before = tracker.visited();
        let size = (**self).get_size(tracker);
        proof {
            let heap = choose|heap: nat| #[trigger]
                (**self).heap_outcome(before, heap, tracker.visited()) && size == saturate(
                    size_of::<T>() + heap,
                );
            assert(crate::size::measured(&**self, before, heap, tracker.visited()));
            assert(self.heap_outcome(before, size_of::<T>() + heap, tracker.visited()));
        }
        size
    }
}

impl<T: GetSize> GetSize for Option<T> {
    open spec fn heap_outcome(&self, before: Visited, bytes: nat, after: Visited) -> bool {
        match self {
            // The option's stack size already accounts for the value's stack size.
            Some(value) => value.heap_outcome(before, bytes, after),
            None => bytes == 0 && after == before,
        }
    }

    fn get_heap_size<Tr: GetSizeTracker>(&self, tracker: &mut Tr) -> (n: usize) {
        let ghost before = tracker.visited();
        match self {
            Some(value) => {
                let size = value.get_heap_size(tracker);
                proof {
                    let bytes = choose|bytes: nat| #[trigger]
                        value.heap_outcome(before, bytes, tracker.visited()) && size == saturate(
                            bytes,
                        );
                    assert(self.heap_outcome(before, bytes, tracker.visited()));
                }
                size
            },
            None => {
                assert(self.heap_outcome(before, 0, tracker.visited()));
                0
            },
        }
    }
}

impl<T: GetSize, E: GetSize> GetSize for Result<T, E> {
    open spec fn heap_outcome(&self, before: Visited, bytes: nat, after: Visited) -> bool {
        match self {
            // The result's stack size already accounts for the values' stack size.
            Ok(value) => value.heap_outcome(before, bytes, after),
            Err(error) => error.heap_outcome(before, bytes, after),
        }
    }

    fn get_heap_size<Tr: GetSizeTracker>(&self, tracker: &mut Tr) -> (n: usize) {
        let ghost before = tracker.visited();
        match self {
            Ok(value) => {
                let size = value.get_heap_size(tracker);
                proof {
                    let bytes = choose|bytes: nat| #[trigger]
                        value.heap_outcome(before, bytes, tracker.visited()) && size == saturate(
                            bytes,
                        );
                    assert(self.heap_outcome(before, bytes, tracker.visited()));
                }
                size
            },
            Err(error) => {
                let size = error.get_heap_size(tracker);
                proof {
                    let bytes = choose|bytes: nat| #[trigger]
                        error.heap_outcome(before, bytes, tracker.visited()) && size == saturate(
                            bytes,
                        );
                    assert(self.heap_outcome(before, bytes, tracker.visited()));
                }
                size
            },
        }
    }
}

impl<T: GetSize> GetSize for Mutex<T> {
    /// The heap size of some value of the guarded type. That it is the value
    /// which the lock guards is not stated.
    open spec fn heap_outcome(&self, before: Visited, bytes: nat, after: Visited) -> bool {
        exists|value: T| #[trigger] value.heap_outcome(before, bytes, after)
    }

    fn get_heap_size<Tr: GetSizeTracker>(&self, tracker: &mut Tr) -> (n: usize) {
        let ghost before = tracker.visited();
        // We assume that a Mutex does hold its data at the stack.
        let guard = lock(self);
        let value = locked(&guard);
        let size = value.get_heap_size(tracker);
        proof {
            let bytes = choose|bytes: nat| #[trigger]
                value.heap_outcome(before, bytes, tracker.visited()) && size == saturate(bytes);
            assert(value.heap_outcome(before, bytes, tracker.visited()));
            assert(self.heap_outcome(before, bytes, tracker.visited()));
        }
        size
    }
}

impl<T: GetSize> GetSize for RwLock<T> {
    /// The heap size of some value of the guarded type. That it is the value
    /// which the lock guards is not stated.
    open spec fn heap_outcome(&self, before: Visited, bytes: nat, after: Visited) -> bool {
        exists|value: T| #[trigger] value.heap_outcome(before, bytes, after)
    }

    fn get_heap_size<Tr: GetSizeTracker>(&self, tracker: &mut Tr) -> (n: usize) {
        let ghost before = tracker.visited();
        // We assume that a RwLock does hold its data at the stack.
        let guard = read(self);
        let value = read_locked(&guard);
        let size = value.get_heap_size(tracker);
        proof {
            let bytes = choose|bytes: nat| #[trigger]
                value.heap_outcome(before, bytes, tracker.visited()) && size == saturate(bytes);
            assert(value.heap_outcome(before, bytes, tracker.visited()));
            assert(self.heap_outcome(before, bytes, tracker.visited()));
        }
        size
    }
}

impl<'a, T> GetSize for Cow<'a, T> where T: ToOwned, T::Owned: GetSize {
    open spec fn heap_outcome(&self, before: Visited, bytes: nat, after: Visited) -> bool {
        match self {
            Cow::Borrowed(_) => bytes == 0 && after == before,
            Cow::Owned(owned) => owned.heap_outcome(before, bytes, after),
        }
    }

    fn get_heap_size<Tr: GetSizeTracker>(&self, tracker: &mut Tr) -> (n: usize) {
        let ghost before = tracker.visited();
        match self {
            Cow::Borrowed(_borrowed) => {
                assert(self.heap_outcome(before, 0, tracker.visited()));
                0
            },
            Cow::Owned(owned) => {
                let size = owned.get_heap_size(tracker);
                proof {
                    let bytes = choose|bytes: nat| #[trigger]
                        owned.heap_outcome(before, bytes, tracker.visited()) && size == saturate(
                            bytes,
                        );
                    assert(self.heap_outcome(before, bytes, tracker.visited()));
                }
                size
            },
        }
    }
}

} // verus!
