//! Values that own nothing on the heap: their heap size is 0, their total
//! size is the size of their type, and measuring them never consults the
//! tracker.

use crate::size::{plain, sized, GetSize};
use crate::tracker::{GetSizeTracker, Visited};
use std::convert::Infallible;
use std::marker::{PhantomData, PhantomPinned};
use std::sync::atomic::{
    AtomicBool, AtomicI16, AtomicI32, AtomicI64, AtomicI8, AtomicIsize, AtomicU16, AtomicU32,
    AtomicU64, AtomicU8, AtomicUsize,
};
use std::time::{Duration, Instant, SystemTime};
use vstd::layout::size_of;
use vstd::prelude::*;

verus! {

/// The marker `std::marker::PhantomPinned`, which holds nothing.
#[verifier::external_type_specification]
#[verifier::external_body]
pub struct ExPhantomPinned(std::marker::PhantomPinned);

/// A point in time of the monotonic clock, `std::time::Instant`. Nothing is
/// said of what it holds.
#[verifier::external_type_specification]
#[verifier::external_body]
pub struct ExInstant(std::time::Instant);

/// A point in time of the system clock, `std::time::SystemTime`. Nothing is
/// said of what it holds.
#[verifier::external_type_specification]
#[verifier::external_body]
pub struct ExSystemTime(std::time::SystemTime);

/// The rule for every value that is held in place, whatever its type: it
/// owns nothing on the heap, and the tracker is never asked about anything.
pub fn held_in_place<T, Tr: GetSizeTracker>(value: &T, tracker: &mut Tr) -> (n: usize)
    ensures
        n == 0,
        final(tracker).visited() == old(tracker).visited(),
{
    0
}

/// The total size of a value that owns nothing on the heap is the size of its
/// type, and measuring it leaves the tracker as it was.
pub proof fn lemma_plain_total<T: GetSize>(value: &T, before: Visited, bytes: nat, after: Visited)
    requires
        plain(value),
        sized(value, before, bytes, after),
    ensures
        bytes == size_of::<T>(),
        after == before,
{
}

/// Every value of these types owns nothing on the heap: its heap size is 0
/// and its total size is the size of its type.
pub proof fn lemma_primitives_are_plain()
    ensures
        forall|value: ()| #[trigger] plain(&value),
        forall|value: bool| #[trigger] plain(&value),
        forall|value: u8| #[trigger] plain(&value),
        forall|value: u16| #[trigger] plain(&value),
        forall|value: u32| #[trigger] plain(&value),
        forall|value: u64| #[trigger] plain(&value),
        forall|value: u128| #[trigger] plain(&value),
        forall|value: usize| #[trigger] plain(&value),
        forall|value: i8| #[trigger] plain(&value),
        forall|value: i16| #[trigger] plain(&value),
        forall|value: i32| #[trigger] plain(&value),
        forall|value: i64| #[trigger] plain(&value),
        forall|value: i128| #[trigger] plain(&value),
        forall|value: isize| #[trigger] plain(&value),
        forall|value: char| #[trigger] plain(&value),
        forall|value: AtomicBool| #[trigger] plain(&value),
        forall|value: AtomicI8| #[trigger] plain(&value),
        forall|value: AtomicI16| #[trigger] plain(&value),
        forall|value: AtomicI32| #[trigger] plain(&value),
        forall|value: AtomicI64| #[trigger] plain(&value),
        forall|value: AtomicIsize| #[trigger] plain(&value),
        forall|value: AtomicU8| #[trigger] plain(&value),
        forall|value: AtomicU16| #[trigger] plain(&value),
        forall|value: AtomicU32| #[trigger] plain(&value),
        forall|value: AtomicU64| #[trigger] plain(&value),
        forall|value: AtomicUsize| #[trigger] plain(&value),
        forall|value: Infallible| #[trigger] plain(&value),
        forall|value: PhantomPinned| #[trigger] plain(&value),
        forall|value: Instant| #[trigger] plain(&value),
        forall|value: Duration| #[trigger] plain(&value),
        forall|value: SystemTime| #[trigger] plain(&value),
        forall|value: &str| #[trigger] plain(&value),
{
}

/// A marker for a type owns nothing on the heap.
pub proof fn lemma_markers_are_plain<T>()
    ensures
        forall|value: PhantomData<T>| #[trigger] plain(&value),
{
}

/// A reference owns nothing on the heap: what it refers to is not counted.
pub proof fn lemma_references_are_plain<T>()
    ensures
        forall|value: &T| #[trigger] plain(&value),
        forall|value: &mut T| #[trigger] plain(&value),
{
}

/// A borrowed slice owns nothing on the heap.
pub proof fn lemma_borrowed_slices_are_plain<T: GetSize>()
    ensures
        forall|value: &[T]| #[trigger] plain(&value),
{
}

// The unit value, truth values, integers and characters.
impl GetSize for () {
    fn get_heap_size<Tr: GetSizeTracker>(&self, tracker: &mut Tr) -> (n: usize)
        ensures
            n == 0,
            final(tracker).visited() == old(tracker).visited(),
    {
        assert(self.heap_outcome(tracker.visited(), 0, tracker.visited()));
        held_in_place(self, tracker)
    }
}

impl GetSize for bool {
    fn get_heap_size<Tr: GetSizeTracker>(&self, tracker: &mut Tr) -> (n: usize)
        ensures
            n == 0,
            final(tracker).visited() == old(tracker).visited(),
    {
        assert(self.heap_outcome(tracker.visited(), 0, tracker.visited()));
        held_in_place(self, tracker)
    }
}

impl GetSize for u8 {
    fn get_heap_size<Tr: GetSizeTracker>(&self, tracker: &mut Tr) -> (n: usize)
        ensures
            n == 0,
            final(tracker).visited() == old(tracker).visited(),
    {
        assert(self.heap_outcome(tracker.visited(), 0, tracker.visited()));
        held_in_place(self, tracker)
    }
}

impl GetSize for u16 {
    fn get_heap_size<Tr: GetSizeTracker>(&self, tracker: &mut Tr) -> (n: usize)
        ensures
            n == 0,
            final(tracker).visited() == old(tracker).visited(),
    {
        assert(self.heap_outcome(tracker.visited(), 0, tracker.visited()));
        held_in_place(self, tracker)
    }
}

impl GetSize for u32 {
    fn get_heap_size<Tr: GetSizeTracker>(&self, tracker: &mut Tr) -> (n: usize)
        ensures
            n == 0,
            final(tracker).visited() == old(tracker).visited(),
    {
        assert(self.heap_outcome(tracker.visited(), 0, tracker.visited()));
        held_in_place(self, tracker)
    }
}

impl GetSize for u64 {
    fn get_heap_size<Tr: GetSizeTracker>(&self, tracker: &mut Tr) -> (n: usize)
        ensures
            n == 0,
            final(tracker).visited() == old(tracker).visited(),
    {
        assert(self.heap_outcome(tracker.visited(), 0, tracker.visited()));
        held_in_place(self, tracker)
    }
}

impl GetSize for u128 {
    fn get_heap_size<Tr: GetSizeTracker>(&self, tracker: &mut Tr) -> (n: usize)
        ensures
            n == 0,
            final(tracker).visited() == old(tracker).visited(),
    {
        assert(self.heap_outcome(tracker.visited(), 0, tracker.visited()));
        held_in_place(self, tracker)
    }
}

impl GetSize for usize {
    fn get_heap_size<Tr: GetSizeTracker>(&self, tracker: &mut Tr) -> (n: usize)
        ensures
            n == 0,
            final(tracker).visited() == old(tracker).visited(),
    {
        assert(self.heap_outcome(tracker.visited(), 0, tracker.visited()));
        held_in_place(self, tracker)
    }
}

impl GetSize for i8 {
    fn get_heap_size<Tr: GetSizeTracker>(&self, tracker: &mut Tr) -> (n: usize)
        ensures
            n == 0,
            final(tracker).visited() == old(tracker).visited(),
    {
        assert(self.heap_outcome(tracker.visited(), 0, tracker.visited()));
        held_in_place(self, tracker)
    }
}

impl GetSize for i16 {
    fn get_heap_size<Tr: GetSizeTracker>(&self, tracker: &mut Tr) -> (n: usize)
        ensures
            n == 0,
            final(tracker).visited() == old(tracker).visited(),
    {
        assert(self.heap_outcome(tracker.visited(), 0, tracker.visited()));
        held_in_place(self, tracker)
    }
}

impl GetSize for i32 {
    fn get_heap_size<Tr: GetSizeTracker>(&self, tracker: &mut Tr) -> (n: usize)
        ensures
            n == 0,
            final(tracker).visited() == old(tracker).visited(),
    {
        assert(self.heap_outcome(tracker.visited(), 0, tracker.visited()));
        held_in_place(self, tracker)
    }
}

impl GetSize for i64 {
    fn get_heap_size<Tr: GetSizeTracker>(&self, tracker: &mut Tr) -> (n: usize)
        ensures
            n == 0,
            final(tracker).visited() == old(tracker).visited(),
    {
        assert(self.heap_outcome(tracker.visited(), 0, tracker.visited()));
        held_in_place(self, tracker)
    }
}

impl GetSize for i128 {
    fn get_heap_size<Tr: GetSizeTracker>(&self, tracker: &mut Tr) -> (n: usize)
        ensures
            n == 0,
            final(tracker).visited() == old(tracker).visited(),
    {
        assert(self.heap_outcome(tracker.visited(), 0, tracker.visited()));
        held_in_place(self, tracker)
    }
}

impl GetSize for isize {
    fn get_heap_size<Tr: GetSizeTracker>(&self, tracker: &mut Tr) -> (n: usize)
        ensures
            n == 0,
            final(tracker).visited() == old(tracker).visited(),
    {
        assert(self.heap_outcome(tracker.visited(), 0, tracker.visited()));
        held_in_place(self, tracker)
    }
}

impl GetSize for char {
    fn get_heap_size<Tr: GetSizeTracker>(&self, tracker: &mut Tr) -> (n: usize)
        ensures
            n == 0,
            final(tracker).visited() == old(tracker).visited(),
    {
        assert(self.heap_outcome(tracker.visited(), 0, tracker.visited()));
        held_in_place(self, tracker)
    }
}

// Atomic values are held in place.
impl GetSize for AtomicBool {
    fn get_heap_size<Tr: GetSizeTracker>(&self, tracker: &mut Tr) -> (n: usize)
        ensures
            n == 0,
            final(tracker).visited() == old(tracker).visited(),
    {
        assert(self.heap_outcome(tracker.visited(), 0, tracker.visited()));
        held_in_place(self, tracker)
    }
}

impl GetSize for AtomicI8 {
    fn get_heap_size<Tr: GetSizeTracker>(&self, tracker: &mut Tr) -> (n: usize)
        ensures
            n == 0,
            final(tracker).visited() == old(tracker).visited(),
    {
        assert(self.heap_outcome(tracker.visited(), 0, tracker.visited()));
        held_in_place(self, tracker)
    }
}

impl GetSize for AtomicI16 {
    fn get_heap_size<Tr: GetSizeTracker>(&self, tracker: &mut Tr) -> (n: usize)
        ensures
            n == 0,
            final(tracker).visited() == old(tracker).visited(),
    {
        assert(self.heap_outcome(tracker.visited(), 0, tracker.visited()));
        held_in_place(self, tracker)
    }
}

impl GetSize for AtomicI32 {
    fn get_heap_size<Tr: GetSizeTracker>(&self, tracker: &mut Tr) -> (n: usize)
        ensures
            n == 0,
            final(tracker).visited() == old(tracker).visited(),
    {
        assert(self.heap_outcome(tracker.visited(), 0, tracker.visited()));
        held_in_place(self, tracker)
    }
}

impl GetSize for AtomicI64 {
    fn get_heap_size<Tr: GetSizeTracker>(&self, tracker: &mut Tr) -> (n: usize)
        ensures
            n == 0,
            final(tracker).visited() == old(tracker).visited(),
    {
        assert(self.heap_outcome(tracker.visited(), 0, tracker.visited()));
        held_in_place(self, tracker)
    }
}

impl GetSize for AtomicIsize {
    fn get_heap_size<Tr: GetSizeTracker>(&self, tracker: &mut Tr) -> (n: usize)
        ensures
            n == 0,
            final(tracker).visited() == old(tracker).visited(),
    {
        assert(self.heap_outcome(tracker.visited(), 0, tracker.visited()));
        held_in_place(self, tracker)
    }
}

impl GetSize for AtomicU8 {
    fn get_heap_size<Tr: GetSizeTracker>(&self, tracker: &mut Tr) -> (n: usize)
        ensures
            n == 0,
            final(tracker).visited() == old(tracker).visited(),
    {
        assert(self.heap_outcome(tracker.visited(), 0, tracker.visited()));
        held_in_place(self, tracker)
    }
}

impl GetSize for AtomicU16 {
    fn get_heap_size<Tr: GetSizeTracker>(&self, tracker: &mut Tr) -> (n: usize)
        ensures
            n == 0,
            final(tracker).visited() == old(tracker).visited(),
    {
        assert(self.heap_outcome(tracker.visited(), 0, tracker.visited()));
        held_in_place(self, tracker)
    }
}

impl GetSize for AtomicU32 {
    fn get_heap_size<Tr: GetSizeTracker>(&self, tracker: &mut Tr) -> (n: usize)
        ensures
            n == 0,
            final(tracker).visited() == old(tracker).visited(),
    {
        assert(self.heap_outcome(tracker.visited(), 0, tracker.visited()));
        held_in_place(self, tracker)
    }
}

impl GetSize for AtomicU64 {
    fn get_heap_size<Tr: GetSizeTracker>(&self, tracker: &mut Tr) -> (n: usize)
        ensures
            n == 0,
            final(tracker).visited() == old(tracker).visited(),
    {
        assert(self.heap_outcome(tracker.visited(), 0, tracker.visited()));
        held_in_place(self, tracker)
    }
}

impl GetSize for AtomicUsize {
    fn get_heap_size<Tr: GetSizeTracker>(&self, tracker: &mut Tr) -> (n: usize)
        ensures
            n == 0,
            final(tracker).visited() == old(tracker).visited(),
    {
        assert(self.heap_outcome(tracker.visited(), 0, tracker.visited()));
        held_in_place(self, tracker)
    }
}

// Markers and the type without values.
impl GetSize for Infallible {
    fn get_heap_size<Tr: GetSizeTracker>(&self, tracker: &mut Tr) -> (n: usize)
        ensures
            n == 0,
            final(tracker).visited() == old(tracker).visited(),
    {
        assert(self.heap_outcome(tracker.visited(), 0, tracker.visited()));
        held_in_place(self, tracker)
    }
}

impl<T> GetSize for PhantomData<T> {
    fn get_heap_size<Tr: GetSizeTracker>(&self, tracker: &mut Tr) -> (n: usize)
        ensures
            n == 0,
            final(tracker).visited() == old(tracker).visited(),
    {
        assert(self.heap_outcome(tracker.visited(), 0, tracker.visited()));
        held_in_place(self, tracker)
    }
}

impl GetSize for PhantomPinned {
    fn get_heap_size<Tr: GetSizeTracker>(&self, tracker: &mut Tr) -> (n: usize)
        ensures
            n == 0,
            final(tracker).visited() == old(tracker).visited(),
    {
        assert(self.heap_outcome(tracker.visited(), 0, tracker.visited()));
        held_in_place(self, tracker)
    }
}

// Points in time and spans of time.
impl GetSize for Instant {
    fn get_heap_size<Tr: GetSizeTracker>(&self, tracker: &mut Tr) -> (n: usize)
        ensures
            n == 0,
            final(tracker).visited() == old(tracker).visited(),
    {
        assert(self.heap_outcome(tracker.visited(), 0, tracker.visited()));
        held_in_place(self, tracker)
    }
}

impl GetSize for Duration {
    fn get_heap_size<Tr: GetSizeTracker>(&self, tracker: &mut Tr) -> (n: usize)
        ensures
            n == 0,
            final(tracker).visited() == old(tracker).visited(),
    {
        assert(self.heap_outcome(tracker.visited(), 0, tracker.visited()));
        held_in_place(self, tracker)
    }
}

impl GetSize for SystemTime {
    fn get_heap_size<Tr: GetSizeTracker>(&self, tracker: &mut Tr) -> (n: usize)
        ensures
            n == 0,
            final(tracker).visited() == old(tracker).visited(),
    {
        assert(self.heap_outcome(tracker.visited(), 0, tracker.visited()));
        held_in_place(self, tracker)
    }
}

// A reference does not own what it refers to.
impl<T> GetSize for &T {
    fn get_heap_size<Tr: GetSizeTracker>(&self, tracker: &mut Tr) -> (n: usize)
        ensures
            n == 0,
            final(tracker).visited() == old(tracker).visited(),
    {
        assert(self.heap_outcome(tracker.visited(), 0, tracker.visited()));
        held_in_place(self, tracker)
    }
}

impl<T> GetSize for &mut T {
    fn get_heap_size<Tr: GetSizeTracker>(&self, tracker: &mut Tr) -> (n: usize)
        ensures
            n == 0,
            final(tracker).visited() == old(tracker).visited(),
    {
        assert(self.heap_outcome(tracker.visited(), 0, tracker.visited()));
        held_in_place(self, tracker)
    }
}

impl<T: GetSize> GetSize for &[T] {
    fn get_heap_size<Tr: GetSizeTracker>(&self, tracker: &mut Tr) -> (n: usize)
        ensures
            n == 0,
            final(tracker).visited() == old(tracker).visited(),
    {
        assert(self.heap_outcome(tracker.visited(), 0, tracker.visited()));
        held_in_place(self, tracker)
    }
}

impl GetSize for &str {
    fn get_heap_size<Tr: GetSizeTracker>(&self, tracker: &mut Tr) -> (n: usize)
        ensures
            n == 0,
            final(tracker).visited() == old(tracker).visited(),
    {
        assert(self.heap_outcome(tracker.visited(), 0, tracker.visited()));
        held_in_place(self, tracker)
    }
}

} // verus!
