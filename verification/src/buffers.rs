//! Sizes of text and byte buffers, and of buffered readers and writers.

use crate::size::{saturate, GetSize};
use crate::tracker::{GetSizeTracker, Visited};
use std::io::BufReader;
use std::path::PathBuf;
use std::sync::Arc;
use vstd::prelude::*;
use vstd::utf8::encode_utf8;

verus! {

/// An owned path, `std::path::PathBuf`. The bytes that it holds are named by
/// [`path_bytes`].
#[verifier::external_type_specification]
#[verifier::external_body]
pub struct ExPathBuf(std::path::PathBuf);

/// The bytes that `path` holds: its text in the encoding of the platform.
pub uninterp spec fn path_bytes(path: PathBuf) -> Seq<u8>;

/// A reader with a buffer, `std::io::BufReader`. Nothing is said of what it
/// holds.
#[verifier::external_type_specification]
#[verifier::external_body]
#[verifier::reject_recursive_types(R)]
pub struct ExBufReader<R: ?Sized>(std::io::BufReader<R>);

/// The bytes that the text's buffer has room for. Calls `String::capacity`;
/// the standard library keeps the capacity at or above the length in bytes.
#[verifier::external_body]
fn string_capacity(text: &String) -> (capacity: usize)
    ensures
        capacity >= encode_utf8(text@).len(),
{
    text.capacity()
}

/// The bytes that the path's buffer has room for. Calls `PathBuf::capacity`;
/// the buffer holds the path, so its room is at least the path's length in
/// bytes.
#[verifier::external_body]
fn path_capacity(path: &PathBuf) -> (capacity: usize)
    ensures
        capacity >= path_bytes(*path).len(),
{
    path.capacity()
}

/// The address of the allocation that `text` shares. Calls `Arc::as_ptr`.
#[verifier::external_body]
fn text_address(text: &Arc<str>) -> (address: usize) {
    Arc::as_ptr(text).addr()
}

/// The reader that `reader` reads from. Calls `BufReader::get_ref`.
#[verifier::external_body]
fn reader_source<T>(reader: &BufReader<T>) -> (source: &T) {
    reader.get_ref()
}

/// The bytes that the reader's buffer has room for. Calls
/// `BufReader::capacity`.
#[verifier::external_body]
fn reader_capacity<T>(reader: &BufReader<T>) -> (capacity: usize) {
    reader.capacity()
}

/// The length of a text in bytes, as the machine reports it.
pub open spec fn text_length(text: Seq<char>) -> usize {
    encode_utf8(text).len() as usize
}

impl GetSize for String {
    /// Some number of bytes that is at least the text's length in bytes: the
    /// room of the text's buffer.
    open spec fn heap_outcome(&self, before: Visited, bytes: nat, after: Visited) -> bool {
        encode_utf8(self@).len() <= bytes <= usize::MAX && after == before
    }

    fn get_heap_size<Tr: GetSizeTracker>(&self, tracker: &mut Tr) -> (n: usize)
        ensures
            n >= encode_utf8(self@).len(),
            final(tracker).visited() == old(tracker).visited(),
    {
        let capacity = string_capacity(self);
        assert(self.heap_outcome(tracker.visited(), capacity as nat, tracker.visited()));
        capacity
    }
}

impl GetSize for Box<str> {
    /// The length of the text in bytes.
    open spec fn heap_outcome(&self, before: Visited, bytes: nat, after: Visited) -> bool {
        bytes == text_length(self@) && after == before
    }

    fn get_heap_size<Tr: GetSizeTracker>(&self, tracker: &mut Tr) -> (n: usize)
        ensures
            n == text_length(self@),
            final(tracker).visited() == old(tracker).visited(),
    {
        let length = self.len();
        assert(self.heap_outcome(tracker.visited(), length as nat, tracker.visited()));
        length
    }
}

/// What measuring a shared text at `address` can yield: the first visit
/// counts the length of the text in bytes, every later visit counts nothing.
pub open spec fn shared_text_outcome(
    address: usize,
    text: Seq<char>,
    before: Visited,
    bytes: nat,
    after: Visited,
) -> bool {
    after == before.track(address) && bytes == if before.is_new(address) {
        text_length(text)
    } else {
        0
    }
}

/// Measures a reference to the shared text `text` in the allocation at
/// `address`.
pub fn shared_text_size<Tr: GetSizeTracker>(address: usize, text: &str, tracker: &mut Tr) -> (n:
    usize)
    ensures
        shared_text_outcome(
            address,
            text@,
            old(tracker).visited(),
            n as nat,
            final(tracker).visited(),
        ),
{
    if tracker.track(address) {
        text.len()
    } else {
        0
    }
}

impl GetSize for Arc<str> {
    /// The outcome for the text at some address. That the address is that
    /// of this allocation is not stated.
    open spec fn heap_outcome(&self, before: Visited, bytes: nat, after: Visited) -> bool {
        exists|address: usize| #[trigger] shared_text_outcome(address, self@, before, bytes, after)
    }

    fn get_heap_size<Tr: GetSizeTracker>(&self, tracker: &mut Tr) -> (n: usize) {
        let ghost before = tracker.visited();
        let address = text_address(self);
        let size = shared_text_size(address, self, tracker);
        proof {
            assert(shared_text_outcome(address, self@, before, size as nat, tracker.visited()));
            assert(self.heap_outcome(before, size as nat, tracker.visited()));
        }
        size
    }
}

impl GetSize for PathBuf {
    /// Some number of bytes that is at least the path's length in bytes: the
    /// room of the path's buffer.
    open spec fn heap_outcome(&self, before: Visited, bytes: nat, after: Visited) -> bool {
        path_bytes(*self).len() <= bytes <= usize::MAX && after == before
    }

    fn get_heap_size<Tr: GetSizeTracker>(&self, tracker: &mut Tr) -> (n: usize)
        ensures
            n >= path_bytes(*self).len(),
            final(tracker).visited() == old(tracker).visited(),
    {
        let capacity = path_capacity(self);
        assert(self.heap_outcome(tracker.visited(), capacity as nat, tracker.visited()));
        capacity
    }
}

/// The heap size of a buffered reader or writer: that of what it reads from
/// or writes to, and the room of its buffer.
pub open spec fn buffered_outcome<T: GetSize>(
    inner: &T,
    capacity: nat,
    before: Visited,
    bytes: nat,
    after: Visited,
) -> bool {
    bytes >= capacity && inner.heap_outcome(before, (bytes - capacity) as nat, after)
}

/// Measures a buffered reader or writer from what it reads from or writes
/// to, and the room of its buffer.
pub fn buffered_size<T: GetSize, Tr: GetSizeTracker>(inner: &T, capacity: usize, tracker: &mut Tr) -> (n:
    usize)
    ensures
        old(tracker).visited().within(final(tracker).visited()),
        exists|bytes: nat| #[trigger]
            buffered_outcome(
                inner,
                capacity as nat,
                old(tracker).visited(),
                bytes,
                final(tracker).visited(),
            ) && n == saturate(bytes),
{
    let ghost before = tracker.visited();
    let mut total = inner.get_heap_size(tracker);
    proof {
        let heap = choose|heap: nat| #[trigger]
            inner.heap_outcome(before, heap, tracker.visited()) && total == saturate(heap);
        assert(buffered_outcome(
            inner,
            capacity as nat,
            before,
            heap + capacity as nat,
            tracker.visited(),
        ));
    }
    total = total.saturating_add(capacity);
    total
}

impl<T: GetSize> GetSize for BufReader<T> {
    /// The heap size of some source and the room of some buffer. That they
    /// are the source and the buffer of this reader is not stated.
    open spec fn heap_outcome(&self, before: Visited, bytes: nat, after: Visited) -> bool {
        exists|inner: T, capacity: nat| #[trigger]
            buffered_outcome(&inner, capacity, before, bytes, after) && capacity <= usize::MAX
    }

    fn get_heap_size<Tr: GetSizeTracker>(&self, tracker: &mut Tr) -> (n: usize) {
        let ghost before = tracker.visited();
        let source = reader_source(self);
        let capacity = reader_capacity(self);
        let size = buffered_size(source, capacity, tracker);
        proof {
            let bytes = choose|bytes: nat| #[trigger]
                buffered_outcome(source, capacity as nat, before, bytes, tracker.visited()) && size
                    == saturate(bytes);
            assert(buffered_outcome(source, capacity as nat, before, bytes, tracker.visited()));
            assert(self.heap_outcome(before, bytes, tracker.visited()));
        }
        size
    }
}

} // verus!
