use get_size::buffers::{buffered_size, shared_text_size};
use get_size::containers::{
    elements_size, entries_size, heaps_size, map_size, referents_sequence_size, referents_size,
    sequence_size,
};
use get_size::owners::{shared_heap_size, weak_heap_size};
use get_size::primitives::held_in_place;
use get_size::{GetSize, GetSizeNoTracker, GetSizeTracker, StandardTracker};
use indexmap::{IndexMap, IndexSet};
use std::borrow::Cow;
use std::collections::{BTreeMap, BTreeSet, HashMap, HashSet, VecDeque};
use std::io::{BufReader, Read};
use std::marker::PhantomData;
use std::mem::size_of;
use std::path::PathBuf;
use std::rc::Rc;
use std::sync::atomic::{AtomicBool, AtomicU64};
use std::sync::{Arc, Mutex, RwLock};
use std::time::{Duration, Instant, SystemTime};

fn heap<T: GetSize>(value: &T) -> usize {
    value.get_heap_size(&mut StandardTracker::new())
}

fn total<T: GetSize>(value: &T) -> usize {
    value.get_size(&mut StandardTracker::new())
}

fn plain<T: GetSize>(value: T) {
    assert_eq!(heap(&value), 0);
    assert_eq!(total(&value), size_of::<T>());
    assert_eq!(T::get_stack_size(), size_of::<T>());
    assert_eq!(value.get_heap_size(&mut GetSizeNoTracker), 0);
}

#[test]
fn primitive_values_own_nothing_on_the_heap() {
    plain(());
    plain(true);
    plain(7u8);
    plain(7u16);
    plain(7u32);
    plain(7u64);
    plain(7u128);
    plain(7usize);
    plain(-7i8);
    plain(-7i16);
    plain(-7i32);
    plain(-7i64);
    plain(-7i128);
    plain(-7isize);
    plain('x');
    plain(AtomicBool::new(true));
    plain(AtomicU64::new(7));
    plain(PhantomData::<String>);
    plain(Duration::from_secs(7));
    plain(Instant::now());
    plain(SystemTime::now());
    assert_eq!(u64::get_stack_size(), 8);
    assert_eq!(total(&7u32), 4);
}

#[test]
fn references_do_not_count_what_they_refer_to() {
    let text = String::from("Hello");
    let mut number = 7u64;
    let items = vec![text.clone(), text.clone()];
    plain(&text);
    plain("Hello world!");
    plain(items.as_slice());
    plain(&mut number);
}

#[test]
fn text_counts_the_room_of_its_buffer() {
    let hello = String::from("Hello");
    assert_eq!(heap(&hello), 5);
    assert_eq!(total(&hello), size_of::<String>() + 5);

    let mut roomy = String::with_capacity(100);
    roomy.push_str("Hello");
    assert_eq!(heap(&roomy), roomy.capacity());
    assert!(heap(&roomy) >= 100);

    assert_eq!(heap(&String::new()), 0);
}

#[test]
fn boxed_and_shared_text_count_their_length() {
    let boxed: Box<str> = "Grüße".into();
    assert_eq!(heap(&boxed), 7);

    let shared: Arc<str> = "Hello".into();
    let pair = (shared.clone(), shared.clone());
    assert_eq!(heap(&shared), 5);
    assert_eq!(heap(&pair), 5);
    assert_eq!(pair.get_heap_size(&mut GetSizeNoTracker), 10);

    let mut tracker = StandardTracker::new();
    assert_eq!(shared_text_size(64, "Hello", &mut tracker), 5);
    assert_eq!(shared_text_size(64, "Hello", &mut tracker), 0);
    assert_eq!(shared_text_size(128, "Grüße", &mut tracker), 7);
}

#[test]
fn path_counts_the_room_of_its_buffer() {
    let path = PathBuf::from("/tmp/some/file");
    assert_eq!(heap(&path), path.capacity());
    assert!(heap(&path) >= 14);
}

#[test]
fn vectors_count_elements_in_full_and_unused_slots_in_place() {
    let numbers: Vec<u32> = vec![1, 2, 3, 4];
    assert_eq!(heap(&numbers), 16);

    let mut roomy: Vec<u16> = Vec::with_capacity(10);
    roomy.extend([1, 2, 3]);
    assert_eq!(heap(&roomy), roomy.capacity() * 2);

    let texts = vec![String::from("Hello"), String::from("World!")];
    assert_eq!(heap(&texts), 2 * size_of::<String>() + 5 + 6);

    let mut roomy_texts: Vec<String> = Vec::with_capacity(5);
    roomy_texts.push("Hello".into());
    assert_eq!(heap(&roomy_texts), roomy_texts.capacity() * size_of::<String>() + 5);

    let empty: Vec<u64> = Vec::new();
    assert_eq!(heap(&empty), 0);
    assert_eq!(total(&empty), size_of::<Vec<u64>>());

    let nested = vec![vec![1u8, 2, 3], vec![4u8]];
    assert_eq!(heap(&nested), 2 * size_of::<Vec<u8>>() + 3 + 1);
}

#[test]
fn sequence_size_follows_the_formula() {
    let items = [String::from("ab"), String::from("cde")];
    let stack = size_of::<String>();
    let mut tracker = StandardTracker::new();
    assert_eq!(elements_size(&items, &mut tracker), 2 * stack + 5);
    assert_eq!(sequence_size(&items, 2, &mut tracker), 2 * stack + 5);
    assert_eq!(sequence_size(&items, 7, &mut tracker), 7 * stack + 5);
    // A capacity below the length leaves no slot unused.
    assert_eq!(sequence_size(&items, 0, &mut tracker), 2 * stack + 5);
    assert_eq!(heaps_size(&items, &mut tracker), 5);

    let references: Vec<&String> = items.iter().collect();
    assert_eq!(referents_size(&references, &mut tracker), 2 * stack + 5);
    assert_eq!(referents_sequence_size(&references, 4, &mut tracker), 4 * stack + 5);
    let none: [&String; 0] = [];
    assert_eq!(referents_sequence_size(&none, 3, &mut tracker), 3 * stack);
}

#[test]
fn sizes_that_do_not_fit_a_word_are_reported_as_the_largest_word() {
    let items = [1u64, 2, 3];
    let mut tracker = StandardTracker::new();
    assert_eq!(sequence_size(&items, usize::MAX, &mut tracker), usize::MAX);
    assert_eq!(sequence_size(&items, usize::MAX / 8 + 3, &mut tracker), usize::MAX);
    assert_eq!(sequence_size(&items, usize::MAX / 8, &mut tracker), (usize::MAX / 8) * 8);
    let key = 1u64;
    let value = 2u64;
    assert_eq!(map_size(&[(&key, &value)], usize::MAX / 16 + 2, &mut tracker), usize::MAX);
    assert_eq!(buffered_size(&String::from("Hello"), usize::MAX, &mut tracker), usize::MAX);
    assert_eq!(buffered_size(&String::from("Hello"), usize::MAX - 5, &mut tracker), usize::MAX);
    assert_eq!(buffered_size(&String::from("Hello"), usize::MAX - 6, &mut tracker), usize::MAX - 1);
}

#[test]
fn deques_count_like_vectors() {
    let mut deque: VecDeque<String> = VecDeque::with_capacity(6);
    deque.push_back("World".into());
    deque.push_front("Hello!".into());
    assert_eq!(heap(&deque), deque.capacity() * size_of::<String>() + 11);
    let numbers: VecDeque<u32> = VecDeque::from(vec![1, 2, 3]);
    assert_eq!(heap(&numbers), numbers.capacity() * 4);
}

#[test]
fn hash_collections_count_entries_in_full_and_unused_room_in_place() {
    let mut set: HashSet<String> = HashSet::new();
    assert_eq!(heap(&set), 0);
    set.insert("Hello".into());
    set.insert("World!".into());
    assert_eq!(heap(&set), set.capacity() * size_of::<String>() + 11);

    let mut map: HashMap<u32, String> = HashMap::new();
    assert_eq!(heap(&map), 0);
    map.insert(1, "Hello".into());
    map.insert(2, "ab".into());
    map.insert(3, "".into());
    assert_eq!(heap(&map), map.capacity() * (4 + size_of::<String>()) + 7);
}

#[test]
fn ordered_collections_count_entries_in_full() {
    let mut set: BTreeSet<String> = BTreeSet::new();
    assert_eq!(heap(&set), 0);
    set.insert("Hello".into());
    set.insert("World!".into());
    assert_eq!(heap(&set), 2 * size_of::<String>() + 11);

    let mut map: BTreeMap<u16, Vec<u8>> = BTreeMap::new();
    map.insert(1, vec![1, 2, 3]);
    map.insert(2, vec![]);
    assert_eq!(heap(&map), 2 * (2 + size_of::<Vec<u8>>()) + 3);
}

#[test]
fn map_size_follows_the_formula() {
    let first = (String::from("a"), 1u32);
    let second = (String::from("bcd"), 2u32);
    let entries = [(&first.0, &first.1), (&second.0, &second.1)];
    let each = size_of::<String>() + 4;
    let mut tracker = StandardTracker::new();
    assert_eq!(entries_size(&entries, &mut tracker), 2 * each + 4);
    assert_eq!(map_size(&entries, 2, &mut tracker), 2 * each + 4);
    assert_eq!(map_size(&entries, 5, &mut tracker), 5 * each + 4);
    assert_eq!(map_size(&entries, 1, &mut tracker), 2 * each + 4);
}

#[test]
fn insertion_ordered_collections_count_like_hash_collections() {
    let mut map: IndexMap<String, u64> = IndexMap::new();
    assert_eq!(heap(&map), 0);
    map.insert("Hello".into(), 1);
    map.insert("ab".into(), 2);
    assert_eq!(heap(&map), map.capacity() * (size_of::<String>() + 8) + 7);

    let mut set: IndexSet<u32> = IndexSet::new();
    set.insert(1);
    set.insert(2);
    set.insert(3);
    assert_eq!(heap(&set), set.capacity() * 4);
}

#[test]
fn arrays_and_boxed_slices() {
    let array = [String::from("Hello"), String::from("ab")];
    assert_eq!(heap(&array), 7);
    assert_eq!(total(&array), 2 * size_of::<String>() + 7);
    assert_eq!(heap(&[1u64; 27]), 0);
    let none: [String; 0] = [];
    assert_eq!(heap(&none), 0);

    let boxed: Box<[String]> = vec![String::from("Hello"), String::from("ab")].into_boxed_slice();
    assert_eq!(heap(&boxed), 2 * size_of::<String>() + 7);
    let numbers: Box<[u32]> = vec![1, 2, 3].into_boxed_slice();
    assert_eq!(heap(&numbers), 12);
}

#[test]
fn tuples_sum_the_heap_sizes_of_their_positions() {
    let s = |text: &str| String::from(text);
    assert_eq!(heap(&(s("Hello"),)), 5);
    assert_eq!(heap(&(1u8, s("Hello"), vec![1u32, 2])), 13);
    assert_eq!(total(&(s("ab"), 7u64)), size_of::<(String, u64)>() + 2);
    let sixteen = (
        s("a"),
        s("bb"),
        s("ccc"),
        1u8,
        s("dddd"),
        2u16,
        s("e"),
        s("f"),
        3u32,
        s("g"),
        s("h"),
        s("i"),
        4u64,
        s("j"),
        s("k"),
        vec![1u8, 2, 3],
    );
    assert_eq!(heap(&sixteen), 1 + 2 + 3 + 4 + 7 + 3);
}

#[test]
fn boxes_count_the_pointee_in_full() {
    assert_eq!(heap(&Box::new(7u64)), 8);
    assert_eq!(heap(&Box::new(String::from("Hello"))), size_of::<String>() + 5);
    assert_eq!(total(&Box::new([1u32; 4])), size_of::<Box<[u32; 4]>>() + 16);
}

#[test]
fn options_results_and_borrowed_or_owned_values() {
    assert_eq!(heap(&Some(String::from("Hello"))), 5);
    assert_eq!(heap(&None::<String>), 0);
    assert_eq!(total(&None::<String>), size_of::<Option<String>>());

    let ok: Result<String, Vec<u32>> = Ok("Hello".into());
    let err: Result<String, Vec<u32>> = Err(vec![1, 2]);
    assert_eq!(heap(&ok), 5);
    assert_eq!(heap(&err), 8);

    let text = String::from("Hello");
    let borrowed: Cow<'_, String> = Cow::Borrowed(&text);
    let owned: Cow<'_, String> = Cow::Owned(text.clone());
    assert_eq!(heap(&borrowed), 0);
    assert_eq!(heap(&owned), 5);
    let owned_list: Cow<'_, Vec<u16>> = Cow::Owned(vec![1, 2, 3]);
    assert_eq!(heap(&owned_list), 6);
}

#[test]
fn shared_allocations_count_once_in_a_measurement() {
    let once = size_of::<String>() + 5;
    let shared = Rc::new(String::from("Hello"));
    let owners = vec![shared.clone(), shared.clone(), shared.clone()];
    let pointers = 3 * size_of::<Rc<String>>();

    assert_eq!(heap(&shared), once);
    assert_eq!(heap(&owners), pointers + once);
    // Each measurement of its own counts the allocation again.
    assert_eq!(heap(&owners), pointers + once);
    assert_eq!(owners.get_heap_size(&mut GetSizeNoTracker), pointers + 3 * once);

    let mut tracker = StandardTracker::new();
    assert_eq!(shared.get_heap_size(&mut tracker), once);
    assert_eq!(shared.get_heap_size(&mut tracker), 0);
    assert_eq!(owners.get_heap_size(&mut tracker), pointers);

    let other = Rc::new(String::from("Hello"));
    assert_eq!(heap(&(shared.clone(), other.clone(), shared.clone())), 2 * once);

    let atomic = Arc::new(vec![1u64, 2, 3]);
    let both = (atomic.clone(), atomic.clone());
    assert_eq!(heap(&both), size_of::<Vec<u64>>() + 24);
    assert_eq!(both.get_heap_size(&mut GetSizeNoTracker), 2 * (size_of::<Vec<u64>>() + 24));
}

#[test]
fn shared_heap_size_decides_by_the_address() {
    let text = String::from("Hello");
    let once = size_of::<String>() + 5;
    let mut tracker = StandardTracker::new();
    assert_eq!(shared_heap_size(4096, &text, &mut tracker), once);
    assert_eq!(shared_heap_size(4096, &text, &mut tracker), 0);
    assert_eq!(shared_heap_size(8192, &text, &mut tracker), once);
    assert_eq!(shared_heap_size(4096, &7u8, &mut tracker), 0);
    assert_eq!(shared_heap_size(4096, &text, &mut GetSizeNoTracker), once);
    assert_eq!(shared_heap_size(4096, &text, &mut GetSizeNoTracker), once);
}

#[test]
fn every_set_of_addresses_is_a_tracker() {
    let shared = Rc::new(7u64);
    let pair = (shared.clone(), shared.clone());

    let mut ordered: BTreeSet<usize> = BTreeSet::new();
    assert_eq!(pair.get_heap_size(&mut ordered), 8);
    assert_eq!(ordered.len(), 1);
    assert!(ordered.contains(&(Rc::as_ptr(&shared) as usize)));
    assert!(!ordered.track(Rc::as_ptr(&shared) as usize));
    assert!(ordered.track(1));
    assert!(!ordered.track(1));

    let mut hashed: HashSet<usize> = HashSet::new();
    assert_eq!(pair.get_heap_size(&mut hashed), 8);
    assert!(hashed.track(1));
    assert!(!hashed.track(1));

    let mut standard = StandardTracker::default();
    assert!(standard.track(1));
    assert!(standard.track(2));
    assert!(!standard.track(1));

    let mut none = GetSizeNoTracker;
    assert!(none.track(1));
    assert!(none.track(1));
}

#[test]
fn weak_references_count_a_live_target_once_and_a_freed_target_never() {
    let once = size_of::<String>() + 5;
    let strong = Rc::new(String::from("Hello"));
    let weak = Rc::downgrade(&strong);
    let address = weak.as_ptr() as usize;

    let mut tracker = StandardTracker::new();
    assert_eq!(weak_heap_size(address, weak.upgrade().as_deref(), &mut tracker), once);
    assert_eq!(weak_heap_size(address, weak.upgrade().as_deref(), &mut tracker), 0);
    // The strong reference shares the allocation that was counted.
    assert_eq!(strong.get_heap_size(&mut tracker), 0);

    let mut tracker = StandardTracker::new();
    assert_eq!(strong.get_heap_size(&mut tracker), once);
    assert_eq!(weak_heap_size(address, weak.upgrade().as_deref(), &mut tracker), 0);

    drop(strong);
    assert!(weak.upgrade().is_none());
    let mut tracker = StandardTracker::new();
    assert_eq!(weak_heap_size(address, weak.upgrade().as_deref(), &mut tracker), 0);
    assert!(!tracker.track(address));
    assert_eq!(weak_heap_size::<String, _>(address, None, &mut GetSizeNoTracker), 0);

    let atomic = Arc::new(7u64);
    let weak = Arc::downgrade(&atomic);
    let mut tracker = StandardTracker::new();
    assert_eq!(
        weak_heap_size(weak.as_ptr() as usize, weak.upgrade().as_deref(), &mut tracker),
        8
    );
}

struct Node {
    name: String,
    next: Mutex<Option<Rc<Node>>>,
}

impl GetSize for Node {
    fn get_heap_size<Tr: GetSizeTracker>(&self, tracker: &mut Tr) -> usize {
        self.name.get_heap_size(tracker) + self.next.get_heap_size(tracker)
    }
}

#[test]
fn cycles_of_shared_references_are_counted_once_around() {
    let first = Rc::new(Node { name: "first".into(), next: Mutex::new(None) });
    let second = Rc::new(Node { name: "second".into(), next: Mutex::new(Some(first.clone())) });
    *first.next.lock().unwrap() = Some(second.clone());

    let each = size_of::<Node>();
    assert_eq!(heap(&first), 2 * each + 5 + 6);
    assert_eq!(heap(&second), 2 * each + 5 + 6);
    assert_eq!(heap(&(first.clone(), second.clone())), 2 * each + 5 + 6);

    *first.next.lock().unwrap() = None;
}

#[test]
fn locks_count_what_they_guard() {
    let mutex = Mutex::new(String::from("Hello"));
    assert_eq!(heap(&mutex), 5);
    assert_eq!(total(&mutex), size_of::<Mutex<String>>() + 5);
    // The lock is free again after the measurement.
    mutex.lock().unwrap().push_str(" world, with some more room");
    assert_eq!(heap(&mutex), mutex.lock().unwrap().capacity());

    let lock = RwLock::new(vec![1u32, 2, 3]);
    let reader = lock.read().unwrap();
    assert_eq!(heap(&lock), 12);
    drop(reader);
    lock.write().unwrap().clear();
    assert_eq!(heap(&lock), lock.read().unwrap().capacity() * 4);
}

struct Source {
    bytes: Vec<u8>,
}

impl Read for Source {
    fn read(&mut self, buffer: &mut [u8]) -> std::io::Result<usize> {
        let count = buffer.len().min(self.bytes.len());
        buffer[..count].copy_from_slice(&self.bytes[..count]);
        self.bytes.drain(..count);
        Ok(count)
    }
}

impl GetSize for Source {
    fn get_heap_size<Tr: GetSizeTracker>(&self, tracker: &mut Tr) -> usize {
        self.bytes.get_heap_size(tracker)
    }
}

#[test]
fn buffered_readers_count_the_source_and_the_buffer() {
    let reader = BufReader::with_capacity(64, Source { bytes: vec![1, 2, 3, 4, 5] });
    assert_eq!(heap(&reader), 5 + 64);
    let reader = BufReader::new(Source { bytes: Vec::new() });
    assert_eq!(heap(&reader), reader.capacity());

    let mut tracker = StandardTracker::new();
    assert_eq!(buffered_size(&String::from("Hello"), 100, &mut tracker), 105);
    assert_eq!(buffered_size(&7u8, 0, &mut tracker), 0);
}

struct Record {
    text: String,
    list: Vec<Rc<String>>,
}

impl GetSize for Record {
    fn get_heap_size<Tr: GetSizeTracker>(&self, tracker: &mut Tr) -> usize {
        self.text.get_heap_size(tracker) + self.list.get_heap_size(tracker)
    }
}

#[test]
fn total_size_is_stack_size_plus_heap_size() {
    let shared = Rc::new(String::from("shared"));
    let record = Record { text: "Hello".into(), list: vec![shared.clone(), shared.clone()] };
    assert_eq!(Record::get_stack_size(), size_of::<Record>());
    assert_eq!(total(&record), Record::get_stack_size() + heap(&record));
    assert_eq!(
        record.get_size(&mut GetSizeNoTracker),
        Record::get_stack_size() + record.get_heap_size(&mut GetSizeNoTracker)
    );

    let values = vec![Some(String::from("a")), None, Some(String::from("bcd"))];
    assert_eq!(total(&values), size_of::<Vec<Option<String>>>() + heap(&values));
    assert_eq!(total(&7u8), 1 + heap(&7u8));
    assert_eq!(total(&shared), size_of::<Rc<String>>() + heap(&shared));
}

#[test]
fn what_is_held_in_place_owns_nothing_whatever_its_type() {
    let mut tracker = StandardTracker::new();
    assert!(tracker.track(64));
    assert_eq!(held_in_place(&2.5f64, &mut tracker), 0);
    assert_eq!(held_in_place(&2.5f32, &mut tracker), 0);
    assert_eq!(held_in_place(&std::cmp::Ordering::Less, &mut tracker), 0);
    assert_eq!(held_in_place(&std::sync::atomic::Ordering::SeqCst, &mut tracker), 0);
    assert_eq!(held_in_place(&std::num::NonZeroU32::MIN, &mut tracker), 0);
    assert_eq!(held_in_place(&std::path::Path::new("/tmp"), &mut tracker), 0);
    // The tracker was asked about nothing.
    assert!(!tracker.track(64));
    assert!(tracker.track(65));
}
