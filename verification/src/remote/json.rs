//! Sizes of JSON values as `serde_json` holds them.

use crate::containers::{slack, vec_capacity};
use crate::primitives::held_in_place;
use crate::size::{saturate, spare, GetSize};
use crate::tracker::{GetSizeTracker, Visited};
use serde_json::{Number, Value};
use vstd::layout::size_of;
use vstd::prelude::*;
use vstd::utf8::encode_utf8;

verus! {

/// A JSON value, `serde_json::Value`. What it holds is named by
/// [`json_tree`].
#[verifier::external_type_specification]
#[verifier::external_body]
pub struct ExValue(serde_json::Value);

/// A JSON object, `serde_json::Map`. What it holds is named by
/// [`json_entries`].
#[verifier::external_type_specification]
#[verifier::external_body]
#[verifier::reject_recursive_types(K)]
#[verifier::reject_recursive_types(V)]
pub struct ExMap<K, V>(serde_json::Map<K, V>);

/// A JSON number, `serde_json::Number`, which is held in place.
#[verifier::external_type_specification]
#[verifier::external_body]
pub struct ExNumber(serde_json::Number);

/// What a JSON value holds, as far as its size depends on it.
pub enum Json {
    /// `null`, a truth value or a number: held in place.
    Plain,
    /// A text.
    Text(Seq<char>),
    /// An array with its items in order.
    Array(Seq<Json>),
    /// An object with its entries in the order in which it is walked.
    Object(Seq<(Seq<char>, Json)>),
}

/// What `value` holds.
pub uninterp spec fn json_tree(value: Value) -> Json;

/// The entries that `map` holds, in the order in which it is walked.
pub uninterp spec fn json_entries(map: serde_json::Map<String, Value>) -> Seq<(Seq<char>, Json)>;

/// A JSON value taken apart: the part that its size depends on.
pub enum Shape<'a> {
    Null,
    Bool,
    Number,
    Text(&'a String),
    Array(&'a Vec<Value>),
    Object(&'a serde_json::Map<String, Value>),
}

/// What each item of `items` holds.
pub open spec fn json_trees(items: Seq<Value>) -> Seq<Json> {
    items.map_values(|item: Value| json_tree(item))
}

/// What each entry of `entries` holds.
pub open spec fn entry_trees(entries: Seq<(&String, &Value)>) -> Seq<(Seq<char>, Json)> {
    entries.map_values(|entry: (&String, &Value)| (entry.0@, json_tree(*entry.1)))
}

/// Takes `value` apart by its variant. The variants of `serde_json::Value`
/// are `Null`, `Bool`, `Number`, `String`, `Array` and `Object`, one arm for
/// each; a text, an array or an object is handed out as the variant holds
/// it.
#[verifier::external_body]
fn shape(value: &Value) -> (shape: Shape<'_>)
    ensures
        json_tree(*value) == match shape {
            Shape::Null => Json::Plain,
            Shape::Bool => Json::Plain,
            Shape::Number => Json::Plain,
            Shape::Text(text) => Json::Text(text@),
            Shape::Array(items) => Json::Array(json_trees(items@)),
            Shape::Object(map) => Json::Object(json_entries(*map)),
        },
{
    match value {
        Value::Null => Shape::Null,
        Value::Bool(_) => Shape::Bool,
        Value::Number(_) => Shape::Number,
        Value::String(text) => Shape::Text(text),
        Value::Array(items) => Shape::Array(items),
        Value::Object(map) => Shape::Object(map),
    }
}

/// The entries of the object in the order in which `Map::iter` walks it.
#[verifier::external_body]
fn object_entries(map: &serde_json::Map<String, Value>) -> (entries: Vec<(&String, &Value)>)
    ensures
        entry_trees(entries@) == json_entries(*map),
{
    map.iter().collect()
}

/// The sum of `parts`.
pub open spec fn total(parts: Seq<nat>) -> nat
    decreases parts.len(),
{
    if parts.len() == 0 {
        0
    } else {
        total(parts.drop_last()) + parts.last()
    }
}

/// The heap sizes that measuring a JSON value can yield.
///
/// A text owns its buffer, which has room for the text at least. An array
/// owns a buffer of values: each item counts in full, and each unused slot
/// counts for the size of a value in place. An object counts the heap sizes
/// of its keys and of its values.
pub open spec fn json_outcome(tree: Json, bytes: nat) -> bool
    decreases tree, 0nat,
{
    match tree {
        Json::Plain => bytes == 0,
        Json::Text(text) => encode_utf8(text).len() <= bytes <= usize::MAX,
        Json::Array(items) => exists|parts: Seq<nat>, capacity: usize|
            #![trigger array_parts(parts, capacity)]
            array_parts(parts, capacity) && parts.len() == items.len() && (forall|i: int|
                0 <= i < items.len() ==> json_outcome(items[i], #[trigger] parts[i])) && bytes
                == total(parts) + items.len() * size_of::<Value>() + spare(
                capacity as nat,
                items.len(),
            ) * size_of::<Value>(),
        Json::Object(entries) => exists|parts: Seq<nat>|
            #![trigger object_parts(parts)]
            object_parts(parts) && parts.len() == entries.len() && (forall|i: int|
                0 <= i < entries.len() ==> entry_outcome(
                    entries[i].0,
                    entries[i].1,
                    #[trigger] parts[i],
                )) && bytes == total(parts),
    }
}

/// Names the heap sizes of the items of an array and the room of its buffer.
pub open spec fn array_parts(parts: Seq<nat>, capacity: usize) -> bool {
    true
}

/// Names the heap sizes of the entries of an object.
pub open spec fn object_parts(parts: Seq<nat>) -> bool {
    true
}

/// The heap sizes that measuring an entry of an object can yield: that of the
/// key and that of the value.
pub open spec fn entry_outcome(key: Seq<char>, value: Json, bytes: nat) -> bool
    decreases value, 1nat,
{
    exists|room: usize| #[trigger]
        key_room(room) && encode_utf8(key).len() <= room <= bytes && json_outcome(
            value,
            (bytes - room) as nat,
        )
}

/// Names the room of a key's buffer.
pub open spec fn key_room(room: usize) -> bool {
    true
}

/// The sum grows by the part that is added at the end.
pub proof fn lemma_total_push(parts: Seq<nat>, part: nat)
    ensures
        total(parts.push(part)) == total(parts) + part,
{
    assert(parts.push(part).drop_last() =~= parts);
}

/// Determines how many bytes a JSON value occupies inside the heap.
fn json_heap_size<Tr: GetSizeTracker>(value: &Value, tracker: &mut Tr) -> (n: usize)
    ensures
        final(tracker).visited() == old(tracker).visited(),
        exists|bytes: nat| #[trigger] json_outcome(json_tree(*value), bytes) && n == saturate(bytes),
    decreases json_tree(*value), 1nat,
{
    match shape(value) {
        Shape::Null => {
            assert(json_outcome(json_tree(*value), 0));
            0
        },
        Shape::Bool => {
            assert(json_outcome(json_tree(*value), 0));
            0
        },
        Shape::Number => {
            assert(json_outcome(json_tree(*value), 0));
            0
        },
        Shape::Text(text) => {
            let size = text.get_heap_size(tracker);
            assert(json_outcome(json_tree(*value), size as nat));
            size
        },
        Shape::Array(items) => {
            let ghost trees = json_trees(items@);
            let ghost mut parts: Seq<nat> = Seq::empty();
            let stack = std::mem::size_of::<Value>();
            let mut sum: usize = 0;
            for index in 0..items.len()
                invariant
                    trees == json_trees(items@),
                    json_tree(*value) == Json::Array(trees),
                    stack == size_of::<Value>(),
                    parts.len() == index,
                    forall|i: int| 0 <= i < index ==> json_outcome(trees[i], #[trigger] parts[i]),
                    sum == saturate(total(parts) + index as nat * size_of::<Value>()),
                    tracker.visited() == old(tracker).visited(),
            {
                // We assume that values are held inside the heap.
                proof {
                    assert(json_tree(items@[index as int]) == trees[index as int]);
                    let tree = json_tree(*value);
                    assert(decreases_to!(tree => tree->Array_0));
                    assert(decreases_to!(tree->Array_0 => tree->Array_0[index as int]));
                }
                let heap = json_heap_size(&items[index], tracker);
                proof {
                    let bytes = choose|bytes: nat| #[trigger]
                        json_outcome(json_tree(items@[index as int]), bytes) && heap == saturate(
                            bytes,
                        );
                    lemma_total_push(parts, bytes);
                    assert((index + 1) * size_of::<Value>() == index * size_of::<Value>()
                        + size_of::<Value>()) by (nonlinear_arith);
                    assert(index * size_of::<Value>() >= 0) by (nonlinear_arith)
                        requires
                            index >= 0,
                            size_of::<Value>() >= 0,
                    ;
                    parts = parts.push(bytes);
                }
                sum = sum.saturating_add(stack);
                sum = sum.saturating_add(heap);
            }
            let capacity = vec_capacity(items);
            let additional: usize = capacity.saturating_sub(items.len());
            proof {
                assert(additional == spare(capacity as nat, trees.len()));
                assert(additional * size_of::<Value>() >= 0 && trees.len() * size_of::<Value>()
                    >= 0) by (nonlinear_arith)
                    requires
                        additional >= 0,
                        trees.len() >= 0,
                        size_of::<Value>() >= 0,
                ;
                assert(array_parts(parts, capacity));
                assert(json_outcome(
                    json_tree(*value),
                    total(parts) + trees.len() * size_of::<Value>() + spare(
                        capacity as nat,
                        trees.len(),
                    ) * size_of::<Value>(),
                ));
            }
            sum.saturating_add(slack(additional, stack))
        },
        Shape::Object(map) => object_heap_size(map, tracker),
    }
}

/// Determines how many bytes a JSON object occupies inside the heap.
fn object_heap_size<Tr: GetSizeTracker>(map: &serde_json::Map<String, Value>, tracker: &mut Tr) -> (n:
    usize)
    ensures
        final(tracker).visited() == old(tracker).visited(),
        exists|bytes: nat| #[trigger]
            json_outcome(Json::Object(json_entries(*map)), bytes) && n == saturate(bytes),
    decreases Json::Object(json_entries(*map)), 0nat,
{
    let entries = object_entries(map);
    let ghost trees = entry_trees(entries@);
    let ghost mut parts: Seq<nat> = Seq::empty();
    let mut sum: usize = 0;
    for index in 0..entries.len()
        invariant
            trees == entry_trees(entries@),
            trees == json_entries(*map),
            parts.len() == index,
            forall|i: int|
                0 <= i < index ==> entry_outcome(trees[i].0, trees[i].1, #[trigger] parts[i]),
            sum == saturate(total(parts)),
            tracker.visited() == old(tracker).visited(),
    {
        let (key, value) = entries[index];
        let room = key.get_heap_size(tracker);
        proof {
            assert(trees[index as int] == (key@, json_tree(*value)));
            let tree = Json::Object(trees);
            assert(decreases_to!(tree => tree->Object_0));
            assert(decreases_to!(tree->Object_0 => tree->Object_0[index as int]));
            assert(decreases_to!(tree->Object_0[index as int] => tree->Object_0[index as int].1));
        }
        let heap = json_heap_size(value, tracker);
        proof {
            let bytes = choose|bytes: nat| #[trigger]
                json_outcome(json_tree(*value), bytes) && heap == saturate(bytes);
            let both: nat = room as nat + bytes;
            assert(key_room(room));
            assert((both - room) as nat == bytes);
            assert(entry_outcome(trees[index as int].0, trees[index as int].1, both));
            lemma_total_push(parts, both);
            parts = parts.push(both);
        }
        sum = sum.saturating_add(room);
        sum = sum.saturating_add(heap);
    }
    proof {
        assert(object_parts(parts));
        assert(json_outcome(Json::Object(trees), total(parts)));
    }
    sum
}

impl GetSize for Value {
    open spec fn heap_outcome(&self, before: Visited, bytes: nat, after: Visited) -> bool {
        json_outcome(json_tree(*self), bytes) && after == before
    }

    fn get_heap_size<Tr: GetSizeTracker>(&self, tracker: &mut Tr) -> (n: usize)
        ensures
            final(tracker).visited() == old(tracker).visited(),
    {
        let size = json_heap_size(self, tracker);
        proof {
            let bytes = choose|bytes: nat| #[trigger]
                json_outcome(json_tree(*self), bytes) && size == saturate(bytes);
            assert(self.heap_outcome(tracker.visited(), bytes, tracker.visited()));
        }
        size
    }
}

impl GetSize for serde_json::Map<String, Value> {
    open spec fn heap_outcome(&self, before: Visited, bytes: nat, after: Visited) -> bool {
        json_outcome(Json::Object(json_entries(*self)), bytes) && after == before
    }

    fn get_heap_size<Tr: GetSizeTracker>(&self, tracker: &mut Tr) -> (n: usize)
        ensures
            final(tracker).visited() == old(tracker).visited(),
    {
        let size = object_heap_size(self, tracker);
        proof {
            let bytes = choose|bytes: nat| #[trigger]
                json_outcome(Json::Object(json_entries(*self)), bytes) && size == saturate(bytes);
            assert(self.heap_outcome(tracker.visited(), bytes, tracker.visited()));
        }
        size
    }
}

impl GetSize for Number {
    fn get_heap_size<Tr: GetSizeTracker>(&self, tracker: &mut Tr) -> (n: usize)
        ensures
            n == 0,
            final(tracker).visited() == old(tracker).visited(),
    {
        assert(self.heap_outcome(tracker.visited(), 0, tracker.visited()));
        held_in_place(self, tracker)
    }
}

} // verus!
