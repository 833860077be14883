use get_size::{GetSize, GetSizeNoTracker, StandardTracker};
use serde_json::{Number, Value};
use std::mem;

#[test]
fn test_serde_json_number() {
    let test = Value::from(1);
    assert_eq!(test.get_heap_size(&mut GetSizeNoTracker), 0);

    let test = Value::from(1.0);
    assert_eq!(test.get_heap_size(&mut GetSizeNoTracker), 0);
}

#[test]
fn test_serde_json_string() {
    let test = Value::from("Hello");
    assert_eq!(test.get_heap_size(&mut GetSizeNoTracker), 5);
}

#[test]
fn test_serde_json_array() {
    let test = Value::Array(vec![Value::from("Hello"), Value::from("World")]);
    assert_eq!(
        test.get_heap_size(&mut GetSizeNoTracker),
        mem::size_of::<Value>() * 2 + 10
    );
}

#[test]
fn test_serde_json_map() {
    let mut test = serde_json::Map::new();
    assert_eq!(test.get_heap_size(&mut GetSizeNoTracker), 0);

    test.insert("a".to_string(), Value::Number(Number::from(1i8)));
    assert_eq!(test.get_heap_size(&mut GetSizeNoTracker), 1);

    test.insert("b".to_string(), Value::Number(Number::from(2i8)));
    test.insert("c".to_string(), Value::Number(Number::from(3i8)));
    assert_eq!(test.get_heap_size(&mut GetSizeNoTracker), 3);
}

#[test]
fn json_plain_values_own_nothing() {
    for test in [Value::Null, Value::Bool(true), Value::from(-7), Value::from(2.5)] {
        assert_eq!(test.get_heap_size(&mut StandardTracker::new()), 0);
        assert_eq!(test.get_size(&mut StandardTracker::new()), mem::size_of::<Value>());
    }
    assert_eq!(Number::from(7u8).get_heap_size(&mut GetSizeNoTracker), 0);
    assert_eq!(Number::from(7u8).get_size(&mut GetSizeNoTracker), mem::size_of::<Number>());
}

#[test]
fn json_array_counts_unused_slots() {
    let mut items = Vec::with_capacity(8);
    items.push(Value::from("Hello"));
    items.push(Value::Null);
    let capacity = items.capacity();
    let test = Value::Array(items);
    assert_eq!(
        test.get_heap_size(&mut GetSizeNoTracker),
        capacity * mem::size_of::<Value>() + 5
    );
}

#[test]
fn json_text_counts_the_room_of_its_buffer() {
    let mut text = String::with_capacity(64);
    text.push_str("Hello");
    let capacity = text.capacity();
    assert!(capacity >= 64);
    assert_eq!(Value::String(text).get_heap_size(&mut GetSizeNoTracker), capacity);
}

#[test]
fn json_nested_values_are_summed() {
    let mut inner = serde_json::Map::new();
    inner.insert("key".to_string(), Value::from("value"));
    inner.insert("list".to_string(), Value::Array(vec![Value::from("ab"), Value::from(3)]));
    let inner_heap = 3 + 5 + 4 + (2 * mem::size_of::<Value>() + 2);
    assert_eq!(inner.get_heap_size(&mut GetSizeNoTracker), inner_heap);

    let mut outer = serde_json::Map::new();
    outer.insert("inner".to_string(), Value::Object(inner));
    let test = Value::Array(vec![Value::Object(outer), Value::from("x")]);
    assert_eq!(
        test.get_heap_size(&mut GetSizeNoTracker),
        2 * mem::size_of::<Value>() + (5 + inner_heap) + 1
    );
    assert_eq!(
        test.get_size(&mut GetSizeNoTracker),
        3 * mem::size_of::<Value>() + (5 + inner_heap) + 1
    );
}
