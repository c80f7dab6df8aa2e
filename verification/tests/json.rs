use std::collections::HashMap;

use json_editor::app::App;
use json_editor::json::{serialization_outcome, to_json, SerializationError};
use json_editor::store::KeyValueStore;

fn store_of(pairs: &[(&str, &str)]) -> KeyValueStore {
    let mut store = KeyValueStore::new();
    for (key, value) in pairs {
        store.insert(key.to_string(), value.to_string());
    }
    store
}

fn parsed(text: &str) -> HashMap<String, String> {
    serde_json::from_str(text).unwrap()
}

fn as_map(store: &KeyValueStore) -> HashMap<String, String> {
    store.entries().iter().cloned().collect()
}

#[test]
fn empty_store_is_an_empty_object() {
    assert_eq!(to_json(&KeyValueStore::new()).unwrap(), "{}");
    assert_eq!(App::new().serialize_to_json().unwrap(), "{}");
}

#[test]
fn one_pair_is_one_member() {
    assert_eq!(to_json(&store_of(&[("name", "Ada")])).unwrap(), "{\"name\":\"Ada\"}");
}

#[test]
fn members_come_in_the_order_of_their_keys() {
    let store = store_of(&[("role", "engineer"), ("name", "Ada")]);
    assert_eq!(
        to_json(&store).unwrap(),
        "{\"name\":\"Ada\",\"role\":\"engineer\"}"
    );
}

#[test]
fn the_text_does_not_depend_on_the_order_of_writes() {
    let one = store_of(&[("a", "1"), ("b", "2"), ("c", "3")]);
    let other = store_of(&[("c", "0"), ("b", "2"), ("a", "1"), ("c", "3")]);
    assert_eq!(to_json(&one).unwrap(), to_json(&other).unwrap());
}

#[test]
fn quotes_and_control_characters_are_escaped() {
    let store = store_of(&[("a\"b", "line\nbreak\\")]);
    assert_eq!(to_json(&store).unwrap(), "{\"a\\\"b\":\"line\\nbreak\\\\\"}");
}

#[test]
fn serializing_and_parsing_gives_the_store_back() {
    let stores = [
        store_of(&[]),
        store_of(&[("name", "Ada")]),
        store_of(&[("name", "Ada"), ("role", "engineer"), ("", "empty key")]),
        store_of(&[("k e y", "v a l u e"), ("quote\"", "back\\slash"), ("ünï", "cödé ✓")]),
        store_of(&[("a", "1"), ("a", "2"), ("{\"a\":1}", "[1,2,3]")]),
    ];
    for store in stores {
        let text = to_json(&store).unwrap();
        assert_eq!(parsed(&text), as_map(&store));
    }
}

#[test]
fn serializing_leaves_the_store_as_it_is() {
    let store = store_of(&[("name", "Ada")]);
    let first = to_json(&store).unwrap();
    assert_eq!(store.len(), 1);
    assert_eq!(store.get(&"name".to_string()), Some(&"Ada".to_string()));
    assert_eq!(to_json(&store).unwrap(), first);
}

#[test]
fn an_encoded_text_is_passed_on() {
    let outcome = serialization_outcome(Ok("{}".to_string()));
    assert_eq!(outcome.unwrap(), "{}");
}

#[test]
fn an_encoder_failure_becomes_a_serialization_error() {
    let failure = serde_json::from_str::<HashMap<String, String>>("{").unwrap_err();
    let expected = failure.to_string();
    let outcome = serialization_outcome(Err(failure));
    let error = outcome.unwrap_err();
    assert_eq!(error.message, expected);
    assert_eq!(error.to_string(), expected);
    assert!(!expected.is_empty());
}

#[test]
fn a_serialization_error_carries_the_message_of_the_encoder() {
    let failure = serde_json::from_str::<u8>("true").unwrap_err();
    let expected = failure.to_string();
    let error = SerializationError::from_json_error(failure);
    assert_eq!(error.message, expected);
}
