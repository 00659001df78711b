//! The commands sent to the database.

use huus::commands::{CreateIndexesCommand, InsertCommand};
use huus::document::{Bson, Document};

fn doc(entries: Vec<(&str, Bson)>) -> Document {
    let mut result = Document::new();
    for (key, value) in entries {
        result.insert(key.to_string(), value);
    }
    result
}

fn sub(entries: Vec<(&str, Bson)>) -> Bson {
    Bson::Document(doc(entries))
}

fn string(value: &str) -> Bson {
    Bson::String(value.to_string())
}

#[test]
fn create_indexes_command() {
    let collection = "collection".to_string();
    let fields = vec!["abc.def".to_string(), "ghi".to_string(), "jkl".to_string()];
    let command = CreateIndexesCommand::new(collection.clone(), fields);
    let keys = sub(vec![("abc.def", string("text")), ("ghi", string("text")), ("jkl", string("text"))]);
    let index = sub(vec![("name", string("collection")), ("key", keys)]);
    let expected = doc(vec![("createIndexes", string("collection")), ("indexes", Bson::Array(vec![index]))]);
    assert_eq!(*command.get_command().unwrap(), expected);
}

/// When the document passed to the insert command holds `_id`, it is not changed.
#[test]
fn create_insert_command_with_id() {
    let collection = "collection".to_string();
    let document = doc(vec![("_id", Bson::I32(0)), ("a", Bson::I32(1)), ("b", Bson::I32(2))]);
    let command = InsertCommand::new(collection.clone(), document.clone());
    assert_eq!(*command.get_document(), document);
}

/// When the document passed to the insert command does not hold `_id`, a fresh `_id` is added.
#[test]
fn create_insert_command_without_id() {
    let collection = "collection".to_string();
    let document = doc(vec![("a", Bson::I32(1)), ("b", Bson::I32(2))]);
    let command = InsertCommand::new(collection.clone(), document);

    assert!(command.get_document().get("_id").is_some());
    assert_eq!(*command.get_document().get("a").unwrap(), Bson::I32(1));
    assert_eq!(*command.get_document().get("b").unwrap(), Bson::I32(2));
}

#[test]
fn create_indexes_command_without_fields() {
    let command = CreateIndexesCommand::new("collection".to_string(), Vec::new());
    assert!(command.get_command().is_none());
}

#[test]
fn fresh_identifiers_differ() {
    let first = InsertCommand::new("c".to_string(), Document::new());
    let second = InsertCommand::new("c".to_string(), Document::new());
    assert_ne!(first.get_document().get("_id"), second.get_document().get("_id"));
}
