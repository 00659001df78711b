//! The commands made for the collection of a document type.

use huus::commands::{RemoveOptions, UpdateOptions};
use huus::conversions::{FromDoc, IntoDoc};
use huus::document::{Bson, Document};
use huus::errors::ConversionError;
use huus::filters::Filters;
use huus::query::Query;

fn doc(entries: Vec<(&str, Bson)>) -> Document {
    let mut result = Document::new();
    for (key, value) in entries {
        result.insert(key.to_string(), value);
    }
    result
}

/// A document of the collection, kept as it is.
struct Entry(Document);

impl FromDoc for Entry {
    fn from_doc(document: Document) -> Result<Self, ConversionError> {
        Ok(Entry(document))
    }
}

impl IntoDoc for Entry {
    fn into_doc(self) -> Document {
        self.0
    }
}

/// The collection `abc_collection`, indexed on `data.str` and `indexed`.
struct Collection;

impl Query for Collection {
    type Data = Entry;
    type Insert = Entry;
    type Filter = Entry;
    type Update = Entry;

    fn get_collection_name() -> &'static str {
        "abc_collection"
    }

    fn get_indexed_fields() -> Vec<&'static str> {
        vec!["data.str", "indexed"]
    }
}

impl huus::filters::BuildFilter for Entry {
    fn build_filter(self) -> huus::filters::Filter {
        let mut filter = huus::filters::Filter::empty();
        for (key, value) in self.0.entries {
            filter.incorporate(huus::filters::Filter::with_field(key, value));
        }
        filter
    }
}

#[test]
fn collection_commands() {
    assert_eq!(Collection::create_collection().collection_name, "abc_collection");
    assert_eq!(Collection::drop_collection().collection_name, "abc_collection");
}

#[test]
fn index_command_of_the_collection() {
    let command = Collection::create_indexes();
    let keys = Bson::Document(doc(vec![
        ("data.str", Bson::String("text".to_string())),
        ("indexed", Bson::String("text".to_string())),
    ]));
    let index = Bson::Document(doc(vec![("name", Bson::String("abc_collection".to_string())), ("key", keys)]));
    let expected = doc(vec![
        ("createIndexes", Bson::String("abc_collection".to_string())),
        ("indexes", Bson::Array(vec![index])),
    ]);
    assert_eq!(command.get_command(), Some(&expected));
}

#[test]
fn fetch_and_find_commands() {
    let command = Collection::fetch_all();
    assert_eq!(command.collection_name, "abc_collection");
    assert_eq!(*command.get_filter(), Document::new());
    assert_eq!(command.limit, None);

    let filter = doc(vec![("str", Bson::String("abc".to_string()))]);
    let command = Collection::find_one(Entry(filter.clone()));
    assert_eq!(*command.get_filter(), filter);
    assert_eq!(command.get_limit(), 1);

    let command = Collection::find(Entry(filter.clone()));
    assert_eq!(*command.get_filter(), filter);
}

#[test]
fn text_search_command() {
    let command = Collection::text_search("abc".to_string());
    let expected = doc(vec![("$text", Bson::Document(doc(vec![("$search", Bson::String("abc".to_string()))])))]);
    assert_eq!(*command.get_filter(), expected);
}

#[test]
fn logical_find_command() {
    let first = Entry(doc(vec![("a", Bson::I32(1))]));
    let second = Entry(doc(vec![("b", Bson::I32(2))]));
    let command = Collection::find_logical(Filters::Or(vec![first, second]));
    let expected = doc(vec![(
        "$or",
        Bson::Array(vec![
            Bson::Document(doc(vec![("a", Bson::I32(1))])),
            Bson::Document(doc(vec![("b", Bson::I32(2))])),
        ]),
    )]);
    assert_eq!(*command.get_filter(), expected);
}

#[test]
fn insert_update_and_remove_commands() {
    let data = doc(vec![("_id", Bson::I32(7)), ("a", Bson::I32(1))]);
    let command = Collection::insert(Entry(data.clone()));
    assert_eq!(*command.get_document(), data);
    assert_eq!(command.id, Bson::I32(7));

    let command = Collection::insert_data(Entry(doc(vec![("a", Bson::I32(1))])));
    assert!(matches!(command.get_document().get("_id"), Some(Bson::ObjectId(_))));

    let filter = doc(vec![("a", Bson::I32(1))]);
    let update = doc(vec![("$set", Bson::Document(doc(vec![("a", Bson::I32(2))])))]);
    let command = Collection::update(Entry(filter.clone()), Entry(update.clone()));
    assert_eq!(command.filter, filter);
    assert_eq!(command.update, update);
    assert_eq!(command.options, UpdateOptions::UpdateOne);
    let command = Collection::update_many(Entry(filter.clone()), Entry(update.clone()));
    assert_eq!(command.options, UpdateOptions::UpdateMany);

    let command = Collection::remove_one(Entry(filter.clone()));
    assert_eq!(command.filter, filter);
    assert_eq!(command.options, RemoveOptions::RemoveOne);
    let command = Collection::remove(Entry(filter.clone()));
    assert_eq!(command.options, RemoveOptions::RemoveMany);
}
