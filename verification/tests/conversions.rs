//! Conversions between values and BSON.

use std::collections::{BTreeMap, HashMap};

use huus::conversions::{entries_into_bson, FromDoc, HuusIntoStruct, HuusKey};
use huus::document::{Bson, Document};
use huus::errors::ConversionError;

#[test]
fn test_array_into_vec() {
    let mut array: Vec<Bson> = Vec::new();
    array.push(Bson::I32(1));
    array.push(Bson::I32(4));
    array.push(Bson::I32(7));
    array.push(Bson::I32(8));
    let expected: Vec<i32> = vec![1, 4, 7, 8];
    let result: Vec<i32> = array.huus_into_struct().unwrap();
    assert_eq!(result, expected);
}

#[test]
fn array_with_wrong_element_is_refused() {
    let array = vec![Bson::I32(1), Bson::String("x".to_string())];
    let result: Result<Vec<i32>, ConversionError> = array.huus_into_struct();
    assert!(result.is_err());
}


#[derive(Clone, Debug, PartialEq, Eq, PartialOrd, Ord, Hash)]
enum TestEnum {
    Abc,
    Def,
}

impl HuusKey for TestEnum {
    fn from_str(string: &str) -> Result<Self, ConversionError> {
        match string {
            "abc" => Ok(TestEnum::Abc),
            "def" => Ok(TestEnum::Def),
            _ => Err(ConversionError::incorrect_value(string.to_string())),
        }
    }

    fn to_str(&self) -> &str {
        match self {
            TestEnum::Abc => "abc",
            TestEnum::Def => "def",
        }
    }
}

fn test_document() -> Document {
    let mut document = Document::new();
    document.insert("abc".to_string(), Bson::String("cba".to_string()));
    document.insert("def".to_string(), Bson::String("fed".to_string()));
    document
}

#[test]
fn test_conversion_from_doc_to_btree_map() {
    type TestMap = BTreeMap<TestEnum, String>;

    let mut map = BTreeMap::new();
    map.insert(TestEnum::Abc, "cba".to_string());
    map.insert(TestEnum::Def, "fed".to_string());

    assert_eq!(TestMap::from_doc(test_document()).unwrap(), map);
}

#[test]
fn map_entries_are_written_by_key_text() {
    let entries = vec![
        (TestEnum::Def, "fed".to_string()),
        (TestEnum::Abc, "cba".to_string()),
        (TestEnum::Def, "xyz".to_string()),
    ];
    let mut expected = Document::new();
    expected.insert("abc".to_string(), Bson::String("cba".to_string()));
    expected.insert("def".to_string(), Bson::String("xyz".to_string()));
    assert_eq!(entries_into_bson(entries), Bson::Document(expected));
    assert_eq!(entries_into_bson(Vec::<(TestEnum, String)>::new()), Bson::Document(Document::new()));
}

#[test]
fn test_conversion_from_doc_to_hash() {
    type TestMap = HashMap<TestEnum, String>;

    let result = TestMap::from_doc(test_document()).unwrap();
    assert_eq!(result.len(), 2);
    assert_eq!(result.get(&TestEnum::Abc).unwrap(), "cba");
    assert_eq!(result.get(&TestEnum::Def).unwrap(), "fed");
}

#[test]
fn maps_refuse_unknown_keys_and_wrong_values() {
    let mut document = test_document();
    document.insert("ghi".to_string(), Bson::String("ihg".to_string()));
    assert!(BTreeMap::<TestEnum, String>::from_doc(document).is_err());

    let mut document = test_document();
    document.insert("abc".to_string(), Bson::I32(1));
    assert!(HashMap::<TestEnum, String>::from_doc(document).is_err());
}
