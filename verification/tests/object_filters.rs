//! Filters built by the entries of members that hold objects of user-defined structures.

use huus::conversions::HuusIntoBson;
use huus::document::{Bson, Document};
use huus::filters::{
    Array, ArrayEntry, BuildFilter, BuildInnerFilter, Element, Filter, I32Entry, Logical,
    ObjectEntry, StringEntry,
};

const KEY: &str = "xxx";

fn doc(entries: Vec<(&str, Bson)>) -> Document {
    let mut result = Document::new();
    for (key, value) in entries {
        result.insert(key.to_string(), value);
    }
    result
}

fn sub(entries: Vec<(&str, Bson)>) -> Bson {
    Bson::Document(doc(entries))
}

fn string(value: &str) -> Bson {
    Bson::String(value.to_string())
}

#[derive(Clone, Debug)]
struct Data1 {
    int: i32,
    string: String,
}

impl HuusIntoBson for Data1 {
    fn huus_into_bson(self) -> Bson {
        let mut doc = Document::new();
        doc.insert("int".to_string(), Bson::I32(self.int));
        doc.insert("string".to_string(), Bson::String(self.string));
        Bson::Document(doc)
    }
}

#[derive(Clone, Debug)]
struct DataFilter1 {
    int: I32Entry,
    string: StringEntry,
}

impl BuildInnerFilter for DataFilter1 {
    fn build_filter(self, field: String) -> Filter {
        let mut filter = Filter::empty();
        filter.incorporate(self.int.build_filter(field.clone() + ".int"));
        filter.incorporate(self.string.build_filter(field.clone() + ".string"));
        filter
    }
}

#[derive(Clone, Debug)]
struct DataFilter2 {
    data: ObjectEntry<DataFilter1, Data1>,
    array: ArrayEntry<i32, i32>,
}

impl BuildFilter for DataFilter2 {
    fn build_filter(self) -> Filter {
        let mut filter = Filter::empty();
        filter.incorporate(self.data.build_filter("data".to_string()));
        filter.incorporate(self.array.build_filter("array".to_string()));
        filter
    }
}

#[test]
fn test_inner_object_entry_filter() {
    let data = Data1 { int: 2, string: "abc".to_string() };
    let filter = DataFilter1 { int: I32Entry::Value(3), string: StringEntry::Value("def".to_string()) };
    let expected1 = || doc(vec![(KEY, sub(vec![("int", Bson::I32(2)), ("string", string("abc"))]))]);
    let expected2 = || doc(vec![("xxx.int", Bson::I32(3)), ("xxx.string", string("def"))]);

    let entry = ObjectEntry::<DataFilter1, Data1>::Value(data.clone());
    assert_eq!(entry.build_filter(KEY.to_string()).into_doc(), expected1());

    let entry = ObjectEntry::<DataFilter1, Data1>::Dot(filter.clone());
    assert_eq!(entry.build_filter(KEY.to_string()).into_doc(), expected2());

    let entry1 = ObjectEntry::<DataFilter1, Data1>::Value(data.clone());
    let entry2 = ObjectEntry::<DataFilter1, Data1>::Dot(filter.clone());
    let entry = ObjectEntry::Logical(Box::new(Logical::Or(vec![entry1, entry2])));
    let array = Bson::Array(vec![Bson::Document(expected1()), Bson::Document(expected2())]);
    let expected = doc(vec![("$or", array)]);
    assert_eq!(entry.build_filter(KEY.to_string()).into_doc(), expected);

    let entry = ObjectEntry::<DataFilter1, Data1>::Element(Element::Exists(true));
    let expected = doc(vec![(KEY, sub(vec![("$exists", Bson::Boolean(true))]))]);
    assert_eq!(entry.build_filter(KEY.to_string()).into_doc(), expected);
}

#[test]
fn test_outer_object_entry_filter() {
    let filter1 = DataFilter2 {
        data: ObjectEntry::Value(Data1 { int: 2, string: "abc".to_string() }),
        array: ArrayEntry::Array(Array::All(vec![3, 4])),
    };
    let filter2 = DataFilter2 {
        data: ObjectEntry::Dot(DataFilter1 { int: I32Entry::Value(3), string: StringEntry::Empty }),
        array: ArrayEntry::Array(Array::All(vec![5, 6])),
    };
    let expected1 = doc(vec![
        ("data", sub(vec![("int", Bson::I32(2)), ("string", string("abc"))])),
        ("array", sub(vec![("$all", Bson::Array(vec![Bson::I32(3), Bson::I32(4)]))])),
    ]);
    let expected2 = doc(vec![
        ("data.int", Bson::I32(3)),
        ("array", sub(vec![("$all", Bson::Array(vec![Bson::I32(5), Bson::I32(6)]))])),
    ]);

    assert_eq!(filter1.build_filter().into_doc(), expected1);
    assert_eq!(filter2.build_filter().into_doc(), expected2);
}

#[test]
fn copied_entries_build_the_same_filter() {
    let data = Data1 { int: 2, string: "abc".to_string() };
    let filter = DataFilter1 { int: I32Entry::Value(3), string: StringEntry::Empty };
    let entry = ObjectEntry::Logical(Box::new(Logical::And(vec![
        ObjectEntry::<DataFilter1, Data1>::Value(data),
        ObjectEntry::Logical(Box::new(Logical::Not(ObjectEntry::Dot(filter)))),
    ])));
    let copy = entry.clone();
    assert_eq!(copy.build_filter(KEY.to_string()).into_doc(), entry.build_filter(KEY.to_string()).into_doc());
}
