//! Updates built by the entries of members that hold objects of user-defined structures.

use huus::document::{Bson, Document};
use huus::updates::{
    Array, ArrayEntry, BuildInnerUpdate, BuildUpdate, Field, I32Entry, ObjectEntry, Operator,
    PopOption, StringEntry, Update,
};
use huus::values::{BuildValue, ObjectValue, PullValue, Value};

const KEY: &str = "xxx";

fn doc(entries: Vec<(&str, Bson)>) -> Document {
    let mut result = Document::new();
    for (key, value) in entries {
        result.insert(key.to_string(), value);
    }
    result
}

fn sub(entries: Vec<(&str, Bson)>) -> Bson {
    Bson::Document(doc(entries))
}

fn string(value: &str) -> Bson {
    Bson::String(value.to_string())
}

#[derive(Clone)]
struct DataValue1 {
    int: i32,
    string: String,
}

impl BuildValue for DataValue1 {
    fn build_value(self) -> Value {
        let mut value = ObjectValue::empty();
        value.insert("int".to_string(), self.int.build_value().into_bson());
        value.insert("string".to_string(), self.string.build_value().into_bson());
        value.build_value()
    }
}

#[derive(Clone)]
struct DataUpdate1 {
    int: I32Entry,
    string: StringEntry,
}

impl BuildInnerUpdate for DataUpdate1 {
    fn build_update(self, field: String) -> Update {
        let mut update = Update::empty();
        update.incorporate(self.int.build_update(field.clone() + ".int"));
        update.incorporate(self.string.build_update(field.clone() + ".string"));
        update
    }
}

struct DataUpdate2 {
    data: ObjectEntry<DataUpdate1, DataValue1>,
    array: ArrayEntry<DataUpdate1, DataValue1>,
}

impl BuildUpdate for DataUpdate2 {
    fn build_update(self) -> Update {
        let mut update = Update::empty();
        update.incorporate(self.data.build_update("data".to_string()));
        update.incorporate(self.array.build_update("array".to_string()));
        update
    }
}

#[test]
fn test_simple_object_entry_update() {
    let data = DataValue1 { int: 2, string: "abc".to_string() };

    let update = DataUpdate1 {
        int: I32Entry::Value(2),
        string: StringEntry::Value("abc".to_string()),
    };

    let entry = ObjectEntry::<DataUpdate1, DataValue1>::Value(data.clone());
    let expected = doc(vec![(KEY, sub(vec![("int", Bson::I32(2)), ("string", string("abc"))]))]);
    assert_eq!(entry.build_update(KEY.to_string()).into_doc(), expected);

    let entry = ObjectEntry::<DataUpdate1, DataValue1>::Dot(update.clone());
    let expected = doc(vec![("xxx.int", Bson::I32(2)), ("xxx.string", string("abc"))]);
    assert_eq!(entry.build_update(KEY.to_string()).into_doc(), expected);

    let entry = ObjectEntry::<DataUpdate1, DataValue1>::Field(Field::SetValue(data.clone()));
    let inner = sub(vec![("int", Bson::I32(2)), ("string", string("abc"))]);
    let expected = doc(vec![("$set", sub(vec![("xxx", inner)]))]);
    assert_eq!(entry.build_update(KEY.to_string()).into_doc(), expected);
}

#[test]
fn test_object_entry_update_nested_with_dot() {
    let object = DataUpdate2 {
        data: ObjectEntry::Dot(DataUpdate1 {
            int: I32Entry::Value(2),
            string: StringEntry::Value("abc".to_string()),
        }),
        array: ArrayEntry::Array(Array::Pop(PopOption::First), Operator::Whole),
    };
    let expected = doc(vec![
        ("data.int", Bson::I32(2)),
        ("data.string", string("abc")),
        ("$pop", sub(vec![("array", Bson::I32(-1))])),
    ]);

    assert_eq!(object.build_update().into_doc(), expected);
}

#[test]
fn test_object_entry_update_nested_with_value() {
    let object = DataUpdate2 {
        data: ObjectEntry::Value(DataValue1 { int: 2, string: "abc".to_string() }),
        array: ArrayEntry::Array(
            Array::Pull(PullValue::Value(DataValue1 { int: 3, string: "def".to_string() })),
            Operator::Whole,
        ),
    };
    let expected = doc(vec![
        ("data", sub(vec![("int", Bson::I32(2)), ("string", string("abc"))])),
        ("$pull", sub(vec![("array", sub(vec![("int", Bson::I32(3)), ("string", string("def"))]))])),
    ]);

    assert_eq!(object.build_update().into_doc(), expected);
}

#[test]
fn test_object_entry_update_nested_indexed() {
    let object1 = DataUpdate2 {
        data: ObjectEntry::Empty,
        array: ArrayEntry::Indexed(1, DataUpdate1 {
            int: I32Entry::Value(2),
            string: StringEntry::Value("abc".to_string()),
        }),
    };

    let object2 = DataUpdate2 {
        data: ObjectEntry::Empty,
        array: ArrayEntry::Selected(DataUpdate1 {
            int: I32Entry::Field(Field::SetValue(2)),
            string: StringEntry::Value("abc".to_string()),
        }),
    };

    let expected1 = doc(vec![("array.1.int", Bson::I32(2)), ("array.1.string", string("abc"))]);

    let expected2 = doc(vec![
        ("array.$.string", string("abc")),
        ("$set", sub(vec![("array.$.int", Bson::I32(2))])),
    ]);

    assert_eq!(object1.build_update().into_doc(), expected1);
    assert_eq!(object2.build_update().into_doc(), expected2);
}
