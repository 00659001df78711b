//! Updates built by the entries of plain members.

use huus::document::{Bson, Document};
use huus::types::{Date, Double, ObjectId, TimeStamp};
use huus::updates::{
    Array, ArrayEntry, BooleanEntry, BsonEntry, BuildInnerUpdate, DateEntry, Element, F64Entry,
    Field, I32Entry, I64Entry, Numerical, ObjectIdEntry, Operator, PopOption, StringEntry,
    TimeStampEntry,
};
use huus::values::{Each, PullValue, PushValue};

const KEY: &str = "xxx";

fn doc(entries: Vec<(&str, Bson)>) -> Document {
    let mut result = Document::new();
    for (key, value) in entries {
        result.insert(key.to_string(), value);
    }
    result
}

fn sub(entries: Vec<(&str, Bson)>) -> Bson {
    Bson::Document(doc(entries))
}

fn double(value: f64) -> Double {
    Double::from_bits(value.to_bits())
}

fn float(value: f64) -> Bson {
    Bson::FloatingPoint(double(value))
}

fn string(value: &str) -> Bson {
    Bson::String(value.to_string())
}

fn strings(values: Vec<&str>) -> Vec<String> {
    values.into_iter().map(|v| v.to_string()).collect()
}

#[test]
fn test_numerical_update() {
    let operation = Numerical::Inc(3);
    let expected = doc(vec![("$inc", sub(vec![(KEY, Bson::I32(3))]))]);
    assert_eq!(operation.build_update(KEY.to_string()).into_doc(), expected);

    let operation = Numerical::Inc(double(3.14));
    let expected = doc(vec![("$inc", sub(vec![(KEY, float(3.14))]))]);
    assert_eq!(operation.build_update(KEY.to_string()).into_doc(), expected);

    let operation = Numerical::Min(3);
    let expected = doc(vec![("$min", sub(vec![(KEY, Bson::I32(3))]))]);
    assert_eq!(operation.build_update(KEY.to_string()).into_doc(), expected);

    let operation = Numerical::Min(double(3.14));
    let expected = doc(vec![("$min", sub(vec![(KEY, float(3.14))]))]);
    assert_eq!(operation.build_update(KEY.to_string()).into_doc(), expected);

    let operation = Numerical::Max(3);
    let expected = doc(vec![("$max", sub(vec![(KEY, Bson::I32(3))]))]);
    assert_eq!(operation.build_update(KEY.to_string()).into_doc(), expected);

    let operation = Numerical::Max(double(3.14));
    let expected = doc(vec![("$max", sub(vec![(KEY, float(3.14))]))]);
    assert_eq!(operation.build_update(KEY.to_string()).into_doc(), expected);

    let operation = Numerical::Mul(3);
    let expected = doc(vec![("$mul", sub(vec![(KEY, Bson::I32(3))]))]);
    assert_eq!(operation.build_update(KEY.to_string()).into_doc(), expected);

    let operation = Numerical::Mul(double(3.14));
    let expected = doc(vec![("$mul", sub(vec![(KEY, float(3.14))]))]);
    assert_eq!(operation.build_update(KEY.to_string()).into_doc(), expected);
}

#[test]
fn test_field_update() {
    let operation = Field::<i32>::Rename("new_name".to_string());
    let expected = doc(vec![("$rename", sub(vec![(KEY, string("new_name"))]))]);
    assert_eq!(operation.build_update(KEY.to_string()).into_doc(), expected);

    let operation = Field::SetValue(3);
    let expected = doc(vec![("$set", sub(vec![(KEY, Bson::I32(3))]))]);
    assert_eq!(operation.build_update(KEY.to_string()).into_doc(), expected);

    let operation = Field::SetOnInsert(3);
    let expected = doc(vec![("$setOnInsert", sub(vec![(KEY, Bson::I32(3))]))]);
    assert_eq!(operation.build_update(KEY.to_string()).into_doc(), expected);

    let operation = Field::<i32>::Unset;
    let expected = doc(vec![("$unset", sub(vec![(KEY, Bson::Boolean(true))]))]);
    assert_eq!(operation.build_update(KEY.to_string()).into_doc(), expected);
}

#[test]
fn test_array_update() {
    let operation = Array::AddToSet(PushValue::Value(double(3.14)));
    let expected = doc(vec![("$addToSet", sub(vec![(KEY, float(3.14))]))]);
    assert_eq!(operation.build_update(KEY.to_string()).into_doc(), expected);

    let operation = Array::AddToSet(PushValue::Each(Each::new(strings(vec!["abc", "def"]))));
    let array = Bson::Array(vec![string("abc"), string("def")]);
    let expected = doc(vec![("$addToSet", sub(vec![(KEY, sub(vec![("$each", array)]))]))]);
    assert_eq!(operation.build_update(KEY.to_string()).into_doc(), expected);

    let operation = Array::<i32>::Pop(PopOption::First);
    let expected = doc(vec![("$pop", sub(vec![(KEY, Bson::I32(-1))]))]);
    assert_eq!(operation.build_update(KEY.to_string()).into_doc(), expected);

    let operation = Array::<i32>::Pop(PopOption::Last);
    let expected = doc(vec![("$pop", sub(vec![(KEY, Bson::I32(1))]))]);
    assert_eq!(operation.build_update(KEY.to_string()).into_doc(), expected);

    let operation = Array::Pull(PullValue::Value(double(3.14)));
    let expected = doc(vec![("$pull", sub(vec![(KEY, float(3.14))]))]);
    assert_eq!(operation.build_update(KEY.to_string()).into_doc(), expected);

    let operation = Array::Pull(PullValue::In(strings(vec!["abc", "def"])));
    let array = Bson::Array(vec![string("abc"), string("def")]);
    let expected = doc(vec![("$pull", sub(vec![(KEY, sub(vec![("$in", array)]))]))]);
    assert_eq!(operation.build_update(KEY.to_string()).into_doc(), expected);

    let operation = Array::Push(PushValue::Value(double(3.14)));
    let expected = doc(vec![("$push", sub(vec![(KEY, float(3.14))]))]);
    assert_eq!(operation.build_update(KEY.to_string()).into_doc(), expected);

    let operation = Array::Push(PushValue::Each(Each::new(strings(vec!["abc", "def"]))));
    let array = Bson::Array(vec![string("abc"), string("def")]);
    let expected = doc(vec![("$push", sub(vec![(KEY, sub(vec![("$each", array)]))]))]);
    assert_eq!(operation.build_update(KEY.to_string()).into_doc(), expected);

    let operation = Array::PullAll(double(3.14));
    let expected = doc(vec![("$pullAll", sub(vec![(KEY, float(3.14))]))]);
    assert_eq!(operation.build_update(KEY.to_string()).into_doc(), expected);

    let operation = Array::PullAll("abc".to_string());
    let expected = doc(vec![("$pullAll", sub(vec![(KEY, string("abc"))]))]);
    assert_eq!(operation.build_update(KEY.to_string()).into_doc(), expected);
}

#[test]
fn test_f64_entry_update() {
    let entry = F64Entry::Value(double(3.14));
    let expected = doc(vec![(KEY, float(3.14))]);
    assert_eq!(entry.build_update(KEY.to_string()).into_doc(), expected);

    let entry = F64Entry::Numerical(Numerical::Max(double(3.14)));
    let expected = doc(vec![("$max", sub(vec![(KEY, float(3.14))]))]);
    assert_eq!(entry.build_update(KEY.to_string()).into_doc(), expected);

    let entry = F64Entry::Field(Field::SetValue(double(3.14)));
    let expected = doc(vec![("$set", sub(vec![(KEY, float(3.14))]))]);
    assert_eq!(entry.build_update(KEY.to_string()).into_doc(), expected);
}

#[test]
fn test_string_entry_update() {
    let entry = StringEntry::Value("abc".to_string());
    let expected = doc(vec![(KEY, string("abc"))]);
    assert_eq!(entry.build_update(KEY.to_string()).into_doc(), expected);

    let entry = StringEntry::Field(Field::SetValue("abc".to_string()));
    let expected = doc(vec![("$set", sub(vec![(KEY, string("abc"))]))]);
    assert_eq!(entry.build_update(KEY.to_string()).into_doc(), expected);
}

#[test]
fn test_array_entry_update() {
    let entry = ArrayEntry::<I32Entry, i32>::Array(Array::Pop(PopOption::First), Operator::Whole);
    let expected = doc(vec![("$pop", sub(vec![(KEY, Bson::I32(-1))]))]);
    assert_eq!(entry.build_update(KEY.to_string()).into_doc(), expected);

    let entry = ArrayEntry::<I32Entry, i32>::Array(Array::Pop(PopOption::Last), Operator::First);
    let expected = doc(vec![("$pop", sub(vec![("xxx.$", Bson::I32(1))]))]);
    assert_eq!(entry.build_update(KEY.to_string()).into_doc(), expected);

    let entry = ArrayEntry::<F64Entry, Double>::Element(Element::SetValue(double(3.14)), Operator::Whole);
    let expected = doc(vec![("$set", sub(vec![(KEY, float(3.14))]))]);
    assert_eq!(entry.build_update(KEY.to_string()).into_doc(), expected);

    let entry = ArrayEntry::<F64Entry, Double>::Element(Element::SetValue(double(3.14)), Operator::First);
    let expected = doc(vec![("$set", sub(vec![("xxx.$", float(3.14))]))]);
    assert_eq!(entry.build_update(KEY.to_string()).into_doc(), expected);

    let entry = ArrayEntry::<F64Entry, Double>::Indexed(3, F64Entry::Value(double(3.14)));
    let expected = doc(vec![("xxx.3", float(3.14))]);
    assert_eq!(entry.build_update(KEY.to_string()).into_doc(), expected);
}

#[test]
fn test_objectid_entry_update() {
    let oid = ObjectId::with_string("11223344556677889900aabb").unwrap();

    let entry = ObjectIdEntry::Value(oid.clone());
    let expected = doc(vec![(KEY, Bson::ObjectId(oid.clone()))]);
    assert_eq!(entry.build_update(KEY.to_string()).into_doc(), expected);

    let entry = ObjectIdEntry::Field(Field::SetValue(oid.clone()));
    let expected = doc(vec![("$set", sub(vec![(KEY, Bson::ObjectId(oid.clone()))]))]);
    assert_eq!(entry.build_update(KEY.to_string()).into_doc(), expected);
}

#[test]
fn test_boolean_entry_update() {
    let entry = BooleanEntry::Value(true);
    let expected = doc(vec![(KEY, Bson::Boolean(true))]);
    assert_eq!(entry.build_update(KEY.to_string()).into_doc(), expected);

    let entry = BooleanEntry::Field(Field::SetValue(true));
    let expected = doc(vec![("$set", sub(vec![(KEY, Bson::Boolean(true))]))]);
    assert_eq!(entry.build_update(KEY.to_string()).into_doc(), expected);
}

#[test]
fn test_date_entry_update() {
    let datetime = Date::from_millis(10_000);

    let entry = DateEntry::Value(datetime);
    let expected = doc(vec![(KEY, Bson::UtcDatetime(datetime))]);
    assert_eq!(entry.build_update(KEY.to_string()).into_doc(), expected);

    let entry = DateEntry::CurrentDate;
    let expected = doc(vec![("$currentDate", sub(vec![(KEY, string("date"))]))]);
    assert_eq!(entry.build_update(KEY.to_string()).into_doc(), expected);

    let entry = DateEntry::Field(Field::SetValue(datetime));
    let expected = doc(vec![("$set", sub(vec![(KEY, Bson::UtcDatetime(datetime))]))]);
    assert_eq!(entry.build_update(KEY.to_string()).into_doc(), expected);
}

#[test]
fn test_i32_entry_update() {
    let entry = I32Entry::Value(3);
    let expected = doc(vec![(KEY, Bson::I32(3))]);
    assert_eq!(entry.build_update(KEY.to_string()).into_doc(), expected);

    let entry = I32Entry::Numerical(Numerical::Max(3));
    let expected = doc(vec![("$max", sub(vec![(KEY, Bson::I32(3))]))]);
    assert_eq!(entry.build_update(KEY.to_string()).into_doc(), expected);

    let entry = I32Entry::Field(Field::SetValue(3));
    let expected = doc(vec![("$set", sub(vec![(KEY, Bson::I32(3))]))]);
    assert_eq!(entry.build_update(KEY.to_string()).into_doc(), expected);
}

#[test]
fn test_timestamp_entry_update() {
    let entry = TimeStampEntry::Value(TimeStamp(3));
    let expected = doc(vec![(KEY, Bson::TimeStamp(3))]);
    assert_eq!(entry.build_update(KEY.to_string()).into_doc(), expected);

    let entry = TimeStampEntry::CurrentDate;
    let expected = doc(vec![("$currentDate", sub(vec![(KEY, string("timestamp"))]))]);
    assert_eq!(entry.build_update(KEY.to_string()).into_doc(), expected);

    let entry = TimeStampEntry::Field(Field::SetValue(TimeStamp(3)));
    let expected = doc(vec![("$set", sub(vec![(KEY, Bson::TimeStamp(3))]))]);
    assert_eq!(entry.build_update(KEY.to_string()).into_doc(), expected);
}

#[test]
fn test_i64_entry_update() {
    let entry = I64Entry::Value(3);
    let expected = doc(vec![(KEY, Bson::I64(3))]);
    assert_eq!(entry.build_update(KEY.to_string()).into_doc(), expected);

    let entry = I64Entry::Numerical(Numerical::Max(3));
    let expected = doc(vec![("$max", sub(vec![(KEY, Bson::I64(3))]))]);
    assert_eq!(entry.build_update(KEY.to_string()).into_doc(), expected);

    let entry = I64Entry::Field(Field::SetValue(3));
    let expected = doc(vec![("$set", sub(vec![(KEY, Bson::I64(3))]))]);
    assert_eq!(entry.build_update(KEY.to_string()).into_doc(), expected);
}

#[test]
fn test_bson_entry_update() {
    let entry = BsonEntry::Value(doc(vec![("a", Bson::I32(1)), ("b", Bson::I32(2))]));
    let expected = doc(vec![(KEY, sub(vec![("a", Bson::I32(1)), ("b", Bson::I32(2))]))]);
    assert_eq!(entry.build_update(KEY.to_string()).into_doc(), expected);

    let entry = BsonEntry::Field(Field::SetValue(doc(vec![("a", Bson::I32(1)), ("b", Bson::I32(2))])));
    let inner = sub(vec![("a", Bson::I32(1)), ("b", Bson::I32(2))]);
    let expected = doc(vec![("$set", sub(vec![(KEY, inner)]))]);
    assert_eq!(entry.build_update(KEY.to_string()).into_doc(), expected);
}

#[test]
fn push_each_with_position_and_slice() {
    let mut each = Each::new(vec![1, 2]);
    each.position = Some(3);
    each.slice = Some(5);
    let operation = Array::Push(PushValue::Each(each));
    let array = Bson::Array(vec![Bson::I32(1), Bson::I32(2)]);
    let inner = sub(vec![("$each", array), ("$position", Bson::I64(3)), ("$slice", Bson::I64(5))]);
    let expected = doc(vec![("$push", sub(vec![(KEY, inner)]))]);
    assert_eq!(operation.build_update(KEY.to_string()).into_doc(), expected);
}

#[test]
fn selected_array_entry_update() {
    let entry = ArrayEntry::<I32Entry, i32>::Selected(I32Entry::Field(Field::SetValue(2)));
    let expected = doc(vec![("$set", sub(vec![("xxx.$", Bson::I32(2))]))]);
    assert_eq!(entry.build_update(KEY.to_string()).into_doc(), expected);
}
