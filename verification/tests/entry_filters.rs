//! Filters built by the entries of plain members.

use huus::document::{Bson, Document};
use huus::filters::{
    Array, ArrayEntry, BooleanEntry, BsonEntry, BuildInnerFilter, Comparison, DateEntry, Element,
    F64Entry, I32Entry, I64Entry, Logical, NullEntry, ObjectIdEntry, StringEntry, TimeStampEntry,
};
use huus::types::{Date, Double, ObjectId, TimeStamp, Type};

const KEY: &str = "xxx";

fn doc(entries: Vec<(&str, Bson)>) -> Document {
    let mut result = Document::new();
    for (key, value) in entries {
        result.insert(key.to_string(), value);
    }
    result
}

fn sub(entries: Vec<(&str, Bson)>) -> Bson {
    Bson::Document(doc(entries))
}

fn double(value: f64) -> Double {
    Double::from_bits(value.to_bits())
}

fn float(value: f64) -> Bson {
    Bson::FloatingPoint(double(value))
}

fn string(value: &str) -> Bson {
    Bson::String(value.to_string())
}

fn op(operator: &str, value: Bson) -> Document {
    doc(vec![(KEY, sub(vec![(operator, value)]))])
}

fn floats(values: Vec<f64>) -> Vec<Double> {
    values.into_iter().map(double).collect()
}

fn strings(values: Vec<&str>) -> Vec<String> {
    values.into_iter().map(|v| v.to_string()).collect()
}

#[test]
fn test_comparison_filter() {
    let entry = Comparison::Eq(double(3.14));
    assert_eq!(entry.build_filter(KEY.to_string()).into_doc(), op("$eq", float(3.14)));

    let entry = Comparison::Eq("abc".to_string());
    assert_eq!(entry.build_filter(KEY.to_string()).into_doc(), op("$eq", string("abc")));

    let entry = Comparison::Gt(double(3.14));
    assert_eq!(entry.build_filter(KEY.to_string()).into_doc(), op("$gt", float(3.14)));

    let entry = Comparison::Gt("abc".to_string());
    assert_eq!(entry.build_filter(KEY.to_string()).into_doc(), op("$gt", string("abc")));

    let entry = Comparison::Gte(double(3.14));
    assert_eq!(entry.build_filter(KEY.to_string()).into_doc(), op("$gte", float(3.14)));

    let entry = Comparison::Gte("abc".to_string());
    assert_eq!(entry.build_filter(KEY.to_string()).into_doc(), op("$gte", string("abc")));

    let entry = Comparison::In(floats(vec![3.14, 2.718]));
    let expected = op("$in", Bson::Array(vec![float(3.14), float(2.718)]));
    assert_eq!(entry.build_filter(KEY.to_string()).into_doc(), expected);

    let entry = Comparison::In(strings(vec!["abc", "def"]));
    let expected = op("$in", Bson::Array(vec![string("abc"), string("def")]));
    assert_eq!(entry.build_filter(KEY.to_string()).into_doc(), expected);

    let entry = Comparison::Lt(double(3.14));
    assert_eq!(entry.build_filter(KEY.to_string()).into_doc(), op("$lt", float(3.14)));

    let entry = Comparison::Lt("abc".to_string());
    assert_eq!(entry.build_filter(KEY.to_string()).into_doc(), op("$lt", string("abc")));

    let entry = Comparison::Lte(double(3.14));
    assert_eq!(entry.build_filter(KEY.to_string()).into_doc(), op("$lte", float(3.14)));

    let entry = Comparison::Lte("abc".to_string());
    assert_eq!(entry.build_filter(KEY.to_string()).into_doc(), op("$lte", string("abc")));

    let entry = Comparison::Ne(double(3.14));
    assert_eq!(entry.build_filter(KEY.to_string()).into_doc(), op("$ne", float(3.14)));

    let entry = Comparison::Ne("abc".to_string());
    assert_eq!(entry.build_filter(KEY.to_string()).into_doc(), op("$ne", string("abc")));

    let entry = Comparison::Nin(floats(vec![3.14, 2.718]));
    let expected = op("$nin", Bson::Array(vec![float(3.14), float(2.718)]));
    assert_eq!(entry.build_filter(KEY.to_string()).into_doc(), expected);

    let entry = Comparison::Nin(strings(vec!["abc", "def"]));
    let expected = op("$nin", Bson::Array(vec![string("abc"), string("def")]));
    assert_eq!(entry.build_filter(KEY.to_string()).into_doc(), expected);
}

#[test]
fn test_logical_filter() {
    let both = || {
        Bson::Array(vec![
            Bson::Document(op("$eq", float(3.14))),
            Bson::Document(op("$eq", float(2.718))),
        ])
    };

    let entry = Logical::And(vec![Comparison::Eq(double(3.14)), Comparison::Eq(double(2.718))]);
    let expected = doc(vec![("$and", both())]);
    assert_eq!(entry.build_filter(KEY.to_string()).into_doc(), expected);

    let entry = Logical::Not(Comparison::Eq(double(3.14)));
    let expected = doc(vec![("$not", Bson::Document(op("$eq", float(3.14))))]);
    assert_eq!(entry.build_filter(KEY.to_string()).into_doc(), expected);

    let entry = Logical::Nor(vec![Comparison::Eq(double(3.14)), Comparison::Eq(double(2.718))]);
    let expected = doc(vec![("$nor", both())]);
    assert_eq!(entry.build_filter(KEY.to_string()).into_doc(), expected);

    let entry = Logical::Or(vec![Comparison::Eq(double(3.14)), Comparison::Eq(double(2.718))]);
    let expected = doc(vec![("$or", both())]);
    assert_eq!(entry.build_filter(KEY.to_string()).into_doc(), expected);
}

#[test]
fn test_element_filter() {
    let entry = Element::Exists(true);
    assert_eq!(entry.build_filter(KEY.to_string()).into_doc(), op("$exists", Bson::Boolean(true)));

    let entry = Element::Type(Type::String);
    assert_eq!(entry.build_filter(KEY.to_string()).into_doc(), op("$type", Bson::I32(2)));
}

#[test]
fn test_array_filter() {
    let entry = Array::All(floats(vec![3.14, 2.718]));
    let expected = op("$all", Bson::Array(vec![float(3.14), float(2.718)]));
    assert_eq!(entry.build_filter(KEY.to_string()).into_doc(), expected);

    let entry = Array::ElemMatch(floats(vec![3.14, 2.718]));
    let expected = op("$elemMatch", Bson::Array(vec![float(3.14), float(2.718)]));
    assert_eq!(entry.build_filter(KEY.to_string()).into_doc(), expected);

    let entry = Array::<Double>::Size(5);
    assert_eq!(entry.build_filter(KEY.to_string()).into_doc(), op("$size", Bson::I32(5)));
}

#[test]
fn test_double_entry_filter() {
    let entry = F64Entry::Value(double(3.14));
    assert_eq!(entry.build_filter(KEY.to_string()).into_doc(), doc(vec![(KEY, float(3.14))]));

    let entry = F64Entry::Comparison(Comparison::Eq(double(3.14)));
    assert_eq!(entry.build_filter(KEY.to_string()).into_doc(), op("$eq", float(3.14)));

    let entry = F64Entry::Element(Element::Exists(true));
    assert_eq!(entry.build_filter(KEY.to_string()).into_doc(), op("$exists", Bson::Boolean(true)));
}

#[test]
fn test_string_entry_filter() {
    let entry = StringEntry::Value("abc".to_string());
    assert_eq!(entry.build_filter(KEY.to_string()).into_doc(), doc(vec![(KEY, string("abc"))]));

    let entry = StringEntry::Comparison(Comparison::Eq("abc".to_string()));
    assert_eq!(entry.build_filter(KEY.to_string()).into_doc(), op("$eq", string("abc")));

    let entry = StringEntry::Element(Element::Exists(true));
    assert_eq!(entry.build_filter(KEY.to_string()).into_doc(), op("$exists", Bson::Boolean(true)));
}

#[test]
fn test_array_entry_filter() {
    let entry = ArrayEntry::<Double, Double>::Value(double(3.14));
    assert_eq!(entry.build_filter(KEY.to_string()).into_doc(), doc(vec![(KEY, float(3.14))]));

    let entry = ArrayEntry::<Double, Double>::Dot(double(3.14));
    assert_eq!(entry.build_filter(KEY.to_string()).into_doc(), doc(vec![(KEY, float(3.14))]));

    let entry = ArrayEntry::<Double, Double>::Array(Array::All(floats(vec![3.14, 2.718])));
    let expected = op("$all", Bson::Array(vec![float(3.14), float(2.718)]));
    assert_eq!(entry.build_filter(KEY.to_string()).into_doc(), expected);

    let entry = ArrayEntry::<Double, Double>::Element(Element::Exists(true));
    assert_eq!(entry.build_filter(KEY.to_string()).into_doc(), op("$exists", Bson::Boolean(true)));
}

#[test]
fn test_objectid_entry_filter() {
    let oid = ObjectId::with_string("11223344556677889900aabb").unwrap();

    let entry = ObjectIdEntry::Value(oid.clone());
    let expected = doc(vec![(KEY, Bson::ObjectId(oid.clone()))]);
    assert_eq!(entry.build_filter(KEY.to_string()).into_doc(), expected);

    let entry = ObjectIdEntry::Element(Element::Exists(true));
    assert_eq!(entry.build_filter(KEY.to_string()).into_doc(), op("$exists", Bson::Boolean(true)));
}

#[test]
fn test_boolean_entry_filter() {
    let entry = BooleanEntry::Value(true);
    assert_eq!(entry.build_filter(KEY.to_string()).into_doc(), doc(vec![(KEY, Bson::Boolean(true))]));

    let entry = BooleanEntry::Element(Element::Exists(true));
    assert_eq!(entry.build_filter(KEY.to_string()).into_doc(), op("$exists", Bson::Boolean(true)));
}

#[test]
fn test_date_entry_filter() {
    let datetime = Date::from_millis(10_000);

    let entry = DateEntry::Value(datetime);
    let expected = doc(vec![(KEY, Bson::UtcDatetime(datetime))]);
    assert_eq!(entry.build_filter(KEY.to_string()).into_doc(), expected);

    let entry = DateEntry::Comparison(Comparison::Eq(datetime));
    assert_eq!(entry.build_filter(KEY.to_string()).into_doc(), op("$eq", Bson::UtcDatetime(datetime)));

    let entry = DateEntry::Element(Element::Exists(true));
    assert_eq!(entry.build_filter(KEY.to_string()).into_doc(), op("$exists", Bson::Boolean(true)));
}

#[test]
fn test_null_entry_filter() {
    let entry = NullEntry::Element(Element::Exists(true));
    assert_eq!(entry.build_filter(KEY.to_string()).into_doc(), op("$exists", Bson::Boolean(true)));
}

#[test]
fn test_i32_entry_filter() {
    let entry = I32Entry::Value(3);
    assert_eq!(entry.build_filter(KEY.to_string()).into_doc(), doc(vec![(KEY, Bson::I32(3))]));

    let entry = I32Entry::Comparison(Comparison::Eq(3));
    assert_eq!(entry.build_filter(KEY.to_string()).into_doc(), op("$eq", Bson::I32(3)));

    let entry = I32Entry::Element(Element::Exists(true));
    assert_eq!(entry.build_filter(KEY.to_string()).into_doc(), op("$exists", Bson::Boolean(true)));
}

#[test]
fn test_timestamp_entry_filter() {
    let entry = TimeStampEntry::Value(TimeStamp(3));
    assert_eq!(entry.build_filter(KEY.to_string()).into_doc(), doc(vec![(KEY, Bson::TimeStamp(3))]));

    let entry = TimeStampEntry::Comparison(Comparison::Eq(TimeStamp(3)));
    assert_eq!(entry.build_filter(KEY.to_string()).into_doc(), op("$eq", Bson::TimeStamp(3)));

    let entry = TimeStampEntry::Element(Element::Exists(true));
    assert_eq!(entry.build_filter(KEY.to_string()).into_doc(), op("$exists", Bson::Boolean(true)));
}

#[test]
fn test_i64_entry_filter() {
    let entry = I64Entry::Value(3);
    assert_eq!(entry.build_filter(KEY.to_string()).into_doc(), doc(vec![(KEY, Bson::I64(3))]));

    let entry = I64Entry::Comparison(Comparison::Eq(3));
    assert_eq!(entry.build_filter(KEY.to_string()).into_doc(), op("$eq", Bson::I64(3)));

    let entry = I64Entry::Element(Element::Exists(true));
    assert_eq!(entry.build_filter(KEY.to_string()).into_doc(), op("$exists", Bson::Boolean(true)));
}

#[test]
fn test_bson_entry_filter() {
    let entry = BsonEntry::Value(doc(vec![("a", Bson::I32(1)), ("b", Bson::I32(2))]));
    let expected = doc(vec![(KEY, sub(vec![("a", Bson::I32(1)), ("b", Bson::I32(2))]))]);
    assert_eq!(entry.build_filter(KEY.to_string()).into_doc(), expected);

    let entry = BsonEntry::Element(Element::Exists(true));
    assert_eq!(entry.build_filter(KEY.to_string()).into_doc(), op("$exists", Bson::Boolean(true)));
}
