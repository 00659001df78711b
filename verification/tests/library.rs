//! Documents, errors, attributes and verdicts.

use huus::document::{Bson, Document};
use huus::errors::ConversionError;
use huus::filters::Filter;
use huus::formulation::output::{Attribute, Part};
use huus::formulation::validator::{Problem, Verdict};
use huus::updates::{decimal_string, Field, Update};
use huus::updates::BuildInnerUpdate;

#[test]
fn get_after_insert_gives_the_value() {
    let mut document = Document::new();
    document.insert("a".to_string(), Bson::I32(1));
    document.insert("b".to_string(), Bson::I32(2));
    assert_eq!(document.get("a"), Some(&Bson::I32(1)));
    assert_eq!(document.get("b"), Some(&Bson::I32(2)));
    assert_eq!(document.get("c"), None);
    assert_eq!(document.len(), 2);
}

#[test]
fn insert_replaces_and_moves_the_key_to_the_end() {
    let mut document = Document::new();
    document.insert("a".to_string(), Bson::I32(1));
    document.insert("b".to_string(), Bson::I32(2));
    document.insert("a".to_string(), Bson::I32(3));
    assert_eq!(document.len(), 2);
    assert_eq!(document.get("a"), Some(&Bson::I32(3)));
    assert_eq!(document.entries[0].0, "b");
    assert_eq!(document.entries[1].0, "a");
}

#[test]
fn insert_all_inserts_in_order() {
    let mut first = Document::new();
    first.insert("a".to_string(), Bson::I32(1));
    first.insert("b".to_string(), Bson::I32(2));
    let mut second = Document::new();
    second.insert("a".to_string(), Bson::I32(5));
    second.insert("c".to_string(), Bson::I32(6));
    first.insert_all(second);
    assert_eq!(first.len(), 3);
    assert_eq!(first.entries[0].0, "b");
    assert_eq!(first.entries[1].0, "a");
    assert_eq!(first.entries[2].0, "c");
    assert_eq!(first.get("a"), Some(&Bson::I32(5)));
}

#[test]
fn copies_are_equal() {
    let mut inner = Document::new();
    inner.insert("x".to_string(), Bson::Array(vec![Bson::Null, Bson::Boolean(false)]));
    let value = Bson::Document(inner);
    assert_eq!(value.duplicate(), value);
    assert_eq!(value.clone(), value);
}

#[test]
fn conversion_error_messages() {
    assert_eq!(ConversionError::missing_key("k".to_string()).message(), "Missing key: 'k'");
    assert_eq!(ConversionError::wrong_type("k".to_string()).message(), "Wrong type for key: 'k'");
    assert_eq!(ConversionError::wrong_type_for_unknown_key().message(), "Wrong type for key: '<unknown>'");
    assert_eq!(ConversionError::incorrect_value("v".to_string()).message(), "Incorrect value: 'v'");
    assert!(ConversionError::unexpected_value("v".to_string()).message().starts_with("Unexpected value. Found: 'v'"));
}

#[test]
fn parts_of_attributes() {
    let attribute = Attribute::from_str("data.3.$.str");
    assert_eq!(attribute.len(), 4);
    assert!(matches!(&attribute.parts[0], Part::Key(k) if k == "data"));
    assert!(matches!(&attribute.parts[1], Part::Index(i) if i == "3"));
    assert!(matches!(&attribute.parts[2], Part::Dollar));
    assert!(matches!(&attribute.parts[3], Part::Key(k) if k == "str"));
    assert_eq!(attribute.to_composed(), "data.3.$.str");
    assert!(!attribute.is_operator());
    assert!(Attribute::from_str("$set").is_operator());
}

#[test]
fn verdict_format() {
    let mut verdict = Verdict::new();
    assert_eq!(verdict.format(), "vec![]");
    verdict.problems.push(Problem::MacroEmpty);
    verdict.problems.push(Problem::FieldNotFound);
    assert_eq!(verdict.format(), "vec![huus::Problem::MacroEmpty, huus::Problem::FieldNotFound]");
    assert_eq!(Problem::MacroEmpty.as_str(), "The macro seems to be empty");
}

#[test]
fn incorporate_keeps_instruction_order() {
    let mut update = Update::empty();
    update.incorporate(Field::SetValue(1).build_update("a".to_string()));
    update.incorporate(Field::SetValue(2).build_update("b".to_string()));
    let mut expected_set = Document::new();
    expected_set.insert("b".to_string(), Bson::I32(2));
    expected_set.insert("a".to_string(), Bson::I32(1));
    let mut expected = Document::new();
    expected.insert("$set".to_string(), Bson::Document(expected_set));
    assert_eq!(update.into_doc(), expected);
}

#[test]
fn incorporate_empty_changes_nothing() {
    let mut update = Field::SetValue(1).build_update("a".to_string());
    update.incorporate(Update::empty());
    let mut expected_set = Document::new();
    expected_set.insert("a".to_string(), Bson::I32(1));
    let mut expected = Document::new();
    expected.insert("$set".to_string(), Bson::Document(expected_set));
    assert_eq!(update.into_doc(), expected);
}

#[test]
fn empty_incorporating_takes_the_update() {
    let mut update = Update::empty();
    let mut added = Update::with_field("x".to_string(), Bson::I32(7));
    added.incorporate(Field::SetValue(1).build_update("a".to_string()));
    update.incorporate(added);
    let mut expected_set = Document::new();
    expected_set.insert("a".to_string(), Bson::I32(1));
    let mut expected = Document::new();
    expected.insert("x".to_string(), Bson::I32(7));
    expected.insert("$set".to_string(), Bson::Document(expected_set));
    assert_eq!(update.into_doc(), expected);
}

#[test]
fn decimal_text_of_indexes() {
    assert_eq!(decimal_string(0), "0");
    assert_eq!(decimal_string(7), "7");
    assert_eq!(decimal_string(1024), "1024");
}

#[test]
fn filter_incorporation() {
    let mut filter = Filter::with_field("a".to_string(), Bson::I32(1));
    filter.incorporate(Filter::empty());
    let mut expected = Document::new();
    expected.insert("a".to_string(), Bson::I32(1));
    assert_eq!(filter.into_doc(), expected);

    let mut filter = Filter::with_field("a".to_string(), Bson::I32(1));
    filter.incorporate(Filter::with_field("b".to_string(), Bson::I32(2)));
    filter.incorporate(Filter::with_field("a".to_string(), Bson::I32(3)));
    let doc = filter.into_doc();
    assert_eq!(doc.get("a"), Some(&Bson::I32(3)));
    assert_eq!(doc.get("b"), Some(&Bson::I32(2)));
    assert_eq!(doc.len(), 2);
}

#[test]
fn incorporation_is_associative() {
    let a = || Field::SetValue(1).build_update("a".to_string());
    let b = || Update::with_field("b".to_string(), Bson::I32(2));
    let c = || Field::SetValue(3).build_update("c".to_string());

    let mut left = a();
    left.incorporate(b());
    left.incorporate(c());

    let mut right_tail = b();
    right_tail.incorporate(c());
    let mut right = a();
    right.incorporate(right_tail);

    assert_eq!(left.into_doc(), right.into_doc());
}

#[test]
fn every_text_is_a_string_key() {
    use_key("");
    use_key("choice_1");
}

fn use_key(text: &str) {
    let key = <String as huus::conversions::HuusKey>::from_str(text).unwrap();
    assert_eq!(key, text);
    assert_eq!(huus::conversions::HuusKey::to_str(&key), text);
}

#[test]
fn field_problem_messages() {
    assert_eq!(Problem::FieldNotFound.as_str(), "Field does not match in the schema");
    assert_eq!(Problem::FieldOnEnum.as_str(), "No more fields can be specified for an enum");
    assert_eq!(Problem::FieldOnPlain.as_str(), "No more fields can be specified for a plain field");
}

#[test]
fn attribute_pieces_are_trimmed() {
    let attribute = Attribute::from_str(" data .\tstr\n");
    assert_eq!(attribute.len(), 2);
    assert_eq!(attribute.to_composed(), "data.str");
    let attribute = Attribute::from_str("   ");
    assert_eq!(attribute.len(), 1);
    assert_eq!(attribute.to_composed(), "");
}

#[test]
fn empty_update_is_a_left_identity() {
    let mut update = Update::with_field("a".to_string(), Bson::I32(1));
    update.incorporate(Field::SetValue(2).build_update("b".to_string()));
    let expected = {
        let mut u = Update::with_field("a".to_string(), Bson::I32(1));
        u.incorporate(Field::SetValue(2).build_update("b".to_string()));
        u.into_doc()
    };
    let mut empty = Update::empty();
    empty.incorporate(update);
    assert_eq!(empty.into_doc(), expected);
}
