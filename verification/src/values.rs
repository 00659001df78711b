//! Values written into documents: plain values, objects, arrays and the values of array
//! operators.

use vstd::prelude::*;

use crate::document::{
    Bson, BsonV, DocV, Document, doc_insert, lemma_array_view, lemma_document_view, values_view,
};
use crate::text::copy_string;
use crate::types::{Date, Double, ObjectId, TimeStamp};

verus! {

/// Values that can be written into a document.
pub trait BuildValue: Sized {
    /// The BSON value written for the value. Types implemented outside verified code may leave
    /// it unstated.
    open spec fn value_of(self) -> BsonV {
        vstd::pervasive::arbitrary::<spec_fn(Self) -> BsonV>()(self)
    }

    /// Builds the value.
    fn build_value(self) -> (r: Value)
        ensures
            r@ == self.value_of(),
    ;
}

/// A value ready to be written into a document.
#[derive(Clone, Debug)]
pub struct Value {
    pub value: Bson,
}

impl View for Value {
    type V = BsonV;

    open spec fn view(&self) -> BsonV {
        self.value.view_rec()
    }
}

impl Value {
    /// The empty document.
    pub fn empty() -> (r: Self)
        ensures
            r@ == BsonV::Document(Seq::empty()),
    {
        let doc = Document::new();
        proof {
            lemma_document_view(doc);
        }
        Self { value: Bson::Document(doc) }
    }

    /// Wraps a BSON value.
    pub fn new(value: Bson) -> (r: Self)
        ensures
            r.value == value,
    {
        Self { value }
    }

    /// Returns the BSON value.
    pub fn into_bson(self) -> (r: Bson)
        ensures
            r == self.value,
    {
        self.value
    }
}

impl BuildValue for Double {
    open spec fn value_of(self) -> BsonV {
        BsonV::FloatingPoint(self)
    }

    fn build_value(self) -> (r: Value) {
        Value::new(Bson::FloatingPoint(self))
    }
}

impl BuildValue for String {
    open spec fn value_of(self) -> BsonV {
        BsonV::String(self@)
    }

    fn build_value(self) -> (r: Value)
        ensures
            r@ == BsonV::String(self@),
    {
        let r = Value::new(Bson::String(self));
        assert(r@ == BsonV::String(self@));
        r
    }
}

impl BuildValue for ObjectId {
    open spec fn value_of(self) -> BsonV {
        BsonV::ObjectId(self)
    }

    fn build_value(self) -> (r: Value) {
        Value::new(Bson::ObjectId(self))
    }
}

impl BuildValue for bool {
    open spec fn value_of(self) -> BsonV {
        BsonV::Boolean(self)
    }

    fn build_value(self) -> (r: Value)
        ensures
            r@ == BsonV::Boolean(self),
    {
        let r = Value::new(Bson::Boolean(self));
        assert(r@ == BsonV::Boolean(self));
        r
    }
}

impl BuildValue for Date {
    open spec fn value_of(self) -> BsonV {
        BsonV::UtcDatetime(self)
    }

    fn build_value(self) -> (r: Value) {
        Value::new(Bson::UtcDatetime(self))
    }
}

impl BuildValue for i32 {
    open spec fn value_of(self) -> BsonV {
        BsonV::I32(self)
    }

    fn build_value(self) -> (r: Value) {
        Value::new(Bson::I32(self))
    }
}

impl BuildValue for TimeStamp {
    open spec fn value_of(self) -> BsonV {
        BsonV::TimeStamp(self.0)
    }

    fn build_value(self) -> (r: Value) {
        Value::new(Bson::TimeStamp(self.0))
    }
}

impl BuildValue for i64 {
    open spec fn value_of(self) -> BsonV {
        BsonV::I64(self)
    }

    fn build_value(self) -> (r: Value) {
        Value::new(Bson::I64(self))
    }
}

impl BuildValue for Document {
    open spec fn value_of(self) -> BsonV {
        BsonV::Document(self@)
    }

    fn build_value(self) -> (r: Value) {
        proof {
            lemma_document_view(self);
        }
        Value::new(Bson::Document(self))
    }
}

// -------------------------------------------------------------------------------------------------

/// An object written field by field.
#[derive(Clone, Debug)]
pub struct ObjectValue {
    pub doc: Document,
}

impl ObjectValue {
    /// An object without fields.
    pub fn empty() -> (r: Self)
        ensures
            r.doc@ == DocV::empty(),
    {
        Self { doc: Document::new() }
    }

    /// Sets a field of the object.
    pub fn insert(&mut self, key: String, value: Bson)
        ensures
            final(self).doc@ == doc_insert(old(self).doc@, key@, value.view_rec()),
    {
        self.doc.insert(key, value);
    }
}

impl BuildValue for ObjectValue {
    open spec fn value_of(self) -> BsonV {
        BsonV::Document(self.doc@)
    }

    fn build_value(self) -> (r: Value) {
        proof {
            lemma_document_view(self.doc);
        }
        Value::new(Bson::Document(self.doc))
    }
}

// -------------------------------------------------------------------------------------------------

/// The values written for the elements.
pub open spec fn values_of<V: BuildValue>(elements: Seq<V>) -> Seq<BsonV> {
    Seq::new(elements.len(), |i: int| elements[i].value_of())
}

/// Builds the array of the values of the elements, in order.
pub fn values_into_array<V: BuildValue>(elements: Vec<V>) -> (r: Bson)
    ensures
        r.view_rec() == BsonV::Array(values_of(elements@)),
{
    let ghost all = elements@;
    let mut elements = elements;
    let mut result: Vec<Bson> = Vec::new();
    let n = elements.len();
    let mut k: usize = 0;
    while k < n
        invariant
            k <= n == all.len(),
            elements@ == all.subrange(k as int, n as int),
            result@.len() == k,
            forall|i: int| 0 <= i < k ==> #[trigger] result@[i].view_rec() == all[i].value_of(),
        decreases n - k,
    {
        let element = elements.remove(0);
        assert(elements@ =~= all.subrange(k + 1, n as int));
        result.push(element.build_value().into_bson());
        k = k + 1;
    }
    proof {
        lemma_array_view(result);
        assert(values_view(result@) =~= values_of(all));
    }
    Bson::Array(result)
}

/// The document with a single field.
pub open spec fn single(key: Seq<char>, value: BsonV) -> BsonV {
    BsonV::Document(seq![(key, value)])
}

/// Builds the document with a single field.
pub fn single_field(key: &str, value: Bson) -> (r: Bson)
    ensures
        r.view_rec() == single(key@, value.view_rec()),
{
    let mut doc = Document::new();
    doc.insert(copy_string(key), value);
    proof {
        lemma_document_view(doc);
        reveal(Seq::filter);
    }
    assert(doc@ =~= seq![(key@, value.view_rec())]);
    Bson::Document(doc)
}

// -------------------------------------------------------------------------------------------------

/// A value of a filter on a member: a value, one of several values, or nothing.
#[derive(Clone, Debug)]
pub enum Entry<V: BuildValue> {
    /// A value.
    Value(V),
    /// One of several values (`$in`).
    In(Vec<V>),
    /// Nothing.
    Empty,
}

impl<V: BuildValue> Entry<V> {
    /// The value written for the entry, if any.
    pub open spec fn entry_value(self) -> Option<BsonV> {
        match self {
            Entry::Value(v) => Some(v.value_of()),
            Entry::In(vs) => Some(single("$in"@, BsonV::Array(values_of(vs@)))),
            Entry::Empty => None,
        }
    }

    /// Builds the value of the entry, if any.
    pub fn build_value(self) -> (r: Option<Value>)
        ensures
            match self.entry_value() {
                Some(v) => r matches Some(x) && x@ == v,
                None => r is None,
            },
    {
        match self {
            Entry::Value(value) => Some(value.build_value()),
            Entry::In(values) => {
                let array = values_into_array(values);
                proof {
                    reveal_strlit("$in");
                }
                Some(Value::new(single_field("$in", array)))
            },
            Entry::Empty => None,
        }
    }
}

/// The values of an array member, or nothing.
#[derive(Clone, Debug)]
pub enum ArrayEntry<V: BuildValue> {
    /// The values.
    Values(Vec<V>),
    /// Nothing.
    Empty,
}

impl<V: BuildValue> ArrayEntry<V> {
    /// Builds the array, if any.
    pub fn build_value(self) -> (r: Option<Value>)
        ensures
            match self {
                ArrayEntry::Values(vs) => r matches Some(x) && x@ == BsonV::Array(values_of(vs@)),
                ArrayEntry::Empty => r is None,
            },
    {
        match self {
            ArrayEntry::Values(values) => Some(Value::new(values_into_array(values))),
            ArrayEntry::Empty => None,
        }
    }
}

// -------------------------------------------------------------------------------------------------

/// Several values added to an array at once, possibly at a position and with a limit on the
/// size of the array.
#[derive(Clone, Debug)]
pub struct Each<V: BuildValue> {
    /// The values.
    pub each: Vec<V>,
    /// Where the values go in the array.
    pub position: Option<usize>,
    /// The number of elements the array is cut to.
    pub slice: Option<usize>,
}

impl<V: BuildValue> Each<V> {
    /// The values, at the end of the array and without a limit.
    pub fn new(each: Vec<V>) -> (r: Self)
        ensures
            r.each == each,
            r.position is None,
            r.slice is None,
    {
        Self { each, position: None, slice: None }
    }
}

/// The document written for `$each`: the values, then the position and the slice if given.
pub open spec fn each_doc(values: Seq<BsonV>, position: Option<usize>, slice: Option<usize>) -> DocV {
    let with_each = seq![("$each"@, BsonV::Array(values))];
    let with_position = match position {
        Some(p) => doc_insert(with_each, "$position"@, BsonV::I64(p as i64)),
        None => with_each,
    };
    match slice {
        Some(s) => doc_insert(with_position, "$slice"@, BsonV::I64(s as i64)),
        None => with_position,
    }
}

/// A value pushed into an array: one value, or several at once.
#[derive(Clone, Debug)]
pub enum PushValue<V: BuildValue> {
    /// One value.
    Value(V),
    /// Several values.
    Each(Each<V>),
}

impl<V: BuildValue> BuildValue for PushValue<V> {
    open spec fn value_of(self) -> BsonV {
        match self {
            PushValue::Value(v) => v.value_of(),
            PushValue::Each(e) => BsonV::Document(
                each_doc(values_of(e.each@), e.position, e.slice),
            ),
        }
    }

    fn build_value(self) -> (r: Value) {
        match self {
            PushValue::Value(value) => value.build_value(),
            PushValue::Each(each) => {
                let mut result = Document::new();
                let array = values_into_array(each.each);
                proof {
                    reveal_strlit("$each");
                    reveal_strlit("$position");
                    reveal_strlit("$slice");
                    reveal(Seq::filter);
                }
                result.insert(copy_string("$each"), array);
                assert(result@ =~= seq![("$each"@, array.view_rec())]);
                if let Some(position) = each.position {
                    result.insert(copy_string("$position"), Bson::I64(position as i64));
                }
                if let Some(slice) = each.slice {
                    result.insert(copy_string("$slice"), Bson::I64(slice as i64));
                }
                proof {
                    lemma_document_view(result);
                }
                Value::new(Bson::Document(result))
            },
        }
    }
}

/// A value pulled out of an array: one value, or any of several.
#[derive(Clone, Debug)]
pub enum PullValue<V: BuildValue> {
    /// One value.
    Value(V),
    /// Any of several values (`$in`).
    In(Vec<V>),
}

impl<V: BuildValue> BuildValue for PullValue<V> {
    open spec fn value_of(self) -> BsonV {
        match self {
            PullValue::Value(v) => v.value_of(),
            PullValue::In(vs) => single("$in"@, BsonV::Array(values_of(vs@))),
        }
    }

    fn build_value(self) -> (r: Value) {
        match self {
            PullValue::Value(value) => value.build_value(),
            PullValue::In(values) => {
                let array = values_into_array(values);
                proof {
                    reveal_strlit("$in");
                }
                Value::new(single_field("$in", array))
            },
        }
    }
}

}
