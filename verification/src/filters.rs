//! Filters: documents selecting the documents of a collection.

use vstd::prelude::*;

use crate::conversions::{HuusIntoBson, HuusKey, bsons_of, vec_into_array};
use crate::document::{
    Bson, BsonV, DocV, Document, doc_insert_all, lemma_array_view, lemma_document_view,
    values_view,
};
use crate::text::copy_string;
use crate::types::{Date, Double, ObjectId, TimeStamp, Type};
use crate::values::single;

verus! {

/// A filter: the document of its conditions.
#[derive(Clone, Debug)]
pub struct Filter {
    pub doc: Document,
}

impl View for Filter {
    type V = DocV;

    open spec fn view(&self) -> DocV {
        self.doc@
    }
}

impl Filter {
    /// The filter without conditions.
    pub fn empty() -> (r: Self)
        ensures
            r@ == DocV::empty(),
    {
        Self { doc: Document::new() }
    }

    /// The filter with a single condition on a field.
    pub fn with_field(field: String, value: Bson) -> (r: Self)
        ensures
            r@ == seq![(field@, value.view_rec())],
    {
        let mut filter = Filter::empty();
        let ghost v = value.view_rec();
        filter.doc.insert(field, value);
        proof {
            reveal(Seq::filter);
        }
        assert(filter@ =~= seq![(field@, v)]);
        filter
    }

    /// Returns the document of the filter.
    pub fn into_doc(self) -> (r: Document)
        ensures
            r@ == self@,
    {
        self.doc
    }

    /// Returns the document of the filter as a BSON value.
    pub fn into_bson(self) -> (r: Bson)
        ensures
            r.view_rec() == BsonV::Document(self@),
    {
        proof {
            lemma_document_view(self.doc);
        }
        Bson::Document(self.doc)
    }

    /// Adds the conditions of another filter; a condition on a field already present replaces
    /// it.
    pub fn incorporate(&mut self, filter: Filter)
        ensures
            final(self)@ == doc_insert_all(old(self)@, filter@),
    {
        self.doc.insert_all(filter.doc);
    }
}

/// Values that build a whole filter.
pub trait BuildFilter: Sized {
    /// The conditions of the filter. Types implemented outside verified code may leave them
    /// unstated.
    open spec fn filter_of(self) -> DocV {
        vstd::pervasive::arbitrary::<spec_fn(Self) -> DocV>()(self)
    }

    /// Builds the filter.
    fn build_filter(self) -> (r: Filter)
        ensures
            r@ == self.filter_of(),
    ;
}

/// Values that build the filter of a field.
pub trait BuildInnerFilter: Sized {
    /// The conditions of the filter on the given field. Types implemented outside verified code
    /// may leave them unstated.
    open spec fn inner_filter_of(self, field: Seq<char>) -> DocV {
        vstd::pervasive::arbitrary::<spec_fn(Self, Seq<char>) -> DocV>()(self, field)
    }

    /// Builds the filter on the given field.
    fn build_filter(self, field: String) -> (r: Filter)
        ensures
            r@ == self.inner_filter_of(field@),
    ;
}

/// The condition that a field equals a value.
pub open spec fn field_is(field: Seq<char>, value: BsonV) -> DocV {
    seq![(field, value)]
}

/// The condition that a field satisfies an operator with an argument.
pub open spec fn field_op(field: Seq<char>, op: Seq<char>, value: BsonV) -> DocV {
    seq![(field, single(op, value))]
}

/// Builds the condition that a field satisfies an operator with an argument.
fn operator_filter(field: String, op: &str, value: Bson) -> (r: Filter)
    ensures
        r@ == field_op(field@, op@, value.view_rec()),
{
    let inner = crate::values::single_field(op, value);
    Filter::with_field(field, inner)
}


impl BuildInnerFilter for Double {
    open spec fn inner_filter_of(self, field: Seq<char>) -> DocV {
        field_is(field, BsonV::FloatingPoint(self))
    }

    fn build_filter(self, field: String) -> (r: Filter) {
        Filter::with_field(field, Bson::FloatingPoint(self))
    }
}

impl BuildInnerFilter for String {
    open spec fn inner_filter_of(self, field: Seq<char>) -> DocV {
        field_is(field, BsonV::String(self@))
    }

    fn build_filter(self, field: String) -> (r: Filter) {
        Filter::with_field(field, Bson::String(self))
    }
}

impl BuildInnerFilter for ObjectId {
    open spec fn inner_filter_of(self, field: Seq<char>) -> DocV {
        field_is(field, BsonV::ObjectId(self))
    }

    fn build_filter(self, field: String) -> (r: Filter) {
        Filter::with_field(field, Bson::ObjectId(self))
    }
}

impl BuildInnerFilter for bool {
    open spec fn inner_filter_of(self, field: Seq<char>) -> DocV {
        field_is(field, BsonV::Boolean(self))
    }

    fn build_filter(self, field: String) -> (r: Filter) {
        Filter::with_field(field, Bson::Boolean(self))
    }
}

impl BuildInnerFilter for Date {
    open spec fn inner_filter_of(self, field: Seq<char>) -> DocV {
        field_is(field, BsonV::UtcDatetime(self))
    }

    fn build_filter(self, field: String) -> (r: Filter) {
        Filter::with_field(field, Bson::UtcDatetime(self))
    }
}

impl BuildInnerFilter for i32 {
    open spec fn inner_filter_of(self, field: Seq<char>) -> DocV {
        field_is(field, BsonV::I32(self))
    }

    fn build_filter(self, field: String) -> (r: Filter) {
        Filter::with_field(field, Bson::I32(self))
    }
}

impl BuildInnerFilter for TimeStamp {
    open spec fn inner_filter_of(self, field: Seq<char>) -> DocV {
        field_is(field, BsonV::TimeStamp(self.0))
    }

    fn build_filter(self, field: String) -> (r: Filter) {
        Filter::with_field(field, Bson::TimeStamp(self.0))
    }
}

impl BuildInnerFilter for i64 {
    open spec fn inner_filter_of(self, field: Seq<char>) -> DocV {
        field_is(field, BsonV::I64(self))
    }

    fn build_filter(self, field: String) -> (r: Filter) {
        Filter::with_field(field, Bson::I64(self))
    }
}

// -------------------------------------------------------------------------------------------------

/// The documents of the filters, in order.
pub open spec fn filter_docs<F: BuildFilter>(filters: Seq<F>) -> Seq<BsonV> {
    Seq::new(filters.len(), |i: int| BsonV::Document(filters[i].filter_of()))
}

/// The documents of the filters on a field, in order.
pub open spec fn inner_filter_docs<F: BuildInnerFilter>(filters: Seq<F>, field: Seq<char>) -> Seq<
    BsonV,
> {
    Seq::new(filters.len(), |i: int| BsonV::Document(filters[i].inner_filter_of(field)))
}

/// Builds the array of the documents of the filters.
fn filters_into_array<F: BuildFilter>(filters: Vec<F>) -> (r: Bson)
    ensures
        r.view_rec() == BsonV::Array(filter_docs(filters@)),
{
    let ghost all = filters@;
    let mut filters = filters;
    let mut result: Vec<Bson> = Vec::new();
    let n = filters.len();
    let mut k: usize = 0;
    while k < n
        invariant
            k <= n == all.len(),
            filters@ == all.subrange(k as int, n as int),
            result@.len() == k,
            forall|i: int|
                0 <= i < k ==> #[trigger] result@[i].view_rec() == BsonV::Document(all[i].filter_of()),
        decreases n - k,
    {
        let filter = filters.remove(0);
        assert(filters@ =~= all.subrange(k + 1, n as int));
        result.push(filter.build_filter().into_bson());
        k = k + 1;
    }
    proof {
        lemma_array_view(result);
        assert(values_view(result@) =~= filter_docs(all));
    }
    Bson::Array(result)
}

/// Builds the array of the documents of the filters on a field.
fn inner_filters_into_array<F: BuildInnerFilter>(filters: Vec<F>, field: &String) -> (r: Bson)
    ensures
        r.view_rec() == BsonV::Array(inner_filter_docs(filters@, field@)),
{
    let ghost all = filters@;
    let mut filters = filters;
    let mut result: Vec<Bson> = Vec::new();
    let n = filters.len();
    let mut k: usize = 0;
    while k < n
        invariant
            k <= n == all.len(),
            filters@ == all.subrange(k as int, n as int),
            result@.len() == k,
            forall|i: int|
                0 <= i < k ==> #[trigger] result@[i].view_rec() == BsonV::Document(
                    all[i].inner_filter_of(field@),
                ),
        decreases n - k,
    {
        let filter = filters.remove(0);
        assert(filters@ =~= all.subrange(k + 1, n as int));
        result.push(filter.build_filter(copy_string(field.as_str())).into_bson());
        k = k + 1;
    }
    proof {
        lemma_array_view(result);
        assert(values_view(result@) =~= inner_filter_docs(all, field@));
    }
    Bson::Array(result)
}

/// Builds the array of the BSON values of the elements.
fn array_of<B: HuusIntoBson>(elements: Vec<B>) -> (r: Bson)
    ensures
        r.view_rec() == BsonV::Array(bsons_of(elements@)),
{
    let ghost all = elements@;
    let values = vec_into_array(elements);
    proof {
        lemma_array_view(values);
        assert(values_view(values@) =~= bsons_of(all));
    }
    Bson::Array(values)
}

// -------------------------------------------------------------------------------------------------

/// Logical combinations of whole filters.
#[derive(Clone, Debug)]
pub enum Filters<F: BuildFilter> {
    And(Vec<F>),
    Not(F),
    Nor(Vec<F>),
    Or(Vec<F>),
}

impl<F: BuildFilter> BuildFilter for Filters<F> {
    open spec fn filter_of(self) -> DocV {
        match self {
            Filters::And(fs) => field_is("$and"@, BsonV::Array(filter_docs(fs@))),
            Filters::Not(f) => field_is("$not"@, BsonV::Document(f.filter_of())),
            Filters::Nor(fs) => field_is("$nor"@, BsonV::Array(filter_docs(fs@))),
            Filters::Or(fs) => field_is("$or"@, BsonV::Array(filter_docs(fs@))),
        }
    }

    fn build_filter(self) -> (r: Filter) {
        proof {
            reveal_strlit("$and");
            reveal_strlit("$not");
            reveal_strlit("$nor");
            reveal_strlit("$or");
        }
        match self {
            Filters::And(filters) => Filter::with_field(copy_string("$and"), filters_into_array(filters)),
            Filters::Not(filter) => Filter::with_field(copy_string("$not"), filter.build_filter().into_bson()),
            Filters::Nor(filters) => Filter::with_field(copy_string("$nor"), filters_into_array(filters)),
            Filters::Or(filters) => Filter::with_field(copy_string("$or"), filters_into_array(filters)),
        }
    }
}

// -------------------------------------------------------------------------------------------------

/// Setters of the filters on objects.
pub trait ObjectFilter<F: BuildInnerFilter, B: HuusIntoBson> {
    /// The object equals the value.
    fn value(&mut self, value: B);

    /// Conditions on the fields of the object.
    fn dot(&mut self, filter: F);
}

/// Setters of the comparisons.
pub trait ComparisonFilter<B: HuusIntoBson> {
    /// Equal to the value.
    fn eq(&mut self, value: B);

    /// Greater than the value.
    fn gt(&mut self, value: B);

    /// Greater than or equal to the value.
    fn gte(&mut self, value: B);

    /// Equal to one of the values.
    fn in_values(&mut self, value: Vec<B>);

    /// Less than the value.
    fn lt(&mut self, value: B);

    /// Less than or equal to the value.
    fn lte(&mut self, value: B);

    /// Not equal to the value.
    fn ne(&mut self, value: B);

    /// Equal to none of the values.
    fn nin(&mut self, value: Vec<B>);
}

/// Comparisons of a field with values.
#[derive(Clone, Debug)]
pub enum Comparison<B: HuusIntoBson> {
    Eq(B),
    Gt(B),
    Gte(B),
    In(Vec<B>),
    Lt(B),
    Lte(B),
    Ne(B),
    Nin(Vec<B>),
}

impl<B: HuusIntoBson> BuildInnerFilter for Comparison<B> {
    open spec fn inner_filter_of(self, field: Seq<char>) -> DocV {
        match self {
            Comparison::Eq(v) => field_op(field, "$eq"@, v.bson_of()),
            Comparison::Gt(v) => field_op(field, "$gt"@, v.bson_of()),
            Comparison::Gte(v) => field_op(field, "$gte"@, v.bson_of()),
            Comparison::In(vs) => field_op(field, "$in"@, BsonV::Array(bsons_of(vs@))),
            Comparison::Lt(v) => field_op(field, "$lt"@, v.bson_of()),
            Comparison::Lte(v) => field_op(field, "$lte"@, v.bson_of()),
            Comparison::Ne(v) => field_op(field, "$ne"@, v.bson_of()),
            Comparison::Nin(vs) => field_op(field, "$nin"@, BsonV::Array(bsons_of(vs@))),
        }
    }

    fn build_filter(self, field: String) -> (r: Filter) {
        proof {
            reveal_strlit("$eq");
            reveal_strlit("$gt");
            reveal_strlit("$gte");
            reveal_strlit("$in");
            reveal_strlit("$lt");
            reveal_strlit("$lte");
            reveal_strlit("$ne");
            reveal_strlit("$nin");
        }
        match self {
            Comparison::Eq(value) => operator_filter(field, "$eq", value.huus_into_bson()),
            Comparison::Gt(value) => operator_filter(field, "$gt", value.huus_into_bson()),
            Comparison::Gte(value) => operator_filter(field, "$gte", value.huus_into_bson()),
            Comparison::In(values) => operator_filter(field, "$in", array_of(values)),
            Comparison::Lt(value) => operator_filter(field, "$lt", value.huus_into_bson()),
            Comparison::Lte(value) => operator_filter(field, "$lte", value.huus_into_bson()),
            Comparison::Ne(value) => operator_filter(field, "$ne", value.huus_into_bson()),
            Comparison::Nin(values) => operator_filter(field, "$nin", array_of(values)),
        }
    }
}

/// Logical combinations of filters on a field.
#[derive(Clone, Debug)]
pub enum Logical<F: BuildInnerFilter> {
    And(Vec<F>),
    Not(F),
    Nor(Vec<F>),
    Or(Vec<F>),
}

impl<F: BuildInnerFilter> BuildInnerFilter for Logical<F> {
    open spec fn inner_filter_of(self, field: Seq<char>) -> DocV {
        match self {
            Logical::And(fs) => field_is("$and"@, BsonV::Array(inner_filter_docs(fs@, field))),
            Logical::Not(f) => field_is("$not"@, BsonV::Document(f.inner_filter_of(field))),
            Logical::Nor(fs) => field_is("$nor"@, BsonV::Array(inner_filter_docs(fs@, field))),
            Logical::Or(fs) => field_is("$or"@, BsonV::Array(inner_filter_docs(fs@, field))),
        }
    }

    fn build_filter(self, field: String) -> (r: Filter) {
        proof {
            reveal_strlit("$and");
            reveal_strlit("$not");
            reveal_strlit("$nor");
            reveal_strlit("$or");
        }
        match self {
            Logical::And(filters) => Filter::with_field(
                copy_string("$and"),
                inner_filters_into_array(filters, &field),
            ),
            Logical::Not(filter) => Filter::with_field(
                copy_string("$not"),
                filter.build_filter(field).into_bson(),
            ),
            Logical::Nor(filters) => Filter::with_field(
                copy_string("$nor"),
                inner_filters_into_array(filters, &field),
            ),
            Logical::Or(filters) => Filter::with_field(
                copy_string("$or"),
                inner_filters_into_array(filters, &field),
            ),
        }
    }
}

/// Setters of the conditions on the existence and the type of a field.
pub trait ElementFilter {
    /// The field exists (or not).
    fn with_exists(&mut self, exists_value: bool);

    /// The field has the type.
    fn with_type(&mut self, bson_type: Type);
}

/// Conditions on the existence and the type of a field.
#[derive(Clone, Copy, Debug, PartialEq, Eq)]
pub enum Element {
    Exists(bool),
    Type(Type),
}

impl BuildInnerFilter for Element {
    open spec fn inner_filter_of(self, field: Seq<char>) -> DocV {
        match self {
            Element::Exists(b) => field_op(field, "$exists"@, BsonV::Boolean(b)),
            Element::Type(t) => field_op(field, "$type"@, BsonV::I32(t.spec_code())),
        }
    }

    fn build_filter(self, field: String) -> (r: Filter) {
        proof {
            reveal_strlit("$exists");
            reveal_strlit("$type");
        }
        match self {
            Element::Exists(value) => operator_filter(field, "$exists", Bson::Boolean(value)),
            Element::Type(data_type) => operator_filter(field, "$type", Bson::I32(data_type.code())),
        }
    }
}

/// Setters of the conditions on arrays.
pub trait ArrayFilter<B> {
    /// The array contains all the values.
    fn all(&mut self, array: Vec<B>);

    /// An element of the array matches the values.
    fn elem_match(&mut self, array: Vec<B>);

    /// The array has the size.
    fn size(&mut self, size: usize);
}

/// Conditions on arrays.
#[derive(Clone, Debug)]
pub enum Array<B: HuusIntoBson> {
    All(Vec<B>),
    ElemMatch(Vec<B>),
    Size(usize),
}

impl<B: HuusIntoBson> BuildInnerFilter for Array<B> {
    open spec fn inner_filter_of(self, field: Seq<char>) -> DocV {
        match self {
            Array::All(vs) => field_op(field, "$all"@, BsonV::Array(bsons_of(vs@))),
            Array::ElemMatch(vs) => field_op(field, "$elemMatch"@, BsonV::Array(bsons_of(vs@))),
            Array::Size(s) => field_op(field, "$size"@, BsonV::I32(s as i32)),
        }
    }

    fn build_filter(self, field: String) -> (r: Filter) {
        proof {
            reveal_strlit("$all");
            reveal_strlit("$elemMatch");
            reveal_strlit("$size");
        }
        match self {
            Array::All(values) => operator_filter(field, "$all", array_of(values)),
            Array::ElemMatch(values) => operator_filter(field, "$elemMatch", array_of(values)),
            Array::Size(size) => operator_filter(field, "$size", Bson::I32(size as i32)),
        }
    }
}

// -------------------------------------------------------------------------------------------------
// Entries of the members

/// The filter on a member of type `f64`.
#[derive(Clone, Debug)]
pub enum F64Entry {
    Value(Double),
    Comparison(Comparison<Double>),
    Element(Element),
    Empty,
}

impl BuildInnerFilter for F64Entry {
    open spec fn inner_filter_of(self, field: Seq<char>) -> DocV {
        match self {
            F64Entry::Value(v) => field_is(field, BsonV::FloatingPoint(v)),
            F64Entry::Comparison(c) => c.inner_filter_of(field),
            F64Entry::Element(e) => e.inner_filter_of(field),
            F64Entry::Empty => DocV::empty(),
        }
    }

    fn build_filter(self, field: String) -> (r: Filter) {
        match self {
            F64Entry::Value(value) => Filter::with_field(field, Bson::FloatingPoint(value)),
            F64Entry::Comparison(comparison) => comparison.build_filter(field),
            F64Entry::Element(element) => element.build_filter(field),
            F64Entry::Empty => Filter::empty(),
        }
    }
}

impl Default for F64Entry {
    fn default() -> (r: Self)
        ensures
            r is Empty,
    {
        F64Entry::Empty
    }
}

/// The filter on a member of type `String`.
#[derive(Clone, Debug)]
pub enum StringEntry {
    Value(String),
    Comparison(Comparison<String>),
    Element(Element),
    Empty,
}

impl BuildInnerFilter for StringEntry {
    open spec fn inner_filter_of(self, field: Seq<char>) -> DocV {
        match self {
            StringEntry::Value(v) => field_is(field, BsonV::String(v@)),
            StringEntry::Comparison(c) => c.inner_filter_of(field),
            StringEntry::Element(e) => e.inner_filter_of(field),
            StringEntry::Empty => DocV::empty(),
        }
    }

    fn build_filter(self, field: String) -> (r: Filter) {
        match self {
            StringEntry::Value(value) => Filter::with_field(field, Bson::String(value)),
            StringEntry::Comparison(comparison) => comparison.build_filter(field),
            StringEntry::Element(element) => element.build_filter(field),
            StringEntry::Empty => Filter::empty(),
        }
    }
}

impl Default for StringEntry {
    fn default() -> (r: Self)
        ensures
            r is Empty,
    {
        StringEntry::Empty
    }
}

impl ComparisonFilter<String> for StringEntry {
    fn eq(&mut self, value: String)
        ensures
            *final(self) == StringEntry::Comparison(Comparison::Eq(value)),
    {
        *self = StringEntry::Comparison(Comparison::Eq(value));
    }

    fn gt(&mut self, value: String)
        ensures
            *final(self) == StringEntry::Comparison(Comparison::Gt(value)),
    {
        *self = StringEntry::Comparison(Comparison::Gt(value));
    }

    fn gte(&mut self, value: String)
        ensures
            *final(self) == StringEntry::Comparison(Comparison::Gte(value)),
    {
        *self = StringEntry::Comparison(Comparison::Gte(value));
    }

    fn in_values(&mut self, value: Vec<String>)
        ensures
            *final(self) == StringEntry::Comparison(Comparison::In(value)),
    {
        *self = StringEntry::Comparison(Comparison::In(value));
    }

    fn lt(&mut self, value: String)
        ensures
            *final(self) == StringEntry::Comparison(Comparison::Lt(value)),
    {
        *self = StringEntry::Comparison(Comparison::Lt(value));
    }

    fn lte(&mut self, value: String)
        ensures
            *final(self) == StringEntry::Comparison(Comparison::Lte(value)),
    {
        *self = StringEntry::Comparison(Comparison::Lte(value));
    }

    fn ne(&mut self, value: String)
        ensures
            *final(self) == StringEntry::Comparison(Comparison::Ne(value)),
    {
        *self = StringEntry::Comparison(Comparison::Ne(value));
    }

    fn nin(&mut self, value: Vec<String>)
        ensures
            *final(self) == StringEntry::Comparison(Comparison::Nin(value)),
    {
        *self = StringEntry::Comparison(Comparison::Nin(value));
    }
}

/// The filter on a member of type `ObjectId`.
#[derive(Clone, Debug)]
pub enum ObjectIdEntry {
    Value(ObjectId),
    Element(Element),
    Empty,
}

impl BuildInnerFilter for ObjectIdEntry {
    open spec fn inner_filter_of(self, field: Seq<char>) -> DocV {
        match self {
            ObjectIdEntry::Value(v) => field_is(field, BsonV::ObjectId(v)),
            ObjectIdEntry::Element(e) => e.inner_filter_of(field),
            ObjectIdEntry::Empty => DocV::empty(),
        }
    }

    fn build_filter(self, field: String) -> (r: Filter) {
        match self {
            ObjectIdEntry::Value(value) => Filter::with_field(field, Bson::ObjectId(value)),
            ObjectIdEntry::Element(element) => element.build_filter(field),
            ObjectIdEntry::Empty => Filter::empty(),
        }
    }
}

impl Default for ObjectIdEntry {
    fn default() -> (r: Self)
        ensures
            r is Empty,
    {
        ObjectIdEntry::Empty
    }
}

/// The filter on a member of type `bool`.
#[derive(Clone, Debug)]
pub enum BooleanEntry {
    Value(bool),
    Element(Element),
    Empty,
}

impl BuildInnerFilter for BooleanEntry {
    open spec fn inner_filter_of(self, field: Seq<char>) -> DocV {
        match self {
            BooleanEntry::Value(v) => field_is(field, BsonV::Boolean(v)),
            BooleanEntry::Element(e) => e.inner_filter_of(field),
            BooleanEntry::Empty => DocV::empty(),
        }
    }

    fn build_filter(self, field: String) -> (r: Filter) {
        match self {
            BooleanEntry::Value(value) => Filter::with_field(field, Bson::Boolean(value)),
            BooleanEntry::Element(element) => element.build_filter(field),
            BooleanEntry::Empty => Filter::empty(),
        }
    }
}

impl Default for BooleanEntry {
    fn default() -> (r: Self)
        ensures
            r is Empty,
    {
        BooleanEntry::Empty
    }
}

impl ElementFilter for BooleanEntry {
    fn with_exists(&mut self, exists_value: bool)
        ensures
            *final(self) == BooleanEntry::Element(Element::Exists(exists_value)),
    {
        *self = BooleanEntry::Element(Element::Exists(exists_value));
    }

    fn with_type(&mut self, bson_type: Type)
        ensures
            *final(self) == BooleanEntry::Element(Element::Type(bson_type)),
    {
        *self = BooleanEntry::Element(Element::Type(bson_type));
    }
}

/// The filter on a member of type `Date`.
#[derive(Clone, Debug)]
pub enum DateEntry {
    Value(Date),
    Comparison(Comparison<Date>),
    Element(Element),
    Empty,
}

impl BuildInnerFilter for DateEntry {
    open spec fn inner_filter_of(self, field: Seq<char>) -> DocV {
        match self {
            DateEntry::Value(v) => field_is(field, BsonV::UtcDatetime(v)),
            DateEntry::Comparison(c) => c.inner_filter_of(field),
            DateEntry::Element(e) => e.inner_filter_of(field),
            DateEntry::Empty => DocV::empty(),
        }
    }

    fn build_filter(self, field: String) -> (r: Filter) {
        match self {
            DateEntry::Value(value) => Filter::with_field(field, Bson::UtcDatetime(value)),
            DateEntry::Comparison(comparison) => comparison.build_filter(field),
            DateEntry::Element(element) => element.build_filter(field),
            DateEntry::Empty => Filter::empty(),
        }
    }
}

impl Default for DateEntry {
    fn default() -> (r: Self)
        ensures
            r is Empty,
    {
        DateEntry::Empty
    }
}

impl ComparisonFilter<Date> for DateEntry {
    fn eq(&mut self, value: Date)
        ensures
            *final(self) == DateEntry::Comparison(Comparison::Eq(value)),
    {
        *self = DateEntry::Comparison(Comparison::Eq(value));
    }

    fn gt(&mut self, value: Date)
        ensures
            *final(self) == DateEntry::Comparison(Comparison::Gt(value)),
    {
        *self = DateEntry::Comparison(Comparison::Gt(value));
    }

    fn gte(&mut self, value: Date)
        ensures
            *final(self) == DateEntry::Comparison(Comparison::Gte(value)),
    {
        *self = DateEntry::Comparison(Comparison::Gte(value));
    }

    fn in_values(&mut self, value: Vec<Date>)
        ensures
            *final(self) == DateEntry::Comparison(Comparison::In(value)),
    {
        *self = DateEntry::Comparison(Comparison::In(value));
    }

    fn lt(&mut self, value: Date)
        ensures
            *final(self) == DateEntry::Comparison(Comparison::Lt(value)),
    {
        *self = DateEntry::Comparison(Comparison::Lt(value));
    }

    fn lte(&mut self, value: Date)
        ensures
            *final(self) == DateEntry::Comparison(Comparison::Lte(value)),
    {
        *self = DateEntry::Comparison(Comparison::Lte(value));
    }

    fn ne(&mut self, value: Date)
        ensures
            *final(self) == DateEntry::Comparison(Comparison::Ne(value)),
    {
        *self = DateEntry::Comparison(Comparison::Ne(value));
    }

    fn nin(&mut self, value: Vec<Date>)
        ensures
            *final(self) == DateEntry::Comparison(Comparison::Nin(value)),
    {
        *self = DateEntry::Comparison(Comparison::Nin(value));
    }
}

/// The filter on a member of type `Null`.
#[derive(Clone, Debug)]
pub enum NullEntry {
    Element(Element),
    Empty,
}

impl BuildInnerFilter for NullEntry {
    open spec fn inner_filter_of(self, field: Seq<char>) -> DocV {
        match self {
            NullEntry::Element(e) => e.inner_filter_of(field),
            NullEntry::Empty => DocV::empty(),
        }
    }

    fn build_filter(self, field: String) -> (r: Filter) {
        match self {
            NullEntry::Element(element) => element.build_filter(field),
            NullEntry::Empty => Filter::empty(),
        }
    }
}

impl Default for NullEntry {
    fn default() -> (r: Self)
        ensures
            r is Empty,
    {
        NullEntry::Empty
    }
}

/// The filter on a member of type `i32`.
#[derive(Clone, Debug)]
pub enum I32Entry {
    Value(i32),
    Comparison(Comparison<i32>),
    Element(Element),
    Empty,
}

impl BuildInnerFilter for I32Entry {
    open spec fn inner_filter_of(self, field: Seq<char>) -> DocV {
        match self {
            I32Entry::Value(v) => field_is(field, BsonV::I32(v)),
            I32Entry::Comparison(c) => c.inner_filter_of(field),
            I32Entry::Element(e) => e.inner_filter_of(field),
            I32Entry::Empty => DocV::empty(),
        }
    }

    fn build_filter(self, field: String) -> (r: Filter) {
        match self {
            I32Entry::Value(value) => Filter::with_field(field, Bson::I32(value)),
            I32Entry::Comparison(comparison) => comparison.build_filter(field),
            I32Entry::Element(element) => element.build_filter(field),
            I32Entry::Empty => Filter::empty(),
        }
    }
}

impl Default for I32Entry {
    fn default() -> (r: Self)
        ensures
            r is Empty,
    {
        I32Entry::Empty
    }
}

impl ElementFilter for I32Entry {
    fn with_exists(&mut self, exists_value: bool)
        ensures
            *final(self) == I32Entry::Element(Element::Exists(exists_value)),
    {
        *self = I32Entry::Element(Element::Exists(exists_value));
    }

    fn with_type(&mut self, bson_type: Type)
        ensures
            *final(self) == I32Entry::Element(Element::Type(bson_type)),
    {
        *self = I32Entry::Element(Element::Type(bson_type));
    }
}

/// The filter on a member of type `TimeStamp`.
#[derive(Clone, Debug)]
pub enum TimeStampEntry {
    Value(TimeStamp),
    Comparison(Comparison<TimeStamp>),
    Element(Element),
    Empty,
}

impl BuildInnerFilter for TimeStampEntry {
    open spec fn inner_filter_of(self, field: Seq<char>) -> DocV {
        match self {
            TimeStampEntry::Value(v) => field_is(field, BsonV::TimeStamp(v.0)),
            TimeStampEntry::Comparison(c) => c.inner_filter_of(field),
            TimeStampEntry::Element(e) => e.inner_filter_of(field),
            TimeStampEntry::Empty => DocV::empty(),
        }
    }

    fn build_filter(self, field: String) -> (r: Filter) {
        match self {
            TimeStampEntry::Value(value) => Filter::with_field(field, Bson::TimeStamp(value.0)),
            TimeStampEntry::Comparison(comparison) => comparison.build_filter(field),
            TimeStampEntry::Element(element) => element.build_filter(field),
            TimeStampEntry::Empty => Filter::empty(),
        }
    }
}

impl Default for TimeStampEntry {
    fn default() -> (r: Self)
        ensures
            r is Empty,
    {
        TimeStampEntry::Empty
    }
}

/// The filter on a member of type `i64`.
#[derive(Clone, Debug)]
pub enum I64Entry {
    Value(i64),
    Comparison(Comparison<i64>),
    Element(Element),
    Empty,
}

impl BuildInnerFilter for I64Entry {
    open spec fn inner_filter_of(self, field: Seq<char>) -> DocV {
        match self {
            I64Entry::Value(v) => field_is(field, BsonV::I64(v)),
            I64Entry::Comparison(c) => c.inner_filter_of(field),
            I64Entry::Element(e) => e.inner_filter_of(field),
            I64Entry::Empty => DocV::empty(),
        }
    }

    fn build_filter(self, field: String) -> (r: Filter) {
        match self {
            I64Entry::Value(value) => Filter::with_field(field, Bson::I64(value)),
            I64Entry::Comparison(comparison) => comparison.build_filter(field),
            I64Entry::Element(element) => element.build_filter(field),
            I64Entry::Empty => Filter::empty(),
        }
    }
}

impl Default for I64Entry {
    fn default() -> (r: Self)
        ensures
            r is Empty,
    {
        I64Entry::Empty
    }
}

/// The filter on a member of type `Bson`.
#[derive(Clone, Debug)]
pub enum BsonEntry {
    Value(Document),
    Element(Element),
    Empty,
}

impl BuildInnerFilter for BsonEntry {
    open spec fn inner_filter_of(self, field: Seq<char>) -> DocV {
        match self {
            BsonEntry::Value(v) => field_is(field, BsonV::Document(v@)),
            BsonEntry::Element(e) => e.inner_filter_of(field),
            BsonEntry::Empty => DocV::empty(),
        }
    }

    fn build_filter(self, field: String) -> (r: Filter) {
        match self {
            BsonEntry::Value(value) => Filter::with_field(field, value.huus_into_bson()),
            BsonEntry::Element(element) => element.build_filter(field),
            BsonEntry::Empty => Filter::empty(),
        }
    }
}

impl Default for BsonEntry {
    fn default() -> (r: Self)
        ensures
            r is Empty,
    {
        BsonEntry::Empty
    }
}

impl BuildInnerFilter for Option<F64Entry> {
    open spec fn inner_filter_of(self, field: Seq<char>) -> DocV {
        match self {
            Some(entry) => entry.inner_filter_of(field),
            None => DocV::empty(),
        }
    }

    fn build_filter(self, field: String) -> (r: Filter) {
        match self {
            Some(entry) => entry.build_filter(field),
            None => Filter::empty(),
        }
    }
}

/// The filter on a member of an enum type: enums are stored as strings.
#[derive(Clone, Debug)]
pub enum EnumEntry<K: HuusKey> {
    Value(K),
    Comparison(Comparison<String>),
    Element(Element),
    Empty,
}

impl<K: HuusKey> BuildInnerFilter for EnumEntry<K> {
    open spec fn inner_filter_of(self, field: Seq<char>) -> DocV {
        match self {
            EnumEntry::Value(k) => field_is(field, BsonV::String(k.key_text())),
            EnumEntry::Comparison(c) => c.inner_filter_of(field),
            EnumEntry::Element(e) => e.inner_filter_of(field),
            EnumEntry::Empty => DocV::empty(),
        }
    }

    fn build_filter(self, field: String) -> (r: Filter) {
        match self {
            EnumEntry::Value(value) => Filter::with_field(
                field,
                Bson::String(copy_string(value.to_str())),
            ),
            EnumEntry::Comparison(comparison) => comparison.build_filter(field),
            EnumEntry::Element(element) => element.build_filter(field),
            EnumEntry::Empty => Filter::empty(),
        }
    }
}

impl<K: HuusKey> Default for EnumEntry<K> {
    fn default() -> (r: Self)
        ensures
            r is Empty,
    {
        EnumEntry::Empty
    }
}

/// The filter on a member holding an embedded document.
#[derive(Debug)]
pub enum ObjectEntry<F: BuildInnerFilter, B: HuusIntoBson> {
    Value(B),
    Dot(F),
    Logical(Box<Logical<ObjectEntry<F, B>>>),
    Element(Element),
    Empty,
}

/// The conditions of the filter of an object entry on a field.
pub open spec fn object_entry_filter<F: BuildInnerFilter, B: HuusIntoBson>(
    entry: ObjectEntry<F, B>,
    field: Seq<char>,
) -> DocV
    decreases entry,
{
    match entry {
        ObjectEntry::Value(b) => field_is(field, b.bson_of()),
        ObjectEntry::Dot(f) => f.inner_filter_of(field),
        ObjectEntry::Logical(l) => logical_entry_filter(*l, field),
        ObjectEntry::Element(e) => e.inner_filter_of(field),
        ObjectEntry::Empty => DocV::empty(),
    }
}

/// The conditions of a logical combination of object entries on a field.
pub open spec fn logical_entry_filter<F: BuildInnerFilter, B: HuusIntoBson>(
    logical: Logical<ObjectEntry<F, B>>,
    field: Seq<char>,
) -> DocV
    decreases logical,
{
    match logical {
        Logical::And(es) => field_is("$and"@, BsonV::Array(entry_filter_docs(es@, field))),
        Logical::Not(e) => field_is("$not"@, BsonV::Document(object_entry_filter(e, field))),
        Logical::Nor(es) => field_is("$nor"@, BsonV::Array(entry_filter_docs(es@, field))),
        Logical::Or(es) => field_is("$or"@, BsonV::Array(entry_filter_docs(es@, field))),
    }
}

/// The documents of the filters of object entries on a field.
pub open spec fn entry_filter_docs<F: BuildInnerFilter, B: HuusIntoBson>(
    entries: Seq<ObjectEntry<F, B>>,
    field: Seq<char>,
) -> Seq<BsonV>
    decreases entries,
{
    Seq::new(
        entries.len(),
        |i: int|
            if 0 <= i < entries.len() {
                BsonV::Document(object_entry_filter(entries[i], field))
            } else {
                BsonV::Null
            },
    )
}

/// Builds the filter of an object entry on a field.
fn build_object_entry_filter<F: BuildInnerFilter, B: HuusIntoBson>(
    entry: ObjectEntry<F, B>,
    field: String,
) -> (r: Filter)
    ensures
        r@ == object_entry_filter(entry, field@),
    decreases entry,
{
    match entry {
        ObjectEntry::Value(value) => Filter::with_field(field, value.huus_into_bson()),
        ObjectEntry::Dot(value) => value.build_filter(field),
        ObjectEntry::Logical(logical) => build_logical_entry_filter(*logical, field),
        ObjectEntry::Element(element) => element.build_filter(field),
        ObjectEntry::Empty => Filter::empty(),
    }
}

/// Builds the filter of a logical combination of object entries on a field.
fn build_logical_entry_filter<F: BuildInnerFilter, B: HuusIntoBson>(
    logical: Logical<ObjectEntry<F, B>>,
    field: String,
) -> (r: Filter)
    ensures
        r@ == logical_entry_filter(logical, field@),
    decreases logical,
{
    proof {
        reveal_strlit("$and");
        reveal_strlit("$not");
        reveal_strlit("$nor");
        reveal_strlit("$or");
    }
    match logical {
        Logical::And(entries) => Filter::with_field(
            copy_string("$and"),
            entry_filters_into_array(entries, &field),
        ),
        Logical::Not(entry) => Filter::with_field(
            copy_string("$not"),
            build_object_entry_filter(entry, field).into_bson(),
        ),
        Logical::Nor(entries) => Filter::with_field(
            copy_string("$nor"),
            entry_filters_into_array(entries, &field),
        ),
        Logical::Or(entries) => Filter::with_field(
            copy_string("$or"),
            entry_filters_into_array(entries, &field),
        ),
    }
}

/// Builds the array of the documents of the filters of object entries on a field.
fn entry_filters_into_array<F: BuildInnerFilter, B: HuusIntoBson>(
    entries: Vec<ObjectEntry<F, B>>,
    field: &String,
) -> (r: Bson)
    ensures
        r.view_rec() == BsonV::Array(entry_filter_docs(entries@, field@)),
    decreases entries,
{
    let ghost all = entries@;
    let mut rest = entries;
    let mut result: Vec<Bson> = Vec::new();
    let n = rest.len();
    let mut k: usize = 0;
    while k < n
        invariant
            k <= n == all.len(),
            all == entries@,
            rest@ == all.subrange(k as int, n as int),
            result@.len() == k,
            forall|i: int|
                0 <= i < k ==> #[trigger] result@[i].view_rec() == BsonV::Document(
                    object_entry_filter(all[i], field@),
                ),
        decreases n - k,
    {
        let entry = rest.remove(0);
        assert(rest@ =~= all.subrange(k + 1, n as int));
        proof {
            assert(decreases_to!(entries => entries@));
            assert(decreases_to!(entries@ => entries@[k as int]));
        }
        result.push(build_object_entry_filter(entry, copy_string(field.as_str())).into_bson());
        k = k + 1;
    }
    proof {
        lemma_array_view(result);
        assert(values_view(result@) =~= entry_filter_docs(all, field@));
    }
    Bson::Array(result)
}

impl<F: BuildInnerFilter, B: HuusIntoBson> ObjectFilter<F, B> for ObjectEntry<F, B> {
    fn value(&mut self, value: B)
        ensures
            *final(self) == ObjectEntry::<F, B>::Value(value),
    {
        *self = ObjectEntry::Value(value);
    }

    fn dot(&mut self, filter: F)
        ensures
            *final(self) == ObjectEntry::<F, B>::Dot(filter),
    {
        *self = ObjectEntry::Dot(filter);
    }
}

impl<F: BuildInnerFilter, B: HuusIntoBson> BuildInnerFilter for ObjectEntry<F, B> {
    open spec fn inner_filter_of(self, field: Seq<char>) -> DocV {
        object_entry_filter(self, field)
    }

    fn build_filter(self, field: String) -> (r: Filter) {
        build_object_entry_filter(self, field)
    }
}

/// Whether `copy` is a copy of the object entry: the same variant, with values that `clone`
/// gives for those of the entry.
pub open spec fn entry_cloned<F: BuildInnerFilter + Clone, B: HuusIntoBson + Clone>(
    entry: ObjectEntry<F, B>,
    copy: ObjectEntry<F, B>,
) -> bool
    decreases entry,
{
    match entry {
        ObjectEntry::Value(a) => copy is Value && cloned(a, copy->Value_0),
        ObjectEntry::Dot(a) => copy is Dot && cloned(a, copy->Dot_0),
        ObjectEntry::Logical(l) => copy is Logical && logical_cloned(*l, *copy->Logical_0),
        ObjectEntry::Element(e) => copy == ObjectEntry::<F, B>::Element(e),
        ObjectEntry::Empty => copy is Empty,
    }
}

/// Whether `copy` is a copy of the logical combination of object entries.
pub open spec fn logical_cloned<F: BuildInnerFilter + Clone, B: HuusIntoBson + Clone>(
    logical: Logical<ObjectEntry<F, B>>,
    copy: Logical<ObjectEntry<F, B>>,
) -> bool
    decreases logical,
{
    match logical {
        Logical::And(es) => copy is And && entries_cloned(es@, copy->And_0@),
        Logical::Not(e) => copy is Not && entry_cloned(e, copy->Not_0),
        Logical::Nor(es) => copy is Nor && entries_cloned(es@, copy->Nor_0@),
        Logical::Or(es) => copy is Or && entries_cloned(es@, copy->Or_0@),
    }
}

/// Whether `copies` are copies of the object entries, in order.
pub open spec fn entries_cloned<F: BuildInnerFilter + Clone, B: HuusIntoBson + Clone>(
    entries: Seq<ObjectEntry<F, B>>,
    copies: Seq<ObjectEntry<F, B>>,
) -> bool
    decreases entries,
{
    if entries.len() == 0 {
        copies.len() == 0
    } else {
        &&& copies.len() == entries.len()
        &&& entries_cloned(
            entries.subrange(0, entries.len() - 1),
            copies.subrange(0, copies.len() - 1),
        )
        &&& entry_cloned(entries[entries.len() - 1], copies[copies.len() - 1])
    }
}

/// Copies an object entry, its values copied by their `clone`.
fn clone_object_entry<F: BuildInnerFilter + Clone, B: HuusIntoBson + Clone>(
    entry: &ObjectEntry<F, B>,
) -> (r: ObjectEntry<F, B>)
    ensures
        entry_cloned(*entry, r),
    decreases entry,
{
    match entry {
        ObjectEntry::Value(value) => ObjectEntry::Value(value.clone()),
        ObjectEntry::Dot(filter) => ObjectEntry::Dot(filter.clone()),
        ObjectEntry::Logical(logical) => ObjectEntry::Logical(
            Box::new(clone_logical_entry(&**logical)),
        ),
        ObjectEntry::Element(element) => ObjectEntry::Element(*element),
        ObjectEntry::Empty => ObjectEntry::Empty,
    }
}

/// Copies a logical combination of object entries.
fn clone_logical_entry<F: BuildInnerFilter + Clone, B: HuusIntoBson + Clone>(
    logical: &Logical<ObjectEntry<F, B>>,
) -> (r: Logical<ObjectEntry<F, B>>)
    ensures
        logical_cloned(*logical, r),
    decreases logical,
{
    match logical {
        Logical::And(entries) => Logical::And(clone_object_entries(entries)),
        Logical::Not(entry) => Logical::Not(clone_object_entry(entry)),
        Logical::Nor(entries) => Logical::Nor(clone_object_entries(entries)),
        Logical::Or(entries) => Logical::Or(clone_object_entries(entries)),
    }
}

/// Copies object entries, in order.
fn clone_object_entries<F: BuildInnerFilter + Clone, B: HuusIntoBson + Clone>(
    entries: &Vec<ObjectEntry<F, B>>,
) -> (r: Vec<ObjectEntry<F, B>>)
    ensures
        entries_cloned(entries@, r@),
    decreases entries,
{
    let mut result: Vec<ObjectEntry<F, B>> = Vec::new();
    let mut i: usize = 0;
    assert(entries@.subrange(0, 0).len() == 0);
    while i < entries.len()
        invariant
            i <= entries@.len(),
            entries_cloned(entries@.subrange(0, i as int), result@),
        decreases entries@.len() - i,
    {
        proof {
            assert(decreases_to!(entries => entries@));
            assert(decreases_to!(entries@ => entries@[i as int]));
        }
        let ghost before = result@;
        let copy = clone_object_entry(&entries[i]);
        result.push(copy);
        proof {
            let prefix = entries@.subrange(0, i + 1);
            assert(prefix.subrange(0, prefix.len() - 1) =~= entries@.subrange(0, i as int));
            assert(result@.subrange(0, result@.len() - 1) =~= before);
            assert(prefix[prefix.len() - 1] == entries@[i as int]);
            lemma_entries_cloned_len(entries@.subrange(0, i as int), before);
        }
        i = i + 1;
    }
    assert(entries@.subrange(0, entries@.len() as int) =~= entries@);
    result
}

/// Copies are as many as the entries.
proof fn lemma_entries_cloned_len<F: BuildInnerFilter + Clone, B: HuusIntoBson + Clone>(
    entries: Seq<ObjectEntry<F, B>>,
    copies: Seq<ObjectEntry<F, B>>,
)
    requires
        entries_cloned(entries, copies),
    ensures
        copies.len() == entries.len(),
{
}

impl<F: BuildInnerFilter + Clone, B: HuusIntoBson + Clone> Clone for ObjectEntry<F, B> {
    fn clone(&self) -> (r: Self)
        ensures
            entry_cloned(*self, r),
    {
        clone_object_entry(self)
    }
}

impl<F: BuildInnerFilter, B: HuusIntoBson> Default for ObjectEntry<F, B> {
    fn default() -> (r: Self)
        ensures
            r is Empty,
    {
        ObjectEntry::Empty
    }
}

/// The filter on an array member.
#[derive(Clone, Debug)]
pub enum ArrayEntry<F: BuildInnerFilter, B: HuusIntoBson> {
    Value(B),
    Dot(F),
    Array(Array<B>),
    Comparison(Comparison<B>),
    Element(Element),
    Empty,
}

impl<F: BuildInnerFilter, B: HuusIntoBson> ObjectFilter<F, B> for ArrayEntry<F, B> {
    fn value(&mut self, value: B)
        ensures
            *final(self) == ArrayEntry::<F, B>::Value(value),
    {
        *self = ArrayEntry::Value(value);
    }

    fn dot(&mut self, filter: F)
        ensures
            *final(self) == ArrayEntry::<F, B>::Dot(filter),
    {
        *self = ArrayEntry::Dot(filter);
    }
}

impl<F: BuildInnerFilter, B: HuusIntoBson> ArrayFilter<B> for ArrayEntry<F, B> {
    fn all(&mut self, array: Vec<B>)
        ensures
            *final(self) == ArrayEntry::<F, B>::Array(Array::All(array)),
    {
        *self = ArrayEntry::Array(Array::All(array));
    }

    fn elem_match(&mut self, array: Vec<B>)
        ensures
            *final(self) == ArrayEntry::<F, B>::Array(Array::ElemMatch(array)),
    {
        *self = ArrayEntry::Array(Array::ElemMatch(array));
    }

    fn size(&mut self, size: usize)
        ensures
            *final(self) == ArrayEntry::<F, B>::Array(Array::Size(size)),
    {
        *self = ArrayEntry::Array(Array::Size(size));
    }
}

impl<F: BuildInnerFilter, B: HuusIntoBson> ComparisonFilter<B> for ArrayEntry<F, B> {
    fn eq(&mut self, value: B)
        ensures
            *final(self) == ArrayEntry::<F, B>::Comparison(Comparison::Eq(value)),
    {
        *self = ArrayEntry::Comparison(Comparison::Eq(value));
    }

    fn gt(&mut self, value: B)
        ensures
            *final(self) == ArrayEntry::<F, B>::Comparison(Comparison::Gt(value)),
    {
        *self = ArrayEntry::Comparison(Comparison::Gt(value));
    }

    fn gte(&mut self, value: B)
        ensures
            *final(self) == ArrayEntry::<F, B>::Comparison(Comparison::Gte(value)),
    {
        *self = ArrayEntry::Comparison(Comparison::Gte(value));
    }

    fn in_values(&mut self, value: Vec<B>)
        ensures
            *final(self) == ArrayEntry::<F, B>::Comparison(Comparison::In(value)),
    {
        *self = ArrayEntry::Comparison(Comparison::In(value));
    }

    fn lt(&mut self, value: B)
        ensures
            *final(self) == ArrayEntry::<F, B>::Comparison(Comparison::Lt(value)),
    {
        *self = ArrayEntry::Comparison(Comparison::Lt(value));
    }

    fn lte(&mut self, value: B)
        ensures
            *final(self) == ArrayEntry::<F, B>::Comparison(Comparison::Lte(value)),
    {
        *self = ArrayEntry::Comparison(Comparison::Lte(value));
    }

    fn ne(&mut self, value: B)
        ensures
            *final(self) == ArrayEntry::<F, B>::Comparison(Comparison::Ne(value)),
    {
        *self = ArrayEntry::Comparison(Comparison::Ne(value));
    }

    fn nin(&mut self, value: Vec<B>)
        ensures
            *final(self) == ArrayEntry::<F, B>::Comparison(Comparison::Nin(value)),
    {
        *self = ArrayEntry::Comparison(Comparison::Nin(value));
    }
}

impl<F: BuildInnerFilter, B: HuusIntoBson> BuildInnerFilter for ArrayEntry<F, B> {
    open spec fn inner_filter_of(self, field: Seq<char>) -> DocV {
        match self {
            ArrayEntry::Value(b) => field_is(field, b.bson_of()),
            ArrayEntry::Dot(f) => f.inner_filter_of(field),
            ArrayEntry::Array(a) => a.inner_filter_of(field),
            ArrayEntry::Comparison(c) => c.inner_filter_of(field),
            ArrayEntry::Element(e) => e.inner_filter_of(field),
            ArrayEntry::Empty => DocV::empty(),
        }
    }

    fn build_filter(self, field: String) -> (r: Filter) {
        match self {
            ArrayEntry::Value(value) => Filter::with_field(field, value.huus_into_bson()),
            ArrayEntry::Dot(value) => value.build_filter(field),
            ArrayEntry::Array(array) => array.build_filter(field),
            ArrayEntry::Comparison(value) => value.build_filter(field),
            ArrayEntry::Element(element) => element.build_filter(field),
            ArrayEntry::Empty => Filter::empty(),
        }
    }
}

impl<F: BuildInnerFilter, B: HuusIntoBson> Default for ArrayEntry<F, B> {
    fn default() -> (r: Self)
        ensures
            r is Empty,
    {
        ArrayEntry::Empty
    }
}


// -------------------------------------------------------------------------------------------------
// Laws of filters

/// Adding a filter without conditions leaves a filter as it was.
pub proof fn law_incorporate_no_conditions(d: DocV)
    ensures
        doc_insert_all(d, DocV::empty()) == d,
{
}

/// After adding a filter on a field, the field has the added condition, and the other fields
/// keep theirs.
pub proof fn law_incorporate_condition(d: DocV, field: Seq<char>, value: BsonV, other: Seq<char>)
    ensures
        crate::document::doc_get(doc_insert_all(d, seq![(field, value)]), field) == Some(value),
        other != field ==> crate::document::doc_get(doc_insert_all(d, seq![(field, value)]), other)
            == crate::document::doc_get(d, other),
{
    reveal_with_fuel(doc_insert_all, 2);
    assert(seq![(field, value)].drop_last() =~= DocV::empty());
    assert(doc_insert_all(d, seq![(field, value)]) == crate::document::doc_insert(d, field, value));
    crate::document::law_get_after_insert(d, field, value);
    if other != field {
        crate::document::law_get_other_after_insert(d, field, value, other);
    }
}

}
