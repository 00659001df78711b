//! Conversions between values and BSON.

use vstd::prelude::*;

use crate::document::{Bson, BsonV, DocV, Document, doc_insert, lemma_array_view, lemma_document_view};
use crate::errors::ConversionError;
use crate::text::copy_string;
use crate::types::{Date, Double, ObjectId, TimeStamp};
use std::collections::{BTreeMap, HashMap};
use std::hash::Hash;
use crate::order::order_is_lawful;
use vstd::std_specs::hash::obeys_key_model;

verus! {

/// Values read from a document.
pub trait FromDoc: Sized {
    /// Whether the document is refused. Types implemented outside verified code may leave it
    /// unstated.
    open spec fn doc_refuses(document: DocV) -> bool {
        vstd::pervasive::arbitrary::<(Self, spec_fn(DocV) -> bool)>().1(document)
    }

    /// Whether `value` is what is read from the document. Types implemented outside verified
    /// code may leave it unstated.
    open spec fn doc_reads(document: DocV, value: Self) -> bool {
        vstd::pervasive::arbitrary::<spec_fn(DocV, Self) -> bool>()(document, value)
    }

    /// Reads the value from the document.
    fn from_doc(document: Document) -> (r: Result<Self, ConversionError>)
        ensures
            r is Err <==> Self::doc_refuses(document@),
            r matches Ok(v) ==> Self::doc_reads(document@, v),
    ;
}

/// Values written as a document.
pub trait IntoDoc: Sized {
    /// The document written for the value. Types implemented outside verified code may leave it
    /// unstated.
    open spec fn doc_of(self) -> DocV {
        vstd::pervasive::arbitrary::<spec_fn(Self) -> DocV>()(self)
    }

    /// Writes the value as a document.
    fn into_doc(self) -> (r: Document)
        ensures
            r@ == self.doc_of(),
    ;
}

/// Values read from a BSON value.
pub trait HuusFromBson: Sized {
    /// Whether the BSON value is refused. Types implemented outside verified code may leave it
    /// unstated.
    open spec fn refuses(bson: BsonV) -> bool {
        vstd::pervasive::arbitrary::<(Self, spec_fn(BsonV) -> bool)>().1(bson)
    }

    /// Whether `value` is what is read from the BSON value. Types implemented outside verified
    /// code may leave it unstated.
    open spec fn reads(bson: BsonV, value: Self) -> bool {
        vstd::pervasive::arbitrary::<spec_fn(BsonV, Self) -> bool>()(bson, value)
    }

    /// Reads the value from the BSON value.
    fn huus_from_bson(bson: Bson) -> (r: Result<Self, ConversionError>)
        ensures
            r is Err <==> Self::refuses(bson.view_rec()),
            r matches Ok(v) ==> Self::reads(bson.view_rec(), v),
    ;
}

/// Values read from a BSON array.
pub trait HuusFromBsonArray: Sized {
    /// Whether the array is refused.
    spec fn array_refuses(array: Seq<BsonV>) -> bool;

    /// Whether `value` is what is read from the array.
    spec fn array_reads(array: Seq<BsonV>, value: Self) -> bool;

    /// Reads the value from the BSON array.
    fn huus_from_bson_array(array: Vec<Bson>) -> (r: Result<Self, ConversionError>)
        ensures
            r is Err <==> Self::array_refuses(crate::document::values_view(array@)),
            r matches Ok(v) ==> Self::array_reads(crate::document::values_view(array@), v),
    ;
}

/// BSON values that can be read into a value of type `T`.
pub trait HuusIntoStruct<T> {
    /// Reads the value.
    fn huus_into_struct(self) -> Result<T, ConversionError>;
}

/// Values written as BSON.
pub trait HuusIntoBson: Sized {
    /// The BSON value written for the value. Types implemented outside verified code may leave
    /// it unstated.
    open spec fn bson_of(self) -> BsonV {
        vstd::pervasive::arbitrary::<spec_fn(Self) -> BsonV>()(self)
    }

    /// Writes the value as BSON.
    fn huus_into_bson(self) -> (r: Bson)
        ensures
            r.view_rec() == self.bson_of(),
    ;
}

/// Keys of maps: they are written as strings.
pub trait HuusKey: Sized {
    /// The text of the key. Types implemented outside verified code may leave it unstated.
    open spec fn key_text(&self) -> Seq<char> {
        vstd::pervasive::arbitrary::<spec_fn(Self) -> Seq<char>>()(*self)
    }

    /// Whether a text is the text of a key. Types implemented outside verified code may leave it
    /// unstated.
    open spec fn is_key_text(string: Seq<char>) -> bool {
        vstd::pervasive::arbitrary::<(Self, spec_fn(Seq<char>) -> bool)>().1(string)
    }

    /// Reads a key from its text; a text that is not the text of a key is refused.
    fn from_str(string: &str) -> (r: Result<Self, ConversionError>)
        ensures
            r is Ok <==> Self::is_key_text(string@),
            r matches Ok(k) ==> k.key_text() == string@,
    ;

    /// Returns the text of the key.
    fn to_str(&self) -> (r: &str)
        ensures
            r@ == self.key_text(),
    ;
}

/// The document written for the entries of a map: each key as its text, set in the order of
/// the entries.
pub open spec fn entries_doc<K: HuusKey, T: HuusIntoBson>(entries: Seq<(K, T)>) -> DocV
    decreases entries.len(),
{
    if entries.len() == 0 {
        DocV::empty()
    } else {
        doc_insert(
            entries_doc(entries.drop_last()),
            entries.last().0.key_text(),
            entries.last().1.bson_of(),
        )
    }
}

/// Writes the entries of a map, in the order in which the map hands them out, as a document:
/// each key as its text.
pub fn entries_into_bson<K: HuusKey, T: HuusIntoBson>(entries: Vec<(K, T)>) -> (r: Bson)
    ensures
        r.view_rec() == BsonV::Document(entries_doc(entries@)),
{
    let ghost all = entries@;
    let n = entries.len();
    let mut entries = entries;
    let mut result = Document::new();
    let mut i: usize = 0;
    assert(all.subrange(0, 0) =~= Seq::<(K, T)>::empty());
    while i < n
        invariant
            i <= n == all.len(),
            entries@ == all.subrange(i as int, n as int),
            result@ == entries_doc(all.subrange(0, i as int)),
        decreases n - i,
    {
        let (key, value) = entries.remove(0);
        assert(entries@ =~= all.subrange(i + 1, n as int));
        assert(all.subrange(0, i + 1).drop_last() =~= all.subrange(0, i as int));
        result.insert(copy_string(key.to_str()), value.huus_into_bson());
        i = i + 1;
    }
    assert(all.subrange(0, n as int) =~= all);
    proof {
        lemma_document_view(result);
    }
    Bson::Document(result)
}

// -------------------------------------------------------------------------------------------------

impl IntoDoc for Document {
    open spec fn doc_of(self) -> DocV {
        self@
    }

    fn into_doc(self) -> (r: Document)
        ensures
            r == self,
    {
        self
    }
}

impl HuusFromBson for String {
    open spec fn refuses(bson: BsonV) -> bool {
        !(bson is String)
    }

    open spec fn reads(bson: BsonV, value: Self) -> bool {
        match bson {
            BsonV::String(s) => s == value@,
            _ => false,
        }
    }

    fn huus_from_bson(bson: Bson) -> (r: Result<Self, ConversionError>)
        ensures
            match bson {
                Bson::String(value) => r == Ok::<Self, ConversionError>(value),
                _ => r matches Err(ConversionError::WrongType { key }) && key@ == "<unknown>"@,
            },
    {
        match bson {
            Bson::String(value) => Ok(value),
            _ => Err(ConversionError::wrong_type_for_unknown_key()),
        }
    }
}

impl HuusFromBson for i32 {
    open spec fn refuses(bson: BsonV) -> bool {
        !(bson is I32)
    }

    open spec fn reads(bson: BsonV, value: Self) -> bool {
        match bson {
            BsonV::I32(v) => v == value,
            _ => false,
        }
    }

    fn huus_from_bson(bson: Bson) -> (r: Result<Self, ConversionError>)
        ensures
            match bson {
                Bson::I32(value) => r == Ok::<Self, ConversionError>(value),
                _ => r matches Err(ConversionError::WrongType { key }) && key@ == "<unknown>"@,
            },
    {
        match bson {
            Bson::I32(value) => Ok(value),
            _ => Err(ConversionError::wrong_type_for_unknown_key()),
        }
    }
}

impl HuusFromBson for i64 {
    open spec fn refuses(bson: BsonV) -> bool {
        !(bson is I64)
    }

    open spec fn reads(bson: BsonV, value: Self) -> bool {
        match bson {
            BsonV::I64(v) => v == value,
            _ => false,
        }
    }

    fn huus_from_bson(bson: Bson) -> (r: Result<Self, ConversionError>)
        ensures
            match bson {
                Bson::I64(value) => r == Ok::<Self, ConversionError>(value),
                _ => r matches Err(ConversionError::WrongType { key }) && key@ == "<unknown>"@,
            },
    {
        match bson {
            Bson::I64(value) => Ok(value),
            _ => Err(ConversionError::wrong_type_for_unknown_key()),
        }
    }
}

impl HuusFromBson for Document {
    open spec fn refuses(bson: BsonV) -> bool {
        !(bson is Document)
    }

    open spec fn reads(bson: BsonV, value: Self) -> bool {
        match bson {
            BsonV::Document(d) => d == value@,
            _ => false,
        }
    }

    fn huus_from_bson(bson: Bson) -> (r: Result<Self, ConversionError>)
        ensures
            match bson {
                Bson::Document(value) => r == Ok::<Self, ConversionError>(value),
                _ => r matches Err(ConversionError::WrongType { key }) && key@ == "<unknown>"@,
            },
    {
        match bson {
            Bson::Document(doc) => {
                proof {
                    lemma_document_view(doc);
                }
                Ok(doc)
            },
            _ => Err(ConversionError::wrong_type_for_unknown_key()),
        }
    }
}

impl<T: HuusFromBson> HuusFromBsonArray for Vec<T> {
    /// An array is refused when one of its elements is.
    open spec fn array_refuses(array: Seq<BsonV>) -> bool {
        exists|i: int| 0 <= i < array.len() && T::refuses(#[trigger] array[i])
    }

    /// The elements are read one by one.
    open spec fn array_reads(array: Seq<BsonV>, value: Self) -> bool {
        &&& value@.len() == array.len()
        &&& forall|i: int| 0 <= i < array.len() ==> T::reads(#[trigger] array[i], value@[i])
    }

    fn huus_from_bson_array(array: Vec<Bson>) -> (r: Result<Self, ConversionError>) {
        let ghost all = crate::document::values_view(array@);
        let mut rest = array;
        let mut result: Vec<T> = Vec::new();
        let n = rest.len();
        let mut k: usize = 0;
        while k < n
            invariant
                k <= n == all.len(),
                all == crate::document::values_view(array@),
                crate::document::values_view(rest@) == all.subrange(k as int, n as int),
                rest@.len() == n - k,
                result@.len() == k,
                forall|i: int| 0 <= i < k ==> !T::refuses(#[trigger] all[i]),
                forall|i: int| 0 <= i < k ==> T::reads(#[trigger] all[i], result@[i]),
            decreases n - k,
        {
            let ghost before = rest@;
            let element = rest.remove(0);
            assert(element.view_rec() == all[k as int]) by {
                assert(crate::document::values_view(before)[0] == all.subrange(k as int, n as int)[0]);
            }
            assert(crate::document::values_view(rest@) =~= all.subrange(k + 1, n as int)) by {
                assert forall|j: int| 0 <= j < rest@.len() implies #[trigger] crate::document::values_view(rest@)[j]
                    == all.subrange(k + 1, n as int)[j] by {
                    assert(rest@[j] == before[j + 1]);
                    assert(crate::document::values_view(before)[j + 1] == all.subrange(k as int, n as int)[j + 1]);
                }
            }
            match T::huus_from_bson(element) {
                Ok(value) => result.push(value),
                Err(e) => {
                    assert(T::refuses(all[k as int]));
                    return Err(e);
                },
            }
            k = k + 1;
        }
        assert(all.len() == n);
        Ok(result)
    }
}

impl<T: HuusFromBson> HuusIntoStruct<T> for Bson {
    fn huus_into_struct(self) -> (r: Result<T, ConversionError>)
        ensures
            r is Err <==> T::refuses(self.view_rec()),
            r matches Ok(v) ==> T::reads(self.view_rec(), v),
    {
        T::huus_from_bson(self)
    }
}

// -------------------------------------------------------------------------------------------------
// Maps

/// Distinct keys have distinct texts.
pub open spec fn key_texts_distinct<K: HuusKey>() -> bool {
    forall|a: K, b: K| #[trigger] a.key_text() == #[trigger] b.key_text() ==> a == b
}

/// Some entry of the document has the text as its key.
pub open spec fn has_key_text(document: DocV, text: Seq<char>) -> bool {
    exists|i: int| 0 <= i < document.len() && #[trigger] document[i].0 == text
}

/// The index of the last entry of the document whose key is the text (`-1` if there is none).
pub open spec fn last_with_key(document: DocV, text: Seq<char>) -> int
    decreases document.len(),
{
    if document.len() == 0 {
        -1
    } else if document.last().0 == text {
        document.len() - 1
    } else {
        last_with_key(document.drop_last(), text)
    }
}

/// The map read from the document: its keys are those whose text is the key of an entry, and
/// each maps to the value read from the last entry with its text.
pub open spec fn map_read_from<K: HuusKey, T: HuusFromBson>(document: DocV, m: Map<K, T>) -> bool {
    &&& forall|k: K| #[trigger] m.contains_key(k) <==> has_key_text(document, k.key_text())
    &&& forall|k: K|
        #[trigger] m.contains_key(k) ==> T::reads(document[last_with_key(document, k.key_text())].1, m[k])
}

/// A document is refused as a map when one of its keys is not the text of a key or one of its
/// values is refused.
pub open spec fn map_doc_refuses<K: HuusKey, T: HuusFromBson>(document: DocV) -> bool {
    exists|i: int| 0 <= i < document.len() && #[trigger] entry_refused::<K, T>(document[i])
}

/// An entry is refused when its key is not the text of a key or its value is refused.
pub open spec fn entry_refused<K: HuusKey, T: HuusFromBson>(entry: (Seq<char>, BsonV)) -> bool {
    !K::is_key_text(entry.0) || T::refuses(entry.1)
}

/// The last entry with a text, in a document extended by one entry.
proof fn lemma_last_with_key_push(document: DocV, entry: (Seq<char>, BsonV), text: Seq<char>)
    ensures
        last_with_key(document.push(entry), text) == if entry.0 == text {
            document.len() as int
        } else {
            last_with_key(document, text)
        },
{
    assert(document.push(entry).drop_last() =~= document);
}

/// The last entry with a text has that text.
proof fn lemma_last_with_key(document: DocV, text: Seq<char>)
    requires
        has_key_text(document, text),
    ensures
        0 <= last_with_key(document, text) < document.len(),
        document[last_with_key(document, text)].0 == text,
    decreases document.len(),
{
    if document.last().0 != text {
        let i = choose|i: int| 0 <= i < document.len() && #[trigger] document[i].0 == text;
        assert(document.drop_last()[i] == document[i]);
        lemma_last_with_key(document.drop_last(), text);
        assert(document.drop_last()[last_with_key(document.drop_last(), text)] == document[last_with_key(
            document.drop_last(),
            text,
        )]);
    }
}

/// Extends the map read from a prefix of a document by the next entry.
proof fn lemma_map_read_insert<K: HuusKey, T: HuusFromBson>(
    document: DocV,
    i: int,
    m: Map<K, T>,
    key: K,
    value: T,
)
    requires
        0 <= i < document.len(),
        key_texts_distinct::<K>(),
        map_read_from(document.subrange(0, i), m),
        key.key_text() == document[i].0,
        T::reads(document[i].1, value),
    ensures
        map_read_from(document.subrange(0, i + 1), m.insert(key, value)),
{
    let p = document.subrange(0, i);
    let q = document.subrange(0, i + 1);
    assert(q =~= p.push(document[i]));
    let m2 = m.insert(key, value);
    assert forall|k: K| #[trigger] m2.contains_key(k) <==> has_key_text(q, k.key_text()) by {
        if k.key_text() == key.key_text() {
            assert(k == key);
            assert(q[i] == document[i]);
        } else {
            assert(k != key);
            if has_key_text(p, k.key_text()) {
                let j = choose|j: int| 0 <= j < p.len() && #[trigger] p[j].0 == k.key_text();
                assert(q[j] == p[j]);
            }
            if has_key_text(q, k.key_text()) {
                let j = choose|j: int| 0 <= j < q.len() && #[trigger] q[j].0 == k.key_text();
                assert(j != i);
                assert(q[j] == p[j]);
            }
        }
    }
    assert forall|k: K| #[trigger] m2.contains_key(k) implies T::reads(
        q[last_with_key(q, k.key_text())].1,
        m2[k],
    ) by {
        lemma_last_with_key_push(p, document[i], k.key_text());
        if k == key {
        } else {
            assert(k.key_text() != key.key_text());
            assert(m.contains_key(k));
            lemma_last_with_key(p, k.key_text());
            assert(q[last_with_key(p, k.key_text())] == p[last_with_key(p, k.key_text())]);
        }
    }
}

impl<K: HuusKey + Ord, T: HuusFromBson> FromDoc for BTreeMap<K, T> {
    open spec fn doc_refuses(document: DocV) -> bool {
        map_doc_refuses::<K, T>(document)
    }

    /// When the order of the keys is lawful and distinct keys have distinct texts, the map holds
    /// the keys whose text is the key of an entry, each with the value of the last such entry.
    open spec fn doc_reads(document: DocV, value: Self) -> bool {
        order_is_lawful::<K>() && key_texts_distinct::<K>() ==> map_read_from(document, value@)
    }

    fn from_doc(document: Document) -> (r: Result<Self, ConversionError>) {
        let ghost all = document@;
        let mut rest = document.entries;
        let mut result: BTreeMap<K, T> = BTreeMap::new();
        let n = rest.len();
        let mut i: usize = 0;
        assert(all.subrange(0, 0).len() == 0);
        while i < n
            invariant
                i <= n == all.len(),
                all == document@,
                rest@.len() == n - i,
                forall|j: int|
                    0 <= j < n - i ==> (#[trigger] rest@[j].0@, rest@[j].1.view_rec()) == all[j + i],
                forall|j: int|
                    0 <= j < i ==> !#[trigger] entry_refused::<K, T>(all[j]),
                order_is_lawful::<K>() && key_texts_distinct::<K>() ==> map_read_from(
                    all.subrange(0, i as int),
                    result@,
                ),
            decreases n - i,
        {
            let ghost before = rest@;
            let (key, value) = rest.remove(0);
            assert((key@, value.view_rec()) == all[i as int]);
            proof {
                assert forall|j: int| 0 <= j < n - (i + 1) implies (
                #[trigger] rest@[j].0@, rest@[j].1.view_rec()) == all[j + (i + 1)] by {
                    assert(rest@[j] == before[j + 1]);
                }
            }
            let k = match K::from_str(key.as_str()) {
                Ok(k) => k,
                Err(e) => {
                    assert(entry_refused::<K, T>(all[i as int]));
                    return Err(e);
                },
            };
            let v = match T::huus_from_bson(value) {
                Ok(v) => v,
                Err(e) => {
                    assert(T::refuses(all[i as int].1));
                    assert(entry_refused::<K, T>(all[i as int]));
                    return Err(e);
                },
            };
            let ghost old_map = result@;
            proof {
                if order_is_lawful::<K>() && key_texts_distinct::<K>() {
                    lemma_map_read_insert(all, i as int, old_map, k, v);
                }
            }
            result.insert(k, v);
            i = i + 1;
        }
        assert(all.subrange(0, n as int) =~= all);
        Ok(result)
    }
}

impl<K: HuusKey + Eq + Hash, T: HuusFromBson> FromDoc for HashMap<K, T> {
    open spec fn doc_refuses(document: DocV) -> bool {
        map_doc_refuses::<K, T>(document)
    }

    /// When the keys follow the model of hashing and distinct keys have distinct texts, the map
    /// holds the keys whose text is the key of an entry, each with the value of the last such
    /// entry.
    open spec fn doc_reads(document: DocV, value: Self) -> bool {
        obeys_key_model::<K>() && key_texts_distinct::<K>() ==> map_read_from(document, value@)
    }

    fn from_doc(document: Document) -> (r: Result<Self, ConversionError>) {
        broadcast use vstd::std_specs::hash::axiom_random_state_builds_valid_hashers;

        let ghost all = document@;
        let mut rest = document.entries;
        let mut result: HashMap<K, T> = HashMap::new();
        let n = rest.len();
        let mut i: usize = 0;
        assert(all.subrange(0, 0).len() == 0);
        while i < n
            invariant
                i <= n == all.len(),
                all == document@,
                rest@.len() == n - i,
                forall|j: int|
                    0 <= j < n - i ==> (#[trigger] rest@[j].0@, rest@[j].1.view_rec()) == all[j + i],
                forall|j: int|
                    0 <= j < i ==> !#[trigger] entry_refused::<K, T>(all[j]),
                obeys_key_model::<K>() && key_texts_distinct::<K>() ==> map_read_from(
                    all.subrange(0, i as int),
                    result@,
                ),
            decreases n - i,
        {
            let ghost before = rest@;
            let (key, value) = rest.remove(0);
            assert((key@, value.view_rec()) == all[i as int]);
            proof {
                assert forall|j: int| 0 <= j < n - (i + 1) implies (
                #[trigger] rest@[j].0@, rest@[j].1.view_rec()) == all[j + (i + 1)] by {
                    assert(rest@[j] == before[j + 1]);
                }
            }
            let k = match K::from_str(key.as_str()) {
                Ok(k) => k,
                Err(e) => {
                    assert(entry_refused::<K, T>(all[i as int]));
                    return Err(e);
                },
            };
            let v = match T::huus_from_bson(value) {
                Ok(v) => v,
                Err(e) => {
                    assert(T::refuses(all[i as int].1));
                    assert(entry_refused::<K, T>(all[i as int]));
                    return Err(e);
                },
            };
            let ghost old_map = result@;
            proof {
                if obeys_key_model::<K>() && key_texts_distinct::<K>() {
                    lemma_map_read_insert(all, i as int, old_map, k, v);
                }
            }
            result.insert(k, v);
            i = i + 1;
        }
        assert(all.subrange(0, n as int) =~= all);
        Ok(result)
    }
}

impl<T: FromDoc> HuusIntoStruct<T> for Document {
    fn huus_into_struct(self) -> (r: Result<T, ConversionError>)
        ensures
            r is Err <==> T::doc_refuses(self@),
            r matches Ok(v) ==> T::doc_reads(self@, v),
    {
        T::from_doc(self)
    }
}

impl<T: HuusFromBsonArray> HuusIntoStruct<T> for Vec<Bson> {
    fn huus_into_struct(self) -> (r: Result<T, ConversionError>)
        ensures
            r is Err <==> T::array_refuses(crate::document::values_view(self@)),
            r matches Ok(v) ==> T::array_reads(crate::document::values_view(self@), v),
    {
        T::huus_from_bson_array(self)
    }
}

// -------------------------------------------------------------------------------------------------

impl HuusIntoBson for Double {
    open spec fn bson_of(self) -> BsonV {
        BsonV::FloatingPoint(self)
    }

    fn huus_into_bson(self) -> (r: Bson) {
        Bson::FloatingPoint(self)
    }
}

impl HuusIntoBson for String {
    open spec fn bson_of(self) -> BsonV {
        BsonV::String(self@)
    }

    fn huus_into_bson(self) -> (r: Bson) {
        Bson::String(self)
    }
}

impl HuusIntoBson for ObjectId {
    open spec fn bson_of(self) -> BsonV {
        BsonV::ObjectId(self)
    }

    fn huus_into_bson(self) -> (r: Bson) {
        Bson::ObjectId(self)
    }
}

impl HuusIntoBson for bool {
    open spec fn bson_of(self) -> BsonV {
        BsonV::Boolean(self)
    }

    fn huus_into_bson(self) -> (r: Bson) {
        Bson::Boolean(self)
    }
}

impl HuusIntoBson for Date {
    open spec fn bson_of(self) -> BsonV {
        BsonV::UtcDatetime(self)
    }

    fn huus_into_bson(self) -> (r: Bson) {
        Bson::UtcDatetime(self)
    }
}

impl HuusIntoBson for i32 {
    open spec fn bson_of(self) -> BsonV {
        BsonV::I32(self)
    }

    fn huus_into_bson(self) -> (r: Bson) {
        Bson::I32(self)
    }
}

impl HuusIntoBson for TimeStamp {
    open spec fn bson_of(self) -> BsonV {
        BsonV::TimeStamp(self.0)
    }

    fn huus_into_bson(self) -> (r: Bson) {
        Bson::TimeStamp(self.0)
    }
}

impl HuusIntoBson for i64 {
    open spec fn bson_of(self) -> BsonV {
        BsonV::I64(self)
    }

    fn huus_into_bson(self) -> (r: Bson) {
        Bson::I64(self)
    }
}

impl HuusIntoBson for Document {
    open spec fn bson_of(self) -> BsonV {
        BsonV::Document(self@)
    }

    fn huus_into_bson(self) -> (r: Bson) {
        proof {
            lemma_document_view(self);
        }
        Bson::Document(self)
    }
}

/// The BSON values written for the elements.
pub open spec fn bsons_of<T: HuusIntoBson>(elements: Seq<T>) -> Seq<BsonV> {
    Seq::new(elements.len(), |i: int| elements[i].bson_of())
}

/// Writes each element as BSON, in order.
pub fn vec_into_array<T: HuusIntoBson>(elements: Vec<T>) -> (r: Vec<Bson>)
    ensures
        r@.len() == elements@.len(),
        forall|i: int| 0 <= i < r@.len() ==> #[trigger] r@[i].view_rec() == elements@[i].bson_of(),
{
    let ghost all = elements@;
    let mut elements = elements;
    let mut result: Vec<Bson> = Vec::new();
    let n = elements.len();
    let mut k: usize = 0;
    while k < n
        invariant
            k <= n == all.len(),
            elements@ == all.subrange(k as int, n as int),
            result@.len() == k,
            forall|i: int| 0 <= i < k ==> #[trigger] result@[i].view_rec() == all[i].bson_of(),
        decreases n - k,
    {
        let element = elements.remove(0);
        assert(elements@ =~= all.subrange(k + 1, n as int));
        result.push(element.huus_into_bson());
        k = k + 1;
    }
    result
}

impl<T: HuusIntoBson> HuusIntoBson for Vec<T> {
    open spec fn bson_of(self) -> BsonV {
        BsonV::Array(bsons_of(self@))
    }

    fn huus_into_bson(self) -> (r: Bson) {
        let ghost elements = self@;
        let values = vec_into_array(self);
        proof {
            lemma_array_view(values);
            assert(crate::document::values_view(values@) =~= bsons_of(elements));
        }
        Bson::Array(values)
    }
}

impl HuusKey for String {
    open spec fn key_text(&self) -> Seq<char> {
        self@
    }

    /// Every text is the text of a string key.
    open spec fn is_key_text(string: Seq<char>) -> bool {
        true
    }

    fn from_str(string: &str) -> (r: Result<Self, ConversionError>) {
        Ok(copy_string(string))
    }

    fn to_str(&self) -> (r: &str) {
        self.as_str()
    }
}

}
