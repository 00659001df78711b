//! BSON values and documents: ordered maps from keys to values.

use vstd::prelude::*;

use crate::text::{copy_string, str_eq};
use crate::types::{Date, Double, ObjectId};

verus! {

/// A BSON value.
#[derive(Debug, PartialEq)]
pub enum Bson {
    /// A double precision floating point number.
    FloatingPoint(Double),
    /// A string.
    String(String),
    /// An array of values.
    Array(Vec<Bson>),
    /// An embedded document.
    Document(Document),
    /// A boolean.
    Boolean(bool),
    /// The null value.
    Null,
    /// A 32-bit integer.
    I32(i32),
    /// A 64-bit integer.
    I64(i64),
    /// A timestamp.
    TimeStamp(i64),
    /// An object identifier.
    ObjectId(ObjectId),
    /// A date.
    UtcDatetime(Date),
}

/// A BSON document: keys and values, in order.
#[derive(Debug, PartialEq)]
pub struct Document {
    pub entries: Vec<(String, Bson)>,
}

/// The view of a BSON value.
pub enum BsonV {
    FloatingPoint(Double),
    String(Seq<char>),
    Array(Seq<BsonV>),
    Document(Seq<(Seq<char>, BsonV)>),
    Boolean(bool),
    Null,
    I32(i32),
    I64(i64),
    TimeStamp(i64),
    ObjectId(ObjectId),
    UtcDatetime(Date),
}

/// The view of a document: its keys and the views of its values, in order.
pub type DocV = Seq<(Seq<char>, BsonV)>;

impl Bson {
    /// The view of the value.
    pub open spec fn view_rec(self) -> BsonV
        decreases self,
    {
        match self {
            Bson::FloatingPoint(d) => BsonV::FloatingPoint(d),
            Bson::String(s) => BsonV::String(s@),
            Bson::Array(vs) => BsonV::Array(
                Seq::new(
                    vs@.len(),
                    |i: int|
                        if 0 <= i < vs@.len() {
                            vs@[i].view_rec()
                        } else {
                            BsonV::Null
                        },
                ),
            ),
            Bson::Document(d) => BsonV::Document(
                Seq::new(
                    d.entries@.len(),
                    |i: int|
                        if 0 <= i < d.entries@.len() {
                            (d.entries@[i].0@, d.entries@[i].1.view_rec())
                        } else {
                            (Seq::empty(), BsonV::Null)
                        },
                ),
            ),
            Bson::Boolean(b) => BsonV::Boolean(b),
            Bson::Null => BsonV::Null,
            Bson::I32(v) => BsonV::I32(v),
            Bson::I64(v) => BsonV::I64(v),
            Bson::TimeStamp(v) => BsonV::TimeStamp(v),
            Bson::ObjectId(o) => BsonV::ObjectId(o),
            Bson::UtcDatetime(d) => BsonV::UtcDatetime(d),
        }
    }
}

impl View for Document {
    type V = DocV;

    open spec fn view(&self) -> DocV {
        Seq::new(self.entries@.len(), |i: int| (self.entries@[i].0@, self.entries@[i].1.view_rec()))
    }
}

/// A document is viewed as the document of its entries.
pub proof fn lemma_document_view(d: Document)
    ensures
        Bson::Document(d).view_rec() == BsonV::Document(d@),
{
    assert(Bson::Document(d).view_rec()->Document_0 =~= d@);
}

/// The views of a sequence of values.
pub open spec fn values_view(vs: Seq<Bson>) -> Seq<BsonV> {
    Seq::new(vs.len(), |i: int| vs[i].view_rec())
}

/// An array is viewed as the array of the views of its values.
pub proof fn lemma_array_view(vs: Vec<Bson>)
    ensures
        Bson::Array(vs).view_rec() == BsonV::Array(values_view(vs@)),
{
    assert(Bson::Array(vs).view_rec()->Array_0 =~= values_view(vs@));
}

/// The document after setting `key` to `value`: any entry with that key is removed and the new
/// entry goes at the end.
pub open spec fn doc_insert(d: DocV, key: Seq<char>, value: BsonV) -> DocV {
    without_key(d, key).push((key, value))
}

/// The entries of a document whose key is not the given one.
pub open spec fn without_key(d: DocV, key: Seq<char>) -> DocV {
    d.filter(|e: (Seq<char>, BsonV)| e.0 != key)
}

/// The value of the first entry with the given key.
pub open spec fn doc_get(d: DocV, key: Seq<char>) -> Option<BsonV>
    decreases d.len(),
{
    if d.len() == 0 {
        None
    } else if d[0].0 == key {
        Some(d[0].1)
    } else {
        doc_get(d.drop_first(), key)
    }
}

/// The document after setting, in order, every entry of `other`.
pub open spec fn doc_insert_all(d: DocV, other: DocV) -> DocV
    decreases other.len(),
{
    if other.len() == 0 {
        d
    } else {
        doc_insert(doc_insert_all(d, other.drop_last()), other.last().0, other.last().1)
    }
}

impl Bson {
    /// Returns a copy of the value.
    pub fn duplicate(&self) -> (r: Self)
        ensures
            r.view_rec() == self.view_rec(),
        decreases self,
    {
        match self {
            Bson::FloatingPoint(d) => Bson::FloatingPoint(*d),
            Bson::String(s) => Bson::String(copy_string(s.as_str())),
            Bson::Array(vs) => {
                let mut copy: Vec<Bson> = Vec::new();
                let mut i: usize = 0;
                while i < vs.len()
                    invariant
                        *self is Array,
                        self->Array_0 == *vs,
                        i <= vs@.len(),
                        copy@.len() == i,
                        forall|j: int| 0 <= j < i ==> #[trigger] copy@[j].view_rec() == vs@[j].view_rec(),
                    decreases vs@.len() - i,
                {
                    proof {
                        assert(decreases_to!(*self => self->Array_0));
                        assert(self->Array_0 == *vs);
                        assert(decreases_to!(self->Array_0 => vs@[i as int]));
                    }
                    copy.push(vs[i].duplicate());
                    i = i + 1;
                }
                let ghost cv = copy@;
                let r = Bson::Array(copy);
                assert(r.view_rec()->Array_0 =~= self.view_rec()->Array_0) by {
                    assert(r.view_rec()->Array_0.len() == cv.len());
                    assert forall|j: int| 0 <= j < cv.len() implies r.view_rec()->Array_0[j]
                        == self.view_rec()->Array_0[j] by {
                        assert(cv[j].view_rec() == vs@[j].view_rec());
                    }
                }
                r
            },
            Bson::Document(d) => {
                let copy = d.duplicate();
                proof {
                    lemma_document_view(copy);
                    lemma_document_view(*d);
                }
                Bson::Document(copy)
            },
            Bson::Boolean(b) => Bson::Boolean(*b),
            Bson::Null => Bson::Null,
            Bson::I32(v) => Bson::I32(*v),
            Bson::I64(v) => Bson::I64(*v),
            Bson::TimeStamp(v) => Bson::TimeStamp(*v),
            Bson::ObjectId(o) => Bson::ObjectId(*o),
            Bson::UtcDatetime(d) => Bson::UtcDatetime(*d),
        }
    }
}

impl Clone for Bson {
    fn clone(&self) -> (r: Self)
        ensures
            r.view_rec() == self.view_rec(),
    {
        self.duplicate()
    }
}

impl Clone for Document {
    fn clone(&self) -> (r: Self)
        ensures
            r@ == self@,
    {
        self.duplicate()
    }
}

impl Document {
    /// Creates an empty document.
    pub fn new() -> (r: Self)
        ensures
            r@ == Seq::<(Seq<char>, BsonV)>::empty(),
    {
        let r = Document { entries: Vec::new() };
        assert(r@ =~= Seq::<(Seq<char>, BsonV)>::empty());
        r
    }

    /// The number of entries.
    pub fn len(&self) -> (r: usize)
        ensures
            r == self@.len(),
    {
        self.entries.len()
    }

    /// Returns a copy of the document.
    pub fn duplicate(&self) -> (r: Self)
        ensures
            r@ == self@,
        decreases self,
    {
        let mut copy: Vec<(String, Bson)> = Vec::new();
        let mut i: usize = 0;
        while i < self.entries.len()
            invariant
                i <= self.entries@.len(),
                copy@.len() == i,
                forall|j: int|
                    0 <= j < i ==> #[trigger] copy@[j].0@ == self.entries@[j].0@ && copy@[j].1.view_rec()
                        == self.entries@[j].1.view_rec(),
            decreases self.entries@.len() - i,
        {
            let entry = &self.entries[i];
            assert(decreases_to!(*self => self.entries));
            assert(decreases_to!(self.entries => self.entries@[i as int]));
            copy.push((copy_string(entry.0.as_str()), entry.1.duplicate()));
            i = i + 1;
        }
        let r = Document { entries: copy };
        assert(r@ =~= self@);
        r
    }

    /// Sets `key` to `value`: an entry with that key is replaced and the new entry goes at the
    /// end.
    pub fn insert(&mut self, key: String, value: Bson)
        ensures
            final(self)@ == doc_insert(old(self)@, key@, value.view_rec()),
    {
        let ghost old_view = self@;
        let mut kept: Vec<(String, Bson)> = Vec::new();
        let n = self.entries.len();
        let mut i: usize = 0;
        while i < n
            invariant
                i <= n,
                self.entries@.len() == n - i,
                old_view.len() == n,
                forall|j: int|
                    0 <= j < n - i ==> (#[trigger] self.entries@[j].0@, self.entries@[j].1.view_rec())
                        == old_view[j + i],
                Seq::new(kept@.len(), |j: int| (kept@[j].0@, kept@[j].1.view_rec())) == old_view.subrange(
                    0,
                    i as int,
                ).filter(|e: (Seq<char>, BsonV)| e.0 != key@),
            decreases n - i,
        {
            let ghost before_entries = self.entries@;
            let ghost before_kept = Seq::new(
                kept@.len(),
                |j: int| (kept@[j].0@, kept@[j].1.view_rec()),
            );
            let entry = self.entries.remove(0);
            let ghost ev = (entry.0@, entry.1.view_rec());
            assert(ev == old_view[i as int]);
            assert(old_view.subrange(0, i + 1).drop_last() =~= old_view.subrange(0, i as int));
            if !str_eq(entry.0.as_str(), key.as_str()) {
                kept.push(entry);
                assert(Seq::new(kept@.len(), |j: int| (kept@[j].0@, kept@[j].1.view_rec()))
                    =~= before_kept.push(ev));
            } else {
                assert(Seq::new(kept@.len(), |j: int| (kept@[j].0@, kept@[j].1.view_rec()))
                    =~= before_kept);
            }
            assert(old_view.subrange(0, i + 1).filter(|e: (Seq<char>, BsonV)| e.0 != key@)
                == old_view.subrange(0, i as int).filter(|e: (Seq<char>, BsonV)| e.0 != key@) + (if ev.0
                != key@ {
                seq![ev]
            } else {
                Seq::empty()
            })) by {
                reveal(Seq::filter);
                assert(old_view.subrange(0, i + 1).drop_last() =~= old_view.subrange(0, i as int));
                assert(old_view.subrange(0, i + 1).last() == ev);
            }
            proof {
                assert forall|j: int| 0 <= j < n - (i + 1) implies (
                #[trigger] self.entries@[j].0@, self.entries@[j].1.view_rec()) == old_view[j + (i + 1)] by {
                    assert(self.entries@[j] == before_entries[j + 1]);
                }
            }
            i = i + 1;
        }
        let ghost kept_view = Seq::new(kept@.len(), |j: int| (kept@[j].0@, kept@[j].1.view_rec()));
        let ghost vv = value.view_rec();
        assert(old_view.subrange(0, n as int) =~= old_view);
        kept.push((key, value));
        self.entries = kept;
        assert(self@ =~= kept_view.push((key@, vv)));
    }

    /// Returns the value of the first entry with the given key.
    pub fn get(&self, key: &str) -> (r: Option<&Bson>)
        ensures
            match doc_get(self@, key@) {
                Some(v) => r matches Some(x) && x.view_rec() == v,
                None => r is None,
            },
    {
        let mut i: usize = 0;
        assert(self@.subrange(0, self@.len() as int) =~= self@);
        while i < self.entries.len()
            invariant
                i <= self.entries@.len(),
                doc_get(self@, key@) == doc_get(self@.subrange(i as int, self@.len() as int), key@),
            decreases self.entries@.len() - i,
        {
            let ghost rest = self@.subrange(i as int, self@.len() as int);
            assert(rest.drop_first() =~= self@.subrange(i + 1, self@.len() as int));
            if str_eq(self.entries[i].0.as_str(), key) {
                return Some(&self.entries[i].1);
            }
            i = i + 1;
        }
        None
    }

    /// Sets, in order, every entry of the other document.
    pub fn insert_all(&mut self, other: Document)
        ensures
            final(self)@ == doc_insert_all(old(self)@, other@),
    {
        let ghost ov = other@;
        let mut other = other;
        let n = other.entries.len();
        let mut i: usize = 0;
        while i < n
            invariant
                i <= n == ov.len(),
                other.entries@.len() == n - i,
                forall|j: int|
                    0 <= j < n - i ==> (#[trigger] other.entries@[j].0@, other.entries@[j].1.view_rec())
                        == ov[j + i],
                self@ == doc_insert_all(old(self)@, ov.subrange(0, i as int)),
            decreases n - i,
        {
            let ghost before = other.entries@;
            let (key, value) = other.entries.remove(0);
            assert((key@, value.view_rec()) == ov[i as int]);
            assert(ov.subrange(0, i + 1).drop_last() =~= ov.subrange(0, i as int));
            self.insert(key, value);
            proof {
                assert forall|j: int| 0 <= j < n - (i + 1) implies (
                #[trigger] other.entries@[j].0@, other.entries@[j].1.view_rec()) == ov[j + (i + 1)] by {
                    assert(other.entries@[j] == before[j + 1]);
                }
            }
            i = i + 1;
        }
        assert(ov.subrange(0, n as int) =~= ov);
    }
}


// -------------------------------------------------------------------------------------------------
// Laws of documents

proof fn lemma_get_push(s: DocV, e: (Seq<char>, BsonV), k: Seq<char>)
    ensures
        doc_get(s.push(e), k) == (match doc_get(s, k) {
            Some(x) => Some(x),
            None => if e.0 == k {
                Some(e.1)
            } else {
                None
            },
        }),
    decreases s.len(),
{
    reveal_with_fuel(doc_get, 2);
    if s.len() > 0 {
        assert(s.push(e)[0] == s[0]);
        assert(s.push(e).drop_first() =~= s.drop_first().push(e));
        lemma_get_push(s.drop_first(), e, k);
    } else {
        assert(s.push(e)[0] == e);
        assert(s.push(e).drop_first() =~= Seq::<(Seq<char>, BsonV)>::empty());
    }
}

proof fn lemma_get_filter(d: DocV, k: Seq<char>, other: Seq<char>)
    ensures
        doc_get(without_key(d, k), k) is None,
        other != k ==> doc_get(without_key(d, k), other) == doc_get(d, other),
    decreases d.len(),
{
    reveal(Seq::filter);
    if d.len() > 0 {
        let init = d.drop_last();
        lemma_get_filter(init, k, other);
        assert(d =~= init.push(d.last()));
        lemma_get_push(init, d.last(), other);
        let f = without_key(init, k);
        if d.last().0 != k {
            assert(without_key(d, k) =~= f.push(d.last()));
            lemma_get_push(f, d.last(), k);
            lemma_get_push(f, d.last(), other);
        }
    }
}

/// Reading a key after setting it gives the value that was set.
pub proof fn law_get_after_insert(d: DocV, key: Seq<char>, value: BsonV)
    ensures
        doc_get(doc_insert(d, key, value), key) == Some(value),
{
    let f = without_key(d, key);
    lemma_get_filter(d, key, key);
    lemma_get_push(f, (key, value), key);
}

/// Setting a key leaves the values of the other keys as they were.
pub proof fn law_get_other_after_insert(d: DocV, key: Seq<char>, value: BsonV, other: Seq<char>)
    requires
        other != key,
    ensures
        doc_get(doc_insert(d, key, value), other) == doc_get(d, other),
{
    let f = without_key(d, key);
    lemma_get_filter(d, key, other);
    lemma_get_push(f, (key, value), other);
}

/// Removing a key that no entry has leaves the document as it is.
proof fn lemma_without_absent_key(d: DocV, key: Seq<char>)
    requires
        forall|i: int| 0 <= i < d.len() ==> (#[trigger] d[i]).0 != key,
    ensures
        without_key(d, key) == d,
    decreases d.len(),
{
    reveal(Seq::filter);
    if d.len() > 0 {
        assert forall|i: int| 0 <= i < d.drop_last().len() implies (#[trigger] d.drop_last()[i]).0
            != key by {
            assert(d.drop_last()[i] == d[i]);
        }
        lemma_without_absent_key(d.drop_last(), key);
        assert(d.drop_last().push(d.last()) =~= d);
    }
}

/// Setting, in order, the entries of a document whose keys are distinct, starting from the empty
/// document, gives that document back.
pub proof fn law_insert_all_into_empty(d: DocV)
    requires
        keys_unique(d),
    ensures
        doc_insert_all(DocV::empty(), d) == d,
    decreases d.len(),
{
    if d.len() > 0 {
        let init = d.drop_last();
        assert(keys_unique(init)) by {
            assert forall|i: int, j: int| 0 <= i < j < init.len() implies init[i].0 != init[j].0 by {
                assert(init[i] == d[i] && init[j] == d[j]);
            }
        }
        law_insert_all_into_empty(init);
        assert forall|i: int| 0 <= i < init.len() implies (#[trigger] init[i]).0 != d.last().0 by {
            assert(init[i] == d[i]);
        }
        lemma_without_absent_key(init, d.last().0);
        assert(init.push(d.last()) =~= d);
    }
}

/// No key occurs twice.
pub open spec fn keys_unique(d: DocV) -> bool {
    forall|i: int, j: int| 0 <= i < j < d.len() ==> d[i].0 != d[j].0
}

proof fn lemma_filter_keys(d: DocV, key: Seq<char>)
    ensures
        forall|i: int|
            0 <= i < without_key(d, key).len() ==> (#[trigger] without_key(d, key)[i]).0 != key
                && d.contains(without_key(d, key)[i]),
        keys_unique(d) ==> keys_unique(without_key(d, key)),
    decreases d.len(),
{
    reveal(Seq::filter);
    if d.len() > 0 {
        let init = d.drop_last();
        lemma_filter_keys(init, key);
        assert(d =~= init.push(d.last()));
        let f = without_key(init, key);
        assert forall|i: int| 0 <= i < f.len() implies init.contains(#[trigger] f[i]) && d.contains(
            f[i],
        ) by {
            let j = choose|j: int| 0 <= j < init.len() && init[j] == f[i];
            assert(d[j] == f[i]);
        }
        if d.last().0 != key {
            assert(without_key(d, key) =~= f.push(d.last()));
        } else {
            assert(without_key(d, key) =~= f);
        }
        if keys_unique(d) {
            assert(keys_unique(init));
            if d.last().0 != key {
                assert forall|i: int| 0 <= i < f.len() implies (#[trigger] f[i]).0 != d.last().0 by {
                    let j = choose|j: int| 0 <= j < init.len() && init[j] == f[i];
                    assert(d[j] == f[i]);
                    assert(d[d.len() - 1] == d.last());
                }
            }
        }
    }
}

/// Setting, in order, the entries of another document keeps the keys of a document unique.
pub proof fn law_insert_all_keeps_keys_unique(d: DocV, other: DocV)
    requires
        keys_unique(d),
    ensures
        keys_unique(doc_insert_all(d, other)),
    decreases other.len(),
{
    if other.len() > 0 {
        law_insert_all_keeps_keys_unique(d, other.drop_last());
        law_insert_keeps_keys_unique(
            doc_insert_all(d, other.drop_last()),
            other.last().0,
            other.last().1,
        );
    }
}

/// Setting a key keeps the keys of a document unique.
pub proof fn law_insert_keeps_keys_unique(d: DocV, key: Seq<char>, value: BsonV)
    requires
        keys_unique(d),
    ensures
        keys_unique(doc_insert(d, key, value)),
{
    lemma_filter_keys(d, key);
}

}
