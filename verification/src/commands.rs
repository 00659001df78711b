//! The database commands: what each one sends.

use vstd::prelude::*;

use crate::conversions::FromDoc;
use crate::document::{
    Bson, BsonV, DocV, Document, doc_get, doc_insert, law_get_after_insert,
    law_get_other_after_insert, lemma_document_view,
};
use crate::text::copy_string;
use crate::types::ObjectId;
use std::marker::PhantomData;

verus! {

/// Creates a collection (unless it exists).
#[derive(Debug)]
pub struct CreateCollectionCommand {
    pub collection_name: String,
}

impl CreateCollectionCommand {
    /// The command for the collection.
    pub fn new(collection_name: String) -> (r: Self)
        ensures
            r.collection_name == collection_name,
    {
        Self { collection_name }
    }
}

/// Drops a collection (if it exists).
#[derive(Debug)]
pub struct DropCollectionCommand {
    pub collection_name: String,
}

impl DropCollectionCommand {
    /// The command for the collection.
    pub fn new(collection_name: String) -> (r: Self)
        ensures
            r.collection_name == collection_name,
    {
        Self { collection_name }
    }
}

/// The keys of a text index on the fields: each field is indexed as `"text"`.
pub open spec fn text_keys(fields: Seq<Seq<char>>) -> DocV
    decreases fields.len(),
{
    if fields.len() == 0 {
        DocV::empty()
    } else {
        doc_insert(text_keys(fields.drop_last()), fields.last(), BsonV::String("text"@))
    }
}

/// The command creating a text index named after the collection on the fields.
pub open spec fn create_indexes_doc(collection: Seq<char>, fields: Seq<Seq<char>>) -> DocV {
    seq![
        ("createIndexes"@, BsonV::String(collection)),
        (
            "indexes"@,
            BsonV::Array(
                seq![
                    BsonV::Document(
                        seq![
                            ("name"@, BsonV::String(collection)),
                            ("key"@, BsonV::Document(text_keys(fields))),
                        ],
                    ),
                ],
            ),
        ),
    ]
}

/// Creates a text index on the indexed fields of a collection; there is nothing to send when no
/// field is indexed.
#[derive(Debug)]
pub struct CreateIndexesCommand {
    pub command: Option<Document>,
}

impl CreateIndexesCommand {
    /// The command for the collection and its indexed fields.
    pub fn new(collection_name: String, indexed_fields: Vec<String>) -> (r: Self)
        ensures
            indexed_fields@.len() == 0 ==> r.command is None,
            indexed_fields@.len() > 0 ==> (r.command matches Some(c) && c@ == create_indexes_doc(
                collection_name@,
                indexed_fields@.map_values(|s: String| s@),
            )),
    {
        if indexed_fields.len() == 0 {
            return Self { command: None };
        }
        let ghost fields = indexed_fields@.map_values(|s: String| s@);
        let mut keys = Document::new();
        let mut i: usize = 0;
        proof {
            reveal_strlit("text");
            reveal_strlit("createIndexes");
            reveal_strlit("indexes");
            reveal_strlit("name");
            reveal_strlit("key");
        }
        assert(keys@ =~= text_keys(fields.subrange(0, 0)));
        while i < indexed_fields.len()
            invariant
                i <= indexed_fields@.len(),
                fields == indexed_fields@.map_values(|s: String| s@),
                keys@ == text_keys(fields.subrange(0, i as int)),
            decreases indexed_fields@.len() - i,
        {
            assert(fields.subrange(0, i + 1).drop_last() =~= fields.subrange(0, i as int));
            keys.insert(copy_string(indexed_fields[i].as_str()), Bson::String(copy_string("text")));
            i = i + 1;
        }
        assert(fields.subrange(0, indexed_fields@.len() as int) =~= fields);
        let ghost kv = keys@;
        let mut index = Document::new();
        index.insert(copy_string("name"), Bson::String(copy_string(collection_name.as_str())));
        proof {
            lemma_document_view(keys);
            reveal(Seq::filter);
        }
        let ghost first = index@;
        assert(first =~= seq![("name"@, BsonV::String(collection_name@))]);
        index.insert(copy_string("key"), Bson::Document(keys));
        proof {
            reveal(Seq::filter);
            reveal_strlit("name");
            reveal_strlit("key");
            assert("name"@.len() == 4);
            assert("key"@.len() == 3);
            assert(first.filter(|e: (Seq<char>, BsonV)| e.0 != "key"@) =~= first) by {
                assert(first.drop_last() =~= Seq::<(Seq<char>, BsonV)>::empty());
                assert(first.last().0 != "key"@);
            }
        }
        let ghost iv = index@;
        assert(iv =~= seq![("name"@, BsonV::String(collection_name@)), ("key"@, BsonV::Document(kv))]);
        proof {
            lemma_document_view(index);
        }
        let indexes = vec![Bson::Document(index)];
        let mut command = Document::new();
        command.insert(copy_string("createIndexes"), Bson::String(copy_string(collection_name.as_str())));
        proof {
            reveal(Seq::filter);
        }
        assert(command@ =~= seq![("createIndexes"@, BsonV::String(collection_name@))]);
        proof {
            crate::document::lemma_array_view(indexes);
            assert(crate::document::values_view(indexes@) =~= seq![BsonV::Document(iv)]);
        }
        let ghost before = command@;
        command.insert(copy_string("indexes"), Bson::Array(indexes));
        proof {
            reveal(Seq::filter);
            reveal_strlit("createIndexes");
            reveal_strlit("indexes");
            assert("createIndexes"@.len() == 13);
            assert("indexes"@.len() == 7);
            assert(before.filter(|e: (Seq<char>, BsonV)| e.0 != "indexes"@) =~= before) by {
                assert(before.drop_last() =~= Seq::<(Seq<char>, BsonV)>::empty());
                assert(before.last().0 != "indexes"@);
            }
            assert(index@ == iv);
        }
        assert(command@ =~= create_indexes_doc(collection_name@, fields));
        Self { command: Some(command) }
    }

    /// Returns the command, if there is one.
    pub fn get_command(&self) -> (r: Option<&Document>)
        ensures
            match self.command {
                Some(c) => r matches Some(x) && *x == c,
                None => r is None,
            },
    {
        match &self.command {
            Some(c) => Some(c),
            None => None,
        }
    }
}

/// Finds one document of a collection.
#[derive(Debug)]
pub struct FindOneCommand<Data: FromDoc> {
    pub collection_name: String,
    pub filter: Document,
    pub phantom: PhantomData<Data>,
}

impl<Data: FromDoc> FindOneCommand<Data> {
    /// The command for the collection and the filter.
    pub fn new(collection_name: String, filter: Document) -> (r: Self)
        ensures
            r.collection_name == collection_name,
            r.filter == filter,
    {
        Self { collection_name, filter, phantom: PhantomData }
    }

    /// Returns the filter.
    pub fn get_filter(&self) -> (r: &Document)
        ensures
            *r == self.filter,
    {
        &self.filter
    }

    /// The number of documents asked for.
    pub fn get_limit(&self) -> (r: u32)
        ensures
            r == 1,
    {
        1
    }
}

/// Finds the documents of a collection, up to a limit if given.
#[derive(Debug)]
pub struct FindCommand<Data: FromDoc> {
    pub collection_name: String,
    pub filter: Document,
    pub limit: Option<u32>,
    pub phantom: PhantomData<Data>,
}

impl<Data: FromDoc> FindCommand<Data> {
    /// The command for the collection, the filter and the limit.
    pub fn new(collection_name: String, filter: Document, limit: Option<u32>) -> (r: Self)
        ensures
            r.collection_name == collection_name,
            r.filter == filter,
            r.limit == limit,
    {
        Self { collection_name, filter, limit, phantom: PhantomData }
    }

    /// Returns the filter.
    pub fn get_filter(&self) -> (r: &Document)
        ensures
            *r == self.filter,
    {
        &self.filter
    }
}

/// The insertion of a document into a collection: a document with `_id` is inserted as it is and
/// `_id` is its identifier; one without it gets a fresh object identifier added as its `_id`.
pub open spec fn insert_made(c: InsertCommand, collection: Seq<char>, document: DocV) -> bool {
    match doc_get(document, "_id"@) {
        Some(id) => c.collection_name@ == collection && c.document@ == document && c.id.view_rec()
            == id,
        None => c.collection_name@ == collection && exists|o: ObjectId|
            c.document@ == doc_insert(document, "_id"@, BsonV::ObjectId(o)) && c.id.view_rec()
                == BsonV::ObjectId(o),
    }
}

/// The document that an insertion sends holds its identifier under `_id`, and its other keys
/// hold what the given document held.
pub proof fn law_inserted_document_has_id(
    c: InsertCommand,
    collection: Seq<char>,
    document: DocV,
    other: Seq<char>,
)
    requires
        insert_made(c, collection, document),
        other != "_id"@,
    ensures
        doc_get(c.document@, "_id"@) == Some(c.id.view_rec()),
        doc_get(c.document@, other) == doc_get(document, other),
{
    match doc_get(document, "_id"@) {
        Some(id) => {},
        None => {
            let o = choose|o: ObjectId|
                c.document@ == doc_insert(document, "_id"@, BsonV::ObjectId(o)) && c.id.view_rec()
                    == BsonV::ObjectId(o);
            law_get_after_insert(document, "_id"@, BsonV::ObjectId(o));
            law_get_other_after_insert(document, "_id"@, BsonV::ObjectId(o), other);
        },
    }
}

/// Inserts a document into a collection; the document gets an `_id` when it has none.
#[derive(Debug)]
pub struct InsertCommand {
    pub collection_name: String,
    pub document: Document,
    pub id: Bson,
}

impl InsertCommand {
    /// The command for the collection and the document. A document without `_id` gets a fresh
    /// object identifier as its `_id`.
    pub fn new(collection_name: String, document: Document) -> (r: Self)
        ensures
            insert_made(r, collection_name@, document@),
    {
        let mut document = document;
        proof {
            reveal_strlit("_id");
        }
        let existing = match document.get("_id") {
            Some(id) => Some(id.duplicate()),
            None => None,
        };
        match existing {
            Some(id) => Self { collection_name, document, id },
            None => {
                let oid = ObjectId::generate().unwrap();
                document.insert(copy_string("_id"), Bson::ObjectId(oid));
                Self { collection_name, document, id: Bson::ObjectId(oid) }
            },
        }
    }

    /// Returns the document.
    pub fn get_document(&self) -> (r: &Document)
        ensures
            *r == self.document,
    {
        &self.document
    }
}

/// How many documents an update modifies.
#[derive(Clone, Copy, Debug, PartialEq, Eq)]
pub enum UpdateOptions {
    UpdateOne,
    UpdateMany,
}

/// Updates the documents of a collection matching a filter.
#[derive(Debug)]
pub struct UpdateCommand {
    pub collection_name: String,
    pub filter: Document,
    pub update: Document,
    pub options: UpdateOptions,
}

impl UpdateCommand {
    /// The command for the collection, the filter, the update and the options.
    pub fn new(collection_name: String, filter: Document, update: Document, options: UpdateOptions) -> (r:
        Self)
        ensures
            r.collection_name == collection_name,
            r.filter == filter,
            r.update == update,
            r.options == options,
    {
        Self { collection_name, filter, update, options }
    }
}

/// How many documents a removal removes.
#[derive(Clone, Copy, Debug, PartialEq, Eq)]
pub enum RemoveOptions {
    RemoveOne,
    RemoveMany,
}

/// Removes the documents of a collection matching a filter.
#[derive(Debug)]
pub struct RemoveCommand {
    pub collection_name: String,
    pub filter: Document,
    pub options: RemoveOptions,
}

impl RemoveCommand {
    /// The command for the collection, the filter and the options.
    pub fn new(collection_name: String, filter: Document, options: RemoveOptions) -> (r: Self)
        ensures
            r.collection_name == collection_name,
            r.filter == filter,
            r.options == options,
    {
        Self { collection_name, filter, options }
    }
}

}
