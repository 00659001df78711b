//! The operations on the collection of a document type.

use vstd::prelude::*;

use crate::commands::{
    CreateCollectionCommand, CreateIndexesCommand, DropCollectionCommand, FindCommand,
    FindOneCommand, InsertCommand, RemoveCommand, RemoveOptions, UpdateCommand, UpdateOptions,
    insert_made,
};
use crate::conversions::{FromDoc, IntoDoc};
use crate::filters::{BuildFilter, Filters};
use crate::text::copy_string;

pub mod filter;

verus! {

/// The operations on the collection of a document type.
pub trait Query: Sized {
    /// The documents of the collection.
    type Data: FromDoc + IntoDoc;
    /// The documents inserted into the collection.
    type Insert: IntoDoc;
    /// The filters on the collection.
    type Filter: IntoDoc;
    /// The updates of the collection.
    type Update: IntoDoc;

    /// The name of the collection. Types implemented outside verified code may leave it
    /// unstated.
    open spec fn spec_collection_name() -> Seq<char> {
        vstd::pervasive::arbitrary::<(Self, Seq<char>)>().1
    }

    /// The indexed fields of the documents. Types implemented outside verified code may leave
    /// them unstated.
    open spec fn spec_indexed_fields() -> Seq<Seq<char>> {
        vstd::pervasive::arbitrary::<(Self, Seq<Seq<char>>)>().1
    }

    /// Returns the name of the collection.
    fn get_collection_name() -> (r: &'static str)
        ensures
            r@ == Self::spec_collection_name(),
    ;

    /// Returns the indexed fields of the documents.
    fn get_indexed_fields() -> (r: Vec<&'static str>)
        ensures
            r@.len() == Self::spec_indexed_fields().len(),
            forall|i: int| 0 <= i < r@.len() ==> #[trigger] r@[i]@ == Self::spec_indexed_fields()[i],
    ;

    /// Creates the collection.
    fn create_collection() -> (r: CreateCollectionCommand)
        ensures
            r.collection_name@ == Self::spec_collection_name(),
    {
        CreateCollectionCommand::new(copy_string(Self::get_collection_name()))
    }

    /// Drops the collection.
    fn drop_collection() -> (r: DropCollectionCommand)
        ensures
            r.collection_name@ == Self::spec_collection_name(),
    {
        DropCollectionCommand::new(copy_string(Self::get_collection_name()))
    }

    /// Creates the text index of the indexed fields.
    fn create_indexes() -> (r: CreateIndexesCommand)
        ensures
            Self::spec_indexed_fields().len() == 0 ==> r.command is None,
            Self::spec_indexed_fields().len() > 0 ==> (r.command matches Some(c) && c@
                == crate::commands::create_indexes_doc(
                Self::spec_collection_name(),
                Self::spec_indexed_fields(),
            )),
    {
        let fields = Self::get_indexed_fields();
        let mut names: Vec<String> = Vec::new();
        let mut i: usize = 0;
        while i < fields.len()
            invariant
                i <= fields@.len(),
                fields@.len() == Self::spec_indexed_fields().len(),
                forall|j: int| 0 <= j < fields@.len() ==> #[trigger] fields@[j]@ == Self::spec_indexed_fields()[j],
                names@.len() == i,
                forall|j: int| 0 <= j < i ==> #[trigger] names@[j]@ == fields@[j]@,
            decreases fields@.len() - i,
        {
            names.push(copy_string(fields[i]));
            i = i + 1;
        }
        assert(names@.map_values(|s: String| s@) =~= Self::spec_indexed_fields());
        CreateIndexesCommand::new(copy_string(Self::get_collection_name()), names)
    }

    /// Fetches all the documents.
    fn fetch_all() -> (r: FindCommand<Self::Data>)
        ensures
            r.collection_name@ == Self::spec_collection_name(),
            r.filter@.len() == 0,
            r.limit is None,
    {
        FindCommand::new(copy_string(Self::get_collection_name()), filter::all(), None)
    }

    /// Finds one document matching the filter.
    fn find_one(filter: Self::Filter) -> (r: FindOneCommand<Self::Data>)
        ensures
            r.collection_name@ == Self::spec_collection_name(),
            r.filter@ == filter.doc_of(),
    {
        FindOneCommand::new(copy_string(Self::get_collection_name()), filter.into_doc())
    }

    /// Finds the documents matching the filter.
    fn find(filter: Self::Filter) -> (r: FindCommand<Self::Data>)
        ensures
            r.collection_name@ == Self::spec_collection_name(),
            r.filter@ == filter.doc_of(),
            r.limit is None,
    {
        FindCommand::new(copy_string(Self::get_collection_name()), filter.into_doc(), None)
    }

    /// Finds the documents matching a logical combination of filters.
    fn find_logical(filters: Filters<Self::Filter>) -> (r: FindCommand<Self::Data>)
        where
            Self::Filter: BuildFilter,
        ensures
            r.collection_name@ == Self::spec_collection_name(),
            r.filter@ == filters.filter_of(),
            r.limit is None,
    {
        FindCommand::new(
            copy_string(Self::get_collection_name()),
            filters.build_filter().into_doc(),
            None,
        )
    }

    /// Finds the documents matching a text search.
    fn text_search(pattern: String) -> (r: FindCommand<Self::Data>)
        ensures
            r.collection_name@ == Self::spec_collection_name(),
            r.filter@ == seq![
                (
                    "$text"@,
                    crate::document::BsonV::Document(
                        seq![("$search"@, crate::document::BsonV::String(pattern@))],
                    ),
                ),
            ],
            r.limit is None,
    {
        FindCommand::new(copy_string(Self::get_collection_name()), filter::text(pattern), None)
    }

    /// Inserts a document.
    fn insert(data: Self::Insert) -> (r: InsertCommand)
        ensures
            insert_made(r, Self::spec_collection_name(), data.doc_of()),
    {
        InsertCommand::new(copy_string(Self::get_collection_name()), data.into_doc())
    }

    /// Inserts a document of the collection.
    fn insert_data(data: Self::Data) -> (r: InsertCommand)
        ensures
            insert_made(r, Self::spec_collection_name(), data.doc_of()),
    {
        InsertCommand::new(copy_string(Self::get_collection_name()), data.into_doc())
    }

    /// Updates one document matching the filter.
    fn update(filter: Self::Filter, update: Self::Update) -> (r: UpdateCommand)
        ensures
            r.collection_name@ == Self::spec_collection_name(),
            r.filter@ == filter.doc_of(),
            r.update@ == update.doc_of(),
            r.options == UpdateOptions::UpdateOne,
    {
        UpdateCommand::new(
            copy_string(Self::get_collection_name()),
            filter.into_doc(),
            update.into_doc(),
            UpdateOptions::UpdateOne,
        )
    }

    /// Updates all the documents matching the filter.
    fn update_many(filter: Self::Filter, update: Self::Update) -> (r: UpdateCommand)
        ensures
            r.collection_name@ == Self::spec_collection_name(),
            r.filter@ == filter.doc_of(),
            r.update@ == update.doc_of(),
            r.options == UpdateOptions::UpdateMany,
    {
        UpdateCommand::new(
            copy_string(Self::get_collection_name()),
            filter.into_doc(),
            update.into_doc(),
            UpdateOptions::UpdateMany,
        )
    }

    /// Removes one document matching the filter.
    fn remove_one(filter: Self::Filter) -> (r: RemoveCommand)
        ensures
            r.collection_name@ == Self::spec_collection_name(),
            r.filter@ == filter.doc_of(),
            r.options == RemoveOptions::RemoveOne,
    {
        RemoveCommand::new(
            copy_string(Self::get_collection_name()),
            filter.into_doc(),
            RemoveOptions::RemoveOne,
        )
    }

    /// Removes all the documents matching the filter.
    fn remove(filter: Self::Filter) -> (r: RemoveCommand)
        ensures
            r.collection_name@ == Self::spec_collection_name(),
            r.filter@ == filter.doc_of(),
            r.options == RemoveOptions::RemoveMany,
    {
        RemoveCommand::new(
            copy_string(Self::get_collection_name()),
            filter.into_doc(),
            RemoveOptions::RemoveMany,
        )
    }
}

}
