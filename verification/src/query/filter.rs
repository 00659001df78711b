//! Filters used by the queries.

use vstd::prelude::*;

use crate::document::{Bson, BsonV, DocV, Document, lemma_document_view};
use crate::text::copy_string;

verus! {

/// The filter matching every document.
pub fn all() -> (r: Document)
    ensures
        r@ == DocV::empty(),
{
    Document::new()
}

/// The filter of a text search: `{"$text": {"$search": pattern}}`.
pub fn text(pattern: String) -> (r: Document)
    ensures
        r@ == seq![("$text"@, BsonV::Document(seq![("$search"@, BsonV::String(pattern@))]))],
{
    let mut search = Document::new();
    let ghost p = pattern@;
    search.insert(copy_string("$search"), Bson::String(pattern));
    proof {
        reveal_strlit("$search");
        reveal_strlit("$text");
        reveal(Seq::filter);
    }
    assert(search@ =~= seq![("$search"@, BsonV::String(p))]);
    proof {
        lemma_document_view(search);
    }
    let ghost sv = search@;
    let mut result = Document::new();
    result.insert(copy_string("$text"), Bson::Document(search));
    assert(result@ =~= seq![("$text"@, BsonV::Document(sv))]);
    result
}

}
