//! Parsing the macro input of the queries: the collection name and the query object.

use vstd::prelude::*;

use crate::definition::output::Schema;
use crate::formulation::input::{FieldTemplate, ObjectTemplate, TemplateV, ValueTemplate};
use crate::formulation::output::{
    Attribute, Part, PartV, part_of_str, split_at_dots, trimmed,
};
use crate::formulation::validator::Validator;
use crate::parser::{
    eof_message, eof_text, group_message, group_text, punctuation_message, punctuation_text,
    string_message, string_text,
};
use crate::text::{chars_of, copy_string, string_from_chars};
use crate::tokens::{Delimiter, TokenTree, TokenV, lemma_group_view, tokens_view};

verus! {

// -------------------------------------------------------------------------------------------------
// The grammar

/// The contents of a string literal (the text between its quotes), if the literal is one.
pub open spec fn literal_string(l: Seq<char>) -> Option<Seq<char>> {
    if l.len() >= 2 && l[0] == '"' && l[l.len() - 1] == '"' {
        Some(l.subrange(1, l.len() - 1))
    } else {
        None
    }
}

/// The attribute written in a string: pieces separated by dots, each one trimmed.
pub open spec fn attribute_of_str(s: Seq<char>) -> Seq<PartV> {
    Seq::new(split_at_dots(s).len(), |i: int| part_of_str(trimmed(split_at_dots(s)[i])))
}

/// Where the reading of a query stopped and why: the positions of the groups that hold the
/// token tree refused, outermost first, and its position among the token trees of the innermost
/// one (or of the query, when no group holds it).
pub struct QueryFailureV {
    pub groups: Seq<int>,
    pub position: int,
    pub message: Seq<char>,
}

/// A refusal at a position of the token trees being read.
pub open spec fn query_failure(position: int, message: Seq<char>) -> QueryFailureV {
    QueryFailureV { groups: Seq::empty(), position, message }
}

/// A refusal inside the group at position `group`.
pub open spec fn within(group: int, f: QueryFailureV) -> QueryFailureV {
    QueryFailureV { groups: seq![group] + f.groups, position: f.position, message: f.message }
}

/// The refusal where a punctuation character (the given one, if any) was expected.
pub open spec fn expected_punctuation(ts: Seq<TokenV>, pos: int, expected: Option<char>) -> QueryFailureV {
    query_failure(
        pos,
        if 0 <= pos < ts.len() {
            punctuation_message(expected, ts[pos])
        } else {
            "Expected a punctuation, but the stream ended"@
        },
    )
}

/// Parts of an attribute written as identifiers and code groups separated by dots and ended by
/// a colon: the parts (after those in `acc`) and the position after the colon.
pub open spec fn spec_parse_attr_parts(ts: Seq<TokenV>, pos: int, acc: Seq<PartV>) -> Result<
    (Seq<PartV>, int),
    QueryFailureV,
>
    decreases ts.len() - pos,
{
    let part = if 0 <= pos < ts.len() {
        match ts[pos] {
            TokenV::Ident(s) => Some(part_of_str(s)),
            TokenV::Group(_, _, text) => Some(PartV::Code(text)),
            _ => None,
        }
    } else {
        None
    };
    match part {
        None => Err(query_failure(pos, "Expected an identifier or parenthesis '()'"@)),
        Some(p) => if pos + 1 < ts.len() && ts[pos + 1] is Punct {
            let c = ts[pos + 1]->Punct_0;
            if c == ':' {
                Ok((acc.push(p), pos + 2))
            } else if c == '.' {
                spec_parse_attr_parts(ts, pos + 2, acc.push(p))
            } else {
                Err(query_failure(pos + 1, "Expected a colon (':') or a dot ('.')"@))
            }
        } else {
            Err(expected_punctuation(ts, pos + 1, None))
        },
    }
}

/// The attribute of a field at position `pos` and the position after its colon: a string
/// literal, or identifiers and code groups separated by dots.
pub open spec fn spec_parse_attr(ts: Seq<TokenV>, pos: int) -> Result<(Seq<PartV>, int), QueryFailureV> {
    if 0 <= pos < ts.len() && ts[pos] is Literal {
        match literal_string(ts[pos]->Literal_0) {
            None => Err(query_failure(pos, "Expected a literal string"@)),
            Some(s) => if pos + 1 < ts.len() && ts[pos + 1] == TokenV::Punct(':') {
                Ok((attribute_of_str(s), pos + 2))
            } else {
                Err(expected_punctuation(ts, pos + 1, Some(':')))
            },
        }
    } else {
        spec_parse_attr_parts(ts, pos, Seq::empty())
    }
}

proof fn lemma_attr_parts_advance(ts: Seq<TokenV>, pos: int, acc: Seq<PartV>)
    ensures
        spec_parse_attr_parts(ts, pos, acc) matches Ok(r) ==> pos + 2 <= r.1 <= ts.len(),
    decreases ts.len() - pos,
{
    if 0 <= pos && pos + 1 < ts.len() {
        lemma_attr_parts_advance(ts, pos + 2, acc.push(PartV::Dollar));
        match ts[pos] {
            TokenV::Ident(s) => lemma_attr_parts_advance(ts, pos + 2, acc.push(part_of_str(s))),
            TokenV::Group(_, _, text) => lemma_attr_parts_advance(
                ts,
                pos + 2,
                acc.push(PartV::Code(text)),
            ),
            _ => {},
        }
    }
}

/// A parsed attribute ends after its start.
pub proof fn lemma_attr_advances(ts: Seq<TokenV>, pos: int)
    ensures
        spec_parse_attr(ts, pos) matches Ok(r) ==> pos + 2 <= r.1 <= ts.len(),
{
    lemma_attr_parts_advance(ts, pos, Seq::empty());
}

/// The value written by the token at position `pos`.
pub open spec fn spec_parse_value(ts: Seq<TokenV>, pos: int) -> Result<TemplateV, QueryFailureV>
    decreases ts, 0int,
{
    if !(0 <= pos < ts.len()) {
        Err(query_failure(pos, "Expected a literal value or '()' or '{}' block"@))
    } else {
        match ts[pos] {
            TokenV::Literal(l) => match literal_string(l) {
                Some(s) => Ok(TemplateV::Quoted(s)),
                None => Ok(TemplateV::Unquoted(l)),
            },
            TokenV::Ident(s) => Ok(TemplateV::Unquoted(s)),
            TokenV::Group(Delimiter::Parenthesis, _, text) => Ok(TemplateV::Code(text)),
            TokenV::Group(Delimiter::Brace, inner, _) => {
                proof {
                    assert(decreases_to!(ts => ts[pos]));
                }
                match spec_parse_fields(inner, 0, Seq::empty()) {
                    Ok(f) => Ok(TemplateV::Object(f)),
                    Err(f) => Err(within(pos, f)),
                }
            },
            TokenV::Group(_, _, _) => Err(query_failure(pos, "Expected '()' or '{}' block"@)),
            _ => Err(query_failure(pos, "Expected a literal value or '()' or '{}' block"@)),
        }
    }
}

/// The fields of an object from position `pos` on (after those in `acc`): attributes and values
/// separated by commas, with an optional comma at the end.
pub open spec fn spec_parse_fields(
    ts: Seq<TokenV>,
    pos: int,
    acc: Seq<(Seq<PartV>, TemplateV)>,
) -> Result<Seq<(Seq<PartV>, TemplateV)>, QueryFailureV>
    decreases ts, ts.len() - pos,
{
    if pos < 0 || pos >= ts.len() {
        Ok(acc)
    } else {
        match spec_parse_attr(ts, pos) {
            Err(f) => Err(f),
            Ok(a) => match spec_parse_value(ts, a.1) {
                Err(f) => Err(f),
                Ok(v) => {
                    let next = a.1 + 1;
                    if next < ts.len() {
                        if ts[next] == TokenV::Punct(',') {
                            proof {
                                lemma_attr_advances(ts, pos);
                            }
                            spec_parse_fields(ts, next + 1, acc.push((a.0, v)))
                        } else {
                            Err(expected_punctuation(ts, next, Some(',')))
                        }
                    } else {
                        Ok(acc.push((a.0, v)))
                    }
                },
            },
        }
    }
}

/// The collection and the query object written by a macro input: a group holding the name of
/// the collection as a string literal, then either a group holding the fields or the fields
/// themselves.
pub open spec fn spec_parse_query(ts: Seq<TokenV>) -> Result<
    (Seq<char>, Seq<(Seq<PartV>, TemplateV)>),
    QueryFailureV,
> {
    if ts.len() == 0 {
        Err(query_failure(0, "Expected a group, but the stream ended"@))
    } else if !(ts[0] is Group) {
        Err(query_failure(0, group_message(ts[0])))
    } else {
        let prelude = ts[0]->Group_1;
        if prelude.len() == 0 {
            Err(within(0, query_failure(0, "Expected a literal, but the stream ended"@)))
        } else if !(prelude[0] is Literal && literal_string(prelude[0]->Literal_0) is Some) {
            Err(within(0, query_failure(0, string_message(prelude[0]))))
        } else if prelude.len() > 1 {
            Err(within(0, query_failure(1, eof_message(prelude[1]))))
        } else {
            let collection = literal_string(prelude[0]->Literal_0)->Some_0;
            let fields = if ts.len() > 1 && ts[1] is Group {
                match spec_parse_fields(ts[1]->Group_1, 0, Seq::empty()) {
                    Ok(f) => Ok(f),
                    Err(f) => Err(within(1, f)),
                }
            } else {
                spec_parse_fields(ts, 1, Seq::empty())
            };
            match fields {
                Ok(f) => Ok((collection, f)),
                Err(f) => Err(f),
            }
        }
    }
}


// -------------------------------------------------------------------------------------------------
// The parser

/// Returns the contents of a string literal (the text between its quotes), if the literal is
/// one.
pub fn unquote(literal: &str) -> (r: Option<String>)
    ensures
        match literal_string(literal@) {
            Some(s) => r matches Some(x) && x@ == s,
            None => r is None,
        },
{
    let chars = chars_of(literal);
    let n = chars.len();
    if n >= 2 && chars[0] == '"' && chars[n - 1] == '"' {
        let mut inner: Vec<char> = Vec::new();
        let mut i: usize = 1;
        while i < n - 1
            invariant
                1 <= i <= n - 1,
                n == chars@.len(),
                inner@ == chars@.subrange(1, i as int),
            decreases n - 1 - i,
        {
            inner.push(chars[i]);
            assert(inner@ =~= chars@.subrange(1, i + 1));
            i = i + 1;
        }
        Some(string_from_chars(inner.as_slice()))
    } else {
        None
    }
}

/// Where the reading of a query stopped and why.
#[derive(Debug, PartialEq, Eq)]
pub struct QueryFailure {
    /// The positions of the groups that hold the token tree refused, outermost first.
    pub groups: Vec<usize>,
    /// How many token trees come before the one refused in the innermost of those groups.
    pub position: usize,
    /// What was expected and what was found.
    pub message: String,
}

impl View for QueryFailure {
    type V = QueryFailureV;

    open spec fn view(&self) -> QueryFailureV {
        QueryFailureV {
            groups: self.groups@.map_values(|g: usize| g as int),
            position: self.position as int,
            message: self.message@,
        }
    }
}

/// A refusal at a position, with its message.
fn failure_at(position: usize, message: &str) -> (r: QueryFailure)
    ensures
        r@ == query_failure(position as int, message@),
{
    let r = QueryFailure { groups: Vec::new(), position, message: copy_string(message) };
    assert(r@.groups =~= Seq::<int>::empty());
    r
}

/// The refusal moved inside the group at position `group`.
fn inside(group: usize, f: QueryFailure) -> (r: QueryFailure)
    ensures
        r@ == within(group as int, f@),
{
    let mut groups = f.groups;
    let ghost before = groups@;
    groups.insert(0, group);
    let r = QueryFailure { groups, position: f.position, message: f.message };
    assert(r@.groups =~= seq![group as int] + before.map_values(|g: usize| g as int));
    r
}

/// The refusal where a punctuation character (the given one, if any) was expected.
fn punctuation_failure_at(ts: &Vec<TokenTree>, pos: usize, expected: Option<char>) -> (r: QueryFailure)
    ensures
        r@ == expected_punctuation(tokens_view(ts@), pos as int, expected),
{
    if pos < ts.len() {
        let r = QueryFailure {
            groups: Vec::new(),
            position: pos,
            message: punctuation_text(expected, &ts[pos]),
        };
        assert(r@.groups =~= Seq::<int>::empty());
        r
    } else {
        failure_at(pos, "Expected a punctuation, but the stream ended")
    }
}

/// Parses the parts of an attribute written as identifiers and code groups separated by dots;
/// returns the attribute and the position after its colon.
fn parse_attr_parts(ts: &Vec<TokenTree>, pos: usize) -> (r: Result<(Attribute, usize), QueryFailure>)
    ensures
        match spec_parse_attr_parts(tokens_view(ts@), pos as int, Seq::empty()) {
            Ok(a) => r matches Ok(x) && x.0@ == a.0 && x.1 == a.1,
            Err(f) => r matches Err(e) && e@ == f,
        },
{
    let ghost tv = tokens_view(ts@);
    let mut attr = Attribute::new();
    assert(attr@ =~= Seq::<PartV>::empty());
    let mut p = pos;
    loop
        invariant
            tv == tokens_view(ts@),
            spec_parse_attr_parts(tv, pos as int, Seq::empty()) == spec_parse_attr_parts(
                tv,
                p as int,
                attr@,
            ),
        decreases ts@.len() - p,
    {
        if p >= ts.len() {
            return Err(failure_at(p, "Expected an identifier or parenthesis '()'"));
        }
        let part = match &ts[p] {
            TokenTree::Ident(s) => Part::from_str(s.as_str()),
            TokenTree::Group(_, _, text) => Part::from_code(crate::text::copy_string(text.as_str())),
            _ => {
                return Err(failure_at(p, "Expected an identifier or parenthesis '()'"));
            },
        };
        attr.push(part);
        if ts.len() - p < 2 {
            return Err(punctuation_failure_at(ts, p + 1, None));
        }
        match &ts[p + 1] {
            TokenTree::Punct(c) => {
                if *c == ':' {
                    return Ok((attr, p + 2));
                } else if *c == '.' {
                    p = p + 2;
                } else {
                    return Err(failure_at(p + 1, "Expected a colon (':') or a dot ('.')"));
                }
            },
            _ => {
                return Err(punctuation_failure_at(ts, p + 1, None));
            },
        }
    }
}

/// Parses the attribute of a field; returns it and the position after its colon.
fn parse_attr(ts: &Vec<TokenTree>, pos: usize) -> (r: Result<(Attribute, usize), QueryFailure>)
    ensures
        match spec_parse_attr(tokens_view(ts@), pos as int) {
            Ok(a) => r matches Ok(x) && x.0@ == a.0 && x.1 == a.1,
            Err(f) => r matches Err(e) && e@ == f,
        },
{
    if pos < ts.len() {
        if let TokenTree::Literal(l) = &ts[pos] {
            return match unquote(l.as_str()) {
                None => Err(failure_at(pos, "Expected a literal string")),
                Some(s) => {
                    if pos + 1 < ts.len() {
                        match &ts[pos + 1] {
                            TokenTree::Punct(':') => {
                                let attr = Attribute::from_str(s.as_str());
                                assert(attr@ =~= attribute_of_str(s@));
                                Ok((attr, pos + 2))
                            },
                            _ => Err(punctuation_failure_at(ts, pos + 1, Some(':'))),
                        }
                    } else {
                        Err(punctuation_failure_at(ts, pos + 1, Some(':')))
                    }
                },
            };
        }
    }
    parse_attr_parts(ts, pos)
}

/// Parses the value written by the token at position `pos`.
fn parse_value(ts: &Vec<TokenTree>, pos: usize) -> (r: Result<ValueTemplate, QueryFailure>)
    ensures
        match spec_parse_value(tokens_view(ts@), pos as int) {
            Ok(v) => r matches Ok(x) && x.view_rec() == v,
            Err(f) => r matches Err(e) && e@ == f,
        },
    decreases tokens_view(ts@), 0int,
{
    if pos >= ts.len() {
        return Err(failure_at(pos, "Expected a literal value or '()' or '{}' block"));
    }
    match &ts[pos] {
        TokenTree::Literal(l) => match unquote(l.as_str()) {
            Some(s) => Ok(ValueTemplate::Quoted(s)),
            None => Ok(ValueTemplate::Unquoted(crate::text::copy_string(l.as_str()))),
        },
        TokenTree::Ident(s) => Ok(ValueTemplate::Unquoted(crate::text::copy_string(s.as_str()))),
        TokenTree::Group(Delimiter::Parenthesis, _, text) => Ok(
            ValueTemplate::Code(crate::text::copy_string(text.as_str())),
        ),
        TokenTree::Group(Delimiter::Brace, inner, text) => {
            proof {
                lemma_group_view(Delimiter::Brace, *inner, *text);
                assert(decreases_to!(tokens_view(ts@) => tokens_view(ts@)[pos as int]));
            }
            match parse_fields(inner, 0) {
                Ok(object) => {
                    proof {
                        crate::formulation::input::lemma_object_template_view(object);
                    }
                    Ok(ValueTemplate::Object(object))
                },
                Err(e) => Err(inside(pos, e)),
            }
        },
        TokenTree::Group(_, _, _) => Err(failure_at(pos, "Expected '()' or '{}' block")),
        _ => Err(failure_at(pos, "Expected a literal value or '()' or '{}' block")),
    }
}

/// Parses the fields of an object from position `start` on.
pub fn parse_fields(ts: &Vec<TokenTree>, start: usize) -> (r: Result<ObjectTemplate, QueryFailure>)
    ensures
        match spec_parse_fields(tokens_view(ts@), start as int, Seq::empty()) {
            Ok(f) => r matches Ok(o) && o.view_fields() == f,
            Err(f) => r matches Err(e) && e@ == f,
        },
    decreases tokens_view(ts@), 1int,
{
    let ghost tv = tokens_view(ts@);
    let mut object = ObjectTemplate::new();
    assert(object.view_fields() =~= Seq::<(Seq<PartV>, TemplateV)>::empty());
    let mut pos = start;
    while pos < ts.len()
        invariant
            tv == tokens_view(ts@),
            spec_parse_fields(tv, start as int, Seq::empty()) == spec_parse_fields(
                tv,
                pos as int,
                object.view_fields(),
            ),
        decreases ts@.len() - pos,
    {
        proof {
            lemma_attr_advances(tv, pos as int);
        }
        let (attr, after) = match parse_attr(ts, pos) {
            Ok(a) => a,
            Err(e) => {
                return Err(e);
            },
        };
        let value = match parse_value(ts, after) {
            Ok(v) => v,
            Err(e) => {
                return Err(e);
            },
        };
        let ghost before = object.view_fields();
        let ghost entry = (attr@, value.view_rec());
        object.fields.push(FieldTemplate::new(attr, value));
        assert(object.view_fields() =~= before.push(entry));
        let next = after + 1;
        if next < ts.len() {
            match &ts[next] {
                TokenTree::Punct(',') => {},
                _ => {
                    return Err(punctuation_failure_at(ts, next, Some(',')));
                },
            }
            pos = next + 1;
        } else {
            return Ok(object);
        }
    }
    Ok(object)
}

/// Parses a macro input: the collection name and the query object.
pub fn parse_query(ts: &Vec<TokenTree>) -> (r: Result<(String, ObjectTemplate), QueryFailure>)
    ensures
        match spec_parse_query(tokens_view(ts@)) {
            Ok(q) => r matches Ok(x) && x.0@ == q.0 && x.1.view_fields() == q.1,
            Err(f) => r matches Err(e) && e@ == f,
        },
{
    if ts.len() == 0 {
        return Err(failure_at(0, "Expected a group, but the stream ended"));
    }
    let collection = match &ts[0] {
        TokenTree::Group(d, prelude, text) => {
            proof {
                lemma_group_view(*d, *prelude, *text);
            }
            if prelude.len() == 0 {
                return Err(inside(0, failure_at(0, "Expected a literal, but the stream ended")));
            }
            let name = match &prelude[0] {
                TokenTree::Literal(l) => unquote(l.as_str()),
                _ => None,
            };
            match name {
                Some(c) => {
                    if prelude.len() > 1 {
                        let f = QueryFailure {
                            groups: Vec::new(),
                            position: 1,
                            message: eof_text(&prelude[1]),
                        };
                        assert(f@.groups =~= Seq::<int>::empty());
                        assert(f@ == query_failure(1, eof_message(tokens_view(prelude@)[1])));
                        return Err(inside(0, f));
                    }
                    c
                },
                None => {
                    let f = QueryFailure {
                        groups: Vec::new(),
                        position: 0,
                        message: string_text(&prelude[0]),
                    };
                    assert(f@.groups =~= Seq::<int>::empty());
                    assert(f@ == query_failure(0, string_message(tokens_view(prelude@)[0])));
                    return Err(inside(0, f));
                },
            }
        },
        t => {
            let f = QueryFailure { groups: Vec::new(), position: 0, message: group_text(t) };
            assert(f@.groups =~= Seq::<int>::empty());
            assert(f@ == query_failure(0, group_message(tokens_view(ts@)[0])));
            return Err(f);
        },
    };
    let fields = if ts.len() > 1 {
        match &ts[1] {
            TokenTree::Group(d, inner, text) => {
                proof {
                    lemma_group_view(*d, *inner, *text);
                }
                match parse_fields(inner, 0) {
                    Ok(o) => Ok(o),
                    Err(e) => Err(inside(1, e)),
                }
            },
            _ => parse_fields(ts, 1),
        }
    } else {
        parse_fields(ts, 1)
    };
    match fields {
        Ok(object) => Ok((collection, object)),
        Err(e) => Err(e),
    }
}

/// Parses the macro input of a query; returns the validator for the parsed data.
pub struct Interpreter {
    /// Name of the collection.
    pub collection: String,
    /// The query object.
    pub object: ObjectTemplate,
}

impl Interpreter {
    /// Constructs a new `Interpreter` holding an empty query.
    pub fn new() -> (r: Self)
        ensures
            r.collection@.len() == 0,
            r.object.fields@.len() == 0,
    {
        Self { collection: String::new(), object: ObjectTemplate::new() }
    }

    /// Parses the macro input containing the query.
    pub fn parse(self, ts: &Vec<TokenTree>) -> (r: Result<Self, QueryFailure>)
        ensures
            match spec_parse_query(tokens_view(ts@)) {
                Ok(q) => r matches Ok(x) && x.collection@ == q.0 && x.object.view_fields() == q.1,
                Err(f) => r matches Err(e) && e@ == f,
            },
    {
        match parse_query(ts) {
            Ok((collection, object)) => Ok(Self { collection, object }),
            Err(e) => Err(e),
        }
    }

    /// Returns the validator for the parsed data.
    pub fn build<'a>(self, schema: &'a Schema) -> (r: Validator<'a>)
        ensures
            r.collection == self.collection,
            r.object == self.object,
            r.schema == schema,
    {
        Validator::new(self.collection, self.object, schema)
    }
}

}
