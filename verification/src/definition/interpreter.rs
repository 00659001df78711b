//! Parsing the schema definitions: structures, enums and unions.

use vstd::prelude::*;

use crate::definition::validator::Validator;
use crate::definition::input::{
    Choices, ContainerTemplate, ContainerTemplateV, DefinedType, EntityTemplate, EntityTemplateV,
    EnumChoice, EnumTemplate, MemberTemplate, MemberTemplateV, StructTemplate, StructTemplateV,
    UnionChoice, UnionTemplate, enum_choice_view, union_choice_view,
};
use crate::formulation::interpreter::{literal_string, unquote};
use crate::text::{copy_string, str_eq};
use crate::tokens::{TokenTree, TokenV, lemma_group_view, tokens_view};
use crate::parser::{
    Diagnostic, Parser, eof_message, group_message, group_text, ident_message, ident_text,
    is_lone_quote, punctuation_message, punctuation_text, string_message, string_text,
};

verus! {

// -------------------------------------------------------------------------------------------------
// The grammar

/// The identifier at position `pos`, if there is one.
pub open spec fn ident_at(ts: Seq<TokenV>, pos: int) -> Option<Seq<char>> {
    if 0 <= pos < ts.len() && ts[pos] is Ident {
        Some(ts[pos]->Ident_0)
    } else {
        None
    }
}

/// The contents of the string literal at position `pos`, if there is one.
pub open spec fn string_at(ts: Seq<TokenV>, pos: int) -> Option<Seq<char>> {
    if 0 <= pos < ts.len() && ts[pos] is Literal {
        literal_string(ts[pos]->Literal_0)
    } else {
        None
    }
}

/// Whether the token at position `pos` is the given punctuation character.
pub open spec fn punct_at(ts: Seq<TokenV>, pos: int, c: char) -> bool {
    0 <= pos < ts.len() && ts[pos] == TokenV::Punct(c)
}

/// Where the reading of schema definitions stopped and why: the position of the token tree
/// among those read, inside the group at position `group` of the definitions when it is in one.
pub struct FailureV {
    pub group: Option<int>,
    pub position: int,
    pub message: Seq<char>,
}

/// A refusal at a position of the token trees being read.
pub open spec fn failure(position: int, message: Seq<char>) -> FailureV {
    FailureV { group: None, position, message }
}

/// A refusal inside the group at position `group`.
pub open spec fn in_group(group: int, f: FailureV) -> FailureV {
    FailureV { group: Some(group), position: f.position, message: f.message }
}

/// The refusal where an identifier (the given one, if any) was expected.
pub open spec fn ident_failure(ts: Seq<TokenV>, pos: int, expected: Option<Seq<char>>) -> FailureV {
    failure(
        pos,
        if 0 <= pos < ts.len() {
            ident_message(expected, ts[pos])
        } else {
            "Expected an ident, but the stream ended"@
        },
    )
}

/// The refusal where a string literal was expected.
pub open spec fn string_failure(ts: Seq<TokenV>, pos: int) -> FailureV {
    failure(
        pos,
        if 0 <= pos < ts.len() {
            string_message(ts[pos])
        } else {
            "Expected a literal, but the stream ended"@
        },
    )
}

/// The refusal where a punctuation character (the given one, if any) was expected.
pub open spec fn punctuation_failure(ts: Seq<TokenV>, pos: int, expected: Option<char>) -> FailureV {
    failure(
        pos,
        if 0 <= pos < ts.len() {
            punctuation_message(expected, ts[pos])
        } else {
            "Expected a punctuation, but the stream ended"@
        },
    )
}

/// The refusal where a group was expected.
pub open spec fn group_failure(ts: Seq<TokenV>, pos: int) -> FailureV {
    failure(
        pos,
        if 0 <= pos < ts.len() {
            group_message(ts[pos])
        } else {
            "Expected a group, but the stream ended"@
        },
    )
}

/// The database name of a member named `name` whose declaration continues at `pos`
/// (`as "name"`, or nothing), and the position after it.
pub open spec fn spec_parse_db_name(ts: Seq<TokenV>, pos: int, name: Seq<char>) -> Result<
    (Seq<char>, int),
    FailureV,
> {
    match ident_at(ts, pos) {
        Some(word) => if word == "as"@ {
            match string_at(ts, pos + 1) {
                Some(db) => Ok((db, pos + 2)),
                None => Err(string_failure(ts, pos + 1)),
            }
        } else {
            Err(ident_failure(ts, pos, Some("as"@)))
        },
        None => Ok((name, pos)),
    }
}

/// The type of a member at position `pos` (`T`, `Vec T`, `BTreeMap K T` or `HashMap K T`): its
/// container, its type name and the position after it.
pub open spec fn spec_parse_type(ts: Seq<TokenV>, pos: int) -> Result<
    (ContainerTemplateV, Seq<char>, int),
    FailureV,
> {
    match ident_at(ts, pos) {
        None => Err(ident_failure(ts, pos, None)),
        Some(word) => if word == "Vec"@ {
            match ident_at(ts, pos + 1) {
                Some(v) => Ok((ContainerTemplateV::Array, v, pos + 2)),
                None => Err(ident_failure(ts, pos + 1, None)),
            }
        } else if word == "BTreeMap"@ || word == "HashMap"@ {
            match (ident_at(ts, pos + 1), ident_at(ts, pos + 2)) {
                (Some(k), Some(v)) => Ok(
                    (
                        if word == "BTreeMap"@ {
                            ContainerTemplateV::BTreeMap(k)
                        } else {
                            ContainerTemplateV::HashMap(k)
                        },
                        v,
                        pos + 3,
                    ),
                ),
                (None, _) => Err(ident_failure(ts, pos + 1, None)),
                (Some(_), None) => Err(ident_failure(ts, pos + 2, None)),
            }
        } else {
            Ok((ContainerTemplateV::Plain, word, pos + 1))
        },
    }
}

/// A member type written `HashMap K T` reads as a `HashMap` keyed by `K` holding `T`, and one
/// written `BTreeMap K T` as a `BTreeMap` keyed by `K` holding `T`: the two keywords never give
/// the same container.
pub proof fn law_map_keywords(ts: Seq<TokenV>, pos: int, key: Seq<char>, value: Seq<char>)
    requires
        ident_at(ts, pos + 1) == Some(key),
        ident_at(ts, pos + 2) == Some(value),
    ensures
        ident_at(ts, pos) == Some("HashMap"@) ==> spec_parse_type(ts, pos) == Ok::<
            (ContainerTemplateV, Seq<char>, int),
            FailureV,
        >((ContainerTemplateV::HashMap(key), value, pos + 3)),
        ident_at(ts, pos) == Some("BTreeMap"@) ==> spec_parse_type(ts, pos) == Ok::<
            (ContainerTemplateV, Seq<char>, int),
            FailureV,
        >((ContainerTemplateV::BTreeMap(key), value, pos + 3)),
{
    reveal_strlit("HashMap");
    reveal_strlit("BTreeMap");
    reveal_strlit("Vec");
    assert("HashMap"@.len() == 7 && "BTreeMap"@.len() == 8 && "Vec"@.len() == 3);
    assert("HashMap"@ != "Vec"@ && "BTreeMap"@ != "Vec"@ && "HashMap"@ != "BTreeMap"@);
}

/// The modifiers ending a member at position `pos` (`?,` optional, `+,` indexed or any other
/// punctuation): whether it is optional, whether it is indexed, and the position after them.
pub open spec fn spec_parse_modifiers(ts: Seq<TokenV>, pos: int) -> Result<(bool, bool, int), FailureV> {
    if 0 <= pos < ts.len() && ts[pos] is Punct {
        let c = ts[pos]->Punct_0;
        if c == '?' || c == '+' {
            if punct_at(ts, pos + 1, ',') {
                Ok((c == '?', c == '+', pos + 2))
            } else {
                Err(punctuation_failure(ts, pos + 1, Some(',')))
            }
        } else {
            Ok((false, false, pos + 1))
        }
    } else {
        Err(punctuation_failure(ts, pos, None))
    }
}

/// A member declaration at position `pos` and the position after it.
pub open spec fn spec_parse_member(ts: Seq<TokenV>, pos: int) -> Result<(MemberTemplateV, int), FailureV> {
    match ident_at(ts, pos) {
        None => Err(ident_failure(ts, pos, None)),
        Some(name) => match spec_parse_db_name(ts, pos + 1, name) {
            Err(f) => Err(f),
            Ok(d) => if punct_at(ts, d.1, ':') {
                match spec_parse_type(ts, d.1 + 1) {
                    Err(f) => Err(f),
                    Ok(t) => match spec_parse_modifiers(ts, t.2) {
                        Err(f) => Err(f),
                        Ok(m) => Ok(
                            (
                                MemberTemplateV {
                                    rust_name: Some(name),
                                    db_name: Some(d.0),
                                    variant: Some(t.1),
                                    container: t.0,
                                    is_optional: m.0,
                                    is_indexed: m.1,
                                },
                                m.2,
                            ),
                        ),
                    },
                }
            } else {
                Err(punctuation_failure(ts, d.1, Some(':')))
            },
        },
    }
}

/// A parsed member ends after its start.
pub proof fn lemma_member_advances(ts: Seq<TokenV>, pos: int)
    ensures
        spec_parse_member(ts, pos) matches Ok(r) ==> pos < r.1,
{
}

/// The members declared from position `pos` on (after those in `acc`); there is at least one.
pub open spec fn spec_parse_members(ts: Seq<TokenV>, pos: int, acc: Seq<MemberTemplateV>) -> Result<
    Seq<MemberTemplateV>,
    FailureV,
>
    decreases ts.len() - pos,
{
    match spec_parse_member(ts, pos) {
        Err(f) => Err(f),
        Ok(m) => if m.1 >= ts.len() {
            Ok(acc.push(m.0))
        } else {
            proof {
                lemma_member_advances(ts, pos);
            }
            spec_parse_members(ts, m.1, acc.push(m.0))
        },
    }
}

/// The choices of an enum or a union from position `pos` on (after those in the accumulators):
/// `Name as "name"` for enums, `Name as "name": Struct` for unions, separated by commas (with an
/// optional comma at the end).
pub open spec fn spec_parse_choices(
    ts: Seq<TokenV>,
    pos: int,
    enums: Seq<(Seq<char>, Seq<char>)>,
    unions: Seq<(Seq<char>, Seq<char>, Seq<char>)>,
) -> Result<(Seq<(Seq<char>, Seq<char>)>, Seq<(Seq<char>, Seq<char>, Seq<char>)>), FailureV>
    decreases ts.len() - pos,
{
    if pos < 0 || pos >= ts.len() {
        Ok((enums, unions))
    } else {
        match ident_at(ts, pos) {
            None => Err(failure(pos, "Expected identifier"@)),
            Some(rust_name) => if ident_at(ts, pos + 1) != Some("as"@) {
                Err(ident_failure(ts, pos + 1, Some("as"@)))
            } else {
                match string_at(ts, pos + 2) {
                    None => Err(string_failure(ts, pos + 2)),
                    Some(db_name) => {
                        let is_union = punct_at(ts, pos + 3, ':');
                        let variant = ident_at(ts, pos + 4);
                        let next = if is_union {
                            pos + 5
                        } else {
                            pos + 3
                        };
                        if is_union && variant is None {
                            Err(ident_failure(ts, pos + 4, None))
                        } else {
                            let e = if is_union {
                                enums
                            } else {
                                enums.push((rust_name, db_name))
                            };
                            let u = if is_union {
                                unions.push((rust_name, db_name, variant->Some_0))
                            } else {
                                unions
                            };
                            if next >= ts.len() {
                                Ok((e, u))
                            } else if ts[next] == TokenV::Punct(',') {
                                spec_parse_choices(ts, next + 1, e, u)
                            } else {
                                Err(failure(next, "Expected ',' or end of stream"@))
                            }
                        }
                    },
                }
            },
        }
    }
}

/// A structure declared from position `pos` on (after `pub struct`): its name, an optional
/// `in "collection"` and its members in braces; and the position after it.
pub open spec fn spec_parse_struct(ts: Seq<TokenV>, pos: int) -> Result<(StructTemplateV, int), FailureV> {
    match ident_at(ts, pos) {
        None => Err(ident_failure(ts, pos, None)),
        Some(name) => {
            let has_collection = ident_at(ts, pos + 1) is Some;
            let collection = if has_collection {
                string_at(ts, pos + 2)
            } else {
                None
            };
            let group = if has_collection {
                pos + 3
            } else {
                pos + 1
            };
            if has_collection && ident_at(ts, pos + 1) != Some("in"@) {
                Err(ident_failure(ts, pos + 1, Some("in"@)))
            } else if has_collection && collection is None {
                Err(string_failure(ts, pos + 2))
            } else if 0 <= group < ts.len() && ts[group] is Group {
                match spec_parse_members(ts[group]->Group_1, 0, Seq::empty()) {
                    Err(f) => Err(in_group(group, f)),
                    Ok(members) => Ok(
                        (
                            StructTemplateV { struct_name: name, collection_name: collection, members },
                            group + 1,
                        ),
                    ),
                }
            } else {
                Err(group_failure(ts, group))
            }
        },
    }
}

/// An enum or a union declared from position `pos` on (after `pub enum`): an enum when all its
/// choices are plain, a union when all of them name a structure; and the position after it.
pub open spec fn spec_parse_enum_or_union(ts: Seq<TokenV>, pos: int) -> Result<
    (EntityTemplateV, int),
    FailureV,
> {
    match ident_at(ts, pos) {
        None => Err(ident_failure(ts, pos, None)),
        Some(name) => if 0 <= pos + 1 < ts.len() && ts[pos + 1] is Group {
            match spec_parse_choices(ts[pos + 1]->Group_1, 0, Seq::empty(), Seq::empty()) {
                Err(f) => Err(in_group(pos + 1, f)),
                Ok(c) => if c.0.len() != 0 && c.1.len() == 0 {
                    Ok((EntityTemplateV::Enum(name, c.0), pos + 2))
                } else if c.0.len() == 0 && c.1.len() != 0 {
                    Ok((EntityTemplateV::Union(name, c.1), pos + 2))
                } else if c.0.len() == 0 {
                    Err(failure(pos + 1, "The enum cannot be empty"@))
                } else {
                    Err(
                        failure(
                            pos + 1,
                            "The enum must have all entries with type or all entries without type"@,
                        ),
                    )
                },
            }
        } else {
            Err(group_failure(ts, pos + 1))
        },
    }
}

/// The entities declared from position `pos` on (after those in `acc`), each one introduced by
/// `pub struct` or `pub enum`.
pub open spec fn spec_parse_entities(ts: Seq<TokenV>, pos: int, acc: Seq<EntityTemplateV>) -> Result<
    Seq<EntityTemplateV>,
    FailureV,
>
    decreases ts.len() - pos,
{
    if pos < 0 || pos >= ts.len() {
        Ok(acc)
    } else {
        match ident_at(ts, pos) {
            None => Err(failure(pos, "Expected an ident or end of stream"@)),
            Some(first) => if first != "pub"@ {
                Err(failure(pos, "Expected ident 'pub'"@))
            } else {
                match ident_at(ts, pos + 1) {
                    None => Err(ident_failure(ts, pos + 1, None)),
                    Some(word) => if word == "struct"@ {
                        match spec_parse_struct(ts, pos + 2) {
                            Err(f) => Err(f),
                            Ok(r) => spec_parse_entities(ts, r.1, acc.push(EntityTemplateV::Struct(r.0))),
                        }
                    } else if word == "enum"@ {
                        match spec_parse_enum_or_union(ts, pos + 2) {
                            Err(f) => Err(f),
                            Ok(r) => spec_parse_entities(ts, r.1, acc.push(r.0)),
                        }
                    } else {
                        Err(failure(pos + 1, "Expected 'struct' or 'enum'"@))
                    },
                }
            },
        }
    }
}

/// The entities declared by a schema definition; it declares at least one.
pub open spec fn spec_parse_definition(ts: Seq<TokenV>) -> Option<Seq<EntityTemplateV>> {
    match spec_parse_entities(ts, 0, Seq::empty()) {
        Ok(es) => if es.len() > 0 {
            Some(es)
        } else {
            None
        },
        Err(_) => None,
    }
}


// -------------------------------------------------------------------------------------------------
// The parser

/// Returns the identifier at position `pos`, if there is one.
fn ident_at_pos(ts: &Vec<TokenTree>, pos: usize) -> (r: Option<&String>)
    ensures
        match ident_at(tokens_view(ts@), pos as int) {
            Some(s) => r matches Some(x) && x@ == s,
            None => r is None,
        },
        r is Some ==> pos < ts@.len(),
        ts@.len() <= usize::MAX,
{
    if pos < ts.len() {
        match &ts[pos] {
            TokenTree::Ident(s) => Some(s),
            _ => None,
        }
    } else {
        None
    }
}

/// Returns the contents of the string literal at position `pos`, if there is one.
fn string_at_pos(ts: &Vec<TokenTree>, pos: usize) -> (r: Option<String>)
    ensures
        match string_at(tokens_view(ts@), pos as int) {
            Some(s) => r matches Some(x) && x@ == s,
            None => r is None,
        },
        r is Some ==> pos < ts@.len(),
        ts@.len() <= usize::MAX,
{
    if pos < ts.len() {
        match &ts[pos] {
            TokenTree::Literal(l) => unquote(l.as_str()),
            _ => None,
        }
    } else {
        None
    }
}

/// Checks whether the token at position `pos` is the given punctuation character.
fn punct_at_pos(ts: &Vec<TokenTree>, pos: usize, c: char) -> (r: bool)
    ensures
        r == punct_at(tokens_view(ts@), pos as int, c),
        r ==> pos < ts@.len(),
        ts@.len() <= usize::MAX,
{
    if pos < ts.len() {
        match &ts[pos] {
            TokenTree::Punct(d) => *d == c,
            _ => false,
        }
    } else {
        false
    }
}

/// Where the reading of schema definitions stopped and why.
#[derive(Debug, PartialEq, Eq)]
pub struct ParseFailure {
    /// The position of the group of the definitions that holds the token tree refused, if one
    /// does.
    pub group: Option<usize>,
    /// How many token trees come before the one refused (in its group, if it is in one).
    pub position: usize,
    /// What was expected and what was found.
    pub message: String,
}

impl View for ParseFailure {
    type V = FailureV;

    open spec fn view(&self) -> FailureV {
        FailureV {
            group: match self.group {
                Some(g) => Some(g as int),
                None => None,
            },
            position: self.position as int,
            message: self.message@,
        }
    }
}

/// A refusal at a position, with its message.
fn failure_at(position: usize, message: &str) -> (r: ParseFailure)
    ensures
        r@ == failure(position as int, message@),
{
    ParseFailure { group: None, position, message: copy_string(message) }
}

/// The refusal moved inside the group at position `group`.
fn into_group(group: usize, f: ParseFailure) -> (r: ParseFailure)
    ensures
        r@ == in_group(group as int, f@),
{
    ParseFailure { group: Some(group), position: f.position, message: f.message }
}

/// The refusal where an identifier (the given one, if any) was expected.
fn ident_failure_at(ts: &Vec<TokenTree>, pos: usize, expected: Option<&str>) -> (r: ParseFailure)
    ensures
        r@ == ident_failure(
            tokens_view(ts@),
            pos as int,
            match expected {
                Some(e) => Some(e@),
                None => None,
            },
        ),
{
    if pos < ts.len() {
        ParseFailure { group: None, position: pos, message: ident_text(expected, &ts[pos]) }
    } else {
        failure_at(pos, "Expected an ident, but the stream ended")
    }
}

/// The refusal where a string literal was expected.
fn string_failure_at(ts: &Vec<TokenTree>, pos: usize) -> (r: ParseFailure)
    ensures
        r@ == string_failure(tokens_view(ts@), pos as int),
{
    if pos < ts.len() {
        ParseFailure { group: None, position: pos, message: string_text(&ts[pos]) }
    } else {
        failure_at(pos, "Expected a literal, but the stream ended")
    }
}

/// The refusal where a punctuation character (the given one, if any) was expected.
fn punctuation_failure_at(ts: &Vec<TokenTree>, pos: usize, expected: Option<char>) -> (r: ParseFailure)
    ensures
        r@ == punctuation_failure(tokens_view(ts@), pos as int, expected),
{
    if pos < ts.len() {
        ParseFailure { group: None, position: pos, message: punctuation_text(expected, &ts[pos]) }
    } else {
        failure_at(pos, "Expected a punctuation, but the stream ended")
    }
}

/// The refusal where a group was expected.
fn group_failure_at(ts: &Vec<TokenTree>, pos: usize) -> (r: ParseFailure)
    ensures
        r@ == group_failure(tokens_view(ts@), pos as int),
{
    if pos < ts.len() {
        ParseFailure { group: None, position: pos, message: group_text(&ts[pos]) }
    } else {
        failure_at(pos, "Expected a group, but the stream ended")
    }
}

/// Parses the database name of a member (`as "name"`, or nothing for the Rust name).
fn parse_db_name(ts: &Vec<TokenTree>, pos: usize, name: &String) -> (r: Result<(String, usize), ParseFailure>)
    requires
        pos <= ts@.len(),
    ensures
        match spec_parse_db_name(tokens_view(ts@), pos as int, name@) {
            Ok(d) => r matches Ok(x) && x.0@ == d.0 && x.1 == d.1,
            Err(f) => r matches Err(e) && e@ == f,
        },
        r matches Ok(x) ==> x.1 <= ts@.len(),
{
    match ident_at_pos(ts, pos) {
        Some(word) => {
            if str_eq(word.as_str(), "as") {
                match string_at_pos(ts, pos + 1) {
                    Some(db) => Ok((db, pos + 2)),
                    None => Err(string_failure_at(ts, pos + 1)),
                }
            } else {
                Err(ident_failure_at(ts, pos, Some("as")))
            }
        },
        None => Ok((copy_string(name.as_str()), pos)),
    }
}

/// Parses the type of a member: its container, its type name and the position after it.
fn parse_type(ts: &Vec<TokenTree>, pos: usize) -> (r: Result<(ContainerTemplate, String, usize), ParseFailure>)
    ensures
        match spec_parse_type(tokens_view(ts@), pos as int) {
            Ok(t) => r matches Ok(x) && x.0@ == t.0 && x.1@ == t.1 && x.2 == t.2,
            Err(f) => r matches Err(e) && e@ == f,
        },
{
    let word = match ident_at_pos(ts, pos) {
        Some(w) => w,
        None => {
            return Err(ident_failure_at(ts, pos, None));
        },
    };
    if str_eq(word.as_str(), "Vec") {
        match ident_at_pos(ts, pos + 1) {
            Some(v) => Ok((ContainerTemplate::Array, copy_string(v.as_str()), pos + 2)),
            None => Err(ident_failure_at(ts, pos + 1, None)),
        }
    } else if str_eq(word.as_str(), "BTreeMap") || str_eq(word.as_str(), "HashMap") {
        let key = match ident_at_pos(ts, pos + 1) {
            Some(k) => k,
            None => {
                return Err(ident_failure_at(ts, pos + 1, None));
            },
        };
        let value = match ident_at_pos(ts, pos + 2) {
            Some(v) => v,
            None => {
                return Err(ident_failure_at(ts, pos + 2, None));
            },
        };
        let container = if str_eq(word.as_str(), "BTreeMap") {
            ContainerTemplate::BTreeMap(copy_string(key.as_str()))
        } else {
            ContainerTemplate::HashMap(copy_string(key.as_str()))
        };
        Ok((container, copy_string(value.as_str()), pos + 3))
    } else {
        Ok((ContainerTemplate::Plain, copy_string(word.as_str()), pos + 1))
    }
}

/// Parses the modifiers ending a member: optional, indexed, and the position after them.
fn parse_modifiers(ts: &Vec<TokenTree>, pos: usize) -> (r: Result<(bool, bool, usize), ParseFailure>)
    ensures
        match spec_parse_modifiers(tokens_view(ts@), pos as int) {
            Ok(m) => r == Ok::<(bool, bool, usize), ParseFailure>((m.0, m.1, m.2 as usize)) && m.2
                <= ts@.len(),
            Err(f) => r matches Err(e) && e@ == f,
        },
{
    if pos >= ts.len() {
        return Err(punctuation_failure_at(ts, pos, None));
    }
    match &ts[pos] {
        TokenTree::Punct(c) => {
            if *c == '?' || *c == '+' {
                if punct_at_pos(ts, pos + 1, ',') {
                    Ok((*c == '?', *c == '+', pos + 2))
                } else {
                    Err(punctuation_failure_at(ts, pos + 1, Some(',')))
                }
            } else {
                Ok((false, false, pos + 1))
            }
        },
        _ => Err(punctuation_failure_at(ts, pos, None)),
    }
}

/// Parses a member declaration; returns it and the position after it.
fn parse_member(ts: &Vec<TokenTree>, pos: usize) -> (r: Result<(MemberTemplate, usize), ParseFailure>)
    ensures
        match spec_parse_member(tokens_view(ts@), pos as int) {
            Ok(m) => r matches Ok(x) && x.0@ == m.0 && x.1 == m.1 && m.1 <= ts@.len(),
            Err(f) => r matches Err(e) && e@ == f,
        },
{
    let name = match ident_at_pos(ts, pos) {
        Some(n) => n,
        None => {
            return Err(ident_failure_at(ts, pos, None));
        },
    };
    let (db_name, after_name) = match parse_db_name(ts, pos + 1, name) {
        Ok(d) => d,
        Err(e) => {
            return Err(e);
        },
    };
    if !punct_at_pos(ts, after_name, ':') {
        return Err(punctuation_failure_at(ts, after_name, Some(':')));
    }
    let (container, variant, after_type) = match parse_type(ts, after_name + 1) {
        Ok(t) => t,
        Err(e) => {
            return Err(e);
        },
    };
    let (is_optional, is_indexed, after) = match parse_modifiers(ts, after_type) {
        Ok(m) => m,
        Err(e) => {
            return Err(e);
        },
    };
    let member = MemberTemplate {
        rust_name: Some(copy_string(name.as_str())),
        db_name: Some(db_name),
        variant: Some(variant),
        container,
        is_optional,
        is_indexed,
    };
    Ok((member, after))
}

/// Parses the members of a structure.
fn parse_members(ts: &Vec<TokenTree>) -> (r: Result<Vec<MemberTemplate>, ParseFailure>)
    ensures
        match spec_parse_members(tokens_view(ts@), 0, Seq::empty()) {
            Ok(ms) => r matches Ok(x) && x@.map_values(|m: MemberTemplate| m@) == ms,
            Err(f) => r matches Err(e) && e@ == f,
        },
{
    let ghost tv = tokens_view(ts@);
    let mut members: Vec<MemberTemplate> = Vec::new();
    let mut pos: usize = 0;
    assert(members@.map_values(|m: MemberTemplate| m@) =~= Seq::<MemberTemplateV>::empty());
    loop
        invariant
            tv == tokens_view(ts@),
            pos <= ts@.len(),
            spec_parse_members(tv, 0, Seq::empty()) == spec_parse_members(
                tv,
                pos as int,
                members@.map_values(|m: MemberTemplate| m@),
            ),
        decreases ts@.len() - pos,
    {
        let ghost before = members@.map_values(|m: MemberTemplate| m@);
        let (member, after) = match parse_member(ts, pos) {
            Ok(m) => m,
            Err(e) => {
                return Err(e);
            },
        };
        proof {
            lemma_member_advances(tv, pos as int);
        }
        let ghost mv = member@;
        members.push(member);
        assert(members@.map_values(|m: MemberTemplate| m@) =~= before.push(mv));
        if after >= ts.len() {
            return Ok(members);
        }
        pos = after;
    }
}

/// Parses the choices of an enum or a union.
fn parse_choices(ts: &Vec<TokenTree>) -> (r: Result<Choices, ParseFailure>)
    ensures
        match spec_parse_choices(tokens_view(ts@), 0, Seq::empty(), Seq::empty()) {
            Ok(c) => r matches Ok(x) && x.enum_choices@.map_values(
                |e: EnumChoice| enum_choice_view(e),
            ) == c.0 && x.union_choices@.map_values(|u: UnionChoice| union_choice_view(u)) == c.1,
            Err(f) => r matches Err(e) && e@ == f,
        },
{
    let ghost tv = tokens_view(ts@);
    let mut choices = Choices::new();
    let mut pos: usize = 0;
    assert(choices.enum_choices@.map_values(|e: EnumChoice| enum_choice_view(e)) =~= Seq::<
        (Seq<char>, Seq<char>),
    >::empty());
    assert(choices.union_choices@.map_values(|u: UnionChoice| union_choice_view(u)) =~= Seq::<
        (Seq<char>, Seq<char>, Seq<char>),
    >::empty());
    while pos < ts.len()
        invariant
            tv == tokens_view(ts@),
            spec_parse_choices(tv, 0, Seq::empty(), Seq::empty()) == spec_parse_choices(
                tv,
                pos as int,
                choices.enum_choices@.map_values(|e: EnumChoice| enum_choice_view(e)),
                choices.union_choices@.map_values(|u: UnionChoice| union_choice_view(u)),
            ),
        decreases ts@.len() - pos,
    {
        let ghost enums = choices.enum_choices@.map_values(|e: EnumChoice| enum_choice_view(e));
        let ghost unions = choices.union_choices@.map_values(|u: UnionChoice| union_choice_view(u));
        let rust_name = match ident_at_pos(ts, pos) {
            Some(n) => copy_string(n.as_str()),
            None => {
                return Err(failure_at(pos, "Expected identifier"));
            },
        };
        let is_as = match ident_at_pos(ts, pos + 1) {
            Some(word) => str_eq(word.as_str(), "as"),
            None => false,
        };
        if !is_as {
            return Err(ident_failure_at(ts, pos + 1, Some("as")));
        }
        let db_name = match string_at_pos(ts, pos + 2) {
            Some(d) => d,
            None => {
                return Err(string_failure_at(ts, pos + 2));
            },
        };
        let next;
        if punct_at_pos(ts, pos + 3, ':') {
            let variant = match ident_at_pos(ts, pos + 4) {
                Some(v) => copy_string(v.as_str()),
                None => {
                    return Err(ident_failure_at(ts, pos + 4, None));
                },
            };
            let choice = UnionChoice::new(rust_name, db_name, DefinedType::new(variant));
            let ghost cv = union_choice_view(choice);
            choices.union_choices.push(choice);
            assert(choices.union_choices@.map_values(|u: UnionChoice| union_choice_view(u))
                =~= unions.push(cv));
            next = pos + 5;
        } else {
            let choice = EnumChoice::new(rust_name, db_name);
            let ghost cv = enum_choice_view(choice);
            choices.enum_choices.push(choice);
            assert(choices.enum_choices@.map_values(|e: EnumChoice| enum_choice_view(e)) =~= enums.push(
                cv,
            ));
            next = pos + 3;
        }
        if next >= ts.len() {
            return Ok(choices);
        }
        match &ts[next] {
            TokenTree::Punct(',') => {},
            _ => {
                return Err(failure_at(next, "Expected ',' or end of stream"));
            },
        }
        pos = next + 1;
    }
    Ok(choices)
}

/// Parses a structure (after `pub struct`); returns it and the position after it.
fn parse_struct(ts: &Vec<TokenTree>, pos: usize) -> (r: Result<(StructTemplate, usize), ParseFailure>)
    ensures
        match spec_parse_struct(tokens_view(ts@), pos as int) {
            Ok(s) => r matches Ok(x) && x.0@ == s.0 && x.1 == s.1,
            Err(f) => r matches Err(e) && e@ == f,
        },
{
    let name = match ident_at_pos(ts, pos) {
        Some(n) => copy_string(n.as_str()),
        None => {
            return Err(ident_failure_at(ts, pos, None));
        },
    };
    let mut group = pos + 1;
    let mut collection_name: Option<String> = None;
    if let Some(word) = ident_at_pos(ts, pos + 1) {
        if !str_eq(word.as_str(), "in") {
            return Err(ident_failure_at(ts, pos + 1, Some("in")));
        }
        match string_at_pos(ts, pos + 2) {
            Some(c) => {
                collection_name = Some(c);
            },
            None => {
                return Err(string_failure_at(ts, pos + 2));
            },
        }
        group = pos + 3;
    }
    if group >= ts.len() {
        return Err(group_failure_at(ts, group));
    }
    match &ts[group] {
        TokenTree::Group(d, inner, text) => {
            proof {
                lemma_group_view(*d, *inner, *text);
            }
            match parse_members(inner) {
                Ok(members) => Ok(
                    (StructTemplate { struct_name: name, collection_name, members }, group + 1),
                ),
                Err(e) => Err(into_group(group, e)),
            }
        },
        _ => Err(group_failure_at(ts, group)),
    }
}

/// Parses an enum or a union (after `pub enum`); returns it and the position after it.
fn parse_enum_or_union(ts: &Vec<TokenTree>, pos: usize) -> (r: Result<(EntityTemplate, usize), ParseFailure>)
    ensures
        match spec_parse_enum_or_union(tokens_view(ts@), pos as int) {
            Ok(e) => r matches Ok(x) && x.0@ == e.0 && x.1 == e.1,
            Err(f) => r matches Err(e) && e@ == f,
        },
{
    let name = match ident_at_pos(ts, pos) {
        Some(n) => copy_string(n.as_str()),
        None => {
            return Err(ident_failure_at(ts, pos, None));
        },
    };
    if pos + 1 >= ts.len() {
        return Err(group_failure_at(ts, pos + 1));
    }
    match &ts[pos + 1] {
        TokenTree::Group(d, inner, text) => {
            proof {
                lemma_group_view(*d, *inner, *text);
            }
            let choices = match parse_choices(inner) {
                Ok(c) => c,
                Err(e) => {
                    return Err(into_group(pos + 1, e));
                },
            };
            if choices.enum_choices.len() != 0 && choices.union_choices.len() == 0 {
                Ok((EntityTemplate::Enum(EnumTemplate::new(name, choices.enum_choices)), pos + 2))
            } else if choices.enum_choices.len() == 0 && choices.union_choices.len() != 0 {
                Ok(
                    (EntityTemplate::Union(UnionTemplate::new(name, choices.union_choices)), pos + 2),
                )
            } else if choices.enum_choices.len() == 0 {
                Err(failure_at(pos + 1, "The enum cannot be empty"))
            } else {
                Err(
                    failure_at(
                        pos + 1,
                        "The enum must have all entries with type or all entries without type",
                    ),
                )
            }
        },
        _ => Err(group_failure_at(ts, pos + 1)),
    }
}

/// Parses the entities declared by a schema definition.
pub fn parse_entities(ts: &Vec<TokenTree>) -> (r: Result<Vec<EntityTemplate>, ParseFailure>)
    ensures
        match spec_parse_entities(tokens_view(ts@), 0, Seq::empty()) {
            Ok(es) => r matches Ok(x) && x@.map_values(|e: EntityTemplate| e@) == es,
            Err(f) => r matches Err(e) && e@ == f,
        },
{
    let ghost tv = tokens_view(ts@);
    let mut entities: Vec<EntityTemplate> = Vec::new();
    let mut pos: usize = 0;
    assert(entities@.map_values(|e: EntityTemplate| e@) =~= Seq::<EntityTemplateV>::empty());
    while pos < ts.len()
        invariant
            tv == tokens_view(ts@),
            spec_parse_entities(tv, 0, Seq::empty()) == spec_parse_entities(
                tv,
                pos as int,
                entities@.map_values(|e: EntityTemplate| e@),
            ),
        decreases ts@.len() - pos,
    {
        let ghost before = entities@.map_values(|e: EntityTemplate| e@);
        match ident_at_pos(ts, pos) {
            Some(word) => {
                if !str_eq(word.as_str(), "pub") {
                    return Err(failure_at(pos, "Expected ident 'pub'"));
                }
            },
            None => {
                return Err(failure_at(pos, "Expected an ident or end of stream"));
            },
        }
        let keyword = match ident_at_pos(ts, pos + 1) {
            Some(k) => k,
            None => {
                return Err(ident_failure_at(ts, pos + 1, None));
            },
        };
        let (entity, after) = if str_eq(keyword.as_str(), "struct") {
            match parse_struct(ts, pos + 2) {
                Ok((s, after)) => (EntityTemplate::Struct(s), after),
                Err(e) => {
                    return Err(e);
                },
            }
        } else if str_eq(keyword.as_str(), "enum") {
            match parse_enum_or_union(ts, pos + 2) {
                Ok(e) => e,
                Err(e) => {
                    return Err(e);
                },
            }
        } else {
            return Err(failure_at(pos + 1, "Expected 'struct' or 'enum'"));
        };
        let ghost ev = entity@;
        entities.push(entity);
        assert(entities@.map_values(|e: EntityTemplate| e@) =~= before.push(ev));
        pos = after;
    }
    Ok(entities)
}


/// Why schema definitions were refused.
#[derive(Debug, PartialEq, Eq)]
pub enum DefinitionError {
    /// The definitions do not follow the grammar: where the reading stopped and why.
    Malformed(ParseFailure),
    /// The definitions declare nothing; the message says so.
    Empty(String),
}

/// The message for definitions that declare nothing.
pub open spec fn empty_definition_message() -> Seq<char> {
    "The specification seems to be empty"@
}

/// Parses the schema definitions; returns the validator for the parsed definitions.
pub struct Interpreter {
    /// The definitions parsed so far.
    pub entities: Vec<EntityTemplate>,
}

impl Interpreter {
    /// Constructs a new `Interpreter` without definitions.
    pub fn new() -> (r: Self)
        ensures
            r.entities@.len() == 0,
    {
        Self { entities: Vec::new() }
    }

    /// Parses schema definitions and adds them to those parsed so far; a definition that
    /// declares nothing is refused.
    pub fn parse_instruction_stream(self, ts: &Vec<TokenTree>) -> (r: Result<Self, DefinitionError>)
        ensures
            match spec_parse_definition(tokens_view(ts@)) {
                Some(es) => r matches Ok(x) && x.entities@.map_values(|e: EntityTemplate| e@)
                    == self.entities@.map_values(|e: EntityTemplate| e@) + es,
                None => match spec_parse_entities(tokens_view(ts@), 0, Seq::empty()) {
                    Ok(_) => r matches Err(DefinitionError::Empty(m)) && m@
                        == empty_definition_message(),
                    Err(f) => r matches Err(DefinitionError::Malformed(e)) && e@ == f,
                },
            },
    {
        let parsed = match parse_entities(ts) {
            Ok(p) => p,
            Err(e) => {
                return Err(DefinitionError::Malformed(e));
            },
        };
        if parsed.len() == 0 {
            return Err(DefinitionError::Empty(copy_string("The specification seems to be empty")));
        }
        let ghost before = self.entities@.map_values(|e: EntityTemplate| e@);
        let ghost added = parsed@.map_values(|e: EntityTemplate| e@);
        let mut entities = self.entities;
        let mut parsed = parsed;
        let mut i: usize = 0;
        let n = parsed.len();
        assert(entities@.map_values(|e: EntityTemplate| e@) =~= before + added.subrange(0, 0));
        while i < n
            invariant
                i <= n,
                parsed@.len() == n - i,
                added.len() == n,
                forall|j: int| 0 <= j < n - i ==> #[trigger] parsed@[j]@ == added[j + i],
                entities@.map_values(|e: EntityTemplate| e@) == before + added.subrange(0, i as int),
            decreases n - i,
        {
            let ghost old_parsed = parsed@;
            let ghost mid = entities@.map_values(|e: EntityTemplate| e@);
            let entity = parsed.remove(0);
            assert(entity@ == added[i as int]);
            entities.push(entity);
            assert(entities@.map_values(|e: EntityTemplate| e@) =~= mid.push(added[i as int]));
            assert(added.subrange(0, i + 1) =~= added.subrange(0, i as int).push(added[i as int]));
            assert forall|j: int| 0 <= j < n - (i + 1) implies #[trigger] parsed@[j]@ == added[j
                + (i + 1)] by {
                assert(parsed@[j] == old_parsed[j + 1]);
            }
            i = i + 1;
        }
        assert(added.subrange(0, n as int) =~= added);
        Ok(Self { entities })
    }

    /// Reads the name of a schema file from a stream holding exactly one string literal; the
    /// schema is then read from that file. A stream holding more is refused.
    pub fn file_name_of_stream(ts: &Vec<TokenTree>) -> (r: Result<String, Diagnostic>)
        requires
            ts@.len() > 0,
            !is_lone_quote(Some(tokens_view(ts@)[0])),
        ensures
            match string_at(tokens_view(ts@), 0) {
                Some(name) => if ts@.len() == 1 {
                    r matches Ok(x) && x@ == name
                } else {
                    r matches Err(d) && d.position == 1 && d.message@ == eof_message(
                        tokens_view(ts@)[1],
                    )
                },
                None => r matches Err(d) && d.position == 0 && d.message@ == string_message(
                    tokens_view(ts@)[0],
                ),
            },
    {
        let mut parser = Parser::new(ts);
        let name = match parser.expect_string() {
            Ok(name) => name,
            Err(d) => {
                return Err(d);
            },
        };
        match parser.expect_eof() {
            Ok(()) => Ok(name),
            Err(d) => Err(d),
        }
    }

    /// Returns the validator for the parsed definitions.
    pub fn build(self) -> (r: Validator)
        ensures
            r.entities == self.entities,
    {
        Validator::new(self.entities)
    }
}

}
