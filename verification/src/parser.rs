//! A cursor over the token trees of a macro input, reading them one at a time.

use vstd::prelude::*;

use crate::formulation::interpreter::{literal_string, unquote};
use crate::text::{concat, copy_string, push_char};
use crate::tokens::{Delimiter, TokenTree, TokenV, lemma_group_view, tokens_view};

verus! {

/// What the next token tree turned out to be.
#[derive(Debug)]
pub enum ExpectedTokenTree<'a> {
    /// A delimited group: its delimiter and its tokens.
    Group(Delimiter, &'a Vec<TokenTree>),
    /// An identifier or a keyword.
    Ident(String),
    /// A punctuation character.
    Punct(char),
    /// A string literal, without its quotes.
    String(String),
    /// Any other literal, as written.
    Value(String),
    /// There is no token left.
    EndOfStream,
}

/// The view of what the next token tree turned out to be.
pub enum ExpectedV {
    Group(Delimiter, Seq<TokenV>),
    Ident(Seq<char>),
    Punct(char),
    String(Seq<char>),
    Value(Seq<char>),
    EndOfStream,
}

impl<'a> View for ExpectedTokenTree<'a> {
    type V = ExpectedV;

    open spec fn view(&self) -> ExpectedV {
        match self {
            ExpectedTokenTree::Group(d, ts) => ExpectedV::Group(*d, tokens_view(ts@)),
            ExpectedTokenTree::Ident(s) => ExpectedV::Ident(s@),
            ExpectedTokenTree::Punct(c) => ExpectedV::Punct(*c),
            ExpectedTokenTree::String(s) => ExpectedV::String(s@),
            ExpectedTokenTree::Value(s) => ExpectedV::Value(s@),
            ExpectedTokenTree::EndOfStream => ExpectedV::EndOfStream,
        }
    }
}

/// A literal is a string when it is quoted; otherwise it is another value.
pub open spec fn literal_expected(l: Seq<char>) -> ExpectedV {
    match literal_string(l) {
        Some(s) => ExpectedV::String(s),
        None => ExpectedV::Value(l),
    }
}

/// What a token tree (or the end of the stream) turns out to be.
pub open spec fn expected_of(t: Option<TokenV>) -> ExpectedV {
    match t {
        Some(TokenV::Group(d, ts, _)) => ExpectedV::Group(d, ts),
        Some(TokenV::Ident(s)) => ExpectedV::Ident(s),
        Some(TokenV::Punct(c)) => ExpectedV::Punct(c),
        Some(TokenV::Literal(l)) => literal_expected(l),
        None => ExpectedV::EndOfStream,
    }
}

/// A literal made of a single quote: it starts and ends with a quote and holds nothing between.
pub open spec fn is_lone_quote(t: Option<TokenV>) -> bool {
    t == Some(TokenV::Literal(seq!['"']))
}

impl<'a> ExpectedTokenTree<'a> {
    /// What a token tree (or the end of the stream) turns out to be.
    pub fn from_token_tree(token_tree: Option<&'a TokenTree>) -> (r: Self)
        requires
            !is_lone_quote(
                match token_tree {
                    Some(t) => Some(t.view_rec()),
                    None => None,
                },
            ),
        ensures
            r@ == expected_of(
                match token_tree {
                    Some(t) => Some(t.view_rec()),
                    None => None,
                },
            ),
    {
        match token_tree {
            Some(TokenTree::Group(d, ts, text)) => {
                proof {
                    lemma_group_view(*d, *ts, *text);
                }
                ExpectedTokenTree::Group(*d, ts)
            },
            Some(TokenTree::Ident(s)) => ExpectedTokenTree::Ident(copy_string(s.as_str())),
            Some(TokenTree::Punct(c)) => ExpectedTokenTree::Punct(*c),
            Some(TokenTree::Literal(l)) => Self::from_literal(l.as_str()),
            None => ExpectedTokenTree::EndOfStream,
        }
    }

    /// A literal is a string when it is quoted (the quotes are dropped); otherwise it is another
    /// value.
    pub fn from_literal(literal: &str) -> (r: Self)
        requires
            literal@ != seq!['"'],
        ensures
            r@ == literal_expected(literal@),
    {
        match unquote(literal) {
            Some(s) => ExpectedTokenTree::String(s),
            None => ExpectedTokenTree::Value(copy_string(literal)),
        }
    }

    /// Whether it is the given punctuation character.
    pub fn is_punct(&self, c1: char) -> (r: bool)
        ensures
            r == (self@ == ExpectedV::Punct(c1)),
    {
        match self {
            ExpectedTokenTree::Punct(c2) => c1 == *c2,
            _ => false,
        }
    }
}

/// A refusal of the input: the position of the token tree it concerns, among those the cursor
/// reads, and what was expected and found there.
#[derive(Debug, PartialEq, Eq)]
pub struct Diagnostic {
    /// How many token trees come before the one refused.
    pub position: usize,
    /// What was expected and what was found.
    pub message: String,
}

/// How a token tree is named in messages.
pub open spec fn token_kind(t: TokenV) -> Seq<char> {
    match t {
        TokenV::Group(_, _, _) => "a group"@,
        TokenV::Ident(_) => "an ident"@,
        TokenV::Punct(_) => "a punctuation"@,
        TokenV::Literal(_) => "a literal"@,
    }
}

/// The message when a group was expected.
pub open spec fn group_message(t: TokenV) -> Seq<char> {
    "Expected a group, found "@ + token_kind(t)
}

/// The message when an identifier (the given one, if any) was expected.
pub open spec fn ident_message(expected: Option<Seq<char>>, t: TokenV) -> Seq<char> {
    match (expected, t) {
        (Some(e), TokenV::Ident(s)) => "Expected ident '"@ + e + "', found '"@ + s + "'"@,
        _ => "Expected an ident, found "@ + token_kind(t),
    }
}

/// The message when a punctuation character (the given one, if any) was expected.
pub open spec fn punctuation_message(expected: Option<char>, t: TokenV) -> Seq<char> {
    match (expected, t) {
        (Some(e), TokenV::Punct(c)) => "Expected punctuation '"@ + seq![e] + "', found '"@ + seq![c]
            + "'"@,
        _ => "Expected a punctuation, found "@ + token_kind(t),
    }
}

/// The message when a string literal was expected.
pub open spec fn string_message(t: TokenV) -> Seq<char> {
    match t {
        TokenV::Literal(_) => "Expected a literal string"@,
        _ => "Expected a literal, found "@ + token_kind(t),
    }
}

/// The message when the end of the input was expected.
pub open spec fn eof_message(t: TokenV) -> Seq<char> {
    "Expected end of the macro, found "@ + token_kind(t)
}

/// How a token tree is named in messages.
fn kind_text(t: &TokenTree) -> (r: &'static str)
    ensures
        r@ == token_kind(t.view_rec()),
{
    match t {
        TokenTree::Group(_, _, _) => "a group",
        TokenTree::Ident(_) => "an ident",
        TokenTree::Punct(_) => "a punctuation",
        TokenTree::Literal(_) => "a literal",
    }
}

/// The text of a message that names what was found after what was expected.
fn found_message(expected: &str, t: &TokenTree) -> (r: String)
    ensures
        r@ == expected@ + token_kind(t.view_rec()),
{
    concat(expected, kind_text(t))
}

/// The message when an identifier (the given one, if any) was expected and the token tree was
/// found.
pub(crate) fn ident_text(expected: Option<&str>, t: &TokenTree) -> (r: String)
    ensures
        r@ == ident_message(
            match expected {
                Some(e) => Some(e@),
                None => None,
            },
            t.view_rec(),
        ),
{
    match (expected, t) {
        (Some(e), TokenTree::Ident(found)) => {
            let start = concat("Expected ident '", e);
            let middle = concat(start.as_str(), "', found '");
            let text = concat(middle.as_str(), found.as_str());
            concat(text.as_str(), "'")
        },
        _ => found_message("Expected an ident, found ", t),
    }
}

/// The message when a punctuation character (the given one, if any) was expected and the token
/// tree was found.
pub(crate) fn punctuation_text(expected: Option<char>, t: &TokenTree) -> (r: String)
    ensures
        r@ == punctuation_message(expected, t.view_rec()),
{
    match (expected, t) {
        (Some(e), TokenTree::Punct(found)) => {
            let mut text = copy_string("Expected punctuation '");
            push_char(&mut text, e);
            let mut text = concat(text.as_str(), "', found '");
            push_char(&mut text, *found);
            push_char(&mut text, '\'');
            proof {
                reveal_strlit("'");
                assert(text@ =~= punctuation_message(expected, t.view_rec()));
            }
            text
        },
        _ => found_message("Expected a punctuation, found ", t),
    }
}

/// The message when a string literal was expected and the token tree was found.
pub(crate) fn string_text(t: &TokenTree) -> (r: String)
    ensures
        r@ == string_message(t.view_rec()),
{
    match t {
        TokenTree::Literal(_) => copy_string("Expected a literal string"),
        _ => found_message("Expected a literal, found ", t),
    }
}

/// The message when the end of the input was expected and the token tree was found.
pub(crate) fn eof_text(t: &TokenTree) -> (r: String)
    ensures
        r@ == eof_message(t.view_rec()),
{
    found_message("Expected end of the macro, found ", t)
}

/// The message when a group was expected and the token tree was found.
pub(crate) fn group_text(t: &TokenTree) -> (r: String)
    ensures
        r@ == group_message(t.view_rec()),
{
    found_message("Expected a group, found ", t)
}

/// A cursor over token trees: the trees and the position of the next one.
#[derive(Debug)]
pub struct Parser<'a> {
    tokens: &'a Vec<TokenTree>,
    pos: usize,
}

impl<'a> Parser<'a> {
    /// The token trees read by the cursor.
    pub closed spec fn tokens(&self) -> Seq<TokenV> {
        tokens_view(self.tokens@)
    }

    /// How many token trees were read.
    pub closed spec fn position(&self) -> int {
        self.pos as int
    }

    /// The position is within the token trees.
    pub closed spec fn wf(&self) -> bool {
        self.pos <= self.tokens@.len()
    }

    /// The next token tree, if any is left.
    pub open spec fn next(&self) -> Option<TokenV> {
        if 0 <= self.position() < self.tokens().len() {
            Some(self.tokens()[self.position()])
        } else {
            None
        }
    }

    /// The cursor after reading one token tree: it moves past it, unless none was left.
    pub open spec fn advanced(&self, after: &Self) -> bool {
        &&& after.wf()
        &&& after.tokens() == self.tokens()
        &&& after.position() == if self.next() is Some {
            self.position() + 1
        } else {
            self.position()
        }
    }

    /// A cursor before the first of the token trees.
    pub fn new(tokens: &'a Vec<TokenTree>) -> (r: Self)
        ensures
            r.wf(),
            r.tokens() == tokens_view(tokens@),
            r.position() == 0,
    {
        Self { tokens, pos: 0 }
    }

    /// Moves past the next token tree and returns it, if any was left.
    fn take(&mut self) -> (r: Option<&'a TokenTree>)
        requires
            old(self).wf(),
        ensures
            old(self).advanced(&*final(self)),
            match r {
                Some(t) => old(self).next() == Some(t.view_rec()),
                None => old(self).next() is None,
            },
    {
        if self.pos < self.tokens.len() {
            let t = &self.tokens[self.pos];
            self.pos = self.pos + 1;
            Some(t)
        } else {
            None
        }
    }

    /// Whether no token tree is left.
    pub fn is_end(&self) -> (r: bool)
        requires
            self.wf(),
        ensures
            r == (self.next() is None),
    {
        self.pos >= self.tokens.len()
    }

    /// Whether the next token tree is an identifier.
    pub fn is_ident(&self) -> (r: bool)
        requires
            self.wf(),
        ensures
            r == (self.next() matches Some(TokenV::Ident(_))),
    {
        self.pos < self.tokens.len() && match &self.tokens[self.pos] {
            TokenTree::Ident(_) => true,
            _ => false,
        }
    }

    /// Whether the next token tree is a group.
    pub fn is_group(&self) -> (r: bool)
        requires
            self.wf(),
        ensures
            r == (self.next() matches Some(TokenV::Group(_, _, _))),
    {
        self.pos < self.tokens.len() && match &self.tokens[self.pos] {
            TokenTree::Group(_, _, _) => true,
            _ => false,
        }
    }

    /// Whether the next token tree is a literal.
    pub fn is_literal(&self) -> (r: bool)
        requires
            self.wf(),
        ensures
            r == (self.next() matches Some(TokenV::Literal(_))),
    {
        self.pos < self.tokens.len() && match &self.tokens[self.pos] {
            TokenTree::Literal(_) => true,
            _ => false,
        }
    }

    /// Reads a group: its delimiter and its tokens. Anything else is refused.
    pub fn expect_group(&mut self) -> (r: Result<(Delimiter, &'a Vec<TokenTree>), Diagnostic>)
        requires
            old(self).wf(),
            old(self).next() is Some,
        ensures
            old(self).advanced(&*final(self)),
            match old(self).next() {
                Some(TokenV::Group(d, ts, _)) => r matches Ok(g) && g.0 == d && tokens_view(g.1@) == ts,
                Some(t) => r matches Err(e) && e.position == old(self).position() && e.message@
                    == group_message(t),
                None => false,
            },
    {
        let position = self.pos;
        match self.take() {
            Some(TokenTree::Group(d, ts, text)) => {
                proof {
                    lemma_group_view(*d, *ts, *text);
                }
                Ok((*d, ts))
            },
            Some(t) => Err(Diagnostic { position, message: group_text(t) }),
            None => Err(Diagnostic { position, message: String::new() }),
        }
    }

    /// Reads an identifier, the given one if one is given. Anything else is refused.
    pub fn expect_ident(&mut self, expected: Option<&str>) -> (r: Result<String, Diagnostic>)
        requires
            old(self).wf(),
            old(self).next() is Some,
        ensures
            old(self).advanced(&*final(self)),
            match old(self).next() {
                Some(TokenV::Ident(s)) => match expected {
                    Some(e) => if e@ == s {
                        r matches Ok(x) && x@ == s
                    } else {
                        r matches Err(d) && d.position == old(self).position() && d.message@
                            == ident_message(Some(e@), TokenV::Ident(s))
                    },
                    None => r matches Ok(x) && x@ == s,
                },
                Some(t) => r matches Err(d) && d.position == old(self).position() && d.message@
                    == ident_message(
                    match expected {
                        Some(e) => Some(e@),
                        None => None,
                    },
                    t,
                ),
                None => false,
            },
    {
        let position = self.pos;
        match self.take() {
            Some(t) => match t {
                TokenTree::Ident(found) => match expected {
                    Some(e) => if crate::text::str_eq(e, found.as_str()) {
                        Ok(copy_string(found.as_str()))
                    } else {
                        Err(Diagnostic { position, message: ident_text(expected, t) })
                    },
                    None => Ok(copy_string(found.as_str())),
                },
                _ => Err(Diagnostic { position, message: ident_text(expected, t) }),
            },
            None => Err(Diagnostic { position, message: String::new() }),
        }
    }

    /// Reads a punctuation character, the given one if one is given. Anything else is refused.
    pub fn expect_punctuation(&mut self, expected: Option<char>) -> (r: Result<char, Diagnostic>)
        requires
            old(self).wf(),
            old(self).next() is Some,
        ensures
            old(self).advanced(&*final(self)),
            match old(self).next() {
                Some(TokenV::Punct(c)) => match expected {
                    Some(e) => if e == c {
                        r == Ok::<char, Diagnostic>(c)
                    } else {
                        r matches Err(d) && d.position == old(self).position() && d.message@
                            == punctuation_message(expected, TokenV::Punct(c))
                    },
                    None => r == Ok::<char, Diagnostic>(c),
                },
                Some(t) => r matches Err(d) && d.position == old(self).position() && d.message@
                    == punctuation_message(expected, t),
                None => false,
            },
    {
        let position = self.pos;
        match self.take() {
            Some(t) => match t {
                TokenTree::Punct(found) => match expected {
                    Some(e) => if e == *found {
                        Ok(*found)
                    } else {
                        Err(Diagnostic { position, message: punctuation_text(expected, t) })
                    },
                    None => Ok(*found),
                },
                _ => Err(Diagnostic { position, message: punctuation_text(expected, t) }),
            },
            None => Err(Diagnostic { position, message: String::new() }),
        }
    }

    /// Reads a string literal and returns its text without the quotes. Anything else is refused.
    pub fn expect_string(&mut self) -> (r: Result<String, Diagnostic>)
        requires
            old(self).wf(),
            old(self).next() is Some,
            !is_lone_quote(old(self).next()),
        ensures
            old(self).advanced(&*final(self)),
            match old(self).next() {
                Some(TokenV::Literal(l)) => match literal_string(l) {
                    Some(s) => r matches Ok(x) && x@ == s,
                    None => r matches Err(d) && d.position == old(self).position() && d.message@
                        == string_message(TokenV::Literal(l)),
                },
                Some(t) => r matches Err(d) && d.position == old(self).position() && d.message@
                    == string_message(t),
                None => false,
            },
    {
        let position = self.pos;
        match self.take() {
            Some(TokenTree::Literal(l)) => match ExpectedTokenTree::from_literal(l.as_str()) {
                ExpectedTokenTree::String(s) => Ok(s),
                _ => Err(Diagnostic { position, message: copy_string("Expected a literal string") }),
            },
            Some(t) => Err(Diagnostic { position, message: string_text(t) }),
            None => Err(Diagnostic { position, message: String::new() }),
        }
    }

    /// Checks that no token tree is left.
    pub fn expect_eof(&mut self) -> (r: Result<(), Diagnostic>)
        requires
            old(self).wf(),
        ensures
            old(self).advanced(&*final(self)),
            match old(self).next() {
                Some(t) => r matches Err(d) && d.position == old(self).position() && d.message@
                    == eof_message(t),
                None => r is Ok,
            },
    {
        let position = self.pos;
        match self.take() {
            Some(t) => Err(Diagnostic { position, message: eof_text(t) }),
            None => Ok(()),
        }
    }

    /// Reads the next token tree, whatever it is.
    pub fn expect(&mut self) -> (r: ExpectedTokenTree<'a>)
        requires
            old(self).wf(),
            !is_lone_quote(old(self).next()),
        ensures
            old(self).advanced(&*final(self)),
            r@ == expected_of(old(self).next()),
    {
        let t = self.take();
        ExpectedTokenTree::from_token_tree(t)
    }
}

}
