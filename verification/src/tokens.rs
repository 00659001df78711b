//! Token trees: the input of the macros, as the compiler hands it over.

use vstd::prelude::*;

verus! {

/// Delimiter of a group of tokens.
#[derive(Clone, Copy, Debug, PartialEq, Eq)]
pub enum Delimiter {
    /// `( ... )`
    Parenthesis,
    /// `{ ... }`
    Brace,
    /// `[ ... ]`
    Bracket,
    /// A group without delimiters.
    Invisible,
}

/// A single token tree of the macro input.
#[derive(Debug)]
pub enum TokenTree {
    /// A delimited group: its delimiter, its tokens and the text of its tokens.
    Group(Delimiter, Vec<TokenTree>, String),
    /// An identifier or a keyword.
    Ident(String),
    /// A punctuation character.
    Punct(char),
    /// A literal, as written (string literals keep their quotes).
    Literal(String),
}

/// The view of a token tree.
pub enum TokenV {
    Group(Delimiter, Seq<TokenV>, Seq<char>),
    Ident(Seq<char>),
    Punct(char),
    Literal(Seq<char>),
}

impl TokenTree {
    /// The view of the token tree.
    pub open spec fn view_rec(self) -> TokenV
        decreases self,
    {
        match self {
            TokenTree::Group(d, ts, text) => TokenV::Group(
                d,
                Seq::new(
                    ts@.len(),
                    |i: int|
                        if 0 <= i < ts@.len() {
                            ts@[i].view_rec()
                        } else {
                            TokenV::Punct(' ')
                        },
                ),
                text@,
            ),
            TokenTree::Ident(s) => TokenV::Ident(s@),
            TokenTree::Punct(c) => TokenV::Punct(c),
            TokenTree::Literal(s) => TokenV::Literal(s@),
        }
    }
}

/// The view of a sequence of token trees.
pub open spec fn tokens_view(ts: Seq<TokenTree>) -> Seq<TokenV> {
    Seq::new(ts.len(), |i: int| ts[i].view_rec())
}

/// A group is viewed as the group of the views of its tokens.
pub proof fn lemma_group_view(d: Delimiter, ts: Vec<TokenTree>, text: String)
    ensures
        TokenTree::Group(d, ts, text).view_rec() == TokenV::Group(d, tokens_view(ts@), text@),
{
    assert(TokenTree::Group(d, ts, text).view_rec()->Group_1 =~= tokens_view(ts@));
}

}
