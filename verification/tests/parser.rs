//! Reading token trees one at a time.

use huus::parser::{Diagnostic, ExpectedTokenTree, Parser};
use huus::tokens::{Delimiter, TokenTree};

fn ident(s: &str) -> TokenTree {
    TokenTree::Ident(s.to_string())
}

fn literal(s: &str) -> TokenTree {
    TokenTree::Literal(s.to_string())
}

#[test]
fn reads_tokens_in_order() {
    let inner = vec![ident("x"), TokenTree::Punct(':'), ident("i32")];
    let tokens = vec![
        ident("pub"),
        TokenTree::Punct(':'),
        TokenTree::Group(Delimiter::Brace, inner, "x : i32".to_string()),
        literal("\"abc\""),
        literal("42"),
    ];
    let mut parser = Parser::new(&tokens);
    assert!(parser.is_ident());
    assert!(!parser.is_group());
    assert_eq!(parser.expect_ident(Some("pub")), Ok("pub".to_string()));
    assert_eq!(parser.expect_punctuation(Some(':')), Ok(':'));
    assert!(parser.is_group());
    let (delimiter, group) = parser.expect_group().unwrap();
    assert_eq!(delimiter, Delimiter::Brace);
    assert_eq!(group.len(), 3);
    assert!(parser.is_literal());
    assert_eq!(parser.expect_string(), Ok("abc".to_string()));
    assert!(matches!(parser.expect(), ExpectedTokenTree::Value(v) if v == "42"));
    assert!(parser.is_end());
    assert_eq!(parser.expect_eof(), Ok(()));
    assert!(matches!(parser.expect(), ExpectedTokenTree::EndOfStream));
}

fn diagnostic(position: usize, message: &str) -> Diagnostic {
    Diagnostic { position, message: message.to_string() }
}

#[test]
fn refuses_unexpected_tokens() {
    let tokens = vec![ident("struct"), ident("enum"), TokenTree::Punct(';'), literal("7"), ident("x")];
    let mut parser = Parser::new(&tokens);
    assert_eq!(
        parser.expect_ident(Some("pub")),
        Err(diagnostic(0, "Expected ident 'pub', found 'struct'"))
    );
    assert_eq!(
        parser.expect_punctuation(None),
        Err(diagnostic(1, "Expected a punctuation, found an ident"))
    );
    assert_eq!(
        parser.expect_punctuation(Some(':')),
        Err(diagnostic(2, "Expected punctuation ':', found ';'"))
    );
    assert_eq!(parser.expect_string(), Err(diagnostic(3, "Expected a literal string")));
    assert_eq!(parser.expect_eof(), Err(diagnostic(4, "Expected end of the macro, found an ident")));
    assert!(parser.is_end());
}

#[test]
fn refusals_name_what_was_found() {
    let tokens = vec![
        TokenTree::Group(Delimiter::Parenthesis, Vec::new(), String::new()),
        literal("\"a\""),
        TokenTree::Punct(','),
        ident("x"),
        literal("1"),
        TokenTree::Group(Delimiter::Brace, Vec::new(), String::new()),
    ];
    let mut parser = Parser::new(&tokens);
    assert_eq!(parser.expect_ident(None), Err(diagnostic(0, "Expected an ident, found a group")));
    assert_eq!(parser.expect_group().err(), Some(diagnostic(1, "Expected a group, found a literal")));
    assert_eq!(parser.expect_string(), Err(diagnostic(2, "Expected a literal, found a punctuation")));
    assert_eq!(parser.expect_punctuation(Some(';')), Err(diagnostic(3, "Expected a punctuation, found an ident")));
    assert_eq!(parser.expect_ident(Some("y")), Err(diagnostic(4, "Expected an ident, found a literal")));
    assert_eq!(parser.expect_eof(), Err(diagnostic(5, "Expected end of the macro, found a group")));
    assert_eq!(parser.expect_eof(), Ok(()));
}

#[test]
fn literals_are_strings_when_quoted() {
    assert!(matches!(ExpectedTokenTree::from_literal("\"abc\""), ExpectedTokenTree::String(s) if s == "abc"));
    assert!(matches!(ExpectedTokenTree::from_literal("\"\""), ExpectedTokenTree::String(s) if s.is_empty()));
    assert!(matches!(ExpectedTokenTree::from_literal("3.14"), ExpectedTokenTree::Value(s) if s == "3.14"));
    let punct = TokenTree::Punct('.');
    assert!(ExpectedTokenTree::from_token_tree(Some(&punct)).is_punct('.'));
    assert!(!ExpectedTokenTree::from_token_tree(Some(&punct)).is_punct(','));
    assert!(matches!(ExpectedTokenTree::from_token_tree(None), ExpectedTokenTree::EndOfStream));
}
