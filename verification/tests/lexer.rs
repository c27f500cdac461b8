use cerberus::error::CompileError;
use cerberus::lexer::keywords::keyword_kind;
use cerberus::lexer::numbers::parse_int_lit;
use cerberus::lexer::{Lexer, Token, TokenKind};

fn all_tokens(src: &str) -> Result<Vec<Token>, CompileError> {
    let mut lx = Lexer::new(src);
    let mut out = Vec::new();
    loop {
        let t = lx.next_token()?;
        let done = matches!(t.kind, TokenKind::Eof);
        out.push(t);
        if done {
            return Ok(out);
        }
    }
}

fn place(t: &Token) -> (usize, usize, usize) {
    (t.span.line, t.span.col, t.span.len)
}

#[test]
fn lexes_assignment_with_spans() {
    let toks = all_tokens("x := 42;").unwrap();
    assert_eq!(toks.len(), 5);
    assert!(matches!(&toks[0].kind, TokenKind::Ident(s) if s == "x"));
    assert_eq!(place(&toks[0]), (1, 1, 1));
    assert!(matches!(toks[1].kind, TokenKind::Assign));
    assert_eq!(place(&toks[1]), (1, 3, 2));
    assert!(matches!(toks[2].kind, TokenKind::IntLit(42)));
    assert_eq!(place(&toks[2]), (1, 6, 2));
    assert!(matches!(toks[3].kind, TokenKind::Semi));
    assert_eq!(place(&toks[3]), (1, 8, 1));
    assert!(matches!(toks[4].kind, TokenKind::Eof));
    assert_eq!(place(&toks[4]), (1, 9, 0));
}

#[test]
fn keywords_and_identifiers_ignore_case() {
    let toks = all_tokens("BEGIN Foo_1 eNd").unwrap();
    assert!(matches!(toks[0].kind, TokenKind::Begin));
    assert!(matches!(&toks[1].kind, TokenKind::Ident(s) if s == "foo_1"));
    assert_eq!(place(&toks[1]), (1, 7, 5));
    assert!(matches!(toks[2].kind, TokenKind::End));
}

#[test]
fn two_character_operators() {
    let toks = all_tokens("<= <> < >= > = :").unwrap();
    assert!(matches!(toks[0].kind, TokenKind::Le));
    assert!(matches!(toks[1].kind, TokenKind::Ne));
    assert!(matches!(toks[2].kind, TokenKind::Lt));
    assert!(matches!(toks[3].kind, TokenKind::Ge));
    assert!(matches!(toks[4].kind, TokenKind::Gt));
    assert!(matches!(toks[5].kind, TokenKind::Eq));
    assert!(matches!(toks[6].kind, TokenKind::Colon));
    assert!(matches!(toks[7].kind, TokenKind::Eof));
}

#[test]
fn comments_and_newlines_move_the_position() {
    let toks = all_tokens("{ note }\n  begin").unwrap();
    assert!(matches!(toks[0].kind, TokenKind::Begin));
    assert_eq!(place(&toks[0]), (2, 3, 5));
}

#[test]
fn string_literal_with_doubled_quote() {
    let toks = all_tokens("'it''s'").unwrap();
    assert!(matches!(&toks[0].kind, TokenKind::StringLit(s) if s == "it's"));
    assert_eq!(place(&toks[0]), (1, 1, 7));
}

#[test]
fn unterminated_string_is_an_error() {
    let e = all_tokens("  'abc").unwrap_err();
    assert_eq!(e.message, "unterminated string literal");
    let sp = e.span.unwrap();
    assert_eq!((sp.line, sp.col, sp.len), (1, 3, 1));
}

#[test]
fn string_broken_by_newline_is_an_error() {
    let e = all_tokens("'ab\ncd'").unwrap_err();
    assert_eq!(e.message, "unterminated string literal");
}

#[test]
fn unterminated_comment_is_an_error() {
    let e = all_tokens("{ abc").unwrap_err();
    assert_eq!(e.message, "unterminated comment");
    let sp = e.span.unwrap();
    assert_eq!((sp.line, sp.col, sp.len), (1, 6, 1));
}

#[test]
fn integer_out_of_range_is_an_error() {
    let e = all_tokens("99999999999999999999").unwrap_err();
    assert_eq!(e.message, "integer literal is out of range");
    let sp = e.span.unwrap();
    assert_eq!((sp.line, sp.col, sp.len), (1, 1, 20));
}

#[test]
fn largest_integer_is_accepted() {
    let toks = all_tokens("9223372036854775807").unwrap();
    assert!(matches!(toks[0].kind, TokenKind::IntLit(9223372036854775807)));
}

#[test]
fn unexpected_character_is_an_error() {
    let e = all_tokens("x @").unwrap_err();
    assert_eq!(e.message, "unexpected character '@'");
    let sp = e.span.unwrap();
    assert_eq!((sp.line, sp.col, sp.len), (1, 3, 1));
}

#[test]
fn non_ascii_is_an_error() {
    let e = all_tokens("é").unwrap_err();
    assert_eq!(e.message, "non-ASCII character is not allowed");
}

#[test]
fn end_of_input_repeats() {
    let mut lx = Lexer::new("");
    assert!(matches!(lx.next_token().unwrap().kind, TokenKind::Eof));
    assert!(matches!(lx.next_token().unwrap().kind, TokenKind::Eof));
}

#[test]
fn parse_int_lit_reads_a_range() {
    assert_eq!(parse_int_lit("a12345", 2, 5, 1, 3).unwrap(), 234);
    let e = parse_int_lit("18446744073709551616", 0, 20, 4, 7).unwrap_err();
    assert_eq!(e.message, "integer literal is out of range");
    let sp = e.span.unwrap();
    assert_eq!((sp.line, sp.col, sp.len), (4, 7, 20));
}

#[test]
fn keyword_kind_of_words() {
    assert!(matches!(keyword_kind("while"), TokenKind::While));
    assert!(matches!(keyword_kind("map"), TokenKind::KwMap));
    assert!(matches!(keyword_kind("set"), TokenKind::KwSet));
    assert!(matches!(keyword_kind("true"), TokenKind::True));
    assert!(matches!(keyword_kind("whilst"), TokenKind::Ident(ref s) if s == "whilst"));
}

#[test]
fn end_of_input_repeats_at_the_same_place() {
    let mut lx = Lexer::new("x\n");
    assert!(matches!(lx.next_token().unwrap().kind, TokenKind::Ident(_)));
    let a = lx.next_token().unwrap();
    let b = lx.next_token().unwrap();
    assert!(matches!(a.kind, TokenKind::Eof));
    assert!(matches!(b.kind, TokenKind::Eof));
    assert_eq!(place(&a), (2, 1, 0));
    assert_eq!(place(&b), (2, 1, 0));
}
