use vstd::prelude::*;

use crate::text::{owned, str_eq};

use super::token::{bare, keyword_tag, TokenKind, TokenTag};

verus! {

/// The kind of a word in lower case: its keyword, or an identifier with that
/// text.
pub fn keyword_kind(word: &str) -> (k: TokenKind)
    ensures
        k.model() == match keyword_tag(word@) {
            Some(t) => bare(t),
            None => (TokenTag::Ident, 0i64, word@),
        },
{
    if str_eq(word, "program") {
        return TokenKind::Program;
    }
    if str_eq(word, "uses") {
        return TokenKind::Uses;
    }
    if str_eq(word, "var") {
        return TokenKind::Var;
    }
    if str_eq(word, "procedure") {
        return TokenKind::Procedure;
    }
    if str_eq(word, "function") {
        return TokenKind::Function;
    }
    if str_eq(word, "begin") {
        return TokenKind::Begin;
    }
    if str_eq(word, "end") {
        return TokenKind::End;
    }
    if str_eq(word, "array") {
        return TokenKind::Array;
    }
    if str_eq(word, "of") {
        return TokenKind::Of;
    }
    if str_eq(word, "integer") {
        return TokenKind::Integer;
    }
    if str_eq(word, "boolean") {
        return TokenKind::Boolean;
    }
    if str_eq(word, "string") {
        return TokenKind::String;
    }
    if str_eq(word, "option") {
        return TokenKind::Option;
    }
    if str_eq(word, "result") {
        return TokenKind::Result;
    }
    if str_eq(word, "vector") {
        return TokenKind::Vector;
    }
    if str_eq(word, "list") {
        return TokenKind::List;
    }
    if str_eq(word, "stack") {
        return TokenKind::Stack;
    }
    if str_eq(word, "map") {
        return TokenKind::KwMap;
    }
    if str_eq(word, "set") {
        return TokenKind::KwSet;
    }
    if str_eq(word, "writeln") {
        return TokenKind::Writeln;
    }
    if str_eq(word, "readln") {
        return TokenKind::Readln;
    }
    if str_eq(word, "return") {
        return TokenKind::Return;
    }
    if str_eq(word, "if") {
        return TokenKind::If;
    }
    if str_eq(word, "then") {
        return TokenKind::Then;
    }
    if str_eq(word, "else") {
        return TokenKind::Else;
    }
    if str_eq(word, "while") {
        return TokenKind::While;
    }
    if str_eq(word, "do") {
        return TokenKind::Do;
    }
    if str_eq(word, "or") {
        return TokenKind::Or;
    }
    if str_eq(word, "and") {
        return TokenKind::And;
    }
    if str_eq(word, "not") {
        return TokenKind::Not;
    }
    if str_eq(word, "true") {
        return TokenKind::True;
    }
    if str_eq(word, "false") {
        return TokenKind::False;
    }
    TokenKind::Ident(owned(word))
}

} // verus!
