pub mod keywords;
pub mod numbers;
pub mod scanner;
pub mod spelling;
pub mod token;

pub use scanner::Lexer;
pub use token::{Token, TokenKind, TokenTag};

use vstd::prelude::*;

use crate::error::Span;
use crate::text::{is_digit, spec_parse_i64};

use self::token::{bare, keyword_tag, KindModel};

verus! {

/// A place in the source: a byte offset and the 1-based line and column
/// there.
pub struct Pos {
    pub idx: nat,
    pub line: nat,
    pub col: nat,
}

/// What scanning gives when it fails: a message and the place it points at.
pub type LexError = (Seq<char>, Span);

/// The model of a token: its kind and its place.
pub type TokenModel = (KindModel, Span);

/// Whether a place lies in the source and its line and column are no larger
/// than the offset allows; the source is shorter than the largest `usize`.
pub open spec fn pos_ok(b: Seq<u8>, p: Pos) -> bool {
    &&& b.len() < usize::MAX
    &&& p.idx <= b.len()
    &&& 1 <= p.line <= p.idx + 1
    &&& 1 <= p.col <= p.idx + 1
}

/// The place after one more byte: a newline starts the next line.
pub open spec fn step(b: Seq<u8>, p: Pos) -> Pos {
    if p.idx >= b.len() {
        p
    } else if b[p.idx as int] == 10 {
        Pos { idx: p.idx + 1, line: p.line + 1, col: 1 }
    } else {
        Pos { idx: p.idx + 1, line: p.line, col: p.col + 1 }
    }
}

/// The place `n` bytes further on the same line.
pub open spec fn along(p: Pos, n: nat) -> Pos {
    Pos { idx: p.idx + n, line: p.line, col: p.col + n }
}

/// A span at a place.
pub open spec fn span_at(p: Pos, len: nat) -> Span {
    Span { line: p.line as usize, col: p.col as usize, len: len as usize }
}

/// Whether a byte is a space, a tab, a carriage return or a newline.
pub open spec fn is_ws(c: u8) -> bool {
    c == 32 || c == 9 || c == 13 || c == 10
}

/// Whether a byte may start an identifier: an ASCII letter or `_`.
pub open spec fn is_ident_start(c: u8) -> bool {
    (65 <= c <= 90) || (97 <= c <= 122) || c == 95
}

/// Whether a byte may continue an identifier: an ASCII letter, a digit or
/// `_`.
pub open spec fn is_ident_continue(c: u8) -> bool {
    is_ident_start(c) || is_digit(c)
}

/// An ASCII upper-case letter in lower case; any other byte as it is.
pub open spec fn lower_byte(c: u8) -> u8 {
    if 65 <= c <= 90 {
        (c + 32) as u8
    } else {
        c
    }
}

/// The place after the whitespace that starts at `p`.
pub open spec fn skip_ws(b: Seq<u8>, p: Pos) -> Pos
    decreases b.len() - p.idx,
{
    if p.idx < b.len() && is_ws(b[p.idx as int]) {
        skip_ws(b, step(b, p))
    } else {
        p
    }
}

/// The place after a comment whose `{` lies before `p`: after its `}`, or
/// the end of the source when there is none, and whether it was closed.
pub open spec fn skip_comment(b: Seq<u8>, p: Pos) -> (Pos, bool)
    decreases b.len() - p.idx,
{
    if p.idx >= b.len() {
        (p, false)
    } else if b[p.idx as int] == 125 {
        (step(b, p), true)
    } else {
        skip_comment(b, step(b, p))
    }
}

/// Scanning never moves back.
pub proof fn lemma_skip_forward(b: Seq<u8>, p: Pos)
    ensures
        skip_ws(b, p).idx >= p.idx,
        skip_comment(b, p).0.idx >= p.idx,
        p.idx <= b.len() ==> skip_ws(b, p).idx <= b.len(),
        p.idx <= b.len() ==> skip_comment(b, p).0.idx <= b.len(),
    decreases b.len() - p.idx,
{
    if p.idx < b.len() {
        lemma_skip_forward(b, step(b, p));
    }
}

/// The place after the whitespace and `{ ... }` comments that start at
/// `p`; a comment left open is an error at the end of the source.
pub open spec fn skip_trivia(b: Seq<u8>, p: Pos) -> Result<Pos, LexError>
    decreases b.len() - p.idx,
{
    let q = skip_ws(b, p);
    if q.idx < b.len() && b[q.idx as int] == 123 {
        let (r, closed) = skip_comment(b, step(b, q));
        if !closed {
            Err(("unterminated comment"@, span_at(r, 1)))
        } else {
            proof {
                lemma_skip_forward(b, p);
                lemma_skip_forward(b, step(b, q));
            }
            skip_trivia(b, r)
        }
    } else {
        Ok(q)
    }
}

/// The offset where the identifier characters that start at `i` end.
pub open spec fn ident_end(b: Seq<u8>, i: nat) -> nat
    decreases b.len() - i,
{
    if i < b.len() && is_ident_continue(b[i as int]) {
        ident_end(b, i + 1)
    } else {
        i
    }
}

/// The offset where the digits that start at `i` end.
pub open spec fn digits_end(b: Seq<u8>, i: nat) -> nat
    decreases b.len() - i,
{
    if i < b.len() && is_digit(b[i as int]) {
        digits_end(b, i + 1)
    } else {
        i
    }
}

/// The text of a string literal whose opening quote lies before `i`, and
/// the offset after its closing quote; two quotes in a row stand for one.
/// `None` when a newline or the end of the source comes first.
pub open spec fn string_body(b: Seq<u8>, i: nat) -> Option<(Seq<char>, nat)>
    decreases b.len() - i,
{
    if i >= b.len() {
        None
    } else if b[i as int] == 39 {
        if i + 1 < b.len() && b[i + 1 as int] == 39 {
            match string_body(b, i + 2) {
                None => None,
                Some((s, e)) => Some((seq!['\''] + s, e)),
            }
        } else {
            Some((Seq::empty(), i + 1))
        }
    } else if b[i as int] == 10 {
        None
    } else {
        match string_body(b, i + 1) {
            None => None,
            Some((s, e)) => Some((seq![b[i as int] as char] + s, e)),
        }
    }
}

/// The runs that scanning reads end at or after where they start, and within
/// the source.
pub proof fn lemma_scan_ends(b: Seq<u8>, i: nat)
    ensures
        ident_end(b, i) >= i,
        digits_end(b, i) >= i,
        i <= b.len() ==> ident_end(b, i) <= b.len() && digits_end(b, i) <= b.len(),
        string_body(b, i) matches Some((s, e)) ==> i < e <= b.len(),
    decreases b.len() - i,
{
    if i < b.len() {
        lemma_scan_ends(b, i + 1);
        if i + 1 < b.len() {
            lemma_scan_ends(b, i + 2);
        }
    }
}

/// At the end of the source scanning gives `Eof`, with an empty span at that
/// place, and stays there: every later call gives `Eof` again.
pub proof fn lemma_end_of_input_repeats(b: Seq<u8>, p: Pos)
    requires
        p.idx >= b.len(),
    ensures
        spec_next_token(b, p) == Ok::<(TokenModel, Pos), LexError>(
            ((bare(TokenTag::Eof), span_at(p, 0)), p),
        ),
{
    assert(skip_ws(b, p) == p);
    assert(skip_trivia(b, p) == Ok::<Pos, LexError>(p));
}

/// The text of an identifier in lower case.
pub open spec fn ident_text(b: Seq<u8>, start: nat, end: nat) -> Seq<char> {
    b.subrange(start as int, end as int).map_values(|c: u8| lower_byte(c) as char)
}

/// The kind of a one-byte punctuation token, if the byte is one that
/// never starts a longer token.
pub open spec fn single_punct(c: u8) -> Option<TokenTag> {
    if c == 59 {
        Some(TokenTag::Semi)
    } else if c == 44 {
        Some(TokenTag::Comma)
    } else if c == 46 {
        Some(TokenTag::Dot)
    } else if c == 43 {
        Some(TokenTag::Plus)
    } else if c == 45 {
        Some(TokenTag::Minus)
    } else if c == 42 {
        Some(TokenTag::Star)
    } else if c == 47 {
        Some(TokenTag::Slash)
    } else if c == 40 {
        Some(TokenTag::LParen)
    } else if c == 41 {
        Some(TokenTag::RParen)
    } else if c == 91 {
        Some(TokenTag::LBracket)
    } else if c == 93 {
        Some(TokenTag::RBracket)
    } else if c == 61 {
        Some(TokenTag::Eq)
    } else {
        None
    }
}

/// The kind and length of a token starting with `:`, `<` or `>` at `i`.
pub open spec fn double_punct(b: Seq<u8>, i: nat) -> Option<(TokenTag, nat)> {
    let c = b[i as int];
    let n: u8 = if i + 1 < b.len() {
        b[i + 1 as int]
    } else {
        0
    };
    if c == 58 {
        Some(if n == 61 { (TokenTag::Assign, 2) } else { (TokenTag::Colon, 1) })
    } else if c == 60 {
        Some(
            if n == 61 {
                (TokenTag::Le, 2)
            } else if n == 62 {
                (TokenTag::Ne, 2)
            } else {
                (TokenTag::Lt, 1)
            },
        )
    } else if c == 62 {
        Some(if n == 61 { (TokenTag::Ge, 2) } else { (TokenTag::Gt, 1) })
    } else {
        None
    }
}

/// The next token from `p` and the place after it, or the error that ends
/// scanning. Whitespace and comments are skipped first; at the end of the
/// source the token is `Eof`. Identifiers are case-insensitive: they and the
/// keywords are matched in lower case.
pub open spec fn spec_next_token(b: Seq<u8>, p: Pos) -> Result<(TokenModel, Pos), LexError> {
    match skip_trivia(b, p) {
        Err(e) => Err(e),
        Ok(t) => if t.idx >= b.len() {
            Ok(((bare(TokenTag::Eof), span_at(t, 0)), t))
        } else {
            let c = b[t.idx as int];
            if c >= 128 {
                Err(("non-ASCII character is not allowed"@, span_at(t, 1)))
            } else if let Some(tag) = single_punct(c) {
                Ok(((bare(tag), span_at(t, 1)), along(t, 1)))
            } else if let Some((tag, n)) = double_punct(b, t.idx) {
                Ok(((bare(tag), span_at(t, n)), along(t, n)))
            } else if is_digit(c) {
                let e = digits_end(b, t.idx);
                match spec_parse_i64(b.subrange(t.idx as int, e as int)) {
                    None => Err(
                        ("integer literal is out of range"@, span_at(t, (e - t.idx) as nat)),
                    ),
                    Some(v) => Ok(
                        (
                            ((TokenTag::IntLit, v, Seq::<char>::empty()), span_at(t, (e - t.idx) as nat)),
                            along(t, (e - t.idx) as nat),
                        ),
                    ),
                }
            } else if is_ident_start(c) {
                let e = ident_end(b, t.idx);
                let text = ident_text(b, t.idx, e);
                let kind = match keyword_tag(text) {
                    Some(k) => bare(k),
                    None => (TokenTag::Ident, 0i64, text),
                };
                Ok(((kind, span_at(t, (e - t.idx) as nat)), along(t, (e - t.idx) as nat)))
            } else if c == 39 {
                match string_body(b, t.idx + 1) {
                    None => Err(("unterminated string literal"@, span_at(t, 1))),
                    Some((s, e)) => Ok(
                        (
                            ((TokenTag::StringLit, 0i64, s), span_at(t, (e - t.idx) as nat)),
                            along(t, (e - t.idx) as nat),
                        ),
                    ),
                }
            } else {
                Err(("unexpected character '"@ + seq![c as char] + "'"@, span_at(t, 1)))
            }
        },
    }
}

} // verus!
