use vstd::prelude::*;

use crate::error::{CompileError, Span};
use crate::lexer::keywords::keyword_kind;
use crate::lexer::token::{Token, TokenKind};
use crate::lexer::{along, lemma_scan_ends, spec_next_token, Pos};
use crate::text::push_char;

use super::text::{is_ident_byte, is_ident_start_byte};
use super::Lexer;

verus! {

impl<'a> Lexer<'a> {
    /// A token of `len` bytes starting at the given place.
    fn token(kind: TokenKind, line: usize, col: usize, len: usize) -> (t: Token)
        ensures
            t.kind == kind,
            t.span == (Span { line, col, len }),
    {
        Token { kind, span: Span { line, col, len } }
    }

    /// Reads the next token: whitespace and comments are skipped, then one
    /// token is read; at the end of the source the token is `Eof`.
    #[verifier::rlimit(50)]
    pub fn next_token(&mut self) -> (r: Result<Token, CompileError>)
        requires
            old(self).wf(),
        ensures
            final(self).src == old(self).src,
            final(self).bytes == old(self).bytes,
            match (r, spec_next_token(old(self).bytes@, old(self).pos())) {
                (Ok(t), Ok((m, p))) => t.model() == m && final(self).pos() == p && final(self).wf(),
                (Err(e), Err((m, sp))) => e.message@ == m && e.span == Some(sp),
                _ => false,
            },
    {
        match self.skip_whitespace_and_comments() {
            Err(e) => return Err(e),
            Ok(_) => {},
        }
        let start_idx = self.idx;
        let start_line = self.line;
        let start_col = self.col;
        let ghost t = self.pos();
        let ghost b = self.bytes@;
        proof {
            lemma_scan_ends(b, t.idx);
            lemma_scan_ends(b, t.idx + 1);
        }
        if self.idx >= self.bytes.len() {
            return Ok(Lexer::token(TokenKind::Eof, start_line, start_col, 0));
        }
        let c = self.bytes[self.idx];
        if c >= 128 {
            return Err(
                CompileError::new(
                    "non-ASCII character is not allowed".to_string(),
                    Span { line: start_line, col: start_col, len: 1 },
                ),
            );
        }
        let single = if c == 59 {
            Some(TokenKind::Semi)
        } else if c == 44 {
            Some(TokenKind::Comma)
        } else if c == 46 {
            Some(TokenKind::Dot)
        } else if c == 43 {
            Some(TokenKind::Plus)
        } else if c == 45 {
            Some(TokenKind::Minus)
        } else if c == 42 {
            Some(TokenKind::Star)
        } else if c == 47 {
            Some(TokenKind::Slash)
        } else if c == 40 {
            Some(TokenKind::LParen)
        } else if c == 41 {
            Some(TokenKind::RParen)
        } else if c == 91 {
            Some(TokenKind::LBracket)
        } else if c == 93 {
            Some(TokenKind::RBracket)
        } else if c == 61 {
            Some(TokenKind::Eq)
        } else {
            None
        };
        if let Some(kind) = single {
            self.advance();
            return Ok(Lexer::token(kind, start_line, start_col, 1));
        }
        if c == 58 || c == 60 || c == 62 {
            self.advance();
            let n = self.peek();
            let kind = if c == 58 {
                if n == Some(61u8) {
                    self.advance();
                    TokenKind::Assign
                } else {
                    TokenKind::Colon
                }
            } else if c == 60 {
                if n == Some(61u8) {
                    self.advance();
                    TokenKind::Le
                } else if n == Some(62u8) {
                    self.advance();
                    TokenKind::Ne
                } else {
                    TokenKind::Lt
                }
            } else {
                if n == Some(61u8) {
                    self.advance();
                    TokenKind::Ge
                } else {
                    TokenKind::Gt
                }
            };
            return Ok(Lexer::token(kind, start_line, start_col, self.idx - start_idx));
        }
        if c >= 48 && c <= 57 {
            proof {
                vstd::utf8::encode_utf8_valid_utf8(self.src@);
                vstd::utf8::is_char_boundary_iff_not_is_continuation_byte(self.bytes@, start_idx as int);
            }
            let lit = match self.read_int_lit(start_idx, start_line, start_col) {
                Ok(v) => v,
                Err(e) => return Err(e),
            };
            return Ok(
                Lexer::token(TokenKind::IntLit(lit), start_line, start_col, self.idx - start_idx),
            );
        }
        if is_ident_start_byte(c) {
            let ident = self.read_ident();
            let kind = keyword_kind(ident.as_str());
            return Ok(Lexer::token(kind, start_line, start_col, self.idx - start_idx));
        }
        if c == 39 {
            self.advance();
            let s = match self.read_string_lit(start_line, start_col) {
                Ok(s) => s,
                Err(e) => return Err(e),
            };
            return Ok(
                Lexer::token(TokenKind::StringLit(s), start_line, start_col, self.idx - start_idx),
            );
        }
        proof {
            reveal_strlit("'");
        }
        let mut msg = "unexpected character '".to_string();
        push_char(&mut msg, c as char);
        push_char(&mut msg, '\'');
        Err(CompileError::new(msg, Span { line: start_line, col: start_col, len: 1 }))
    }
}

} // verus!
