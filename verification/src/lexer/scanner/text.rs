use vstd::prelude::*;

use crate::error::{CompileError, Span};
use crate::lexer::numbers::{lemma_ascii_run_boundary, parse_int_lit};
use vstd::utf8::{encode_utf8_valid_utf8, is_char_boundary};
use crate::lexer::{along, digits_end, ident_end, ident_text, is_ident_continue, lower_byte, step, string_body, Pos};
use crate::text::{is_digit, push_char, spec_parse_i64};

use super::Lexer;

verus! {

/// An ASCII upper-case letter in lower case; any other byte as it is.
fn lower(c: u8) -> (r: u8)
    ensures
        r == lower_byte(c),
{
    if c >= 65 && c <= 90 {
        c + 32
    } else {
        c
    }
}

/// The bytes that a run of digits passes over are ASCII.
proof fn lemma_scan_digits(b: Seq<u8>, first: nat, end: nat)
    requires
        first <= end <= b.len(),
        digits_end(b, first) == digits_end(b, end),
        end == b.len() || !is_digit(b[end as int]),
    ensures
        forall|i: int| first <= i < end ==> #[trigger] b[i] < 128,
    decreases end - first,
{
    if first < end {
        assert(is_digit(b[first as int])) by {
            if !is_digit(b[first as int]) {
                crate::lexer::lemma_scan_ends(b, end);
            }
        }
        lemma_scan_digits(b, first + 1, end);
    }
}

impl<'a> Lexer<'a> {
    /// The byte at the current offset, if any.
    pub fn peek(&self) -> (r: Option<u8>)
        ensures
            r == (if self.idx < self.bytes@.len() {
                Some(self.bytes@[self.idx as int])
            } else {
                None::<u8>
            }),
    {
        if self.idx < self.bytes.len() {
            Some(self.bytes[self.idx])
        } else {
            None
        }
    }

    /// Moves one byte on; a newline starts the next line.
    pub fn advance(&mut self)
        requires
            old(self).wf(),
        ensures
            final(self).wf(),
            final(self).pos() == step(old(self).bytes@, old(self).pos()),
            final(self).src == old(self).src,
            final(self).bytes == old(self).bytes,
    {
        if self.idx >= self.bytes.len() {
            return;
        }
        let c = self.bytes[self.idx];
        self.idx = self.idx + 1;
        if c == 10 {
            self.line = self.line + 1;
            self.col = 1;
        } else {
            self.col = self.col + 1;
        }
    }

    /// Reads the identifier at the current offset, in lower case.
    pub fn read_ident(&mut self) -> (s: String)
        requires
            old(self).wf(),
        ensures
            final(self).wf(),
            final(self).src == old(self).src,
            final(self).bytes == old(self).bytes,
            ({
                let e = ident_end(old(self).bytes@, old(self).idx as nat);
                &&& s@ == ident_text(old(self).bytes@, old(self).idx as nat, e)
                &&& final(self).pos() == along(old(self).pos(), (e - old(self).idx) as nat)
            }),
    {
        let ghost b = self.bytes@;
        let ghost p0 = self.pos();
        let start = self.idx;
        let mut out = String::new();
        assert(ident_text(b, start as nat, start as nat) =~= out@);
        while self.idx < self.bytes.len() && is_ident_byte(self.bytes[self.idx])
            invariant
                self.wf(),
                self.src == old(self).src,
                self.bytes == old(self).bytes,
                b == self.bytes@,
                p0 == old(self).pos(),
                start as nat == p0.idx,
                start <= self.idx,
                ident_end(b, start as nat) == ident_end(b, self.idx as nat),
                out@ == ident_text(b, start as nat, self.idx as nat),
                self.pos() == along(p0, (self.idx - start) as nat),
            decreases self.bytes@.len() - self.idx,
        {
            let c = self.bytes[self.idx];
            push_char(&mut out, lower(c) as char);
            self.advance();
            assert(ident_text(b, start as nat, self.idx as nat) =~= ident_text(
                b,
                start as nat,
                (self.idx - 1) as nat,
            ).push(lower_byte(c) as char));
        }
        out
    }

    /// Reads the digits of an integer literal that starts at `start_idx`
    /// and gives its value; one that does not fit is an error.
    pub fn read_int_lit(&mut self, start_idx: usize, start_line: usize, start_col: usize) -> (r:
        Result<i64, CompileError>)
        requires
            old(self).wf(),
            start_idx <= old(self).idx,
            is_char_boundary(old(self).bytes@, start_idx as int),
            forall|i: int| start_idx <= i < old(self).idx ==> #[trigger] old(self).bytes@[i] < 128,
        ensures
            final(self).wf(),
            final(self).src == old(self).src,
            final(self).bytes == old(self).bytes,
            ({
                let e = digits_end(old(self).bytes@, old(self).idx as nat);
                &&& final(self).pos() == along(old(self).pos(), (e - old(self).idx) as nat)
                &&& match (r, spec_parse_i64(old(self).bytes@.subrange(start_idx as int, e as int))) {
                    (Ok(v), Some(w)) => v == w,
                    (Err(err), None) => {
                        &&& err.message@ == "integer literal is out of range"@
                        &&& err.span == Some(
                            Span { line: start_line, col: start_col, len: (e - start_idx) as usize },
                        )
                    },
                    _ => false,
                }
            }),
    {
        let ghost b = self.bytes@;
        let ghost p0 = self.pos();
        let first = self.idx;
        while self.idx < self.bytes.len() && self.bytes[self.idx] >= 48 && self.bytes[self.idx] <= 57
            invariant
                self.wf(),
                self.src == old(self).src,
                self.bytes == old(self).bytes,
                b == self.bytes@,
                p0 == old(self).pos(),
                first as nat == p0.idx,
                first <= self.idx,
                digits_end(b, first as nat) == digits_end(b, self.idx as nat),
                self.pos() == along(p0, (self.idx - first) as nat),
            decreases self.bytes@.len() - self.idx,
        {
            self.advance();
        }
        proof {
            encode_utf8_valid_utf8(self.src@);
            lemma_scan_digits(b, first as nat, self.idx as nat);
            lemma_ascii_run_boundary(b, start_idx as int, self.idx as int);
        }
        parse_int_lit(self.src, start_idx, self.idx, start_line, start_col)
    }

    /// Reads the rest of a string literal whose opening quote has been
    /// read; a newline or the end of the source before the closing quote is
    /// an error at the opening quote.
    pub fn read_string_lit(&mut self, start_line: usize, start_col: usize) -> (r: Result<
        String,
        CompileError,
    >)
        requires
            old(self).wf(),
        ensures
            final(self).src == old(self).src,
            final(self).bytes == old(self).bytes,
            match (r, string_body(old(self).bytes@, old(self).idx as nat)) {
                (Ok(s), Some((t, e))) => {
                    &&& s@ == t
                    &&& final(self).wf()
                    &&& final(self).pos() == along(old(self).pos(), (e - old(self).idx) as nat)
                },
                (Err(err), None) => {
                    &&& err.message@ == "unterminated string literal"@
                    &&& err.span == Some(Span { line: start_line, col: start_col, len: 1 })
                },
                _ => false,
            },
    {
        let ghost b = self.bytes@;
        let ghost p0 = self.pos();
        let first = self.idx;
        let mut out = String::new();
        loop
            invariant
                self.wf(),
                self.src == old(self).src,
                self.bytes == old(self).bytes,
                b == self.bytes@,
                p0 == old(self).pos(),
                first as nat == p0.idx,
                first <= self.idx,
                self.pos() == along(p0, (self.idx - first) as nat),
                string_body(b, first as nat) == match string_body(b, self.idx as nat) {
                    None => None,
                    Some((s, e)) => Some((out@ + s, e)),
                },
            decreases self.bytes@.len() - self.idx,
        {
            match self.peek() {
                Some(39u8) => {
                    self.advance();
                    if self.peek() == Some(39u8) {
                        self.advance();
                        let ghost before = out@;
                        push_char(&mut out, '\'');
                        proof {
                            let rest = string_body(b, self.idx as nat);
                            if let Some((s, e)) = rest {
                                assert(before + (seq!['\''] + s) =~= out@ + s);
                            }
                        }
                    } else {
                        assert(out@ + Seq::<char>::empty() =~= out@);
                        return Ok(out);
                    }
                },
                Some(c) => {
                    if c == 10 {
                        return Err(
                            CompileError::new(
                                "unterminated string literal".to_string(),
                                Span { line: start_line, col: start_col, len: 1 },
                            ),
                        );
                    }
                    self.advance();
                    let ghost before = out@;
                    push_char(&mut out, c as char);
                    proof {
                        let rest = string_body(b, self.idx as nat);
                        if let Some((s, e)) = rest {
                            assert(before + (seq![c as char] + s) =~= out@ + s);
                        }
                    }
                },
                None => {
                    return Err(
                        CompileError::new(
                            "unterminated string literal".to_string(),
                            Span { line: start_line, col: start_col, len: 1 },
                        ),
                    );
                },
            }
        }
    }
}

/// Whether a byte may continue an identifier.
pub fn is_ident_byte(c: u8) -> (r: bool)
    ensures
        r == is_ident_continue(c),
{
    (c >= 65 && c <= 90) || (c >= 97 && c <= 122) || c == 95 || (c >= 48 && c <= 57)
}

/// Whether a byte may start an identifier.
pub fn is_ident_start_byte(c: u8) -> (r: bool)
    ensures
        r == crate::lexer::is_ident_start(c),
{
    (c >= 65 && c <= 90) || (c >= 97 && c <= 122) || c == 95
}

} // verus!
