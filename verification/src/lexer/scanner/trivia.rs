use vstd::prelude::*;

use crate::error::{CompileError, Span};
use crate::lexer::{lemma_skip_forward, skip_comment, skip_trivia, skip_ws, span_at, step};

use super::Lexer;

verus! {

impl<'a> Lexer<'a> {
    /// Skips whitespace and `{ ... }` comments; a comment left open is an
    /// error at the end of the source.
    pub fn skip_whitespace_and_comments(&mut self) -> (r: Result<(), CompileError>)
        requires
            old(self).wf(),
        ensures
            final(self).wf(),
            final(self).src == old(self).src,
            final(self).bytes == old(self).bytes,
            match (r, skip_trivia(old(self).bytes@, old(self).pos())) {
                (Ok(_), Ok(q)) => final(self).pos() == q,
                (Err(e), Err((m, sp))) => e.message@ == m && e.span == Some(sp),
                _ => false,
            },
    {
        let ghost b = self.bytes@;
        loop
            invariant
                self.wf(),
                self.src == old(self).src,
                self.bytes == old(self).bytes,
                b == self.bytes@,
                skip_trivia(b, self.pos()) == skip_trivia(b, old(self).pos()),
            decreases self.bytes@.len() - self.idx,
        {
            let ghost p = self.pos();
            self.skip_whitespace();
            proof {
                lemma_skip_forward(b, p);
            }
            if self.peek() == Some(123u8) {
                let ghost q = self.pos();
                self.advance();
                let mut closed = false;
                while !closed && self.idx < self.bytes.len()
                    invariant
                        self.wf(),
                        self.src == old(self).src,
                        self.bytes == old(self).bytes,
                        b == self.bytes@,
                        q.idx < b.len(),
                        q.idx < self.idx,
                        closed ==> skip_comment(b, step(b, q)) == (self.pos(), true),
                        !closed ==> skip_comment(b, self.pos()) == skip_comment(b, step(b, q)),
                    decreases self.bytes@.len() - self.idx,
                {
                    let c = self.bytes[self.idx];
                    self.advance();
                    if c == 125 {
                        closed = true;
                    }
                }
                if !closed {
                    return Err(
                        CompileError::new(
                            "unterminated comment".to_string(),
                            Span { line: self.line, col: self.col, len: 1 },
                        ),
                    );
                }
                continue;
            }
            return Ok(());
        }
    }

    /// Skips spaces, tabs, carriage returns and newlines.
    fn skip_whitespace(&mut self)
        requires
            old(self).wf(),
        ensures
            final(self).wf(),
            final(self).src == old(self).src,
            final(self).bytes == old(self).bytes,
            final(self).pos() == skip_ws(old(self).bytes@, old(self).pos()),
    {
        let ghost b = self.bytes@;
        while self.idx < self.bytes.len() && (self.bytes[self.idx] == 32 || self.bytes[self.idx] == 9
            || self.bytes[self.idx] == 13 || self.bytes[self.idx] == 10)
            invariant
                self.wf(),
                self.src == old(self).src,
                self.bytes == old(self).bytes,
                b == self.bytes@,
                skip_ws(b, self.pos()) == skip_ws(b, old(self).pos()),
            decreases self.bytes@.len() - self.idx,
        {
            self.advance();
        }
    }
}

} // verus!
