pub mod next;
pub mod text;
pub mod trivia;

use vstd::prelude::*;

use super::{pos_ok, Pos};
use vstd::string::StringSliceAdditionalSpecFns;

verus! {

/// Reads the source one token at a time: the source, its bytes, and the
/// current offset, line and column.
pub struct Lexer<'a> {
    pub src: &'a str,
    pub bytes: &'a [u8],
    pub idx: usize,
    pub line: usize,
    pub col: usize,
}

impl<'a> Lexer<'a> {
    /// The place the lexer has reached.
    pub open spec fn pos(&self) -> Pos {
        Pos { idx: self.idx as nat, line: self.line as nat, col: self.col as nat }
    }

    /// The bytes are those of the source and the place lies in it.
    pub open spec fn wf(&self) -> bool {
        &&& self.bytes@ == self.src.spec_bytes()
        &&& pos_ok(self.bytes@, self.pos())
    }

    /// A lexer at the start of `src`: offset 0, line 1, column 1.
    pub fn new(src: &'a str) -> (l: Lexer<'a>)
        requires
            src.spec_bytes().len() < usize::MAX,
        ensures
            l.wf(),
            l.src == src,
            l.pos() == (Pos { idx: 0, line: 1, col: 1 }),
    {
        Lexer { src, bytes: src.as_bytes(), idx: 0, line: 1, col: 1 }
    }
}

} // verus!
