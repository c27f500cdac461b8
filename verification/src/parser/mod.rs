pub mod block;
pub mod expr;
pub mod grammar;
pub mod stmt;
pub mod types;

use vstd::prelude::*;
use vstd::string::StringSliceAdditionalSpecFns;

use crate::ast::{names_view, Program};
use crate::error::CompileError;
use crate::lexer::{LexError, Lexer, Pos, Token, TokenKind, TokenModel, TokenTag};
use crate::text::push_str;

use self::block::parse_block;
use self::grammar::{
    adv, expect, expect_ident, lemma_first_tokens, lemma_rank_step, lemma_read_ahead, lex_after, nth_token, p_ident_list, p_ident_rest,
    p_program, p_uses, rank, tag_at, unexpected, PErr, PRes,
};

verus! {

/// Parses a program with one token of lookahead: the lexer, the current
/// token, the token after it, and the index of the current token in the
/// source's token list.
pub struct Parser<'a> {
    pub lexer: Lexer<'a>,
    pub current: Token,
    pub next: Token,
    pub at: Ghost<nat>,
}

/// The error carries the specified message and place.
pub open spec fn failed(e: CompileError, err: PErr) -> bool {
    e.message@ == err.0 && e.span == err.1
}

/// The parser reads the same source, is well formed, stands at token `k`,
/// and has not moved back.
pub open spec fn moved<'a>(old: Parser<'a>, new: Parser<'a>, k: nat) -> bool {
    &&& new.wf()
    &&& new.lexer.src == old.lexer.src
    &&& new.lexer.bytes == old.lexer.bytes
    &&& new.at@ == k
    &&& rank(old.bytes(), k) <= rank(old.bytes(), old.at@)
}

/// A parsing step did what `s` says: on success the value read has the
/// specified content and the parser stands after it (having read at least
/// one token when `strict`), on failure the error is the specified one.
pub open spec fn parsed<'a, T, V>(
    old: Parser<'a>,
    new: Parser<'a>,
    r: Result<T, CompileError>,
    s: PRes<V>,
    view: spec_fn(T) -> V,
    strict: bool,
) -> bool {
    match (r, s) {
        (Ok(v), Ok((w, k))) => {
            &&& view(v) == w
            &&& moved(old, new, k)
            &&& strict ==> rank(old.bytes(), k) < rank(old.bytes(), old.at@)
        },
        (Err(e), Err(err)) => failed(e, err),
        _ => false,
    }
}

/// A step that reads nothing but may move the parser did what `s` says.
pub open spec fn stepped<'a>(
    old: Parser<'a>,
    new: Parser<'a>,
    r: Result<(), CompileError>,
    s: Result<nat, PErr>,
) -> bool {
    match (r, s) {
        (Ok(_), Ok(k)) => moved(old, new, k),
        (Err(e), Err(err)) => failed(e, err),
        _ => false,
    }
}

impl<'a> Parser<'a> {
    /// The bytes of the source.
    pub open spec fn bytes(&self) -> Seq<u8> {
        self.lexer.bytes@
    }

    /// The current and next tokens are tokens `at` and `at + 1` of the
    /// source, and the lexer stands after them.
    pub open spec fn wf(&self) -> bool {
        &&& self.lexer.wf()
        &&& lex_after(self.bytes(), self.at@ + 2) == Ok::<Pos, LexError>(self.lexer.pos())
        &&& nth_token(self.bytes(), self.at@) == Ok::<TokenModel, LexError>(self.current.model())
        &&& nth_token(self.bytes(), self.at@ + 1) == Ok::<TokenModel, LexError>(self.next.model())
    }

    /// A parser at the start of `src`, with its first two tokens read.
    pub fn new(src: &'a str) -> (r: Result<Parser<'a>, CompileError>)
        requires
            src.spec_bytes().len() < usize::MAX,
        ensures
            match (r, nth_token(src.spec_bytes(), 0), nth_token(src.spec_bytes(), 1)) {
                (Ok(p), Ok(_), Ok(_)) => p.wf() && p.at@ == 0 && p.lexer.src == src,
                (Err(e), Err((m, sp)), _) => e.message@ == m && e.span == Some(sp),
                (Err(e), Ok(_), Err((m, sp))) => e.message@ == m && e.span == Some(sp),
                _ => false,
            },
    {
        let mut lexer = Lexer::new(src);
        proof {
            lemma_first_tokens(src.spec_bytes());
        }
        let current = match lexer.next_token() {
            Ok(t) => t,
            Err(e) => return Err(e),
        };
        let next = match lexer.next_token() {
            Ok(t) => t,
            Err(e) => return Err(e),
        };
        Ok(Parser { lexer, current, next, at: Ghost(0) })
    }

    /// Parses a whole program.
    pub fn parse_program(&mut self) -> (r: Result<Program, CompileError>)
        requires
            old(self).wf(),
        ensures
            parsed(
                *old(self),
                *final(self),
                r,
                p_program(old(self).bytes(), old(self).at@),
                |p: Program| p.view(),
                true,
            ),
    {
        let ghost b = self.bytes();
        match self.expect_keyword(TokenKind::Program, "program") {
            Err(e) => return Err(e),
            Ok(_) => {},
        }
        let name = match self.expect_ident() {
            Ok(n) => n,
            Err(e) => return Err(e),
        };
        match self.expect_kind(TokenKind::Semi, "';'") {
            Err(e) => return Err(e),
            Ok(_) => {},
        }
        let ghost k3 = self.at@;
        let uses = if self.current_is(TokenKind::Uses) {
            match self.advance() {
                Err(e) => return Err(e),
                Ok(_) => {},
            }
            let list = match self.parse_ident_list() {
                Ok(l) => l,
                Err(e) => return Err(e),
            };
            match self.expect_kind(TokenKind::Semi, "';'") {
                Err(e) => return Err(e),
                Ok(_) => {},
            }
            list
        } else {
            let none: Vec<String> = Vec::new();
            assert(names_view(none@) =~= Seq::<Seq<char>>::empty());
            none
        };
        assert(p_uses(b, k3) == Ok::<(Seq<Seq<char>>, nat), PErr>((names_view(uses@), self.at@)));
        let block = match parse_block(self) {
            Ok(bl) => bl,
            Err(e) => return Err(e),
        };
        match self.expect_kind(TokenKind::Dot, "'.'") {
            Err(e) => return Err(e),
            Ok(_) => {},
        }
        match self.expect_kind(TokenKind::Eof, "end of file") {
            Err(e) => return Err(e),
            Ok(_) => {},
        }
        Ok(Program { name, uses, block })
    }

    /// Moves on by one token, reading the token after the new current one.
    pub fn advance(&mut self) -> (r: Result<(), CompileError>)
        requires
            old(self).wf(),
        ensures
            stepped(*old(self), *final(self), r, adv(old(self).bytes(), old(self).at@)),
            r is Ok && tag_at(old(self).bytes(), old(self).at@) != TokenTag::Eof ==> rank(
                old(self).bytes(),
                final(self).at@,
            ) < rank(old(self).bytes(), old(self).at@),
    {
        proof {
            lemma_rank_step(self.bytes(), self.at@);
            lemma_read_ahead(self.bytes(), self.at@, self.lexer.pos());
        }
        let t = match self.lexer.next_token() {
            Ok(t) => t,
            Err(e) => return Err(e),
        };
        let mut t = t;
        std::mem::swap(&mut self.next, &mut t);
        self.current = t;
        self.at = Ghost(self.at@ + 1);
        Ok(())
    }

    /// Reads a keyword of the given kind.
    pub fn expect_keyword(&mut self, kind: TokenKind, expected: &str) -> (r: Result<(), CompileError>)
        requires
            old(self).wf(),
        ensures
            stepped(
                *old(self),
                *final(self),
                r,
                expect(old(self).bytes(), old(self).at@, kind.spec_tag(), expected@),
            ),
            r is Ok && kind.spec_tag() != TokenTag::Eof ==> rank(old(self).bytes(), final(self).at@)
                < rank(old(self).bytes(), old(self).at@),
    {
        self.expect_kind(kind, expected)
    }

    /// Reads a token of the given kind.
    pub fn expect_kind(&mut self, kind: TokenKind, expected: &str) -> (r: Result<(), CompileError>)
        requires
            old(self).wf(),
        ensures
            stepped(
                *old(self),
                *final(self),
                r,
                expect(old(self).bytes(), old(self).at@, kind.spec_tag(), expected@),
            ),
            r is Ok && kind.spec_tag() != TokenTag::Eof ==> rank(old(self).bytes(), final(self).at@)
                < rank(old(self).bytes(), old(self).at@),
    {
        if self.current.kind.tag() == kind.tag() {
            self.advance()
        } else {
            Err(self.unexpected(expected))
        }
    }

    /// Reads an identifier.
    pub fn expect_ident(&mut self) -> (r: Result<String, CompileError>)
        requires
            old(self).wf(),
        ensures
            parsed(
                *old(self),
                *final(self),
                r,
                expect_ident(old(self).bytes(), old(self).at@),
                |s: String| s@,
                true,
            ),
    {
        let name = match &self.current.kind {
            TokenKind::Ident(name) => name.clone(),
            _ => return Err(self.unexpected("identifier")),
        };
        match self.advance() {
            Err(e) => Err(e),
            Ok(_) => Ok(name),
        }
    }

    /// Reads identifiers separated by commas.
    pub fn parse_ident_list(&mut self) -> (r: Result<Vec<String>, CompileError>)
        requires
            old(self).wf(),
        ensures
            parsed(
                *old(self),
                *final(self),
                r,
                p_ident_list(old(self).bytes(), old(self).at@),
                |v: Vec<String>| names_view(v@),
                true,
            ),
    {
        let ghost b = self.bytes();
        let mut names: Vec<String> = Vec::new();
        let first = match self.expect_ident() {
            Ok(n) => n,
            Err(e) => return Err(e),
        };
        names.push(first);
        assert(names_view(names@) =~= seq![first@]);
        while self.current_is(TokenKind::Comma)
            invariant
                b == old(self).bytes(),
                moved(*old(self), *self, self.at@),
                rank(b, self.at@) < rank(b, old(self).at@),
                p_ident_list(b, old(self).at@) == p_ident_rest(b, names_view(names@), self.at@),
            decreases rank(b, self.at@),
        {
            match self.advance() {
                Err(e) => return Err(e),
                Ok(_) => {},
            }
            let n = match self.expect_ident() {
                Ok(n) => n,
                Err(e) => return Err(e),
            };
            let ghost before = names@;
            names.push(n);
            assert(names_view(names@) =~= names_view(before).push(n@));
        }
        Ok(names)
    }

    /// The error of an unexpected current token.
    pub fn unexpected(&self, expected: &str) -> (e: CompileError)
        requires
            self.wf(),
        ensures
            failed(e, unexpected(self.bytes(), self.at@, expected@)),
    {
        let mut message = "expected ".to_string();
        push_str(&mut message, expected);
        CompileError::new(message, self.current.span)
    }

    /// Whether the current token has the given kind.
    pub fn current_is(&self, kind: TokenKind) -> (r: bool)
        requires
            self.wf(),
        ensures
            r == (tag_at(self.bytes(), self.at@) == kind.spec_tag()),
    {
        self.current.kind.tag() == kind.tag()
    }

    /// Whether the current token is an identifier.
    pub fn current_is_ident(&self) -> (r: bool)
        requires
            self.wf(),
        ensures
            r == (tag_at(self.bytes(), self.at@) == TokenTag::Ident),
    {
        self.current.kind.tag() == TokenTag::Ident
    }

    /// Whether the token after the current one has the given kind.
    pub fn next_is(&self, kind: TokenKind) -> (r: bool)
        requires
            self.wf(),
        ensures
            r == (tag_at(self.bytes(), self.at@ + 1) == kind.spec_tag()),
    {
        self.next.kind.tag() == kind.tag()
    }
}

} // verus!
