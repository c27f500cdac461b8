use vstd::prelude::*;

use crate::ast::{
    ExprV, exprs_view, lemma_exprs_view_push, names_view, Assign, AssignIndex, CallStmt, Expr, IfStmt, Stmt,
    WhileStmt,
};
use crate::error::CompileError;
use crate::lexer::{TokenKind, TokenTag};

use super::block::parse_compound_statement;
use super::expr::parse_expr;
use super::grammar::{
    p_args_rest, p_assignment, p_call_args, p_call_stmt, p_if, p_index_assignment, p_readln,
    p_return, p_statement, p_while, p_writeln, rank, expect, p_expr, tag_at, PErr,
};
use super::{parsed, Parser};

verus! {

/// Parses a statement, by its first token and, for an identifier, the one
/// after it.
pub fn parse_statement(p: &mut Parser<'_>) -> (r: Result<Stmt, CompileError>)
    requires
        old(p).wf(),
    ensures
        parsed(*old(p), *final(p), r, p_statement(old(p).bytes(), old(p).at@), |s: Stmt| s.view(), true),
    decreases rank(old(p).bytes(), old(p).at@), 3nat,
{
    match p.current.kind.tag() {
        TokenTag::Ident => {
            if p.next_is(TokenKind::Assign) {
                match parse_assignment(p) {
                    Ok(a) => Ok(Stmt::Assign(a)),
                    Err(e) => Err(e),
                }
            } else if p.next_is(TokenKind::LParen) {
                match parse_call_stmt(p) {
                    Ok(c) => Ok(Stmt::Call(c)),
                    Err(e) => Err(e),
                }
            } else if p.next_is(TokenKind::LBracket) {
                match parse_index_assignment(p) {
                    Ok(a) => Ok(Stmt::AssignIndex(a)),
                    Err(e) => Err(e),
                }
            } else {
                Err(p.unexpected("assignment or call"))
            }
        },
        TokenTag::Writeln => match parse_writeln(p) {
            Ok(e) => Ok(Stmt::Writeln(e)),
            Err(e) => Err(e),
        },
        TokenTag::Readln => match parse_readln(p) {
            Ok(n) => Ok(Stmt::Readln(n)),
            Err(e) => Err(e),
        },
        TokenTag::Return => match parse_return(p) {
            Ok(e) => Ok(Stmt::Return(e)),
            Err(e) => Err(e),
        },
        TokenTag::If => match parse_if(p) {
            Ok(s) => Ok(Stmt::If(s)),
            Err(e) => Err(e),
        },
        TokenTag::While => match parse_while(p) {
            Ok(s) => Ok(Stmt::While(s)),
            Err(e) => Err(e),
        },
        TokenTag::Begin => match parse_compound_statement(p) {
            Ok(stmts) => Ok(Stmt::Compound(stmts)),
            Err(e) => Err(e),
        },
        _ => Err(p.unexpected("statement")),
    }
}

/// Parses `name := expr`.
fn parse_assignment(p: &mut Parser<'_>) -> (r: Result<Assign, CompileError>)
    requires
        old(p).wf(),
    ensures
        parsed(
            *old(p),
            *final(p),
            r,
            p_assignment(old(p).bytes(), old(p).at@),
            |a: Assign| Stmt::Assign(a).view(),
            true,
        ),
{
    let name = match p.expect_ident() {
        Ok(n) => n,
        Err(e) => return Err(e),
    };
    match p.expect_kind(TokenKind::Assign, "':='") {
        Err(e) => return Err(e),
        Ok(_) => {},
    }
    let expr = match parse_expr(p) {
        Ok(e) => e,
        Err(e) => return Err(e),
    };
    Ok(Assign { name, expr })
}

/// Parses `writeln(expr)`.
fn parse_writeln(p: &mut Parser<'_>) -> (r: Result<Expr, CompileError>)
    requires
        old(p).wf(),
    ensures
        parsed(
            *old(p),
            *final(p),
            r,
            p_writeln(old(p).bytes(), old(p).at@),
            |e: Expr| Stmt::Writeln(e).view(),
            true,
        ),
{
    match p.expect_keyword(TokenKind::Writeln, "writeln") {
        Err(e) => return Err(e),
        Ok(_) => {},
    }
    match p.expect_kind(TokenKind::LParen, "'('") {
        Err(e) => return Err(e),
        Ok(_) => {},
    }
    let expr = match parse_expr(p) {
        Ok(e) => e,
        Err(e) => return Err(e),
    };
    match p.expect_kind(TokenKind::RParen, "')'") {
        Err(e) => return Err(e),
        Ok(_) => {},
    }
    Ok(expr)
}

/// Parses `readln(a, b, ...)`.
fn parse_readln(p: &mut Parser<'_>) -> (r: Result<Vec<String>, CompileError>)
    requires
        old(p).wf(),
    ensures
        parsed(
            *old(p),
            *final(p),
            r,
            p_readln(old(p).bytes(), old(p).at@),
            |v: Vec<String>| Stmt::Readln(v).view(),
            true,
        ),
{
    match p.expect_keyword(TokenKind::Readln, "readln") {
        Err(e) => return Err(e),
        Ok(_) => {},
    }
    match p.expect_kind(TokenKind::LParen, "'('") {
        Err(e) => return Err(e),
        Ok(_) => {},
    }
    let names = match p.parse_ident_list() {
        Ok(n) => n,
        Err(e) => return Err(e),
    };
    match p.expect_kind(TokenKind::RParen, "')'") {
        Err(e) => return Err(e),
        Ok(_) => {},
    }
    Ok(names)
}

/// Parses `name[index] := expr`.
fn parse_index_assignment(p: &mut Parser<'_>) -> (r: Result<AssignIndex, CompileError>)
    requires
        old(p).wf(),
    ensures
        parsed(
            *old(p),
            *final(p),
            r,
            p_index_assignment(old(p).bytes(), old(p).at@),
            |a: AssignIndex| Stmt::AssignIndex(a).view(),
            true,
        ),
{
    let name = match p.expect_ident() {
        Ok(n) => n,
        Err(e) => return Err(e),
    };
    match p.expect_kind(TokenKind::LBracket, "'['") {
        Err(e) => return Err(e),
        Ok(_) => {},
    }
    let index = match parse_expr(p) {
        Ok(e) => e,
        Err(e) => return Err(e),
    };
    match p.expect_kind(TokenKind::RBracket, "']'") {
        Err(e) => return Err(e),
        Ok(_) => {},
    }
    match p.expect_kind(TokenKind::Assign, "':='") {
        Err(e) => return Err(e),
        Ok(_) => {},
    }
    let expr = match parse_expr(p) {
        Ok(e) => e,
        Err(e) => return Err(e),
    };
    Ok(AssignIndex { name, index, expr })
}

/// Parses a procedure call.
fn parse_call_stmt(p: &mut Parser<'_>) -> (r: Result<CallStmt, CompileError>)
    requires
        old(p).wf(),
    ensures
        parsed(
            *old(p),
            *final(p),
            r,
            p_call_stmt(old(p).bytes(), old(p).at@),
            |c: CallStmt| Stmt::Call(c).view(),
            true,
        ),
{
    let name = match p.expect_ident() {
        Ok(n) => n,
        Err(e) => return Err(e),
    };
    let args = match parse_call_args(p) {
        Ok(a) => a,
        Err(e) => return Err(e),
    };
    Ok(CallStmt { name, args })
}

/// Parses the arguments of a call: expressions in parentheses, separated
/// by commas.
pub fn parse_call_args(p: &mut Parser<'_>) -> (r: Result<Vec<Expr>, CompileError>)
    requires
        old(p).wf(),
    ensures
        parsed(
            *old(p),
            *final(p),
            r,
            p_call_args(old(p).bytes(), old(p).at@),
            |v: Vec<Expr>| exprs_view(v@, v@.len()),
            true,
        ),
    decreases rank(old(p).bytes(), old(p).at@), 0nat,
{
    let ghost b = p.bytes();
    match p.expect_kind(TokenKind::LParen, "'('") {
        Err(e) => return Err(e),
        Ok(_) => {},
    }
    let ghost k1 = p.at@;
    let mut args: Vec<Expr> = Vec::new();
    if !p.current_is(TokenKind::RParen) {
        let first = match parse_expr(p) {
            Ok(e) => e,
            Err(e) => return Err(e),
        };
        proof {
            lemma_exprs_view_push(args@, first);
        }
        args.push(first);
        assert(exprs_view(args@, args@.len()) =~= seq![first.view()]);
        let ghost k2 = p.at@;
        while p.current_is(TokenKind::Comma)
            invariant
                b == old(p).bytes(),
                expect(b, old(p).at@, TokenTag::LParen, "'('"@) == Ok::<nat, PErr>(k1),
                tag_at(b, k1) != TokenTag::RParen,
                rank(b, k1) < rank(b, old(p).at@),
                p_expr(b, k1) == Ok::<(ExprV, nat), PErr>((first.view(), k2)),
                rank(b, k2) < rank(b, old(p).at@),
                super::moved(*old(p), *p, p.at@),
                rank(b, p.at@) < rank(b, old(p).at@),
                p_args_rest(b, seq![first.view()], k2) == p_args_rest(
                    b,
                    exprs_view(args@, args@.len()),
                    p.at@,
                ),
            decreases rank(b, p.at@),
        {
            match p.advance() {
                Err(e) => return Err(e),
                Ok(_) => {},
            }
            let x = match parse_expr(p) {
                Ok(e) => e,
                Err(e) => return Err(e),
            };
            proof {
                lemma_exprs_view_push(args@, x);
            }
            args.push(x);
        }
    }
    match p.expect_kind(TokenKind::RParen, "')'") {
        Err(e) => return Err(e),
        Ok(_) => {},
    }
    Ok(args)
}

/// Parses `return`, with a value unless `;` or `end` follows.
fn parse_return(p: &mut Parser<'_>) -> (r: Result<Option<Expr>, CompileError>)
    requires
        old(p).wf(),
    ensures
        parsed(
            *old(p),
            *final(p),
            r,
            p_return(old(p).bytes(), old(p).at@),
            |o: Option<Expr>| Stmt::Return(o).view(),
            true,
        ),
{
    match p.expect_keyword(TokenKind::Return, "return") {
        Err(e) => return Err(e),
        Ok(_) => {},
    }
    if p.current_is(TokenKind::Semi) || p.current_is(TokenKind::End) {
        Ok(None)
    } else {
        match parse_expr(p) {
            Ok(e) => Ok(Some(e)),
            Err(e) => Err(e),
        }
    }
}

/// Parses `if cond then stmt`, with an optional `else stmt`.
fn parse_if(p: &mut Parser<'_>) -> (r: Result<IfStmt, CompileError>)
    requires
        old(p).wf(),
    ensures
        parsed(
            *old(p),
            *final(p),
            r,
            p_if(old(p).bytes(), old(p).at@),
            |s: IfStmt| Stmt::If(s).view(),
            true,
        ),
    decreases rank(old(p).bytes(), old(p).at@), 2nat,
{
    match p.expect_keyword(TokenKind::If, "if") {
        Err(e) => return Err(e),
        Ok(_) => {},
    }
    let cond = match parse_expr(p) {
        Ok(e) => e,
        Err(e) => return Err(e),
    };
    match p.expect_keyword(TokenKind::Then, "then") {
        Err(e) => return Err(e),
        Ok(_) => {},
    }
    let then_branch = match parse_statement(p) {
        Ok(s) => s,
        Err(e) => return Err(e),
    };
    let else_branch = if p.current_is(TokenKind::Else) {
        match p.advance() {
            Err(e) => return Err(e),
            Ok(_) => {},
        }
        match parse_statement(p) {
            Ok(s) => Some(Box::new(s)),
            Err(e) => return Err(e),
        }
    } else {
        None
    };
    Ok(IfStmt { cond, then_branch: Box::new(then_branch), else_branch })
}

/// Parses `while cond do stmt`.
fn parse_while(p: &mut Parser<'_>) -> (r: Result<WhileStmt, CompileError>)
    requires
        old(p).wf(),
    ensures
        parsed(
            *old(p),
            *final(p),
            r,
            p_while(old(p).bytes(), old(p).at@),
            |s: WhileStmt| Stmt::While(s).view(),
            true,
        ),
    decreases rank(old(p).bytes(), old(p).at@), 2nat,
{
    match p.expect_keyword(TokenKind::While, "while") {
        Err(e) => return Err(e),
        Ok(_) => {},
    }
    let cond = match parse_expr(p) {
        Ok(e) => e,
        Err(e) => return Err(e),
    };
    match p.expect_keyword(TokenKind::Do, "do") {
        Err(e) => return Err(e),
        Ok(_) => {},
    }
    let body = match parse_statement(p) {
        Ok(s) => s,
        Err(e) => return Err(e),
    };
    Ok(WhileStmt { cond, body: Box::new(body) })
}

} // verus!
