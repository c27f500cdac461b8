use vstd::prelude::*;

use crate::ast::{lemma_exprs_view_push, BinaryOp, CallExpr, Expr, UnaryOp};
use crate::error::CompileError;
use crate::lexer::{TokenKind, TokenTag};

use super::grammar::{binop_at, p_expr, p_level, p_level_rest, p_operand, p_primary, p_unary, rank};
use super::stmt::parse_call_args;
use super::{parsed, Parser};

verus! {

/// The binary operator that a token tag stands for at precedence level
/// `lvl`.
fn binary_op(lvl: u8, t: TokenTag) -> (r: Option<BinaryOp>)
    requires
        lvl <= 4,
    ensures
        r == binop_at(lvl as nat, t),
{
    if lvl == 4 {
        if t == TokenTag::Or {
            Some(BinaryOp::Or)
        } else {
            None
        }
    } else if lvl == 3 {
        if t == TokenTag::And {
            Some(BinaryOp::And)
        } else {
            None
        }
    } else if lvl == 2 {
        match t {
            TokenTag::Eq => Some(BinaryOp::Eq),
            TokenTag::Ne => Some(BinaryOp::Ne),
            TokenTag::Lt => Some(BinaryOp::Lt),
            TokenTag::Le => Some(BinaryOp::Le),
            TokenTag::Gt => Some(BinaryOp::Gt),
            TokenTag::Ge => Some(BinaryOp::Ge),
            _ => None,
        }
    } else if lvl == 1 {
        match t {
            TokenTag::Plus => Some(BinaryOp::Add),
            TokenTag::Minus => Some(BinaryOp::Sub),
            _ => None,
        }
    } else {
        match t {
            TokenTag::Star => Some(BinaryOp::Mul),
            TokenTag::Slash => Some(BinaryOp::Div),
            _ => None,
        }
    }
}

/// Parses an expression.
pub fn parse_expr(p: &mut Parser<'_>) -> (r: Result<Expr, CompileError>)
    requires
        old(p).wf(),
    ensures
        parsed(*old(p), *final(p), r, p_expr(old(p).bytes(), old(p).at@), |e: Expr| e.view(), true),
    decreases rank(old(p).bytes(), old(p).at@), 18nat,
{
    parse_or(p)
}

/// Parses the operands of level `lvl` and the operators between them,
/// grouping from the left, once the first operand `left` has been read.
fn parse_level_rest(p: &mut Parser<'_>, lvl: u8, left: Expr) -> (r: Result<Expr, CompileError>)
    requires
        old(p).wf(),
        lvl <= 4,
    ensures
        parsed(
            *old(p),
            *final(p),
            r,
            p_level_rest(old(p).bytes(), lvl as nat, left.view(), old(p).at@),
            |e: Expr| e.view(),
            false,
        ),
    decreases rank(old(p).bytes(), old(p).at@), 3 * lvl + 3,
{
    let ghost b = p.bytes();
    let ghost k0 = p.at@;
    let mut acc = left;
    loop
        invariant
            b == old(p).bytes(),
            lvl <= 4,
            super::moved(*old(p), *p, p.at@),
            p_level_rest(b, lvl as nat, left.view(), k0) == p_level_rest(
                b,
                lvl as nat,
                acc.view(),
                p.at@,
            ),
            k0 == old(p).at@,
        decreases rank(b, p.at@),
    {
        let op = match binary_op(lvl, p.current.kind.tag()) {
            Some(op) => op,
            None => return Ok(acc),
        };
        match p.advance() {
            Err(e) => return Err(e),
            Ok(_) => {},
        }
        let right = match parse_operand(p, lvl) {
            Ok(e) => e,
            Err(e) => return Err(e),
        };
        acc = Expr::Binary { op, left: Box::new(acc), right: Box::new(right) };
    }
}

/// Parses an operand of level `lvl`.
fn parse_operand(p: &mut Parser<'_>, lvl: u8) -> (r: Result<Expr, CompileError>)
    requires
        old(p).wf(),
        lvl <= 4,
    ensures
        parsed(
            *old(p),
            *final(p),
            r,
            p_operand(old(p).bytes(), lvl as nat, old(p).at@),
            |e: Expr| e.view(),
            true,
        ),
    decreases rank(old(p).bytes(), old(p).at@), 3 * lvl + 3,
{
    match lvl {
        0 => parse_unary(p),
        1 => parse_mul(p),
        2 => parse_add(p),
        3 => parse_compare(p),
        _ => parse_and(p),
    }
}

/// Parses an expression of level `lvl`.
fn parse_level(p: &mut Parser<'_>, lvl: u8) -> (r: Result<Expr, CompileError>)
    requires
        old(p).wf(),
        lvl <= 4,
    ensures
        parsed(
            *old(p),
            *final(p),
            r,
            p_level(old(p).bytes(), lvl as nat, old(p).at@),
            |e: Expr| e.view(),
            true,
        ),
    decreases rank(old(p).bytes(), old(p).at@), 3 * lvl + 4,
{
    let left = match parse_operand(p, lvl) {
        Ok(e) => e,
        Err(e) => return Err(e),
    };
    parse_level_rest(p, lvl, left)
}

/// Parses operands joined by `or`.
pub fn parse_or(p: &mut Parser<'_>) -> (r: Result<Expr, CompileError>)
    requires
        old(p).wf(),
    ensures
        parsed(*old(p), *final(p), r, p_level(old(p).bytes(), 4, old(p).at@), |e: Expr| e.view(), true),
    decreases rank(old(p).bytes(), old(p).at@), 17nat,
{
    parse_level(p, 4)
}

/// Parses operands joined by `and`.
pub fn parse_and(p: &mut Parser<'_>) -> (r: Result<Expr, CompileError>)
    requires
        old(p).wf(),
    ensures
        parsed(*old(p), *final(p), r, p_level(old(p).bytes(), 3, old(p).at@), |e: Expr| e.view(), true),
    decreases rank(old(p).bytes(), old(p).at@), 14nat,
{
    parse_level(p, 3)
}

/// Parses operands joined by comparisons.
pub fn parse_compare(p: &mut Parser<'_>) -> (r: Result<Expr, CompileError>)
    requires
        old(p).wf(),
    ensures
        parsed(*old(p), *final(p), r, p_level(old(p).bytes(), 2, old(p).at@), |e: Expr| e.view(), true),
    decreases rank(old(p).bytes(), old(p).at@), 11nat,
{
    parse_level(p, 2)
}

/// Parses operands joined by `+` and `-`.
pub fn parse_add(p: &mut Parser<'_>) -> (r: Result<Expr, CompileError>)
    requires
        old(p).wf(),
    ensures
        parsed(*old(p), *final(p), r, p_level(old(p).bytes(), 1, old(p).at@), |e: Expr| e.view(), true),
    decreases rank(old(p).bytes(), old(p).at@), 8nat,
{
    parse_level(p, 1)
}

/// Parses operands joined by `*` and `/`.
pub fn parse_mul(p: &mut Parser<'_>) -> (r: Result<Expr, CompileError>)
    requires
        old(p).wf(),
    ensures
        parsed(*old(p), *final(p), r, p_level(old(p).bytes(), 0, old(p).at@), |e: Expr| e.view(), true),
    decreases rank(old(p).bytes(), old(p).at@), 5nat,
{
    parse_level(p, 0)
}

/// Parses `-` and `not` before a primary expression.
pub fn parse_unary(p: &mut Parser<'_>) -> (r: Result<Expr, CompileError>)
    requires
        old(p).wf(),
    ensures
        parsed(*old(p), *final(p), r, p_unary(old(p).bytes(), old(p).at@), |e: Expr| e.view(), true),
    decreases rank(old(p).bytes(), old(p).at@), 1nat,
{
    let t = p.current.kind.tag();
    if t == TokenTag::Minus || t == TokenTag::Not {
        match p.advance() {
            Err(e) => return Err(e),
            Ok(_) => {},
        }
        let expr = match parse_unary(p) {
            Ok(e) => e,
            Err(e) => return Err(e),
        };
        let op = if t == TokenTag::Minus {
            UnaryOp::Neg
        } else {
            UnaryOp::Not
        };
        Ok(Expr::Unary { op, expr: Box::new(expr) })
    } else {
        parse_primary(p)
    }
}

/// Parses a literal, a variable, an element, a call, or an expression in
/// parentheses.
pub fn parse_primary(p: &mut Parser<'_>) -> (r: Result<Expr, CompileError>)
    requires
        old(p).wf(),
    ensures
        parsed(*old(p), *final(p), r, p_primary(old(p).bytes(), old(p).at@), |e: Expr| e.view(), true),
    decreases rank(old(p).bytes(), old(p).at@), 0nat,
{
    let e = match &p.current.kind {
        TokenKind::IntLit(v) => Expr::Int(*v),
        TokenKind::True => Expr::Bool(true),
        TokenKind::False => Expr::Bool(false),
        TokenKind::StringLit(s) => Expr::Str(s.clone()),
        TokenKind::Ident(name) => {
            let name = name.clone();
            match p.advance() {
                Err(e) => return Err(e),
                Ok(_) => {},
            }
            if p.current_is(TokenKind::LParen) {
                let args = match parse_call_args(p) {
                    Ok(a) => a,
                    Err(e) => return Err(e),
                };
                return Ok(Expr::Call(CallExpr { name, args }));
            } else if p.current_is(TokenKind::LBracket) {
                match p.advance() {
                    Err(e) => return Err(e),
                    Ok(_) => {},
                }
                let index = match parse_expr(p) {
                    Ok(e) => e,
                    Err(e) => return Err(e),
                };
                match p.expect_kind(TokenKind::RBracket, "']'") {
                    Err(e) => return Err(e),
                    Ok(_) => {},
                }
                return Ok(Expr::Index { name, index: Box::new(index) });
            } else {
                return Ok(Expr::Var(name));
            }
        },
        TokenKind::LParen => {
            match p.advance() {
                Err(e) => return Err(e),
                Ok(_) => {},
            }
            let expr = match parse_expr(p) {
                Ok(e) => e,
                Err(e) => return Err(e),
            };
            match p.expect_kind(TokenKind::RParen, "')'") {
                Err(e) => return Err(e),
                Ok(_) => {},
            }
            return Ok(expr);
        },
        _ => return Err(p.unexpected("expression")),
    };
    match p.advance() {
        Err(err) => Err(err),
        Ok(_) => Ok(e),
    }
}

} // verus!
