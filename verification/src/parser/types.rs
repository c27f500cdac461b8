use vstd::prelude::*;

use crate::ast::Type;
use crate::error::CompileError;
use crate::lexer::{TokenKind, TokenTag};

use super::grammar::{p_type, rank};
use super::{parsed, Parser};

verus! {

/// Parses a type name: `integer`, `boolean`, `string`, `array[n] of T`,
/// `option T`, `result T`, `vector [of T]` or `list [of T]` (of integers by
/// default), `stack`, `map` or `set`. Options, results and vectors hold
/// integers, booleans or strings only.
pub fn parse_type(p: &mut Parser<'_>) -> (r: Result<Type, CompileError>)
    requires
        old(p).wf(),
    ensures
        parsed(*old(p), *final(p), r, p_type(old(p).bytes(), old(p).at@), |t: Type| t, true),
    decreases rank(old(p).bytes(), old(p).at@),
{
    let ghost b = p.bytes();
    let ghost k = p.at@;
    let t = p.current.kind.tag();
    match t {
        TokenTag::Array => {
            match p.advance() {
                Err(e) => return Err(e),
                Ok(_) => {},
            }
            match p.expect_kind(TokenKind::LBracket, "'['") {
                Err(e) => return Err(e),
                Ok(_) => {},
            }
            let len: usize = match &p.current.kind {
                TokenKind::IntLit(v) => {
                    if *v >= 0 {
                        *v as usize
                    } else {
                        return Err(p.unexpected("array size integer"));
                    }
                },
                _ => return Err(p.unexpected("array size integer")),
            };
            match p.advance() {
                Err(e) => return Err(e),
                Ok(_) => {},
            }
            match p.expect_kind(TokenKind::RBracket, "']'") {
                Err(e) => return Err(e),
                Ok(_) => {},
            }
            match p.expect_keyword(TokenKind::Of, "of") {
                Err(e) => return Err(e),
                Ok(_) => {},
            }
            let elem = match parse_type(p) {
                Ok(t) => t,
                Err(e) => return Err(e),
            };
            Ok(Type::Array { elem: Box::new(elem), len })
        },
        TokenTag::Integer | TokenTag::Boolean | TokenTag::String | TokenTag::Stack
        | TokenTag::KwMap | TokenTag::KwSet => {
            match p.advance() {
                Err(e) => return Err(e),
                Ok(_) => {},
            }
            Ok(
                match t {
                    TokenTag::Integer => Type::Integer,
                    TokenTag::Boolean => Type::Boolean,
                    TokenTag::String => Type::String,
                    TokenTag::Stack => Type::StackInt,
                    TokenTag::KwMap => Type::MapStrStr,
                    _ => Type::SetStr,
                },
            )
        },
        TokenTag::Option | TokenTag::Result => {
            match p.advance() {
                Err(e) => return Err(e),
                Ok(_) => {},
            }
            let inner = match parse_type(p) {
                Ok(t) => t,
                Err(e) => return Err(e),
            };
            match inner {
                Type::Integer | Type::Boolean | Type::String => {
                    if t == TokenTag::Option {
                        Ok(Type::Option(Box::new(inner)))
                    } else {
                        Ok(Type::Result(Box::new(inner)))
                    }
                },
                _ => {
                    if t == TokenTag::Option {
                        Err(CompileError::simple("option only supports integer, boolean, or string"))
                    } else {
                        Err(CompileError::simple("result only supports integer, boolean, or string"))
                    }
                },
            }
        },
        TokenTag::Vector | TokenTag::List => {
            match p.advance() {
                Err(e) => return Err(e),
                Ok(_) => {},
            }
            let inner = if p.current_is(TokenKind::Of) {
                match p.advance() {
                    Err(e) => return Err(e),
                    Ok(_) => {},
                }
                match parse_type(p) {
                    Ok(t) => t,
                    Err(e) => return Err(e),
                }
            } else {
                Type::Integer
            };
            match inner {
                Type::Integer | Type::Boolean | Type::String => Ok(Type::Vector(Box::new(inner))),
                _ => Err(CompileError::simple("vector only supports integer, boolean, or string")),
            }
        },
        _ => Err(p.unexpected("type name")),
    }
}

} // verus!
