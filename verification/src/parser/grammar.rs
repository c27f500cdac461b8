use vstd::prelude::*;

use crate::ast::{BinaryOp, BlockV, DeclV, ExprV, ProgramV, StmtV, Type, UnaryOp};
use crate::error::Span;
use crate::lexer::spelling::spelling;
use crate::lexer::token::bare;
use crate::lexer::{
    along, digits_end, ident_end, lemma_scan_ends, lemma_skip_forward, skip_comment, skip_trivia,
    skip_ws, spec_next_token, step, string_body, LexError, Pos, TokenModel, TokenTag,
};

verus! {

/// What parsing gives when it fails: a message and, where known, the place.
pub type PErr = (Seq<char>, Option<Span>);

/// What a parsing step gives: the value read and the index of the token
/// after it.
pub type PRes<T> = Result<(T, nat), PErr>;

/// The place where scanning starts.
pub open spec fn start_pos() -> Pos {
    Pos { idx: 0, line: 1, col: 1 }
}

/// The place after the first `k` tokens of the source.
#[verifier::opaque]
pub open spec fn lex_after(b: Seq<u8>, k: nat) -> Result<Pos, LexError>
    decreases k,
{
    if k == 0 {
        Ok(start_pos())
    } else {
        match lex_after(b, (k - 1) as nat) {
            Err(e) => Err(e),
            Ok(p) => match spec_next_token(b, p) {
                Err(e) => Err(e),
                Ok((_, q)) => Ok(q),
            },
        }
    }
}

/// Token `k` of the source, counting from zero; after the end every token is
/// `Eof`.
#[verifier::opaque]
pub open spec fn nth_token(b: Seq<u8>, k: nat) -> Result<TokenModel, LexError> {
    match lex_after(b, k) {
        Err(e) => Err(e),
        Ok(p) => match spec_next_token(b, p) {
            Err(e) => Err(e),
            Ok((t, _)) => Ok(t),
        },
    }
}

/// Token `k`, where it can be read.
pub open spec fn cur(b: Seq<u8>, k: nat) -> TokenModel {
    match nth_token(b, k) {
        Ok(t) => t,
        Err(_) => (bare(TokenTag::Eof), Span { line: 0, col: 0, len: 0 }),
    }
}

/// The tag of token `k`.
pub open spec fn tag_at(b: Seq<u8>, k: nat) -> TokenTag {
    cur(b, k).0.0
}

/// How much of the source is left before token `k`: it shrinks with every
/// token read other than `Eof`.
pub open spec fn rank(b: Seq<u8>, k: nat) -> nat {
    match lex_after(b, k) {
        Ok(p) => (b.len() - p.idx) as nat,
        Err(_) => 0,
    }
}

/// Moving on by one token: the parser keeps the token after the current
/// one read ahead, so the step fails when that token cannot be read.
pub open spec fn adv(b: Seq<u8>, k: nat) -> Result<nat, PErr> {
    match nth_token(b, k + 2) {
        Err((m, sp)) => Err((m, Some(sp))),
        Ok(_) => Ok(k + 1),
    }
}

/// The error of a step that would not move the parser; never met, since
/// every token read moves it on.
pub open spec fn stuck() -> PErr {
    ("parser made no progress"@, None)
}

/// The error of an unexpected token.
pub open spec fn unexpected(b: Seq<u8>, k: nat, expected: Seq<char>) -> PErr {
    ("expected "@ + expected, Some(cur(b, k).1))
}

/// Reads a token of the given tag.
pub open spec fn expect(b: Seq<u8>, k: nat, t: TokenTag, expected: Seq<char>) -> Result<nat, PErr> {
    if tag_at(b, k) == t {
        adv(b, k)
    } else {
        Err(unexpected(b, k, expected))
    }
}

/// Reads an identifier.
pub open spec fn expect_ident(b: Seq<u8>, k: nat) -> PRes<Seq<char>> {
    if tag_at(b, k) == TokenTag::Ident {
        match adv(b, k) {
            Err(e) => Err(e),
            Ok(k1) => Ok((cur(b, k).0.2, k1)),
        }
    } else {
        Err(unexpected(b, k, "identifier"@))
    }
}

/// Whether a type is one of integer, boolean and string.
pub open spec fn is_scalar(t: Type) -> bool {
    t is Integer || t is Boolean || t is String
}

/// A type name.
pub open spec fn p_type(b: Seq<u8>, k: nat) -> PRes<Type>
    decreases rank(b, k),
{
    let t = tag_at(b, k);
    if t == TokenTag::Array {
        match adv(b, k) {
            Err(e) => Err(e),
            Ok(k1) => match expect(b, k1, TokenTag::LBracket, "'['"@) {
                Err(e) => Err(e),
                Ok(k2) => if tag_at(b, k2) == TokenTag::IntLit && cur(b, k2).0.1 >= 0 {
                    match adv(b, k2) {
                        Err(e) => Err(e),
                        Ok(k3) => match expect(b, k3, TokenTag::RBracket, "']'"@) {
                            Err(e) => Err(e),
                            Ok(k4) => match expect(b, k4, TokenTag::Of, "of"@) {
                                Err(e) => Err(e),
                                Ok(k5) => if rank(b, k5) < rank(b, k) {
                                    match p_type(b, k5) {
                                        Err(e) => Err(e),
                                        Ok((elem, k6)) => Ok(
                                            (
                                                Type::Array {
                                                    elem: Box::new(elem),
                                                    len: cur(b, k2).0.1 as usize,
                                                },
                                                k6,
                                            ),
                                        ),
                                    }
                                } else {
                                    Err(stuck())
                                },
                            },
                        },
                    }
                } else {
                    Err(unexpected(b, k2, "array size integer"@))
                },
            },
        }
    } else if t == TokenTag::Integer || t == TokenTag::Boolean || t == TokenTag::String || t
        == TokenTag::Stack || t == TokenTag::KwMap || t == TokenTag::KwSet {
        match adv(b, k) {
            Err(e) => Err(e),
            Ok(k1) => Ok(
                (
                    if t == TokenTag::Integer {
                        Type::Integer
                    } else if t == TokenTag::Boolean {
                        Type::Boolean
                    } else if t == TokenTag::String {
                        Type::String
                    } else if t == TokenTag::Stack {
                        Type::StackInt
                    } else if t == TokenTag::KwMap {
                        Type::MapStrStr
                    } else {
                        Type::SetStr
                    },
                    k1,
                ),
            ),
        }
    } else if t == TokenTag::Option || t == TokenTag::Result {
        match adv(b, k) {
            Err(e) => Err(e),
            Ok(k1) => if rank(b, k1) < rank(b, k) {
                match p_type(b, k1) {
                    Err(e) => Err(e),
                    Ok((inner, k2)) => if !is_scalar(inner) {
                        Err(
                            (
                                if t == TokenTag::Option {
                                    "option only supports integer, boolean, or string"@
                                } else {
                                    "result only supports integer, boolean, or string"@
                                },
                                None,
                            ),
                        )
                    } else if t == TokenTag::Option {
                        Ok((Type::Option(Box::new(inner)), k2))
                    } else {
                        Ok((Type::Result(Box::new(inner)), k2))
                    },
                }
            } else {
                Err(stuck())
            },
        }
    } else if t == TokenTag::Vector || t == TokenTag::List {
        match adv(b, k) {
            Err(e) => Err(e),
            Ok(k1) => {
                let inner = if tag_at(b, k1) == TokenTag::Of {
                    match adv(b, k1) {
                        Err(e) => Err(e),
                        Ok(k2) => if rank(b, k2) < rank(b, k) {
                            p_type(b, k2)
                        } else {
                            Err(stuck())
                        },
                    }
                } else {
                    Ok((Type::Integer, k1))
                };
                match inner {
                    Err(e) => Err(e),
                    Ok((it, k3)) => if is_scalar(it) {
                        Ok((Type::Vector(Box::new(it)), k3))
                    } else {
                        Err(("vector only supports integer, boolean, or string"@, None))
                    },
                }
            },
        }
    } else {
        Err(unexpected(b, k, "type name"@))
    }
}

/// The binary operator that token tag `t` stands for at precedence level
/// `lvl`: 4 `or`, 3 `and`, 2 comparisons, 1 `+` and `-`, 0 `*` and `/`.
pub open spec fn binop_at(lvl: nat, t: TokenTag) -> Option<BinaryOp> {
    if lvl == 4 {
        if t == TokenTag::Or {
            Some(BinaryOp::Or)
        } else {
            None
        }
    } else if lvl == 3 {
        if t == TokenTag::And {
            Some(BinaryOp::And)
        } else {
            None
        }
    } else if lvl == 2 {
        if t == TokenTag::Eq {
            Some(BinaryOp::Eq)
        } else if t == TokenTag::Ne {
            Some(BinaryOp::Ne)
        } else if t == TokenTag::Lt {
            Some(BinaryOp::Lt)
        } else if t == TokenTag::Le {
            Some(BinaryOp::Le)
        } else if t == TokenTag::Gt {
            Some(BinaryOp::Gt)
        } else if t == TokenTag::Ge {
            Some(BinaryOp::Ge)
        } else {
            None
        }
    } else if lvl == 1 {
        if t == TokenTag::Plus {
            Some(BinaryOp::Add)
        } else if t == TokenTag::Minus {
            Some(BinaryOp::Sub)
        } else {
            None
        }
    } else {
        if t == TokenTag::Star {
            Some(BinaryOp::Mul)
        } else if t == TokenTag::Slash {
            Some(BinaryOp::Div)
        } else {
            None
        }
    }
}

/// How a binary operator is written in the source.
pub open spec fn op_symbol(op: BinaryOp) -> Seq<char> {
    match op {
        BinaryOp::Add => seq!['+'],
        BinaryOp::Sub => seq!['-'],
        BinaryOp::Mul => seq!['*'],
        BinaryOp::Div => seq!['/'],
        BinaryOp::Eq => seq!['='],
        BinaryOp::Ne => seq!['<', '>'],
        BinaryOp::Lt => seq!['<'],
        BinaryOp::Le => seq!['<', '='],
        BinaryOp::Gt => seq!['>'],
        BinaryOp::Ge => seq!['>', '='],
        BinaryOp::And => seq!['a', 'n', 'd'],
        BinaryOp::Or => seq!['o', 'r'],
    }
}

/// Each operator token parses to the operator it spells (`>=` to `Ge`, `>`
/// to `Gt`, `and` to `And`), and no two different tokens parse to the same
/// operator, at whatever precedence levels they are read.
pub proof fn lemma_binop_spelling(lvl: nat, t: TokenTag, lvl2: nat, t2: TokenTag)
    ensures
        binop_at(lvl, t) is Some ==> spelling(t) == op_symbol(binop_at(lvl, t).unwrap()),
        binop_at(lvl, t) is Some && binop_at(lvl, t) == binop_at(lvl2, t2) ==> t == t2,
{
}

/// An expression.
pub open spec fn p_expr(b: Seq<u8>, k: nat) -> PRes<ExprV>
    decreases rank(b, k), 12nat,
{
    p_level(b, 4, k)
}

/// The operand of level `lvl`: the next level down, or a unary expression
/// below level 0.
pub open spec fn p_operand(b: Seq<u8>, lvl: nat, k: nat) -> PRes<ExprV>
    decreases rank(b, k), 2 * lvl + 2,
{
    if lvl == 0 {
        p_unary(b, k)
    } else {
        p_level(b, (lvl - 1) as nat, k)
    }
}

/// An expression of level `lvl`: operands joined by the level's operators,
/// grouped from the left.
pub open spec fn p_level(b: Seq<u8>, lvl: nat, k: nat) -> PRes<ExprV>
    decreases rank(b, k), 2 * lvl + 3,
{
    match p_operand(b, lvl, k) {
        Err(e) => Err(e),
        Ok((l, k1)) => if rank(b, k1) <= rank(b, k) {
            p_level_rest(b, lvl, l, k1)
        } else {
            Err(stuck())
        },
    }
}

/// The rest of an expression of level `lvl` whose left part is `l`.
pub open spec fn p_level_rest(b: Seq<u8>, lvl: nat, l: ExprV, k: nat) -> PRes<ExprV>
    decreases rank(b, k), 2 * lvl + 2,
{
    match binop_at(lvl, tag_at(b, k)) {
        None => Ok((l, k)),
        Some(op) => match adv(b, k) {
            Err(e) => Err(e),
            Ok(k1) => if rank(b, k1) < rank(b, k) {
                match p_operand(b, lvl, k1) {
                    Err(e) => Err(e),
                    Ok((r, k2)) => if rank(b, k2) < rank(b, k) {
                        p_level_rest(b, lvl, ExprV::Binary(op, Box::new(l), Box::new(r)), k2)
                    } else {
                        Err(stuck())
                    },
                }
            } else {
                Err(stuck())
            },
        },
    }
}

/// A unary expression: `-` and `not` before a primary expression.
pub open spec fn p_unary(b: Seq<u8>, k: nat) -> PRes<ExprV>
    decreases rank(b, k), 1nat,
{
    let t = tag_at(b, k);
    if t == TokenTag::Minus || t == TokenTag::Not {
        match adv(b, k) {
            Err(e) => Err(e),
            Ok(k1) => if rank(b, k1) < rank(b, k) {
                match p_unary(b, k1) {
                    Err(e) => Err(e),
                    Ok((x, k2)) => Ok(
                        (
                            ExprV::Unary(
                                if t == TokenTag::Minus {
                                    UnaryOp::Neg
                                } else {
                                    UnaryOp::Not
                                },
                                Box::new(x),
                            ),
                            k2,
                        ),
                    ),
                }
            } else {
                Err(stuck())
            },
        }
    } else {
        p_primary(b, k)
    }
}

/// A primary expression: a literal, a variable, an element, a call, or an
/// expression in parentheses.
pub open spec fn p_primary(b: Seq<u8>, k: nat) -> PRes<ExprV>
    decreases rank(b, k), 0nat,
{
    let t = tag_at(b, k);
    let c = cur(b, k).0;
    if t == TokenTag::IntLit || t == TokenTag::True || t == TokenTag::False || t
        == TokenTag::StringLit {
        match adv(b, k) {
            Err(e) => Err(e),
            Ok(k1) => Ok(
                (
                    if t == TokenTag::IntLit {
                        ExprV::Int(c.1)
                    } else if t == TokenTag::True {
                        ExprV::Bool(true)
                    } else if t == TokenTag::False {
                        ExprV::Bool(false)
                    } else {
                        ExprV::Str(c.2)
                    },
                    k1,
                ),
            ),
        }
    } else if t == TokenTag::Ident {
        match adv(b, k) {
            Err(e) => Err(e),
            Ok(k1) => if rank(b, k1) < rank(b, k) {
                if tag_at(b, k1) == TokenTag::LParen {
                    match p_call_args(b, k1) {
                        Err(e) => Err(e),
                        Ok((args, k2)) => Ok((ExprV::Call(c.2, args), k2)),
                    }
                } else if tag_at(b, k1) == TokenTag::LBracket {
                    match adv(b, k1) {
                        Err(e) => Err(e),
                        Ok(k2) => if rank(b, k2) < rank(b, k) {
                            match p_expr(b, k2) {
                                Err(e) => Err(e),
                                Ok((ix, k3)) => match expect(b, k3, TokenTag::RBracket, "']'"@) {
                                    Err(e) => Err(e),
                                    Ok(k4) => Ok((ExprV::Index(c.2, Box::new(ix)), k4)),
                                },
                            }
                        } else {
                            Err(stuck())
                        },
                    }
                } else {
                    Ok((ExprV::Var(c.2), k1))
                }
            } else {
                Err(stuck())
            },
        }
    } else if t == TokenTag::LParen {
        match adv(b, k) {
            Err(e) => Err(e),
            Ok(k1) => if rank(b, k1) < rank(b, k) {
                match p_expr(b, k1) {
                    Err(e) => Err(e),
                    Ok((x, k2)) => match expect(b, k2, TokenTag::RParen, "')'"@) {
                        Err(e) => Err(e),
                        Ok(k3) => Ok((x, k3)),
                    },
                }
            } else {
                Err(stuck())
            },
        }
    } else {
        Err(unexpected(b, k, "expression"@))
    }
}

/// The arguments of a call, in parentheses and separated by commas.
pub open spec fn p_call_args(b: Seq<u8>, k: nat) -> PRes<Seq<ExprV>>
    decreases rank(b, k), 0nat,
{
    match expect(b, k, TokenTag::LParen, "'('"@) {
        Err(e) => Err(e),
        Ok(k1) => {
            let list = if tag_at(b, k1) == TokenTag::RParen {
                Ok((Seq::<ExprV>::empty(), k1))
            } else if rank(b, k1) < rank(b, k) {
                match p_expr(b, k1) {
                    Err(e) => Err(e),
                    Ok((x, k2)) => if rank(b, k2) < rank(b, k) {
                        p_args_rest(b, seq![x], k2)
                    } else {
                        Err(stuck())
                    },
                }
            } else {
                Err(stuck())
            };
            match list {
                Err(e) => Err(e),
                Ok((args, k3)) => match expect(b, k3, TokenTag::RParen, "')'"@) {
                    Err(e) => Err(e),
                    Ok(k4) => Ok((args, k4)),
                },
            }
        },
    }
}

/// More arguments after a comma, after those in `acc`.
pub open spec fn p_args_rest(b: Seq<u8>, acc: Seq<ExprV>, k: nat) -> PRes<Seq<ExprV>>
    decreases rank(b, k), 0nat,
{
    if tag_at(b, k) == TokenTag::Comma {
        match adv(b, k) {
            Err(e) => Err(e),
            Ok(k1) => if rank(b, k1) < rank(b, k) {
                match p_expr(b, k1) {
                    Err(e) => Err(e),
                    Ok((x, k2)) => if rank(b, k2) < rank(b, k) {
                        p_args_rest(b, acc.push(x), k2)
                    } else {
                        Err(stuck())
                    },
                }
            } else {
                Err(stuck())
            },
        }
    } else {
        Ok((acc, k))
    }
}

/// More identifiers after a comma, after those in `acc`.
pub open spec fn p_ident_rest(b: Seq<u8>, acc: Seq<Seq<char>>, k: nat) -> PRes<Seq<Seq<char>>>
    decreases rank(b, k),
{
    if tag_at(b, k) == TokenTag::Comma {
        match adv(b, k) {
            Err(e) => Err(e),
            Ok(k1) => match expect_ident(b, k1) {
                Err(e) => Err(e),
                Ok((n, k2)) => if rank(b, k2) < rank(b, k) {
                    p_ident_rest(b, acc.push(n), k2)
                } else {
                    Err(stuck())
                },
            },
        }
    } else {
        Ok((acc, k))
    }
}

/// Identifiers separated by commas.
pub open spec fn p_ident_list(b: Seq<u8>, k: nat) -> PRes<Seq<Seq<char>>> {
    match expect_ident(b, k) {
        Err(e) => Err(e),
        Ok((n, k1)) => p_ident_rest(b, seq![n], k1),
    }
}

/// `name := expr`.
pub open spec fn p_assignment(b: Seq<u8>, k: nat) -> PRes<StmtV> {
    match expect_ident(b, k) {
        Err(e) => Err(e),
        Ok((name, k1)) => match expect(b, k1, TokenTag::Assign, "':='"@) {
            Err(e) => Err(e),
            Ok(k2) => match p_expr(b, k2) {
                Err(e) => Err(e),
                Ok((x, k3)) => Ok((StmtV::Assign(name, x), k3)),
            },
        },
    }
}

/// `name[index] := expr`.
pub open spec fn p_index_assignment(b: Seq<u8>, k: nat) -> PRes<StmtV> {
    match expect_ident(b, k) {
        Err(e) => Err(e),
        Ok((name, k1)) => match expect(b, k1, TokenTag::LBracket, "'['"@) {
            Err(e) => Err(e),
            Ok(k2) => match p_expr(b, k2) {
                Err(e) => Err(e),
                Ok((ix, k3)) => match expect(b, k3, TokenTag::RBracket, "']'"@) {
                    Err(e) => Err(e),
                    Ok(k4) => match expect(b, k4, TokenTag::Assign, "':='"@) {
                        Err(e) => Err(e),
                        Ok(k5) => match p_expr(b, k5) {
                            Err(e) => Err(e),
                            Ok((x, k6)) => Ok((StmtV::AssignIndex(name, ix, x), k6)),
                        },
                    },
                },
            },
        },
    }
}

/// A procedure call.
pub open spec fn p_call_stmt(b: Seq<u8>, k: nat) -> PRes<StmtV> {
    match expect_ident(b, k) {
        Err(e) => Err(e),
        Ok((name, k1)) => match p_call_args(b, k1) {
            Err(e) => Err(e),
            Ok((args, k2)) => Ok((StmtV::Call(name, args), k2)),
        },
    }
}

/// `writeln(expr)`.
pub open spec fn p_writeln(b: Seq<u8>, k: nat) -> PRes<StmtV> {
    match expect(b, k, TokenTag::Writeln, "writeln"@) {
        Err(e) => Err(e),
        Ok(k1) => match expect(b, k1, TokenTag::LParen, "'('"@) {
            Err(e) => Err(e),
            Ok(k2) => match p_expr(b, k2) {
                Err(e) => Err(e),
                Ok((x, k3)) => match expect(b, k3, TokenTag::RParen, "')'"@) {
                    Err(e) => Err(e),
                    Ok(k4) => Ok((StmtV::Writeln(x), k4)),
                },
            },
        },
    }
}

/// `readln(a, b, ...)`.
pub open spec fn p_readln(b: Seq<u8>, k: nat) -> PRes<StmtV> {
    match expect(b, k, TokenTag::Readln, "readln"@) {
        Err(e) => Err(e),
        Ok(k1) => match expect(b, k1, TokenTag::LParen, "'('"@) {
            Err(e) => Err(e),
            Ok(k2) => match p_ident_list(b, k2) {
                Err(e) => Err(e),
                Ok((names, k3)) => match expect(b, k3, TokenTag::RParen, "')'"@) {
                    Err(e) => Err(e),
                    Ok(k4) => Ok((StmtV::Readln(names), k4)),
                },
            },
        },
    }
}

/// `return`, with a value unless `;` or `end` follows.
pub open spec fn p_return(b: Seq<u8>, k: nat) -> PRes<StmtV> {
    match expect(b, k, TokenTag::Return, "return"@) {
        Err(e) => Err(e),
        Ok(k1) => if tag_at(b, k1) == TokenTag::Semi || tag_at(b, k1) == TokenTag::End {
            Ok((StmtV::Return(None), k1))
        } else {
            match p_expr(b, k1) {
                Err(e) => Err(e),
                Ok((x, k2)) => Ok((StmtV::Return(Some(x)), k2)),
            }
        },
    }
}

/// A statement: by its first token (and, for an identifier, the one after
/// it).
pub open spec fn p_statement(b: Seq<u8>, k: nat) -> PRes<StmtV>
    decreases rank(b, k), 3nat,
{
    let t = tag_at(b, k);
    if t == TokenTag::Ident {
        let n = tag_at(b, k + 1);
        if n == TokenTag::Assign {
            p_assignment(b, k)
        } else if n == TokenTag::LParen {
            p_call_stmt(b, k)
        } else if n == TokenTag::LBracket {
            p_index_assignment(b, k)
        } else {
            Err(unexpected(b, k, "assignment or call"@))
        }
    } else if t == TokenTag::Writeln {
        p_writeln(b, k)
    } else if t == TokenTag::Readln {
        p_readln(b, k)
    } else if t == TokenTag::Return {
        p_return(b, k)
    } else if t == TokenTag::If {
        p_if(b, k)
    } else if t == TokenTag::While {
        p_while(b, k)
    } else if t == TokenTag::Begin {
        match p_compound(b, k) {
            Err(e) => Err(e),
            Ok((ss, k1)) => Ok((StmtV::Compound(ss), k1)),
        }
    } else {
        Err(unexpected(b, k, "statement"@))
    }
}

/// `if cond then stmt`, with an optional `else stmt`.
pub open spec fn p_if(b: Seq<u8>, k: nat) -> PRes<StmtV>
    decreases rank(b, k), 2nat,
{
    match expect(b, k, TokenTag::If, "if"@) {
        Err(e) => Err(e),
        Ok(k1) => match p_expr(b, k1) {
            Err(e) => Err(e),
            Ok((c, k2)) => match expect(b, k2, TokenTag::Then, "then"@) {
                Err(e) => Err(e),
                Ok(k3) => if rank(b, k3) < rank(b, k) {
                    match p_statement(b, k3) {
                        Err(e) => Err(e),
                        Ok((t, k4)) => if tag_at(b, k4) == TokenTag::Else {
                            match adv(b, k4) {
                                Err(e) => Err(e),
                                Ok(k5) => if rank(b, k5) < rank(b, k) {
                                    match p_statement(b, k5) {
                                        Err(e) => Err(e),
                                        Ok((f, k6)) => Ok(
                                            (StmtV::If(c, Box::new(t), Some(Box::new(f))), k6),
                                        ),
                                    }
                                } else {
                                    Err(stuck())
                                },
                            }
                        } else {
                            Ok((StmtV::If(c, Box::new(t), None), k4))
                        },
                    }
                } else {
                    Err(stuck())
                },
            },
        },
    }
}

/// `while cond do stmt`.
pub open spec fn p_while(b: Seq<u8>, k: nat) -> PRes<StmtV>
    decreases rank(b, k), 2nat,
{
    match expect(b, k, TokenTag::While, "while"@) {
        Err(e) => Err(e),
        Ok(k1) => match p_expr(b, k1) {
            Err(e) => Err(e),
            Ok((c, k2)) => match expect(b, k2, TokenTag::Do, "do"@) {
                Err(e) => Err(e),
                Ok(k3) => if rank(b, k3) < rank(b, k) {
                    match p_statement(b, k3) {
                        Err(e) => Err(e),
                        Ok((s, k4)) => Ok((StmtV::While(c, Box::new(s)), k4)),
                    }
                } else {
                    Err(stuck())
                },
            },
        },
    }
}

/// `begin ... end`: statements separated by `;`; a lone `;` is an empty
/// statement.
pub open spec fn p_compound(b: Seq<u8>, k: nat) -> PRes<Seq<StmtV>>
    decreases rank(b, k), 2nat,
{
    match expect(b, k, TokenTag::Begin, "begin"@) {
        Err(e) => Err(e),
        Ok(k1) => if rank(b, k1) < rank(b, k) {
            p_compound_rest(b, Seq::empty(), k1)
        } else {
            Err(stuck())
        },
    }
}

/// The statements of a compound statement after those in `acc`, up to and
/// including its `end`.
pub open spec fn p_compound_rest(b: Seq<u8>, acc: Seq<StmtV>, k: nat) -> PRes<Seq<StmtV>>
    decreases rank(b, k), 4nat,
{
    let t = tag_at(b, k);
    if t == TokenTag::End {
        match expect(b, k, TokenTag::End, "end"@) {
            Err(e) => Err(e),
            Ok(k1) => Ok((acc, k1)),
        }
    } else if t == TokenTag::Semi {
        match adv(b, k) {
            Err(e) => Err(e),
            Ok(k1) => if rank(b, k1) < rank(b, k) {
                p_compound_rest(b, acc.push(StmtV::Empty), k1)
            } else {
                Err(stuck())
            },
        }
    } else {
        match p_statement(b, k) {
            Err(e) => Err(e),
            Ok((s, k1)) => if rank(b, k1) < rank(b, k) {
                if tag_at(b, k1) == TokenTag::Semi {
                    match adv(b, k1) {
                        Err(e) => Err(e),
                        Ok(k2) => if rank(b, k2) < rank(b, k) {
                            p_compound_rest(b, acc.push(s), k2)
                        } else {
                            Err(stuck())
                        },
                    }
                } else if tag_at(b, k1) != TokenTag::End {
                    Err(unexpected(b, k1, "';' or 'end'"@))
                } else {
                    p_compound_rest(b, acc.push(s), k1)
                }
            } else {
                Err(stuck())
            },
        }
    }
}

/// The variable declarations `names : type ;` after those in `acc`.
pub open spec fn p_var_decls(b: Seq<u8>, acc: Seq<DeclV>, k: nat) -> PRes<Seq<DeclV>>
    decreases rank(b, k),
{
    if tag_at(b, k) == TokenTag::Ident {
        match p_ident_list(b, k) {
            Err(e) => Err(e),
            Ok((names, k1)) => match expect(b, k1, TokenTag::Colon, "':'"@) {
                Err(e) => Err(e),
                Ok(k2) => match p_type(b, k2) {
                    Err(e) => Err(e),
                    Ok((ty, k3)) => match expect(b, k3, TokenTag::Semi, "';'"@) {
                        Err(e) => Err(e),
                        Ok(k4) => if rank(b, k4) < rank(b, k) {
                            p_var_decls(
                                b,
                                acc + names.map_values(|n: Seq<char>| DeclV::Var(n, ty)),
                                k4,
                            )
                        } else {
                            Err(stuck())
                        },
                    },
                },
            },
        }
    } else {
        Ok((acc, k))
    }
}

/// The `var` section of a block, if any.
pub open spec fn p_var_section(b: Seq<u8>, k: nat) -> PRes<Seq<DeclV>> {
    if tag_at(b, k) == TokenTag::Var {
        match adv(b, k) {
            Err(e) => Err(e),
            Ok(k1) => p_var_decls(b, Seq::empty(), k1),
        }
    } else {
        Ok((Seq::empty(), k))
    }
}

/// Parameter groups `names : type` separated by `;`, after those in `acc`.
pub open spec fn p_params_rest(b: Seq<u8>, acc: Seq<(Seq<char>, Type)>, k: nat) -> PRes<
    Seq<(Seq<char>, Type)>,
>
    decreases rank(b, k),
{
    match p_ident_list(b, k) {
        Err(e) => Err(e),
        Ok((names, k1)) => match expect(b, k1, TokenTag::Colon, "':'"@) {
            Err(e) => Err(e),
            Ok(k2) => match p_type(b, k2) {
                Err(e) => Err(e),
                Ok((ty, k3)) => {
                    let acc2 = acc + names.map_values(|n: Seq<char>| (n, ty));
                    if tag_at(b, k3) == TokenTag::Semi {
                        match adv(b, k3) {
                            Err(e) => Err(e),
                            Ok(k4) => if rank(b, k4) < rank(b, k) {
                                p_params_rest(b, acc2, k4)
                            } else {
                                Err(stuck())
                            },
                        }
                    } else {
                        Ok((acc2, k3))
                    }
                },
            },
        },
    }
}

/// A parameter list in parentheses, if any.
pub open spec fn p_param_list(b: Seq<u8>, k: nat) -> PRes<Seq<(Seq<char>, Type)>> {
    if tag_at(b, k) != TokenTag::LParen {
        Ok((Seq::empty(), k))
    } else {
        match expect(b, k, TokenTag::LParen, "'('"@) {
            Err(e) => Err(e),
            Ok(k1) => {
                let list = if tag_at(b, k1) != TokenTag::RParen {
                    p_params_rest(b, Seq::empty(), k1)
                } else {
                    Ok((Seq::empty(), k1))
                };
                match list {
                    Err(e) => Err(e),
                    Ok((ps, k2)) => match expect(b, k2, TokenTag::RParen, "')'"@) {
                        Err(e) => Err(e),
                        Ok(k3) => Ok((ps, k3)),
                    },
                }
            },
        }
    }
}

/// A block: an optional `var` section, procedure and function
/// declarations, then a compound statement.
pub open spec fn p_block(b: Seq<u8>, k: nat) -> PRes<BlockV>
    decreases rank(b, k), 6nat,
{
    match p_var_section(b, k) {
        Err(e) => Err(e),
        Ok((ds, k1)) => if rank(b, k1) <= rank(b, k) {
            match p_subprograms(b, ds, k1) {
                Err(e) => Err(e),
                Ok((ds2, k2)) => match p_compound(b, k2) {
                    Err(e) => Err(e),
                    Ok((ss, k3)) => Ok((BlockV { decls: ds2, stmts: ss }, k3)),
                },
            }
        } else {
            Err(stuck())
        },
    }
}

/// Procedure and function declarations after the declarations in `acc`.
pub open spec fn p_subprograms(b: Seq<u8>, acc: Seq<DeclV>, k: nat) -> PRes<Seq<DeclV>>
    decreases rank(b, k), 5nat,
{
    let t = tag_at(b, k);
    if t == TokenTag::Procedure || t == TokenTag::Function {
        match (if t == TokenTag::Procedure {
            p_proc_decl(b, k)
        } else {
            p_func_decl(b, k)
        }) {
            Err(e) => Err(e),
            Ok((d, k1)) => if rank(b, k1) < rank(b, k) {
                p_subprograms(b, acc.push(d), k1)
            } else {
                Err(stuck())
            },
        }
    } else {
        Ok((acc, k))
    }
}

/// `procedure name(params); block;`.
pub open spec fn p_proc_decl(b: Seq<u8>, k: nat) -> PRes<DeclV>
    decreases rank(b, k), 4nat,
{
    match expect(b, k, TokenTag::Procedure, "procedure"@) {
        Err(e) => Err(e),
        Ok(k1) => match expect_ident(b, k1) {
            Err(e) => Err(e),
            Ok((name, k2)) => match p_param_list(b, k2) {
                Err(e) => Err(e),
                Ok((ps, k3)) => match expect(b, k3, TokenTag::Semi, "';'"@) {
                    Err(e) => Err(e),
                    Ok(k4) => if rank(b, k4) < rank(b, k) {
                        match p_block(b, k4) {
                            Err(e) => Err(e),
                            Ok((blk, k5)) => match expect(b, k5, TokenTag::Semi, "';'"@) {
                                Err(e) => Err(e),
                                Ok(k6) => Ok((DeclV::Proc(name, ps, blk), k6)),
                            },
                        }
                    } else {
                        Err(stuck())
                    },
                },
            },
        },
    }
}

/// `function name(params): type; block;`.
pub open spec fn p_func_decl(b: Seq<u8>, k: nat) -> PRes<DeclV>
    decreases rank(b, k), 4nat,
{
    match expect(b, k, TokenTag::Function, "function"@) {
        Err(e) => Err(e),
        Ok(k1) => match expect_ident(b, k1) {
            Err(e) => Err(e),
            Ok((name, k2)) => match p_param_list(b, k2) {
                Err(e) => Err(e),
                Ok((ps, k3)) => match expect(b, k3, TokenTag::Colon, "':'"@) {
                    Err(e) => Err(e),
                    Ok(k4) => match p_type(b, k4) {
                        Err(e) => Err(e),
                        Ok((ret, k5)) => match expect(b, k5, TokenTag::Semi, "';'"@) {
                            Err(e) => Err(e),
                            Ok(k6) => if rank(b, k6) < rank(b, k) {
                                match p_block(b, k6) {
                                    Err(e) => Err(e),
                                    Ok((blk, k7)) => match expect(b, k7, TokenTag::Semi, "';'"@) {
                                        Err(e) => Err(e),
                                        Ok(k8) => Ok((DeclV::Func(name, ps, ret, blk), k8)),
                                    },
                                }
                            } else {
                                Err(stuck())
                            },
                        },
                    },
                },
            },
        },
    }
}

/// The `uses` clause of a program, if any.
pub open spec fn p_uses(b: Seq<u8>, k: nat) -> PRes<Seq<Seq<char>>> {
    if tag_at(b, k) == TokenTag::Uses {
        match adv(b, k) {
            Err(e) => Err(e),
            Ok(k1) => match p_ident_list(b, k1) {
                Err(e) => Err(e),
                Ok((us, k2)) => match expect(b, k2, TokenTag::Semi, "';'"@) {
                    Err(e) => Err(e),
                    Ok(k3) => Ok((us, k3)),
                },
            },
        }
    } else {
        Ok((Seq::empty(), k))
    }
}

/// A whole program from token `k`: `program name;`, an optional `uses`
/// clause, a block, `.` and the end of the source.
pub open spec fn p_program(b: Seq<u8>, k: nat) -> PRes<ProgramV> {
    match expect(b, k, TokenTag::Program, "program"@) {
        Err(e) => Err(e),
        Ok(k1) => match expect_ident(b, k1) {
            Err(e) => Err(e),
            Ok((name, k2)) => match expect(b, k2, TokenTag::Semi, "';'"@) {
                Err(e) => Err(e),
                Ok(k3) => match p_uses(b, k3) {
                    Err(e) => Err(e),
                    Ok((uses, k4)) => match p_block(b, k4) {
                        Err(e) => Err(e),
                        Ok((blk, k5)) => match expect(b, k5, TokenTag::Dot, "'.'"@) {
                            Err(e) => Err(e),
                            Ok(k6) => match expect(b, k6, TokenTag::Eof, "end of file"@) {
                                Err(e) => Err(e),
                                Ok(k7) => Ok((ProgramV { name, uses, block: blk }, k7)),
                            },
                        },
                    },
                },
            },
        },
    }
}

/// Skipping whitespace and comments never moves back nor past the end.
pub proof fn lemma_skip_trivia_bounds(b: Seq<u8>, p: Pos)
    requires
        p.idx <= b.len(),
    ensures
        skip_trivia(b, p) matches Ok(q) ==> p.idx <= q.idx <= b.len(),
    decreases b.len() - p.idx,
{
    lemma_skip_forward(b, p);
    let q = skip_ws(b, p);
    if q.idx < b.len() && b[q.idx as int] == 123 {
        lemma_skip_forward(b, step(b, q));
        let (r, closed) = skip_comment(b, step(b, q));
        if closed {
            lemma_skip_trivia_bounds(b, r);
        }
    }
}

/// A token read from a place in the source ends after it and within the
/// source; every token but `Eof` takes at least one byte.
pub proof fn lemma_next_token_bounds(b: Seq<u8>, p: Pos)
    requires
        p.idx <= b.len(),
    ensures
        spec_next_token(b, p) matches Ok((t, q)) ==> p.idx <= q.idx <= b.len() && (t.0.0
            != TokenTag::Eof ==> p.idx < q.idx),
{
    lemma_skip_trivia_bounds(b, p);
    if let Ok(t) = skip_trivia(b, p) {
        if t.idx < b.len() {
            lemma_scan_ends(b, t.idx);
            lemma_scan_ends(b, t.idx + 1);
        }
    }
}

/// Every place reached by reading tokens lies within the source.
pub proof fn lemma_lex_after_bounds(b: Seq<u8>, k: nat)
    ensures
        lex_after(b, k) matches Ok(p) ==> p.idx <= b.len(),
    decreases k,
{
    reveal(lex_after);
    if k > 0 {
        lemma_lex_after_bounds(b, (k - 1) as nat);
        if let Ok(p) = lex_after(b, (k - 1) as nat) {
            lemma_next_token_bounds(b, p);
        }
    }
}

/// Reading a token never leaves more source than before, and reading one
/// other than `Eof` leaves less.
pub proof fn lemma_rank_step(b: Seq<u8>, k: nat)
    requires
        nth_token(b, k) is Ok,
    ensures
        lex_after(b, k + 1) is Ok,
        rank(b, k + 1) <= rank(b, k),
        tag_at(b, k) != TokenTag::Eof ==> rank(b, k + 1) < rank(b, k),
{
    reveal(lex_after);
    reveal(nth_token);
    lemma_lex_after_bounds(b, k);
    let p = lex_after(b, k)->Ok_0;
    lemma_next_token_bounds(b, p);
}

/// Reading the token after the two read ahead: what the lexer gives from
/// the place after token `k + 1` is token `k + 2`, and the place after it
/// is the place after token `k + 2`.
pub proof fn lemma_read_ahead(b: Seq<u8>, k: nat, p: Pos)
    requires
        lex_after(b, k + 2) == Ok::<Pos, LexError>(p),
    ensures
        match spec_next_token(b, p) {
            Ok((t, q)) => nth_token(b, k + 2) == Ok::<TokenModel, LexError>(t) && lex_after(
                b,
                k + 3,
            ) == Ok::<Pos, LexError>(q),
            Err(e) => nth_token(b, k + 2) == Err::<TokenModel, LexError>(e),
        },
{
    reveal(lex_after);
    reveal(nth_token);
}

/// The first two tokens of the source and the place after them.
pub proof fn lemma_first_tokens(b: Seq<u8>)
    ensures
        lex_after(b, 0) == Ok::<Pos, LexError>(start_pos()),
        match spec_next_token(b, start_pos()) {
            Ok((t, q)) => {
                &&& nth_token(b, 0) == Ok::<TokenModel, LexError>(t)
                &&& lex_after(b, 1) == Ok::<Pos, LexError>(q)
                &&& match spec_next_token(b, q) {
                    Ok((t2, q2)) => nth_token(b, 1) == Ok::<TokenModel, LexError>(t2) && lex_after(
                        b,
                        2,
                    ) == Ok::<Pos, LexError>(q2),
                    Err(e) => nth_token(b, 1) == Err::<TokenModel, LexError>(e),
                }
            },
            Err(e) => nth_token(b, 0) == Err::<TokenModel, LexError>(e),
        },
{
    reveal(lex_after);
    reveal(nth_token);
    reveal_with_fuel(lex_after, 3);
}

} // verus!
