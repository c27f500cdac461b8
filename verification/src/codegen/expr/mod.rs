pub mod builtins;
pub mod call;
pub mod compare;

use vstd::prelude::*;

use crate::ast::{BinaryOp, Expr, UnaryOp};
use crate::bytecode::instr::{plain_model, OpCode};
use crate::bytecode::Instr;
use crate::codegen::symbols::{slot_of, unknown_variable_message};
use crate::codegen::{emitted, operand_model, spec_register, with_instr, Codegen, GenState, Outcome};
use crate::error::CompileError;

use self::builtins::{arity_ok, expr_builtin};
use self::compare::{emit_eq, emit_ne, is_string_operand};

verus! {

/// The operation of a unary operator.
pub open spec fn unary_opcode(op: UnaryOp) -> OpCode {
    match op {
        UnaryOp::Neg => OpCode::Neg,
        UnaryOp::Not => OpCode::Not,
    }
}

/// The operation of a binary operator; `=` and `<>` compare strings when
/// both operands are strings.
pub open spec fn binary_opcode(op: BinaryOp, strings: bool) -> OpCode {
    match op {
        BinaryOp::Add => OpCode::Add,
        BinaryOp::Sub => OpCode::Sub,
        BinaryOp::Mul => OpCode::Mul,
        BinaryOp::Div => OpCode::Div,
        BinaryOp::Eq => if strings {
            OpCode::StrEq
        } else {
            OpCode::Eq
        },
        BinaryOp::Ne => if strings {
            OpCode::StrNe
        } else {
            OpCode::Ne
        },
        BinaryOp::Lt => OpCode::Lt,
        BinaryOp::Le => OpCode::Le,
        BinaryOp::Gt => OpCode::Gt,
        BinaryOp::Ge => OpCode::Ge,
        BinaryOp::And => OpCode::And,
        BinaryOp::Or => OpCode::Or,
    }
}

/// The code of an expression appended to the generator's code: operands
/// first, left to right, then the operation. A variable that is not a local
/// is an error; a call of a name that is no built-in calls the function of
/// that name, entered in the function list when it is new.
pub open spec fn spec_emit_expr(st: GenState, e: Expr) -> Outcome
    decreases e, 0nat,
{
    match e {
        Expr::Int(v) => Ok(with_instr(st, (OpCode::ConstInt, v, false, Seq::<char>::empty(), 0u32))),
        Expr::Bool(b) => Ok(
            with_instr(st, (OpCode::ConstBool, 0i64, b, Seq::<char>::empty(), 0u32)),
        ),
        Expr::Str(s) => Ok(with_instr(st, (OpCode::ConstStr, 0i64, false, s@, 0u32))),
        Expr::Var(name) => match slot_of(st.syms, name@) {
            None => Err(unknown_variable_message(name@)),
            Some(i) => Ok(with_instr(st, operand_model(OpCode::Load, i as u32))),
        },
        Expr::Index { name, index } => match slot_of(st.syms, name@) {
            None => Err(unknown_variable_message(name@)),
            Some(i) => match spec_emit_expr(
                with_instr(st, operand_model(OpCode::Load, i as u32)),
                *index,
            ) {
                Err(m) => Err(m),
                Ok(s1) => Ok(with_instr(s1, plain_model(OpCode::LoadIndex))),
            },
        },
        Expr::Call(c) => {
            let n = c.args@.len();
            match expr_builtin(c.name@) {
                Some(rule) => if !arity_ok(rule.0, n) {
                    Err(rule.2)
                } else {
                    match spec_emit_args(st, c.args@, n) {
                        Err(m) => Err(m),
                        Ok(s1) => Ok(with_instr(s1, plain_model(rule.1))),
                    }
                },
                None => match spec_emit_args(st, c.args@, n) {
                    Err(m) => Err(m),
                    Ok(s1) => {
                        let (s2, idx) = spec_register(s1, c.name@, n as u32);
                        Ok(with_instr(s2, operand_model(OpCode::Call, idx)))
                    },
                },
            }
        },
        Expr::Unary { op, expr } => match spec_emit_expr(st, *expr) {
            Err(m) => Err(m),
            Ok(s1) => Ok(with_instr(s1, plain_model(unary_opcode(op)))),
        },
        Expr::Binary { op, left, right } => match spec_emit_expr(st, *left) {
            Err(m) => Err(m),
            Ok(s1) => match spec_emit_expr(s1, *right) {
                Err(m) => Err(m),
                Ok(s2) => Ok(
                    with_instr(
                        s2,
                        plain_model(
                            binary_opcode(
                                op,
                                is_string_operand(s2.syms, *left) && is_string_operand(
                                    s2.syms,
                                    *right,
                                ),
                            ),
                        ),
                    ),
                ),
            },
        },
    }
}

/// The code of the first `k` arguments, left to right.
pub open spec fn spec_emit_args(st: GenState, args: Seq<Expr>, k: nat) -> Outcome
    decreases args, k,
{
    if k == 0 || k > args.len() {
        Ok(st)
    } else {
        match spec_emit_args(st, args, (k - 1) as nat) {
            Err(m) => Err(m),
            Ok(s1) => spec_emit_expr(s1, args[k - 1]),
        }
    }
}

/// Once compiling `i` arguments fails, compiling more fails the same way.
pub proof fn lemma_emit_args_err(st: GenState, args: Seq<Expr>, i: nat, n: nat)
    requires
        0 < i <= n <= args.len(),
        spec_emit_args(st, args, i) is Err,
    ensures
        spec_emit_args(st, args, n) == spec_emit_args(st, args, i),
    decreases n - i,
{
    if i < n {
        lemma_emit_args_err(st, args, i, (n - 1) as nat);
    }
}

/// Appends the code of an expression.
pub fn emit_expr(cg: &mut Codegen, expr: &Expr) -> (r: Result<(), CompileError>)
    requires
        old(cg).wf(),
    ensures
        emitted(*old(cg), *final(cg), r, spec_emit_expr(old(cg).state(), *expr)),
    decreases expr, 4nat,
{
    match expr {
        Expr::Int(v) => cg.emit(Instr::ConstInt(*v)),
        Expr::Bool(v) => cg.emit(Instr::ConstBool(*v)),
        Expr::Str(s) => cg.emit(Instr::ConstStr(s.clone())),
        Expr::Var(name) => {
            let idx = match cg.symbols.get(name.as_str()) {
                Ok(i) => i,
                Err(e) => return Err(e),
            };
            cg.emit(Instr::Load(idx));
        },
        Expr::Index { name, index } => {
            let idx = match cg.symbols.get(name.as_str()) {
                Ok(i) => i,
                Err(e) => return Err(e),
            };
            cg.emit(Instr::Load(idx));
            match emit_expr(cg, index) {
                Err(e) => return Err(e),
                Ok(_) => {},
            }
            cg.emit(Instr::LoadIndex);
        },
        Expr::Call(c) => return call::emit_call_expr(cg, c),
        Expr::Unary { op, expr: inner } => {
            match emit_expr(cg, inner) {
                Err(e) => return Err(e),
                Ok(_) => {},
            }
            match op {
                UnaryOp::Neg => cg.emit(Instr::Neg),
                UnaryOp::Not => cg.emit(Instr::Not),
            }
        },
        Expr::Binary { op, left, right } => {
            match emit_expr(cg, left) {
                Err(e) => return Err(e),
                Ok(_) => {},
            }
            match emit_expr(cg, right) {
                Err(e) => return Err(e),
                Ok(_) => {},
            }
            match op {
                BinaryOp::Add => cg.emit(Instr::Add),
                BinaryOp::Sub => cg.emit(Instr::Sub),
                BinaryOp::Mul => cg.emit(Instr::Mul),
                BinaryOp::Div => cg.emit(Instr::Div),
                BinaryOp::Eq => emit_eq(cg, left, right),
                BinaryOp::Ne => emit_ne(cg, left, right),
                BinaryOp::Lt => cg.emit(Instr::Lt),
                BinaryOp::Le => cg.emit(Instr::Le),
                BinaryOp::Gt => cg.emit(Instr::Gt),
                BinaryOp::Ge => cg.emit(Instr::Ge),
                BinaryOp::And => cg.emit(Instr::And),
                BinaryOp::Or => cg.emit(Instr::Or),
            }
        },
    }
    Ok(())
}

} // verus!
