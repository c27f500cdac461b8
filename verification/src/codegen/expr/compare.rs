use vstd::prelude::*;

use crate::ast::{Expr, Type};
use crate::bytecode::instr::{plain_model, OpCode};
use crate::bytecode::Instr;
use crate::codegen::symbols::slot_of;
use crate::codegen::{with_instr, Codegen};

verus! {

/// Whether an operand is known to be a string: a string literal, or a local
/// declared as a string.
pub open spec fn is_string_operand(syms: Seq<(Seq<char>, Type)>, e: Expr) -> bool {
    match e {
        Expr::Str(_) => true,
        Expr::Var(name) => match slot_of(syms, name@) {
            Some(i) => syms[i].1 is String,
            None => false,
        },
        _ => false,
    }
}

/// Appends the comparison for `=`: a string comparison when both operands
/// are strings, else the plain one.
pub fn emit_eq(cg: &mut Codegen, left: &Expr, right: &Expr)
    ensures
        final(cg).state() == with_instr(
            old(cg).state(),
            plain_model(
                if is_string_operand(old(cg).state().syms, *left) && is_string_operand(
                    old(cg).state().syms,
                    *right,
                ) {
                    OpCode::StrEq
                } else {
                    OpCode::Eq
                },
            ),
        ),
        final(cg).code@.len() == old(cg).code@.len() + 1,
        final(cg).symbols == old(cg).symbols,
        final(cg).functions == old(cg).functions,
        final(cg).module_name == old(cg).module_name,
        final(cg).program_name == old(cg).program_name,
{
    if is_string_expr(cg, left) && is_string_expr(cg, right) {
        cg.emit(Instr::StrEq);
    } else {
        cg.emit(Instr::Eq);
    }
}

/// Appends the comparison for `<>`: a string comparison when both operands
/// are strings, else the plain one.
pub fn emit_ne(cg: &mut Codegen, left: &Expr, right: &Expr)
    ensures
        final(cg).state() == with_instr(
            old(cg).state(),
            plain_model(
                if is_string_operand(old(cg).state().syms, *left) && is_string_operand(
                    old(cg).state().syms,
                    *right,
                ) {
                    OpCode::StrNe
                } else {
                    OpCode::Ne
                },
            ),
        ),
        final(cg).code@.len() == old(cg).code@.len() + 1,
        final(cg).symbols == old(cg).symbols,
        final(cg).functions == old(cg).functions,
        final(cg).module_name == old(cg).module_name,
        final(cg).program_name == old(cg).program_name,
{
    if is_string_expr(cg, left) && is_string_expr(cg, right) {
        cg.emit(Instr::StrNe);
    } else {
        cg.emit(Instr::Ne);
    }
}

/// Whether an operand is known to be a string.
fn is_string_expr(cg: &Codegen, expr: &Expr) -> (b: bool)
    ensures
        b == is_string_operand(cg.state().syms, *expr),
{
    match expr {
        Expr::Str(_) => true,
        Expr::Var(name) => match cg.symbols.get_type(name.as_str()) {
            Some(Type::String) => true,
            _ => false,
        },
        _ => false,
    }
}

} // verus!
