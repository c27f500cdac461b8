use vstd::prelude::*;

use crate::ast::{Assign, AssignIndex, Stmt};
use crate::bytecode::Instr;
use crate::codegen::expr::emit_expr;
use crate::codegen::{emitted, Codegen};
use crate::error::CompileError;

use super::spec_emit_stmt;

verus! {

/// Appends the code of an assignment: the value, then a store to the
/// variable's slot.
pub fn emit_assign(cg: &mut Codegen, a: &Assign) -> (r: Result<(), CompileError>)
    requires
        old(cg).wf(),
    ensures
        emitted(*old(cg), *final(cg), r, spec_emit_stmt(old(cg).state(), Stmt::Assign(*a))),
{
    let idx = match cg.symbols.get(a.name.as_str()) {
        Ok(i) => i,
        Err(e) => return Err(e),
    };
    match emit_expr(cg, &a.expr) {
        Err(e) => return Err(e),
        Ok(_) => {},
    }
    cg.emit(Instr::Store(idx));
    Ok(())
}

/// Appends the code of an element assignment: the array, the index and the
/// value, the element store, then the array stored back.
pub fn emit_assign_index(cg: &mut Codegen, a: &AssignIndex) -> (r: Result<(), CompileError>)
    requires
        old(cg).wf(),
    ensures
        emitted(*old(cg), *final(cg), r, spec_emit_stmt(old(cg).state(), Stmt::AssignIndex(*a))),
{
    let idx = match cg.symbols.get(a.name.as_str()) {
        Ok(i) => i,
        Err(e) => return Err(e),
    };
    cg.emit(Instr::Load(idx));
    match emit_expr(cg, &a.index) {
        Err(e) => return Err(e),
        Ok(_) => {},
    }
    match emit_expr(cg, &a.expr) {
        Err(e) => return Err(e),
        Ok(_) => {},
    }
    cg.emit(Instr::StoreIndex);
    cg.emit(Instr::Store(idx));
    Ok(())
}

} // verus!
