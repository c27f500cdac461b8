use vstd::prelude::*;

use crate::ast::{CallExpr, Expr};
use crate::bytecode::Instr;
use crate::codegen::{emitted, Codegen};
use crate::error::CompileError;

use super::builtins::{emit_args, try_emit};
use super::spec_emit_expr;

verus! {

/// Appends the code of a call: a built-in compiles to its operation, any
/// other name to a call of the function of that name.
pub fn emit_call_expr(cg: &mut Codegen, call: &CallExpr) -> (r: Result<(), CompileError>)
    requires
        old(cg).wf(),
    ensures
        emitted(*old(cg), *final(cg), r, spec_emit_expr(old(cg).state(), Expr::Call(*call))),
    decreases call, 3nat,
{
    match try_emit(cg, call) {
        Ok(true) => return Ok(()),
        Err(e) => return Err(e),
        Ok(false) => {},
    }
    match emit_args(cg, &call.args) {
        Err(e) => return Err(e),
        Ok(_) => {},
    }
    let idx = match cg.register_function(call.name.as_str(), call.args.len() as u32) {
        Ok(i) => i,
        Err(e) => return Err(e),
    };
    cg.emit(Instr::Call(idx));
    Ok(())
}

} // verus!
