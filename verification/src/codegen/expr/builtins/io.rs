use vstd::prelude::*;

use crate::ast::CallExpr;
use crate::bytecode::instr::OpCode;
use crate::codegen::Codegen;
use crate::error::CompileError;
use crate::text::str_eq;

use super::{emit_rule, handled_rule, Arity, Rule};

verus! {

/// The expression built-ins for files and program arguments: arity, operation and the message of a wrong argument count.
pub open spec fn io_rule(name: Seq<char>) -> Option<Rule> {
    if name == "readfile"@ {
        Some((Arity::Exact(1), OpCode::ReadFile, "readfile expects 1 argument"@))
    } else if name == "arg_count"@ {
        Some((Arity::Exact(0), OpCode::ArgCount, "arg_count expects 0 arguments"@))
    } else if name == "arg"@ {
        Some((Arity::Exact(1), OpCode::Arg, "arg expects 1 argument"@))
    } else {
        None
    }
}

/// Compiles a call of a built-in for files and program arguments; `Ok(false)` when the call names
/// none of them.
pub fn try_emit(cg: &mut Codegen, call: &CallExpr) -> (r: Result<bool, CompileError>)
    requires
        old(cg).wf(),
    ensures
        handled_rule(*old(cg), *final(cg), r, io_rule(call.name@), call.args@),
    decreases call, 1nat,
{
    let name = call.name.as_str();
    if str_eq(name, "readfile") {
        return emit_rule(cg, &call.args, Arity::Exact(1), OpCode::ReadFile, "readfile expects 1 argument");
    }
    if str_eq(name, "arg_count") {
        return emit_rule(cg, &call.args, Arity::Exact(0), OpCode::ArgCount, "arg_count expects 0 arguments");
    }
    if str_eq(name, "arg") {
        return emit_rule(cg, &call.args, Arity::Exact(1), OpCode::Arg, "arg expects 1 argument");
    }
    Ok(false)
}

} // verus!
