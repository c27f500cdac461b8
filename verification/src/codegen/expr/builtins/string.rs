use vstd::prelude::*;

use crate::ast::CallExpr;
use crate::bytecode::instr::OpCode;
use crate::codegen::Codegen;
use crate::error::CompileError;
use crate::text::str_eq;

use super::{emit_rule, handled_rule, Arity, Rule};

verus! {

/// The expression built-ins for strings: arity, operation and the message of a wrong argument count.
pub open spec fn string_rule(name: Seq<char>) -> Option<Rule> {
    if name == "strlen"@ {
        Some((Arity::Exact(1), OpCode::StrLen, "strlen expects 1 argument"@))
    } else if name == "substr"@ {
        Some((Arity::Exact(3), OpCode::StrSubstr, "substr expects 3 arguments"@))
    } else if name == "replace"@ {
        Some((Arity::Exact(3), OpCode::StrReplace, "replace expects 3 arguments"@))
    } else if name == "concat"@ {
        Some((Arity::Exact(2), OpCode::StrConcat, "concat expects 2 arguments"@))
    } else if name == "string_clear"@ {
        Some((Arity::Exact(1), OpCode::StrClear, "string_clear expects 1 argument"@))
    } else {
        None
    }
}

/// Compiles a call of a built-in for strings; `Ok(false)` when the call names
/// none of them.
pub fn try_emit(cg: &mut Codegen, call: &CallExpr) -> (r: Result<bool, CompileError>)
    requires
        old(cg).wf(),
    ensures
        handled_rule(*old(cg), *final(cg), r, string_rule(call.name@), call.args@),
    decreases call, 1nat,
{
    let name = call.name.as_str();
    if str_eq(name, "strlen") {
        return emit_rule(cg, &call.args, Arity::Exact(1), OpCode::StrLen, "strlen expects 1 argument");
    }
    if str_eq(name, "substr") {
        return emit_rule(cg, &call.args, Arity::Exact(3), OpCode::StrSubstr, "substr expects 3 arguments");
    }
    if str_eq(name, "replace") {
        return emit_rule(cg, &call.args, Arity::Exact(3), OpCode::StrReplace, "replace expects 3 arguments");
    }
    if str_eq(name, "concat") {
        return emit_rule(cg, &call.args, Arity::Exact(2), OpCode::StrConcat, "concat expects 2 arguments");
    }
    if str_eq(name, "string_clear") {
        return emit_rule(cg, &call.args, Arity::Exact(1), OpCode::StrClear, "string_clear expects 1 argument");
    }
    Ok(false)
}

} // verus!
