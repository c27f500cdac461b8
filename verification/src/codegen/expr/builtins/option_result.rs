use vstd::prelude::*;

use crate::ast::CallExpr;
use crate::bytecode::instr::OpCode;
use crate::codegen::Codegen;
use crate::error::CompileError;
use crate::text::str_eq;

use super::{emit_rule, handled_rule, Arity, Rule};

verus! {

/// The expression built-ins for options and results: arity, operation and the message of a wrong argument count.
pub open spec fn option_result_rule(name: Seq<char>) -> Option<Rule> {
    if name == "option_some_int"@ {
        Some((Arity::Exact(1), OpCode::OptSomeInt, "option_some_int expects 1 argument"@))
    } else if name == "option_some_bool"@ {
        Some((Arity::Exact(1), OpCode::OptSomeBool, "option_some_bool expects 1 argument"@))
    } else if name == "option_some_str"@ {
        Some((Arity::Exact(1), OpCode::OptSomeStr, "option_some_str expects 1 argument"@))
    } else if name == "option_none_int"@ {
        Some((Arity::Exact(0), OpCode::OptNoneInt, "option_none_int expects 0 arguments"@))
    } else if name == "option_none_bool"@ {
        Some((Arity::Exact(0), OpCode::OptNoneBool, "option_none_bool expects 0 arguments"@))
    } else if name == "option_none_str"@ {
        Some((Arity::Exact(0), OpCode::OptNoneStr, "option_none_str expects 0 arguments"@))
    } else if name == "option_is_some_int"@ {
        Some((Arity::Exact(1), OpCode::OptIsSomeInt, "option_is_some_int expects 1 argument"@))
    } else if name == "option_is_some_bool"@ {
        Some((Arity::Exact(1), OpCode::OptIsSomeBool, "option_is_some_bool expects 1 argument"@))
    } else if name == "option_is_some_str"@ {
        Some((Arity::Exact(1), OpCode::OptIsSomeStr, "option_is_some_str expects 1 argument"@))
    } else if name == "option_unwrap_int"@ {
        Some((Arity::Exact(1), OpCode::OptUnwrapInt, "option_unwrap_int expects 1 argument"@))
    } else if name == "option_unwrap_bool"@ {
        Some((Arity::Exact(1), OpCode::OptUnwrapBool, "option_unwrap_bool expects 1 argument"@))
    } else if name == "option_unwrap_str"@ {
        Some((Arity::Exact(1), OpCode::OptUnwrapStr, "option_unwrap_str expects 1 argument"@))
    } else if name == "option_unwrap_or_int"@ {
        Some((Arity::Exact(2), OpCode::OptUnwrapOrInt, "option_unwrap_or_int expects 2 arguments"@))
    } else if name == "option_unwrap_or_bool"@ {
        Some((Arity::Exact(2), OpCode::OptUnwrapOrBool, "option_unwrap_or_bool expects 2 arguments"@))
    } else if name == "option_unwrap_or_str"@ {
        Some((Arity::Exact(2), OpCode::OptUnwrapOrStr, "option_unwrap_or_str expects 2 arguments"@))
    } else if name == "result_ok_int"@ {
        Some((Arity::Exact(1), OpCode::ResOkInt, "result_ok_int expects 1 argument"@))
    } else if name == "result_ok_bool"@ {
        Some((Arity::Exact(1), OpCode::ResOkBool, "result_ok_bool expects 1 argument"@))
    } else if name == "result_ok_str"@ {
        Some((Arity::Exact(1), OpCode::ResOkStr, "result_ok_str expects 1 argument"@))
    } else if name == "result_err_int"@ {
        Some((Arity::Exact(1), OpCode::ResErrInt, "result_err_int expects 1 argument"@))
    } else if name == "result_err_bool"@ {
        Some((Arity::Exact(1), OpCode::ResErrBool, "result_err_bool expects 1 argument"@))
    } else if name == "result_err_str"@ {
        Some((Arity::Exact(1), OpCode::ResErrStr, "result_err_str expects 1 argument"@))
    } else if name == "result_is_ok_int"@ {
        Some((Arity::Exact(1), OpCode::ResIsOkInt, "result_is_ok_int expects 1 argument"@))
    } else if name == "result_is_ok_bool"@ {
        Some((Arity::Exact(1), OpCode::ResIsOkBool, "result_is_ok_bool expects 1 argument"@))
    } else if name == "result_is_ok_str"@ {
        Some((Arity::Exact(1), OpCode::ResIsOkStr, "result_is_ok_str expects 1 argument"@))
    } else if name == "result_unwrap_int"@ {
        Some((Arity::Exact(1), OpCode::ResUnwrapInt, "result_unwrap_int expects 1 argument"@))
    } else if name == "result_unwrap_bool"@ {
        Some((Arity::Exact(1), OpCode::ResUnwrapBool, "result_unwrap_bool expects 1 argument"@))
    } else if name == "result_unwrap_str"@ {
        Some((Arity::Exact(1), OpCode::ResUnwrapStr, "result_unwrap_str expects 1 argument"@))
    } else if name == "result_unwrap_or_int"@ {
        Some((Arity::Exact(2), OpCode::ResUnwrapOrInt, "result_unwrap_or_int expects 2 arguments"@))
    } else if name == "result_unwrap_or_bool"@ {
        Some((Arity::Exact(2), OpCode::ResUnwrapOrBool, "result_unwrap_or_bool expects 2 arguments"@))
    } else if name == "result_unwrap_or_str"@ {
        Some((Arity::Exact(2), OpCode::ResUnwrapOrStr, "result_unwrap_or_str expects 2 arguments"@))
    } else if name == "result_unwrap_err_int"@ {
        Some((Arity::Exact(1), OpCode::ResUnwrapErrInt, "result_unwrap_err_int expects 1 argument"@))
    } else if name == "result_unwrap_err_bool"@ {
        Some((Arity::Exact(1), OpCode::ResUnwrapErrBool, "result_unwrap_err_bool expects 1 argument"@))
    } else if name == "result_unwrap_err_str"@ {
        Some((Arity::Exact(1), OpCode::ResUnwrapErrStr, "result_unwrap_err_str expects 1 argument"@))
    } else {
        None
    }
}

/// Compiles a call of a built-in for options and results; `Ok(false)` when the call names
/// none of them.
pub fn try_emit(cg: &mut Codegen, call: &CallExpr) -> (r: Result<bool, CompileError>)
    requires
        old(cg).wf(),
    ensures
        handled_rule(*old(cg), *final(cg), r, option_result_rule(call.name@), call.args@),
    decreases call, 1nat,
{
    let name = call.name.as_str();
    if str_eq(name, "option_some_int") {
        return emit_rule(cg, &call.args, Arity::Exact(1), OpCode::OptSomeInt, "option_some_int expects 1 argument");
    }
    if str_eq(name, "option_some_bool") {
        return emit_rule(cg, &call.args, Arity::Exact(1), OpCode::OptSomeBool, "option_some_bool expects 1 argument");
    }
    if str_eq(name, "option_some_str") {
        return emit_rule(cg, &call.args, Arity::Exact(1), OpCode::OptSomeStr, "option_some_str expects 1 argument");
    }
    if str_eq(name, "option_none_int") {
        return emit_rule(cg, &call.args, Arity::Exact(0), OpCode::OptNoneInt, "option_none_int expects 0 arguments");
    }
    if str_eq(name, "option_none_bool") {
        return emit_rule(cg, &call.args, Arity::Exact(0), OpCode::OptNoneBool, "option_none_bool expects 0 arguments");
    }
    if str_eq(name, "option_none_str") {
        return emit_rule(cg, &call.args, Arity::Exact(0), OpCode::OptNoneStr, "option_none_str expects 0 arguments");
    }
    if str_eq(name, "option_is_some_int") {
        return emit_rule(cg, &call.args, Arity::Exact(1), OpCode::OptIsSomeInt, "option_is_some_int expects 1 argument");
    }
    if str_eq(name, "option_is_some_bool") {
        return emit_rule(cg, &call.args, Arity::Exact(1), OpCode::OptIsSomeBool, "option_is_some_bool expects 1 argument");
    }
    if str_eq(name, "option_is_some_str") {
        return emit_rule(cg, &call.args, Arity::Exact(1), OpCode::OptIsSomeStr, "option_is_some_str expects 1 argument");
    }
    if str_eq(name, "option_unwrap_int") {
        return emit_rule(cg, &call.args, Arity::Exact(1), OpCode::OptUnwrapInt, "option_unwrap_int expects 1 argument");
    }
    if str_eq(name, "option_unwrap_bool") {
        return emit_rule(cg, &call.args, Arity::Exact(1), OpCode::OptUnwrapBool, "option_unwrap_bool expects 1 argument");
    }
    if str_eq(name, "option_unwrap_str") {
        return emit_rule(cg, &call.args, Arity::Exact(1), OpCode::OptUnwrapStr, "option_unwrap_str expects 1 argument");
    }
    if str_eq(name, "option_unwrap_or_int") {
        return emit_rule(cg, &call.args, Arity::Exact(2), OpCode::OptUnwrapOrInt, "option_unwrap_or_int expects 2 arguments");
    }
    if str_eq(name, "option_unwrap_or_bool") {
        return emit_rule(cg, &call.args, Arity::Exact(2), OpCode::OptUnwrapOrBool, "option_unwrap_or_bool expects 2 arguments");
    }
    if str_eq(name, "option_unwrap_or_str") {
        return emit_rule(cg, &call.args, Arity::Exact(2), OpCode::OptUnwrapOrStr, "option_unwrap_or_str expects 2 arguments");
    }
    if str_eq(name, "result_ok_int") {
        return emit_rule(cg, &call.args, Arity::Exact(1), OpCode::ResOkInt, "result_ok_int expects 1 argument");
    }
    if str_eq(name, "result_ok_bool") {
        return emit_rule(cg, &call.args, Arity::Exact(1), OpCode::ResOkBool, "result_ok_bool expects 1 argument");
    }
    if str_eq(name, "result_ok_str") {
        return emit_rule(cg, &call.args, Arity::Exact(1), OpCode::ResOkStr, "result_ok_str expects 1 argument");
    }
    if str_eq(name, "result_err_int") {
        return emit_rule(cg, &call.args, Arity::Exact(1), OpCode::ResErrInt, "result_err_int expects 1 argument");
    }
    if str_eq(name, "result_err_bool") {
        return emit_rule(cg, &call.args, Arity::Exact(1), OpCode::ResErrBool, "result_err_bool expects 1 argument");
    }
    if str_eq(name, "result_err_str") {
        return emit_rule(cg, &call.args, Arity::Exact(1), OpCode::ResErrStr, "result_err_str expects 1 argument");
    }
    if str_eq(name, "result_is_ok_int") {
        return emit_rule(cg, &call.args, Arity::Exact(1), OpCode::ResIsOkInt, "result_is_ok_int expects 1 argument");
    }
    if str_eq(name, "result_is_ok_bool") {
        return emit_rule(cg, &call.args, Arity::Exact(1), OpCode::ResIsOkBool, "result_is_ok_bool expects 1 argument");
    }
    if str_eq(name, "result_is_ok_str") {
        return emit_rule(cg, &call.args, Arity::Exact(1), OpCode::ResIsOkStr, "result_is_ok_str expects 1 argument");
    }
    if str_eq(name, "result_unwrap_int") {
        return emit_rule(cg, &call.args, Arity::Exact(1), OpCode::ResUnwrapInt, "result_unwrap_int expects 1 argument");
    }
    if str_eq(name, "result_unwrap_bool") {
        return emit_rule(cg, &call.args, Arity::Exact(1), OpCode::ResUnwrapBool, "result_unwrap_bool expects 1 argument");
    }
    if str_eq(name, "result_unwrap_str") {
        return emit_rule(cg, &call.args, Arity::Exact(1), OpCode::ResUnwrapStr, "result_unwrap_str expects 1 argument");
    }
    if str_eq(name, "result_unwrap_or_int") {
        return emit_rule(cg, &call.args, Arity::Exact(2), OpCode::ResUnwrapOrInt, "result_unwrap_or_int expects 2 arguments");
    }
    if str_eq(name, "result_unwrap_or_bool") {
        return emit_rule(cg, &call.args, Arity::Exact(2), OpCode::ResUnwrapOrBool, "result_unwrap_or_bool expects 2 arguments");
    }
    if str_eq(name, "result_unwrap_or_str") {
        return emit_rule(cg, &call.args, Arity::Exact(2), OpCode::ResUnwrapOrStr, "result_unwrap_or_str expects 2 arguments");
    }
    if str_eq(name, "result_unwrap_err_int") {
        return emit_rule(cg, &call.args, Arity::Exact(1), OpCode::ResUnwrapErrInt, "result_unwrap_err_int expects 1 argument");
    }
    if str_eq(name, "result_unwrap_err_bool") {
        return emit_rule(cg, &call.args, Arity::Exact(1), OpCode::ResUnwrapErrBool, "result_unwrap_err_bool expects 1 argument");
    }
    if str_eq(name, "result_unwrap_err_str") {
        return emit_rule(cg, &call.args, Arity::Exact(1), OpCode::ResUnwrapErrStr, "result_unwrap_err_str expects 1 argument");
    }
    Ok(false)
}

} // verus!
