use vstd::prelude::*;

use crate::ast::CallExpr;
use crate::bytecode::instr::OpCode;
use crate::codegen::Codegen;
use crate::error::CompileError;
use crate::text::str_eq;

use super::{emit_rule, handled_rule, Arity, Rule};

verus! {

/// The expression built-ins for vectors, stacks, maps and sets: arity, operation and the message of a wrong argument count.
pub open spec fn collections_rule(name: Seq<char>) -> Option<Rule> {
    if name == "vector_new"@ {
        Some((Arity::Exact(0), OpCode::VecNew, "vector_new_* expects 0 arguments"@))
    } else if name == "vector_new_int"@ {
        Some((Arity::Exact(0), OpCode::VecNew, "vector_new_* expects 0 arguments"@))
    } else if name == "vector_new_bool"@ {
        Some((Arity::Exact(0), OpCode::VecNew, "vector_new_* expects 0 arguments"@))
    } else if name == "vector_new_str"@ {
        Some((Arity::Exact(0), OpCode::VecNew, "vector_new_* expects 0 arguments"@))
    } else if name == "vector_len"@ {
        Some((Arity::Exact(1), OpCode::VecLen, "vector_len expects 1 argument"@))
    } else if name == "vector_get"@ {
        Some((Arity::Exact(2), OpCode::VecGet, "vector_get expects 2 arguments"@))
    } else if name == "vector_set"@ {
        Some((Arity::Exact(3), OpCode::VecSet, "vector_set expects 3 arguments"@))
    } else if name == "vector_push"@ {
        Some((Arity::Exact(2), OpCode::VecPush, "vector_push expects 2 arguments"@))
    } else if name == "vector_remove"@ {
        Some((Arity::Exact(2), OpCode::VecRemove, "vector_remove expects 2 arguments"@))
    } else if name == "vector_last"@ {
        Some((Arity::Exact(1), OpCode::VecLast, "vector_last expects 1 argument"@))
    } else if name == "vector_pop"@ {
        Some((Arity::Exact(1), OpCode::VecPop, "vector_pop expects 1 argument"@))
    } else if name == "vector_clear"@ {
        Some((Arity::Exact(1), OpCode::VecClear, "vector_clear expects 1 argument"@))
    } else if name == "stack_new"@ {
        Some((Arity::Exact(0), OpCode::StackNew, "stack_new expects 0 arguments"@))
    } else if name == "stack_len"@ {
        Some((Arity::Exact(1), OpCode::StackLen, "stack_len expects 1 argument"@))
    } else if name == "stack_push"@ {
        Some((Arity::Exact(2), OpCode::StackPush, "stack_push expects 2 arguments"@))
    } else if name == "stack_top"@ {
        Some((Arity::Exact(1), OpCode::StackTop, "stack_top expects 1 argument"@))
    } else if name == "stack_pop"@ {
        Some((Arity::Exact(1), OpCode::StackPop, "stack_pop expects 1 argument"@))
    } else if name == "stack_clear"@ {
        Some((Arity::Exact(1), OpCode::StackClear, "stack_clear expects 1 argument"@))
    } else if name == "map_new"@ {
        Some((Arity::Exact(0), OpCode::MapNew, "map_new expects 0 arguments"@))
    } else if name == "map_len"@ {
        Some((Arity::Exact(1), OpCode::MapLen, "map_len expects 1 argument"@))
    } else if name == "map_set"@ {
        Some((Arity::Exact(3), OpCode::MapSet, "map_set expects 3 arguments"@))
    } else if name == "map_get"@ {
        Some((Arity::Exact(2), OpCode::MapGet, "map_get expects 2 arguments"@))
    } else if name == "map_has"@ {
        Some((Arity::Exact(2), OpCode::MapHas, "map_has expects 2 arguments"@))
    } else if name == "map_remove"@ {
        Some((Arity::Exact(2), OpCode::MapRemove, "map_remove expects 2 arguments"@))
    } else if name == "map_clear"@ {
        Some((Arity::Exact(1), OpCode::MapClear, "map_clear expects 1 argument"@))
    } else if name == "set_new"@ {
        Some((Arity::Exact(0), OpCode::SetNew, "set_new expects 0 arguments"@))
    } else if name == "set_len"@ {
        Some((Arity::Exact(1), OpCode::SetLen, "set_len expects 1 argument"@))
    } else if name == "set_add"@ {
        Some((Arity::Exact(2), OpCode::SetAdd, "set_add expects 2 arguments"@))
    } else if name == "set_has"@ {
        Some((Arity::Exact(2), OpCode::SetHas, "set_has expects 2 arguments"@))
    } else if name == "set_remove"@ {
        Some((Arity::Exact(2), OpCode::SetRemove, "set_remove expects 2 arguments"@))
    } else if name == "set_clear"@ {
        Some((Arity::Exact(1), OpCode::SetClear, "set_clear expects 1 argument"@))
    } else {
        None
    }
}

/// Compiles a call of a built-in for vectors, stacks, maps and sets; `Ok(false)` when the call names
/// none of them.
pub fn try_emit(cg: &mut Codegen, call: &CallExpr) -> (r: Result<bool, CompileError>)
    requires
        old(cg).wf(),
    ensures
        handled_rule(*old(cg), *final(cg), r, collections_rule(call.name@), call.args@),
    decreases call, 1nat,
{
    let name = call.name.as_str();
    if str_eq(name, "vector_new") {
        return emit_rule(cg, &call.args, Arity::Exact(0), OpCode::VecNew, "vector_new_* expects 0 arguments");
    }
    if str_eq(name, "vector_new_int") {
        return emit_rule(cg, &call.args, Arity::Exact(0), OpCode::VecNew, "vector_new_* expects 0 arguments");
    }
    if str_eq(name, "vector_new_bool") {
        return emit_rule(cg, &call.args, Arity::Exact(0), OpCode::VecNew, "vector_new_* expects 0 arguments");
    }
    if str_eq(name, "vector_new_str") {
        return emit_rule(cg, &call.args, Arity::Exact(0), OpCode::VecNew, "vector_new_* expects 0 arguments");
    }
    if str_eq(name, "vector_len") {
        return emit_rule(cg, &call.args, Arity::Exact(1), OpCode::VecLen, "vector_len expects 1 argument");
    }
    if str_eq(name, "vector_get") {
        return emit_rule(cg, &call.args, Arity::Exact(2), OpCode::VecGet, "vector_get expects 2 arguments");
    }
    if str_eq(name, "vector_set") {
        return emit_rule(cg, &call.args, Arity::Exact(3), OpCode::VecSet, "vector_set expects 3 arguments");
    }
    if str_eq(name, "vector_push") {
        return emit_rule(cg, &call.args, Arity::Exact(2), OpCode::VecPush, "vector_push expects 2 arguments");
    }
    if str_eq(name, "vector_remove") {
        return emit_rule(cg, &call.args, Arity::Exact(2), OpCode::VecRemove, "vector_remove expects 2 arguments");
    }
    if str_eq(name, "vector_last") {
        return emit_rule(cg, &call.args, Arity::Exact(1), OpCode::VecLast, "vector_last expects 1 argument");
    }
    if str_eq(name, "vector_pop") {
        return emit_rule(cg, &call.args, Arity::Exact(1), OpCode::VecPop, "vector_pop expects 1 argument");
    }
    if str_eq(name, "vector_clear") {
        return emit_rule(cg, &call.args, Arity::Exact(1), OpCode::VecClear, "vector_clear expects 1 argument");
    }
    if str_eq(name, "stack_new") {
        return emit_rule(cg, &call.args, Arity::Exact(0), OpCode::StackNew, "stack_new expects 0 arguments");
    }
    if str_eq(name, "stack_len") {
        return emit_rule(cg, &call.args, Arity::Exact(1), OpCode::StackLen, "stack_len expects 1 argument");
    }
    if str_eq(name, "stack_push") {
        return emit_rule(cg, &call.args, Arity::Exact(2), OpCode::StackPush, "stack_push expects 2 arguments");
    }
    if str_eq(name, "stack_top") {
        return emit_rule(cg, &call.args, Arity::Exact(1), OpCode::StackTop, "stack_top expects 1 argument");
    }
    if str_eq(name, "stack_pop") {
        return emit_rule(cg, &call.args, Arity::Exact(1), OpCode::StackPop, "stack_pop expects 1 argument");
    }
    if str_eq(name, "stack_clear") {
        return emit_rule(cg, &call.args, Arity::Exact(1), OpCode::StackClear, "stack_clear expects 1 argument");
    }
    if str_eq(name, "map_new") {
        return emit_rule(cg, &call.args, Arity::Exact(0), OpCode::MapNew, "map_new expects 0 arguments");
    }
    if str_eq(name, "map_len") {
        return emit_rule(cg, &call.args, Arity::Exact(1), OpCode::MapLen, "map_len expects 1 argument");
    }
    if str_eq(name, "map_set") {
        return emit_rule(cg, &call.args, Arity::Exact(3), OpCode::MapSet, "map_set expects 3 arguments");
    }
    if str_eq(name, "map_get") {
        return emit_rule(cg, &call.args, Arity::Exact(2), OpCode::MapGet, "map_get expects 2 arguments");
    }
    if str_eq(name, "map_has") {
        return emit_rule(cg, &call.args, Arity::Exact(2), OpCode::MapHas, "map_has expects 2 arguments");
    }
    if str_eq(name, "map_remove") {
        return emit_rule(cg, &call.args, Arity::Exact(2), OpCode::MapRemove, "map_remove expects 2 arguments");
    }
    if str_eq(name, "map_clear") {
        return emit_rule(cg, &call.args, Arity::Exact(1), OpCode::MapClear, "map_clear expects 1 argument");
    }
    if str_eq(name, "set_new") {
        return emit_rule(cg, &call.args, Arity::Exact(0), OpCode::SetNew, "set_new expects 0 arguments");
    }
    if str_eq(name, "set_len") {
        return emit_rule(cg, &call.args, Arity::Exact(1), OpCode::SetLen, "set_len expects 1 argument");
    }
    if str_eq(name, "set_add") {
        return emit_rule(cg, &call.args, Arity::Exact(2), OpCode::SetAdd, "set_add expects 2 arguments");
    }
    if str_eq(name, "set_has") {
        return emit_rule(cg, &call.args, Arity::Exact(2), OpCode::SetHas, "set_has expects 2 arguments");
    }
    if str_eq(name, "set_remove") {
        return emit_rule(cg, &call.args, Arity::Exact(2), OpCode::SetRemove, "set_remove expects 2 arguments");
    }
    if str_eq(name, "set_clear") {
        return emit_rule(cg, &call.args, Arity::Exact(1), OpCode::SetClear, "set_clear expects 1 argument");
    }
    Ok(false)
}

} // verus!
