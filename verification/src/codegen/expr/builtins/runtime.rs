use vstd::prelude::*;

use crate::ast::CallExpr;
use crate::bytecode::instr::OpCode;
use crate::codegen::Codegen;
use crate::error::CompileError;
use crate::text::str_eq;

use super::{emit_rule, handled_rule, Arity, Rule};

verus! {

/// The expression built-ins for the environment, the file system, processes and time: arity, operation and the message of a wrong argument count.
pub open spec fn runtime_rule(name: Seq<char>) -> Option<Rule> {
    if name == "env_get"@ {
        Some((Arity::Exact(1), OpCode::EnvGet, "env_get expects 1 argument"@))
    } else if name == "env_has"@ {
        Some((Arity::Exact(1), OpCode::EnvHas, "env_has expects 1 argument"@))
    } else if name == "cwd"@ {
        Some((Arity::Exact(0), OpCode::Cwd, "cwd expects 0 arguments"@))
    } else if name == "path_join"@ {
        Some((Arity::Exact(2), OpCode::PathJoin, "path_join expects 2 arguments"@))
    } else if name == "fs_exists"@ {
        Some((Arity::Exact(1), OpCode::FsExists, "fs_exists expects 1 argument"@))
    } else if name == "fs_listdir"@ {
        Some((Arity::Exact(1), OpCode::FsListDir, "fs_listdir expects 1 argument"@))
    } else if name == "now_timestamp"@ {
        Some((Arity::Exact(0), OpCode::NowTimestamp, "now_timestamp expects 0 arguments"@))
    } else {
        None
    }
}

/// Compiles a call of a built-in for the environment, the file system, processes and time; `Ok(false)` when the call names
/// none of them.
pub fn try_emit(cg: &mut Codegen, call: &CallExpr) -> (r: Result<bool, CompileError>)
    requires
        old(cg).wf(),
    ensures
        handled_rule(*old(cg), *final(cg), r, runtime_rule(call.name@), call.args@),
    decreases call, 1nat,
{
    let name = call.name.as_str();
    if str_eq(name, "env_get") {
        return emit_rule(cg, &call.args, Arity::Exact(1), OpCode::EnvGet, "env_get expects 1 argument");
    }
    if str_eq(name, "env_has") {
        return emit_rule(cg, &call.args, Arity::Exact(1), OpCode::EnvHas, "env_has expects 1 argument");
    }
    if str_eq(name, "cwd") {
        return emit_rule(cg, &call.args, Arity::Exact(0), OpCode::Cwd, "cwd expects 0 arguments");
    }
    if str_eq(name, "path_join") {
        return emit_rule(cg, &call.args, Arity::Exact(2), OpCode::PathJoin, "path_join expects 2 arguments");
    }
    if str_eq(name, "fs_exists") {
        return emit_rule(cg, &call.args, Arity::Exact(1), OpCode::FsExists, "fs_exists expects 1 argument");
    }
    if str_eq(name, "fs_listdir") {
        return emit_rule(cg, &call.args, Arity::Exact(1), OpCode::FsListDir, "fs_listdir expects 1 argument");
    }
    if str_eq(name, "now_timestamp") {
        return emit_rule(cg, &call.args, Arity::Exact(0), OpCode::NowTimestamp, "now_timestamp expects 0 arguments");
    }
    Ok(false)
}

} // verus!
