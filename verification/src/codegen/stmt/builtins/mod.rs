pub mod bc_emit;

use vstd::prelude::*;

use crate::ast::Expr;
use crate::bytecode::instr::OpCode;
use crate::codegen::expr::builtins::{arity_ok, emit_rule, handled_rule, rule_outcome, Arity, Rule};
use crate::codegen::GenState;
use crate::codegen::Codegen;
use crate::error::CompileError;
use crate::text::str_eq;

use self::bc_emit::{bc_emit_rule, emit_bc_emit};

verus! {

/// The procedure built-ins for emitting stack-machine code that builds bytecode: arity, operation and the message of a wrong argument count.
pub open spec fn meta_rule(name: Seq<char>) -> Option<Rule> {
    if name == "emit_bcop_new"@ {
        Some((Arity::Exact(0), OpCode::MetaBcNew, "emit_bcop_new expects 0 arguments"@))
    } else if name == "emit_bcop_main"@ {
        Some((Arity::Exact(0), OpCode::MetaBcMain, "emit_bcop_main expects 0 arguments"@))
    } else if name == "emit_bcop_write"@ {
        Some((Arity::Exact(0), OpCode::MetaBcWrite, "emit_bcop_write expects 0 arguments"@))
    } else if name == "emit_bcop_func_begin"@ {
        Some((Arity::Exact(0), OpCode::MetaBcFuncBegin, "emit_bcop_func_begin expects 0 arguments"@))
    } else if name == "emit_bcop_func_end"@ {
        Some((Arity::Exact(0), OpCode::MetaBcFuncEnd, "emit_bcop_func_end expects 0 arguments"@))
    } else if name == "emit_bcop_halt"@ {
        Some((Arity::Exact(0), OpCode::MetaBcEmitHalt, "emit_bcop_halt expects 0 arguments"@))
    } else if name == "emit_bcop_label"@ {
        Some((Arity::Exact(0), OpCode::MetaBcLabel, "emit_bcop_label expects 0 arguments"@))
    } else if name == "emit_bcop_jump"@ {
        Some((Arity::Exact(0), OpCode::MetaBcJump, "emit_bcop_jump expects 0 arguments"@))
    } else if name == "emit_bcop_jump_if_false"@ {
        Some((Arity::Exact(0), OpCode::MetaBcJumpIfFalse, "emit_bcop_jump_if_false expects 0 arguments"@))
    } else {
        None
    }
}

/// The procedure built-ins for files, time and logging: arity, operation and the message of a wrong argument count.
pub open spec fn basic_rule(name: Seq<char>) -> Option<Rule> {
    if name == "writefile"@ {
        Some((Arity::Exact(2), OpCode::WriteFile, "writefile expects 2 arguments"@))
    } else if name == "sleep_ms"@ {
        Some((Arity::Exact(1), OpCode::SleepMs, "sleep_ms expects 1 argument"@))
    } else if name == "log_str"@ {
        Some((Arity::Exact(1), OpCode::LogStr, "log_str expects 1 argument"@))
    } else if name == "log_int"@ {
        Some((Arity::Exact(1), OpCode::LogInt, "log_int expects 1 argument"@))
    } else if name == "log_bool"@ {
        Some((Arity::Exact(1), OpCode::LogBool, "log_bool expects 1 argument"@))
    } else {
        None
    }
}

/// The procedure built-ins for building bytecode units, functions and control flow: arity, operation and the message of a wrong argument count.
pub open spec fn control_rule(name: Seq<char>) -> Option<Rule> {
    if name == "builder_new"@ {
        Some((Arity::Exact(1), OpCode::BcNew, "builder_new expects 1 argument"@))
    } else if name == "builder_main"@ {
        Some((Arity::Exact(0), OpCode::BcMain, "builder_main expects 0 arguments"@))
    } else if name == "builder_write"@ {
        Some((Arity::Exact(1), OpCode::BcWrite, "builder_write expects 1 argument"@))
    } else if name == "builder_func_begin"@ {
        Some((Arity::Exact(2), OpCode::BcFuncBegin, "builder_func_begin expects 2 arguments"@))
    } else if name == "builder_func_end"@ {
        Some((Arity::Exact(0), OpCode::BcFuncEnd, "builder_func_end expects 0 arguments"@))
    } else if name == "builder_emit_halt"@ {
        Some((Arity::Exact(0), OpCode::BcEmitHalt, "builder_emit_halt expects 0 arguments"@))
    } else if name == "builder_label"@ {
        Some((Arity::Exact(1), OpCode::BcLabel, "builder_label expects 1 argument"@))
    } else if name == "builder_jump"@ {
        Some((Arity::Exact(1), OpCode::BcJump, "builder_jump expects 1 argument"@))
    } else if name == "builder_jump_if_false"@ {
        Some((Arity::Exact(1), OpCode::BcJumpIfFalse, "builder_jump_if_false expects 1 argument"@))
    } else if name == "bc_new"@ {
        Some((Arity::ZeroOr(1), OpCode::BcNew, "bc_new expects 0 or 1 argument"@))
    } else if name == "bc_new_op"@ {
        Some((Arity::Exact(0), OpCode::BcNewOp, "bc_new_op expects 0 arguments"@))
    } else if name == "bc_main"@ {
        Some((Arity::Exact(0), OpCode::BcMain, "bc_main expects 0 arguments"@))
    } else if name == "bc_main_op"@ {
        Some((Arity::Exact(0), OpCode::BcMainOp, "bc_main_op expects 0 arguments"@))
    } else if name == "bc_func_begin"@ {
        Some((Arity::ZeroOr(2), OpCode::BcFuncBegin, "bc_func_begin expects 0 or 2 arguments"@))
    } else if name == "bc_func_begin_op"@ {
        Some((Arity::Exact(0), OpCode::BcFuncBeginOp, "bc_func_begin_op expects 0 arguments"@))
    } else if name == "bc_func_end"@ {
        Some((Arity::Exact(0), OpCode::BcFuncEnd, "bc_func_end expects 0 arguments"@))
    } else if name == "bc_func_end_op"@ {
        Some((Arity::Exact(0), OpCode::BcFuncEndOp, "bc_func_end_op expects 0 arguments"@))
    } else if name == "bc_emit_call"@ {
        Some((Arity::ZeroOr(1), OpCode::BcEmitCall, "bc_emit_call expects 0 or 1 argument"@))
    } else if name == "bc_emit_call_op"@ {
        Some((Arity::Exact(0), OpCode::BcEmitCallOp, "bc_emit_call_op expects 0 arguments"@))
    } else if name == "bc_emit_ret"@ {
        Some((Arity::Exact(0), OpCode::BcEmitRet, "bc_emit_ret expects 0 arguments"@))
    } else if name == "bc_emit_ret_op"@ {
        Some((Arity::Exact(0), OpCode::BcEmitRetOp, "bc_emit_ret_op expects 0 arguments"@))
    } else if name == "bc_emit_retval"@ {
        Some((Arity::Exact(0), OpCode::BcEmitRetVal, "bc_emit_retval expects 0 arguments"@))
    } else if name == "bc_emit_retval_op"@ {
        Some((Arity::Exact(0), OpCode::BcEmitRetValOp, "bc_emit_retval_op expects 0 arguments"@))
    } else if name == "bc_label_op"@ {
        Some((Arity::Exact(0), OpCode::BcLabelOp, "bc_label_op expects 0 arguments"@))
    } else if name == "bc_jump_op"@ {
        Some((Arity::Exact(0), OpCode::BcJumpOp, "bc_jump_op expects 0 arguments"@))
    } else if name == "bc_jump_if_false_op"@ {
        Some((Arity::Exact(0), OpCode::BcJumpIfFalseOp, "bc_jump_if_false_op expects 0 arguments"@))
    } else if name == "bc_label"@ {
        Some((Arity::ZeroOr(1), OpCode::BcLabel, "bc_label expects 0 or 1 argument"@))
    } else if name == "bc_jump"@ {
        Some((Arity::ZeroOr(1), OpCode::BcJump, "bc_jump expects 0 or 1 argument"@))
    } else if name == "bc_jump_if_false"@ {
        Some((Arity::ZeroOr(1), OpCode::BcJumpIfFalse, "bc_jump_if_false expects 0 or 1 argument"@))
    } else if name == "bc_emit_halt"@ {
        Some((Arity::Exact(0), OpCode::BcEmitHalt, "bc_emit_halt expects 0 arguments"@))
    } else if name == "bc_emit_halt_op"@ {
        Some((Arity::Exact(0), OpCode::BcEmitHaltOp, "bc_emit_halt_op expects 0 arguments"@))
    } else if name == "bc_write"@ {
        Some((Arity::ZeroOr(1), OpCode::BcWrite, "bc_write expects 0 or 1 argument"@))
    } else if name == "bc_write_op"@ {
        Some((Arity::Exact(0), OpCode::BcWriteOp, "bc_write_op expects 0 arguments"@))
    } else {
        None
    }
}

/// The procedure built-ins for files, time and logging, after those for
/// emitting stack-machine code.
pub open spec fn basic_group(name: Seq<char>) -> Option<Rule> {
    match meta_rule(name) {
        Some(r) => Some(r),
        None => basic_rule(name),
    }
}

/// Every procedure built-in, in the order the groups are tried.
pub open spec fn stmt_builtin(name: Seq<char>) -> Option<Rule> {
    match basic_group(name) {
        Some(r) => Some(r),
        None => match control_rule(name) {
            Some(r) => Some(r),
            None => bc_emit_rule(name),
        },
    }
}

/// Compiles a call of a built-in procedure; `Ok(false)` when `name` is
/// none.
pub fn emit_builtin_call(cg: &mut Codegen, name: &str, args: &Vec<Expr>) -> (r: Result<bool, CompileError>)
    requires
        old(cg).wf(),
    ensures
        handled_rule(*old(cg), *final(cg), r, stmt_builtin(name@), args@),
{
    match emit_basic(cg, name, args) {
        Ok(false) => {},
        other => return other,
    }
    match emit_bc_control(cg, name, args) {
        Ok(false) => {},
        other => return other,
    }
    emit_bc_emit(cg, name, args)
}

/// Compiles a call of a built-in procedure for files, time and logging (and those for
/// emitting stack-machine code that builds bytecode); `Ok(false)` when
/// `name` is none of them.
pub fn emit_basic(cg: &mut Codegen, name: &str, args: &Vec<Expr>) -> (r: Result<bool, CompileError>)
    requires
        old(cg).wf(),
    ensures
        handled_rule(*old(cg), *final(cg), r, basic_group(name@), args@),
{
    match emit_meta(cg, name, args) {
        Ok(false) => {},
        other => return other,
    }
    if str_eq(name, "writefile") {
        return emit_rule(cg, args, Arity::Exact(2), OpCode::WriteFile, "writefile expects 2 arguments");
    }
    if str_eq(name, "sleep_ms") {
        return emit_rule(cg, args, Arity::Exact(1), OpCode::SleepMs, "sleep_ms expects 1 argument");
    }
    if str_eq(name, "log_str") {
        return emit_rule(cg, args, Arity::Exact(1), OpCode::LogStr, "log_str expects 1 argument");
    }
    if str_eq(name, "log_int") {
        return emit_rule(cg, args, Arity::Exact(1), OpCode::LogInt, "log_int expects 1 argument");
    }
    if str_eq(name, "log_bool") {
        return emit_rule(cg, args, Arity::Exact(1), OpCode::LogBool, "log_bool expects 1 argument");
    }
    Ok(false)
}

/// Compiles a call of a built-in procedure for emitting stack-machine code that builds bytecode; `Ok(false)` when
/// `name` is none of them.
pub fn emit_meta(cg: &mut Codegen, name: &str, args: &Vec<Expr>) -> (r: Result<bool, CompileError>)
    requires
        old(cg).wf(),
    ensures
        handled_rule(*old(cg), *final(cg), r, meta_rule(name@), args@),
{
    if str_eq(name, "emit_bcop_new") {
        return emit_rule(cg, args, Arity::Exact(0), OpCode::MetaBcNew, "emit_bcop_new expects 0 arguments");
    }
    if str_eq(name, "emit_bcop_main") {
        return emit_rule(cg, args, Arity::Exact(0), OpCode::MetaBcMain, "emit_bcop_main expects 0 arguments");
    }
    if str_eq(name, "emit_bcop_write") {
        return emit_rule(cg, args, Arity::Exact(0), OpCode::MetaBcWrite, "emit_bcop_write expects 0 arguments");
    }
    if str_eq(name, "emit_bcop_func_begin") {
        return emit_rule(cg, args, Arity::Exact(0), OpCode::MetaBcFuncBegin, "emit_bcop_func_begin expects 0 arguments");
    }
    if str_eq(name, "emit_bcop_func_end") {
        return emit_rule(cg, args, Arity::Exact(0), OpCode::MetaBcFuncEnd, "emit_bcop_func_end expects 0 arguments");
    }
    if str_eq(name, "emit_bcop_halt") {
        return emit_rule(cg, args, Arity::Exact(0), OpCode::MetaBcEmitHalt, "emit_bcop_halt expects 0 arguments");
    }
    if str_eq(name, "emit_bcop_label") {
        return emit_rule(cg, args, Arity::Exact(0), OpCode::MetaBcLabel, "emit_bcop_label expects 0 arguments");
    }
    if str_eq(name, "emit_bcop_jump") {
        return emit_rule(cg, args, Arity::Exact(0), OpCode::MetaBcJump, "emit_bcop_jump expects 0 arguments");
    }
    if str_eq(name, "emit_bcop_jump_if_false") {
        return emit_rule(cg, args, Arity::Exact(0), OpCode::MetaBcJumpIfFalse, "emit_bcop_jump_if_false expects 0 arguments");
    }
    Ok(false)
}

#[verifier::rlimit(50)]
/// Compiles a call of a built-in procedure for building bytecode units, functions and control flow; `Ok(false)` when
/// `name` is none of them.
pub fn emit_bc_control(cg: &mut Codegen, name: &str, args: &Vec<Expr>) -> (r: Result<bool, CompileError>)
    requires
        old(cg).wf(),
    ensures
        handled_rule(*old(cg), *final(cg), r, control_rule(name@), args@),
{
    if str_eq(name, "builder_new") {
        return emit_rule(cg, args, Arity::Exact(1), OpCode::BcNew, "builder_new expects 1 argument");
    }
    if str_eq(name, "builder_main") {
        return emit_rule(cg, args, Arity::Exact(0), OpCode::BcMain, "builder_main expects 0 arguments");
    }
    if str_eq(name, "builder_write") {
        return emit_rule(cg, args, Arity::Exact(1), OpCode::BcWrite, "builder_write expects 1 argument");
    }
    if str_eq(name, "builder_func_begin") {
        return emit_rule(cg, args, Arity::Exact(2), OpCode::BcFuncBegin, "builder_func_begin expects 2 arguments");
    }
    if str_eq(name, "builder_func_end") {
        return emit_rule(cg, args, Arity::Exact(0), OpCode::BcFuncEnd, "builder_func_end expects 0 arguments");
    }
    if str_eq(name, "builder_emit_halt") {
        return emit_rule(cg, args, Arity::Exact(0), OpCode::BcEmitHalt, "builder_emit_halt expects 0 arguments");
    }
    if str_eq(name, "builder_label") {
        return emit_rule(cg, args, Arity::Exact(1), OpCode::BcLabel, "builder_label expects 1 argument");
    }
    if str_eq(name, "builder_jump") {
        return emit_rule(cg, args, Arity::Exact(1), OpCode::BcJump, "builder_jump expects 1 argument");
    }
    if str_eq(name, "builder_jump_if_false") {
        return emit_rule(cg, args, Arity::Exact(1), OpCode::BcJumpIfFalse, "builder_jump_if_false expects 1 argument");
    }
    if str_eq(name, "bc_new") {
        return emit_rule(cg, args, Arity::ZeroOr(1), OpCode::BcNew, "bc_new expects 0 or 1 argument");
    }
    if str_eq(name, "bc_new_op") {
        return emit_rule(cg, args, Arity::Exact(0), OpCode::BcNewOp, "bc_new_op expects 0 arguments");
    }
    if str_eq(name, "bc_main") {
        return emit_rule(cg, args, Arity::Exact(0), OpCode::BcMain, "bc_main expects 0 arguments");
    }
    if str_eq(name, "bc_main_op") {
        return emit_rule(cg, args, Arity::Exact(0), OpCode::BcMainOp, "bc_main_op expects 0 arguments");
    }
    if str_eq(name, "bc_func_begin") {
        return emit_rule(cg, args, Arity::ZeroOr(2), OpCode::BcFuncBegin, "bc_func_begin expects 0 or 2 arguments");
    }
    if str_eq(name, "bc_func_begin_op") {
        return emit_rule(cg, args, Arity::Exact(0), OpCode::BcFuncBeginOp, "bc_func_begin_op expects 0 arguments");
    }
    if str_eq(name, "bc_func_end") {
        return emit_rule(cg, args, Arity::Exact(0), OpCode::BcFuncEnd, "bc_func_end expects 0 arguments");
    }
    if str_eq(name, "bc_func_end_op") {
        return emit_rule(cg, args, Arity::Exact(0), OpCode::BcFuncEndOp, "bc_func_end_op expects 0 arguments");
    }
    if str_eq(name, "bc_emit_call") {
        return emit_rule(cg, args, Arity::ZeroOr(1), OpCode::BcEmitCall, "bc_emit_call expects 0 or 1 argument");
    }
    if str_eq(name, "bc_emit_call_op") {
        return emit_rule(cg, args, Arity::Exact(0), OpCode::BcEmitCallOp, "bc_emit_call_op expects 0 arguments");
    }
    if str_eq(name, "bc_emit_ret") {
        return emit_rule(cg, args, Arity::Exact(0), OpCode::BcEmitRet, "bc_emit_ret expects 0 arguments");
    }
    if str_eq(name, "bc_emit_ret_op") {
        return emit_rule(cg, args, Arity::Exact(0), OpCode::BcEmitRetOp, "bc_emit_ret_op expects 0 arguments");
    }
    if str_eq(name, "bc_emit_retval") {
        return emit_rule(cg, args, Arity::Exact(0), OpCode::BcEmitRetVal, "bc_emit_retval expects 0 arguments");
    }
    if str_eq(name, "bc_emit_retval_op") {
        return emit_rule(cg, args, Arity::Exact(0), OpCode::BcEmitRetValOp, "bc_emit_retval_op expects 0 arguments");
    }
    if str_eq(name, "bc_label_op") {
        return emit_rule(cg, args, Arity::Exact(0), OpCode::BcLabelOp, "bc_label_op expects 0 arguments");
    }
    if str_eq(name, "bc_jump_op") {
        return emit_rule(cg, args, Arity::Exact(0), OpCode::BcJumpOp, "bc_jump_op expects 0 arguments");
    }
    if str_eq(name, "bc_jump_if_false_op") {
        return emit_rule(cg, args, Arity::Exact(0), OpCode::BcJumpIfFalseOp, "bc_jump_if_false_op expects 0 arguments");
    }
    if str_eq(name, "bc_label") {
        return emit_rule(cg, args, Arity::ZeroOr(1), OpCode::BcLabel, "bc_label expects 0 or 1 argument");
    }
    if str_eq(name, "bc_jump") {
        return emit_rule(cg, args, Arity::ZeroOr(1), OpCode::BcJump, "bc_jump expects 0 or 1 argument");
    }
    if str_eq(name, "bc_jump_if_false") {
        return emit_rule(cg, args, Arity::ZeroOr(1), OpCode::BcJumpIfFalse, "bc_jump_if_false expects 0 or 1 argument");
    }
    if str_eq(name, "bc_emit_halt") {
        return emit_rule(cg, args, Arity::Exact(0), OpCode::BcEmitHalt, "bc_emit_halt expects 0 arguments");
    }
    if str_eq(name, "bc_emit_halt_op") {
        return emit_rule(cg, args, Arity::Exact(0), OpCode::BcEmitHaltOp, "bc_emit_halt_op expects 0 arguments");
    }
    if str_eq(name, "bc_write") {
        return emit_rule(cg, args, Arity::ZeroOr(1), OpCode::BcWrite, "bc_write expects 0 or 1 argument");
    }
    if str_eq(name, "bc_write_op") {
        return emit_rule(cg, args, Arity::Exact(0), OpCode::BcWriteOp, "bc_write_op expects 0 arguments");
    }
    Ok(false)
}

/// Whether procedure `a` is compiled as procedure `b` is whenever `a` gets
/// a number of arguments it takes: both are built-ins with the same
/// operation, and `b` takes every count that `a` takes.
pub open spec fn aliases(a: Seq<char>, b: Seq<char>) -> bool {
    &&& control_rule(a) is Some
    &&& control_rule(b) is Some
    &&& control_rule(a)->Some_0.1 == control_rule(b)->Some_0.1
    &&& forall|n: nat| arity_ok(control_rule(a)->Some_0.0, n) ==> arity_ok(control_rule(b)->Some_0.0, n)
}

/// Compiling a call of `a` with a number of arguments it takes gives what
/// compiling the same call of `b` gives, when `a` aliases `b`.
pub proof fn lemma_alias_compiles_alike(a: Seq<char>, b: Seq<char>, st: GenState, args: Seq<Expr>)
    requires
        aliases(a, b),
        arity_ok(control_rule(a)->Some_0.0, args.len()),
    ensures
        rule_outcome(st, control_rule(a), args) == rule_outcome(st, control_rule(b), args),
{
}

/// Each `builder_*` procedure is another name of the `bc_*` procedure of
/// the same suffix.
pub proof fn lemma_builder_names_alias()
    ensures
        aliases("builder_new"@, "bc_new"@),
        aliases("builder_main"@, "bc_main"@),
        aliases("builder_write"@, "bc_write"@),
        aliases("builder_func_begin"@, "bc_func_begin"@),
        aliases("builder_func_end"@, "bc_func_end"@),
        aliases("builder_emit_halt"@, "bc_emit_halt"@),
        aliases("builder_label"@, "bc_label"@),
        aliases("builder_jump"@, "bc_jump"@),
        aliases("builder_jump_if_false"@, "bc_jump_if_false"@),
{
    // The names are told apart by their lengths, or else by one character.
    reveal_strlit("bc_emit_call");
    reveal_strlit("bc_emit_call_op");
    reveal_strlit("bc_emit_halt");
    reveal_strlit("bc_emit_halt_op");
    reveal_strlit("bc_emit_ret");
    reveal_strlit("bc_emit_ret_op");
    reveal_strlit("bc_emit_retval");
    reveal_strlit("bc_emit_retval_op");
    reveal_strlit("bc_func_begin");
    reveal_strlit("bc_func_begin_op");
    reveal_strlit("bc_func_end");
    reveal_strlit("bc_func_end_op");
    reveal_strlit("bc_jump");
    reveal_strlit("bc_jump_if_false");
    reveal_strlit("bc_jump_if_false_op");
    reveal_strlit("bc_jump_op");
    reveal_strlit("bc_label");
    reveal_strlit("bc_label_op");
    reveal_strlit("bc_main");
    reveal_strlit("bc_main_op");
    reveal_strlit("bc_new");
    reveal_strlit("bc_new_op");
    reveal_strlit("bc_write");
    reveal_strlit("builder_emit_halt");
    reveal_strlit("builder_func_begin");
    reveal_strlit("builder_func_end");
    reveal_strlit("builder_jump");
    reveal_strlit("builder_jump_if_false");
    reveal_strlit("builder_label");
    reveal_strlit("builder_main");
    reveal_strlit("builder_new");
    reveal_strlit("builder_write");
    assert("bc_emit_call"@.len() == 12 && "bc_emit_call"@[8] == 'c');
    assert("bc_emit_call_op"@.len() == 15);
    assert("bc_emit_halt"@.len() == 12 && "bc_emit_halt"@[1] == 'c' && "bc_emit_halt"@[8] == 'h');
    assert("bc_emit_halt_op"@.len() == 15);
    assert("bc_emit_ret"@.len() == 11);
    assert("bc_emit_ret_op"@.len() == 14);
    assert("bc_emit_retval"@.len() == 14);
    assert("bc_emit_retval_op"@.len() == 17);
    assert("bc_func_begin"@.len() == 13 && "bc_func_begin"@[1] == 'c');
    assert("bc_func_begin_op"@.len() == 16 && "bc_func_begin_op"@[3] == 'f');
    assert("bc_func_end"@.len() == 11 && "bc_func_end"@[1] == 'c');
    assert("bc_func_end_op"@.len() == 14);
    assert("bc_jump"@.len() == 7 && "bc_jump"@[3] == 'j');
    assert("bc_jump_if_false"@.len() == 16 && "bc_jump_if_false"@[1] == 'c' && "bc_jump_if_false"@[3] == 'j');
    assert("bc_jump_if_false_op"@.len() == 19);
    assert("bc_jump_op"@.len() == 10);
    assert("bc_label"@.len() == 8 && "bc_label"@[3] == 'l');
    assert("bc_label_op"@.len() == 11);
    assert("bc_main"@.len() == 7 && "bc_main"@[3] == 'm');
    assert("bc_main_op"@.len() == 10);
    assert("bc_new"@.len() == 6);
    assert("bc_new_op"@.len() == 9);
    assert("bc_write"@.len() == 8 && "bc_write"@[3] == 'w');
    assert("builder_emit_halt"@.len() == 17);
    assert("builder_func_begin"@.len() == 18);
    assert("builder_func_end"@.len() == 16 && "builder_func_end"@[1] == 'u');
    assert("builder_jump"@.len() == 12 && "builder_jump"@[1] == 'u' && "builder_jump"@[8] == 'j');
    assert("builder_jump_if_false"@.len() == 21);
    assert("builder_label"@.len() == 13 && "builder_label"@[1] == 'u' && "builder_label"@[8] == 'l');
    assert("builder_main"@.len() == 12 && "builder_main"@[1] == 'u' && "builder_main"@[8] == 'm');
    assert("builder_new"@.len() == 11 && "builder_new"@[1] == 'u');
    assert("builder_write"@.len() == 13 && "builder_write"@[1] == 'u' && "builder_write"@[8] == 'w');
}

} // verus!
