use vstd::prelude::*;

use crate::ast::Expr;
use crate::bytecode::instr::OpCode;
use crate::codegen::expr::builtins::{emit_rule, handled_rule, Arity, Rule};
use crate::codegen::Codegen;
use crate::error::CompileError;
use crate::text::str_eq;

verus! {

/// The procedure built-ins for appending single instructions to the bytecode being built: arity, operation and the message of a wrong argument count.
pub open spec fn bc_emit_rule(name: Seq<char>) -> Option<Rule> {
    if name == "bc_emit_print_str"@ {
        Some((Arity::ZeroOr(1), OpCode::BcEmitPrintStr, "bc_emit_print_str expects 0 or 1 argument"@))
    } else if name == "bc_emit_const_int"@ {
        Some((Arity::ZeroOr(1), OpCode::BcEmitConstInt, "bc_emit_const_int expects 0 or 1 argument"@))
    } else if name == "bc_emit_store0"@ {
        Some((Arity::Exact(0), OpCode::BcEmitStore0, "bc_emit_store0 expects 0 arguments"@))
    } else if name == "bc_emit_load0"@ {
        Some((Arity::Exact(0), OpCode::BcEmitLoad0, "bc_emit_load0 expects 0 arguments"@))
    } else if name == "bc_emit_println"@ {
        Some((Arity::Exact(0), OpCode::BcEmitPrintLn, "bc_emit_println expects 0 arguments"@))
    } else if name == "bc_emit_const_bool"@ {
        Some((Arity::ZeroOr(1), OpCode::BcEmitConstBool, "bc_emit_const_bool expects 0 or 1 argument"@))
    } else if name == "bc_emit_const_str"@ {
        Some((Arity::ZeroOr(1), OpCode::BcEmitConstStr, "bc_emit_const_str expects 0 or 1 argument"@))
    } else if name == "bc_emit_load"@ {
        Some((Arity::ZeroOr(1), OpCode::BcEmitLoad, "bc_emit_load expects 0 or 1 argument"@))
    } else if name == "bc_emit_store"@ {
        Some((Arity::ZeroOr(1), OpCode::BcEmitStore, "bc_emit_store expects 0 or 1 argument"@))
    } else if name == "bc_emit_add"@ {
        Some((Arity::Exact(0), OpCode::BcEmitAdd, "bc_emit_add expects 0 arguments"@))
    } else if name == "bc_emit_sub"@ {
        Some((Arity::Exact(0), OpCode::BcEmitSub, "bc_emit_sub expects 0 arguments"@))
    } else if name == "bc_emit_mul"@ {
        Some((Arity::Exact(0), OpCode::BcEmitMul, "bc_emit_mul expects 0 arguments"@))
    } else if name == "bc_emit_div"@ {
        Some((Arity::Exact(0), OpCode::BcEmitDiv, "bc_emit_div expects 0 arguments"@))
    } else if name == "bc_emit_eq"@ {
        Some((Arity::Exact(0), OpCode::BcEmitEq, "bc_emit_eq expects 0 arguments"@))
    } else if name == "bc_emit_ne"@ {
        Some((Arity::Exact(0), OpCode::BcEmitNe, "bc_emit_ne expects 0 arguments"@))
    } else if name == "bc_emit_lt"@ {
        Some((Arity::Exact(0), OpCode::BcEmitLt, "bc_emit_lt expects 0 arguments"@))
    } else if name == "bc_emit_le"@ {
        Some((Arity::Exact(0), OpCode::BcEmitLe, "bc_emit_le expects 0 arguments"@))
    } else if name == "bc_emit_gt"@ {
        Some((Arity::Exact(0), OpCode::BcEmitGt, "bc_emit_gt expects 0 arguments"@))
    } else if name == "bc_emit_ge"@ {
        Some((Arity::Exact(0), OpCode::BcEmitGe, "bc_emit_ge expects 0 arguments"@))
    } else if name == "bc_emit_and"@ {
        Some((Arity::Exact(0), OpCode::BcEmitAnd, "bc_emit_and expects 0 arguments"@))
    } else if name == "bc_emit_or"@ {
        Some((Arity::Exact(0), OpCode::BcEmitOr, "bc_emit_or expects 0 arguments"@))
    } else if name == "bc_emit_not"@ {
        Some((Arity::Exact(0), OpCode::BcEmitNot, "bc_emit_not expects 0 arguments"@))
    } else if name == "bc_emit_neg"@ {
        Some((Arity::Exact(0), OpCode::BcEmitNeg, "bc_emit_neg expects 0 arguments"@))
    } else if name == "bc_emit_strlen"@ {
        Some((Arity::Exact(0), OpCode::BcEmitStrLen, "bc_emit_strlen expects 0 arguments"@))
    } else if name == "bc_emit_concat"@ {
        Some((Arity::Exact(0), OpCode::BcEmitStrConcat, "bc_emit_concat expects 0 arguments"@))
    } else if name == "bc_emit_substr"@ {
        Some((Arity::Exact(0), OpCode::BcEmitStrSubstr, "bc_emit_substr expects 0 arguments"@))
    } else if name == "bc_emit_replace"@ {
        Some((Arity::Exact(0), OpCode::BcEmitStrReplace, "bc_emit_replace expects 0 arguments"@))
    } else if name == "bc_emit_vec_new"@ {
        Some((Arity::Exact(0), OpCode::BcEmitVecNew, "bc_emit_vec_new expects 0 arguments"@))
    } else if name == "bc_emit_vec_len"@ {
        Some((Arity::Exact(0), OpCode::BcEmitVecLen, "bc_emit_vec_len expects 0 arguments"@))
    } else if name == "bc_emit_vec_get"@ {
        Some((Arity::Exact(0), OpCode::BcEmitVecGet, "bc_emit_vec_get expects 0 arguments"@))
    } else if name == "bc_emit_vec_set"@ {
        Some((Arity::Exact(0), OpCode::BcEmitVecSet, "bc_emit_vec_set expects 0 arguments"@))
    } else if name == "bc_emit_vec_push"@ {
        Some((Arity::Exact(0), OpCode::BcEmitVecPush, "bc_emit_vec_push expects 0 arguments"@))
    } else if name == "bc_emit_vec_remove"@ {
        Some((Arity::Exact(0), OpCode::BcEmitVecRemove, "bc_emit_vec_remove expects 0 arguments"@))
    } else if name == "bc_emit_vec_last"@ {
        Some((Arity::Exact(0), OpCode::BcEmitVecLast, "bc_emit_vec_last expects 0 arguments"@))
    } else if name == "bc_emit_vec_pop"@ {
        Some((Arity::Exact(0), OpCode::BcEmitVecPop, "bc_emit_vec_pop expects 0 arguments"@))
    } else if name == "bc_emit_map_new"@ {
        Some((Arity::Exact(0), OpCode::BcEmitMapNew, "bc_emit_map_new expects 0 arguments"@))
    } else if name == "bc_emit_map_len"@ {
        Some((Arity::Exact(0), OpCode::BcEmitMapLen, "bc_emit_map_len expects 0 arguments"@))
    } else if name == "bc_emit_map_set"@ {
        Some((Arity::Exact(0), OpCode::BcEmitMapSet, "bc_emit_map_set expects 0 arguments"@))
    } else if name == "bc_emit_map_get"@ {
        Some((Arity::Exact(0), OpCode::BcEmitMapGet, "bc_emit_map_get expects 0 arguments"@))
    } else if name == "bc_emit_map_has"@ {
        Some((Arity::Exact(0), OpCode::BcEmitMapHas, "bc_emit_map_has expects 0 arguments"@))
    } else if name == "bc_emit_map_remove"@ {
        Some((Arity::Exact(0), OpCode::BcEmitMapRemove, "bc_emit_map_remove expects 0 arguments"@))
    } else if name == "bc_emit_readfile"@ {
        Some((Arity::Exact(0), OpCode::BcEmitReadFile, "bc_emit_readfile expects 0 arguments"@))
    } else if name == "bc_emit_writefile"@ {
        Some((Arity::Exact(0), OpCode::BcEmitWriteFile, "bc_emit_writefile expects 0 arguments"@))
    } else if name == "bc_emit_arg_count"@ {
        Some((Arity::Exact(0), OpCode::BcEmitArgCount, "bc_emit_arg_count expects 0 arguments"@))
    } else if name == "bc_emit_arg"@ {
        Some((Arity::Exact(0), OpCode::BcEmitArg, "bc_emit_arg expects 0 arguments"@))
    } else if name == "bc_emit_str_clear"@ {
        Some((Arity::Exact(0), OpCode::BcEmitStrClear, "bc_emit_str_clear expects 0 arguments"@))
    } else if name == "bc_emit_vec_clear"@ {
        Some((Arity::Exact(0), OpCode::BcEmitVecClear, "bc_emit_vec_clear expects 0 arguments"@))
    } else if name == "bc_emit_map_clear"@ {
        Some((Arity::Exact(0), OpCode::BcEmitMapClear, "bc_emit_map_clear expects 0 arguments"@))
    } else if name == "bc_emit_env_get"@ {
        Some((Arity::Exact(0), OpCode::BcEmitEnvGet, "bc_emit_env_get expects 0 arguments"@))
    } else if name == "bc_emit_env_has"@ {
        Some((Arity::Exact(0), OpCode::BcEmitEnvHas, "bc_emit_env_has expects 0 arguments"@))
    } else if name == "bc_emit_cwd"@ {
        Some((Arity::Exact(0), OpCode::BcEmitCwd, "bc_emit_cwd expects 0 arguments"@))
    } else if name == "bc_emit_path_join"@ {
        Some((Arity::Exact(0), OpCode::BcEmitPathJoin, "bc_emit_path_join expects 0 arguments"@))
    } else if name == "bc_emit_fs_exists"@ {
        Some((Arity::Exact(0), OpCode::BcEmitFsExists, "bc_emit_fs_exists expects 0 arguments"@))
    } else if name == "bc_emit_fs_listdir"@ {
        Some((Arity::Exact(0), OpCode::BcEmitFsListDir, "bc_emit_fs_listdir expects 0 arguments"@))
    } else if name == "bc_emit_now_timestamp"@ {
        Some((Arity::Exact(0), OpCode::BcEmitNowTimestamp, "bc_emit_now_timestamp expects 0 arguments"@))
    } else if name == "bc_emit_const_int_op"@ {
        Some((Arity::Exact(0), OpCode::BcEmitConstIntOp, "bc_emit_const_int_op expects 0 arguments"@))
    } else if name == "bc_emit_const_bool_op"@ {
        Some((Arity::Exact(0), OpCode::BcEmitConstBoolOp, "bc_emit_const_bool_op expects 0 arguments"@))
    } else if name == "bc_emit_const_str_op"@ {
        Some((Arity::Exact(0), OpCode::BcEmitConstStrOp, "bc_emit_const_str_op expects 0 arguments"@))
    } else if name == "bc_emit_load_op"@ {
        Some((Arity::Exact(0), OpCode::BcEmitLoadOp, "bc_emit_load_op expects 0 arguments"@))
    } else if name == "bc_emit_store_op"@ {
        Some((Arity::Exact(0), OpCode::BcEmitStoreOp, "bc_emit_store_op expects 0 arguments"@))
    } else if name == "bc_emit_println_op"@ {
        Some((Arity::Exact(0), OpCode::BcEmitPrintLnOp, "bc_emit_println_op expects 0 arguments"@))
    } else if name == "bc_emit_writefile_op"@ {
        Some((Arity::Exact(0), OpCode::BcEmitWriteFileOp, "bc_emit_writefile_op expects 0 arguments"@))
    } else if name == "bc_emit_add_op"@ {
        Some((Arity::Exact(0), OpCode::BcEmitAddOp, "bc_emit_add_op expects 0 arguments"@))
    } else if name == "bc_emit_sub_op"@ {
        Some((Arity::Exact(0), OpCode::BcEmitSubOp, "bc_emit_sub_op expects 0 arguments"@))
    } else if name == "bc_emit_mul_op"@ {
        Some((Arity::Exact(0), OpCode::BcEmitMulOp, "bc_emit_mul_op expects 0 arguments"@))
    } else if name == "bc_emit_div_op"@ {
        Some((Arity::Exact(0), OpCode::BcEmitDivOp, "bc_emit_div_op expects 0 arguments"@))
    } else if name == "bc_emit_eq_op"@ {
        Some((Arity::Exact(0), OpCode::BcEmitEqOp, "bc_emit_eq_op expects 0 arguments"@))
    } else if name == "bc_emit_ne_op"@ {
        Some((Arity::Exact(0), OpCode::BcEmitNeOp, "bc_emit_ne_op expects 0 arguments"@))
    } else if name == "bc_emit_lt_op"@ {
        Some((Arity::Exact(0), OpCode::BcEmitLtOp, "bc_emit_lt_op expects 0 arguments"@))
    } else if name == "bc_emit_le_op"@ {
        Some((Arity::Exact(0), OpCode::BcEmitLeOp, "bc_emit_le_op expects 0 arguments"@))
    } else if name == "bc_emit_gt_op"@ {
        Some((Arity::Exact(0), OpCode::BcEmitGtOp, "bc_emit_gt_op expects 0 arguments"@))
    } else if name == "bc_emit_ge_op"@ {
        Some((Arity::Exact(0), OpCode::BcEmitGeOp, "bc_emit_ge_op expects 0 arguments"@))
    } else if name == "bc_emit_and_op"@ {
        Some((Arity::Exact(0), OpCode::BcEmitAndOp, "bc_emit_and_op expects 0 arguments"@))
    } else if name == "bc_emit_or_op"@ {
        Some((Arity::Exact(0), OpCode::BcEmitOrOp, "bc_emit_or_op expects 0 arguments"@))
    } else if name == "bc_emit_not_op"@ {
        Some((Arity::Exact(0), OpCode::BcEmitNotOp, "bc_emit_not_op expects 0 arguments"@))
    } else if name == "bc_emit_neg_op"@ {
        Some((Arity::Exact(0), OpCode::BcEmitNegOp, "bc_emit_neg_op expects 0 arguments"@))
    } else if name == "bc_emit_strlen_op"@ {
        Some((Arity::Exact(0), OpCode::BcEmitStrLenOp, "bc_emit_strlen_op expects 0 arguments"@))
    } else if name == "bc_emit_concat_op"@ {
        Some((Arity::Exact(0), OpCode::BcEmitStrConcatOp, "bc_emit_concat_op expects 0 arguments"@))
    } else if name == "bc_emit_substr_op"@ {
        Some((Arity::Exact(0), OpCode::BcEmitStrSubstrOp, "bc_emit_substr_op expects 0 arguments"@))
    } else if name == "bc_emit_replace_op"@ {
        Some((Arity::Exact(0), OpCode::BcEmitStrReplaceOp, "bc_emit_replace_op expects 0 arguments"@))
    } else if name == "bc_emit_vec_new_op"@ {
        Some((Arity::Exact(0), OpCode::BcEmitVecNewOp, "bc_emit_vec_new_op expects 0 arguments"@))
    } else if name == "bc_emit_vec_len_op"@ {
        Some((Arity::Exact(0), OpCode::BcEmitVecLenOp, "bc_emit_vec_len_op expects 0 arguments"@))
    } else if name == "bc_emit_vec_get_op"@ {
        Some((Arity::Exact(0), OpCode::BcEmitVecGetOp, "bc_emit_vec_get_op expects 0 arguments"@))
    } else if name == "bc_emit_vec_set_op"@ {
        Some((Arity::Exact(0), OpCode::BcEmitVecSetOp, "bc_emit_vec_set_op expects 0 arguments"@))
    } else if name == "bc_emit_vec_push_op"@ {
        Some((Arity::Exact(0), OpCode::BcEmitVecPushOp, "bc_emit_vec_push_op expects 0 arguments"@))
    } else if name == "bc_emit_vec_remove_op"@ {
        Some((Arity::Exact(0), OpCode::BcEmitVecRemoveOp, "bc_emit_vec_remove_op expects 0 arguments"@))
    } else if name == "bc_emit_vec_last_op"@ {
        Some((Arity::Exact(0), OpCode::BcEmitVecLastOp, "bc_emit_vec_last_op expects 0 arguments"@))
    } else if name == "bc_emit_vec_pop_op"@ {
        Some((Arity::Exact(0), OpCode::BcEmitVecPopOp, "bc_emit_vec_pop_op expects 0 arguments"@))
    } else if name == "bc_emit_vec_clear_op"@ {
        Some((Arity::Exact(0), OpCode::BcEmitVecClearOp, "bc_emit_vec_clear_op expects 0 arguments"@))
    } else if name == "bc_emit_map_new_op"@ {
        Some((Arity::Exact(0), OpCode::BcEmitMapNewOp, "bc_emit_map_new_op expects 0 arguments"@))
    } else if name == "bc_emit_map_len_op"@ {
        Some((Arity::Exact(0), OpCode::BcEmitMapLenOp, "bc_emit_map_len_op expects 0 arguments"@))
    } else if name == "bc_emit_map_set_op"@ {
        Some((Arity::Exact(0), OpCode::BcEmitMapSetOp, "bc_emit_map_set_op expects 0 arguments"@))
    } else if name == "bc_emit_map_get_op"@ {
        Some((Arity::Exact(0), OpCode::BcEmitMapGetOp, "bc_emit_map_get_op expects 0 arguments"@))
    } else if name == "bc_emit_map_has_op"@ {
        Some((Arity::Exact(0), OpCode::BcEmitMapHasOp, "bc_emit_map_has_op expects 0 arguments"@))
    } else if name == "bc_emit_map_remove_op"@ {
        Some((Arity::Exact(0), OpCode::BcEmitMapRemoveOp, "bc_emit_map_remove_op expects 0 arguments"@))
    } else if name == "bc_emit_map_clear_op"@ {
        Some((Arity::Exact(0), OpCode::BcEmitMapClearOp, "bc_emit_map_clear_op expects 0 arguments"@))
    } else if name == "bc_emit_readfile_op"@ {
        Some((Arity::Exact(0), OpCode::BcEmitReadFileOp, "bc_emit_readfile_op expects 0 arguments"@))
    } else if name == "bc_emit_arg_count_op"@ {
        Some((Arity::Exact(0), OpCode::BcEmitArgCountOp, "bc_emit_arg_count_op expects 0 arguments"@))
    } else if name == "bc_emit_arg_op"@ {
        Some((Arity::Exact(0), OpCode::BcEmitArgOp, "bc_emit_arg_op expects 0 arguments"@))
    } else if name == "bc_emit_env_get_op"@ {
        Some((Arity::Exact(0), OpCode::BcEmitEnvGetOp, "bc_emit_env_get_op expects 0 arguments"@))
    } else if name == "bc_emit_env_has_op"@ {
        Some((Arity::Exact(0), OpCode::BcEmitEnvHasOp, "bc_emit_env_has_op expects 0 arguments"@))
    } else if name == "bc_emit_cwd_op"@ {
        Some((Arity::Exact(0), OpCode::BcEmitCwdOp, "bc_emit_cwd_op expects 0 arguments"@))
    } else if name == "bc_emit_path_join_op"@ {
        Some((Arity::Exact(0), OpCode::BcEmitPathJoinOp, "bc_emit_path_join_op expects 0 arguments"@))
    } else if name == "bc_emit_fs_exists_op"@ {
        Some((Arity::Exact(0), OpCode::BcEmitFsExistsOp, "bc_emit_fs_exists_op expects 0 arguments"@))
    } else if name == "bc_emit_fs_listdir_op"@ {
        Some((Arity::Exact(0), OpCode::BcEmitFsListDirOp, "bc_emit_fs_listdir_op expects 0 arguments"@))
    } else if name == "bc_emit_now_timestamp_op"@ {
        Some((Arity::Exact(0), OpCode::BcEmitNowTimestampOp, "bc_emit_now_timestamp_op expects 0 arguments"@))
    } else {
        None
    }
}

/// Compiles a call of a built-in procedure for appending single instructions to the bytecode being built; `Ok(false)` when
/// `name` is none of them.
#[verifier::rlimit(100)]
pub fn emit_bc_emit(cg: &mut Codegen, name: &str, args: &Vec<Expr>) -> (r: Result<bool, CompileError>)
    requires
        old(cg).wf(),
    ensures
        handled_rule(*old(cg), *final(cg), r, bc_emit_rule(name@), args@),
{
    if str_eq(name, "bc_emit_print_str") {
        return emit_rule(cg, args, Arity::ZeroOr(1), OpCode::BcEmitPrintStr, "bc_emit_print_str expects 0 or 1 argument");
    }
    if str_eq(name, "bc_emit_const_int") {
        return emit_rule(cg, args, Arity::ZeroOr(1), OpCode::BcEmitConstInt, "bc_emit_const_int expects 0 or 1 argument");
    }
    if str_eq(name, "bc_emit_store0") {
        return emit_rule(cg, args, Arity::Exact(0), OpCode::BcEmitStore0, "bc_emit_store0 expects 0 arguments");
    }
    if str_eq(name, "bc_emit_load0") {
        return emit_rule(cg, args, Arity::Exact(0), OpCode::BcEmitLoad0, "bc_emit_load0 expects 0 arguments");
    }
    if str_eq(name, "bc_emit_println") {
        return emit_rule(cg, args, Arity::Exact(0), OpCode::BcEmitPrintLn, "bc_emit_println expects 0 arguments");
    }
    if str_eq(name, "bc_emit_const_bool") {
        return emit_rule(cg, args, Arity::ZeroOr(1), OpCode::BcEmitConstBool, "bc_emit_const_bool expects 0 or 1 argument");
    }
    if str_eq(name, "bc_emit_const_str") {
        return emit_rule(cg, args, Arity::ZeroOr(1), OpCode::BcEmitConstStr, "bc_emit_const_str expects 0 or 1 argument");
    }
    if str_eq(name, "bc_emit_load") {
        return emit_rule(cg, args, Arity::ZeroOr(1), OpCode::BcEmitLoad, "bc_emit_load expects 0 or 1 argument");
    }
    if str_eq(name, "bc_emit_store") {
        return emit_rule(cg, args, Arity::ZeroOr(1), OpCode::BcEmitStore, "bc_emit_store expects 0 or 1 argument");
    }
    if str_eq(name, "bc_emit_add") {
        return emit_rule(cg, args, Arity::Exact(0), OpCode::BcEmitAdd, "bc_emit_add expects 0 arguments");
    }
    if str_eq(name, "bc_emit_sub") {
        return emit_rule(cg, args, Arity::Exact(0), OpCode::BcEmitSub, "bc_emit_sub expects 0 arguments");
    }
    if str_eq(name, "bc_emit_mul") {
        return emit_rule(cg, args, Arity::Exact(0), OpCode::BcEmitMul, "bc_emit_mul expects 0 arguments");
    }
    if str_eq(name, "bc_emit_div") {
        return emit_rule(cg, args, Arity::Exact(0), OpCode::BcEmitDiv, "bc_emit_div expects 0 arguments");
    }
    if str_eq(name, "bc_emit_eq") {
        return emit_rule(cg, args, Arity::Exact(0), OpCode::BcEmitEq, "bc_emit_eq expects 0 arguments");
    }
    if str_eq(name, "bc_emit_ne") {
        return emit_rule(cg, args, Arity::Exact(0), OpCode::BcEmitNe, "bc_emit_ne expects 0 arguments");
    }
    if str_eq(name, "bc_emit_lt") {
        return emit_rule(cg, args, Arity::Exact(0), OpCode::BcEmitLt, "bc_emit_lt expects 0 arguments");
    }
    if str_eq(name, "bc_emit_le") {
        return emit_rule(cg, args, Arity::Exact(0), OpCode::BcEmitLe, "bc_emit_le expects 0 arguments");
    }
    if str_eq(name, "bc_emit_gt") {
        return emit_rule(cg, args, Arity::Exact(0), OpCode::BcEmitGt, "bc_emit_gt expects 0 arguments");
    }
    if str_eq(name, "bc_emit_ge") {
        return emit_rule(cg, args, Arity::Exact(0), OpCode::BcEmitGe, "bc_emit_ge expects 0 arguments");
    }
    if str_eq(name, "bc_emit_and") {
        return emit_rule(cg, args, Arity::Exact(0), OpCode::BcEmitAnd, "bc_emit_and expects 0 arguments");
    }
    if str_eq(name, "bc_emit_or") {
        return emit_rule(cg, args, Arity::Exact(0), OpCode::BcEmitOr, "bc_emit_or expects 0 arguments");
    }
    if str_eq(name, "bc_emit_not") {
        return emit_rule(cg, args, Arity::Exact(0), OpCode::BcEmitNot, "bc_emit_not expects 0 arguments");
    }
    if str_eq(name, "bc_emit_neg") {
        return emit_rule(cg, args, Arity::Exact(0), OpCode::BcEmitNeg, "bc_emit_neg expects 0 arguments");
    }
    if str_eq(name, "bc_emit_strlen") {
        return emit_rule(cg, args, Arity::Exact(0), OpCode::BcEmitStrLen, "bc_emit_strlen expects 0 arguments");
    }
    if str_eq(name, "bc_emit_concat") {
        return emit_rule(cg, args, Arity::Exact(0), OpCode::BcEmitStrConcat, "bc_emit_concat expects 0 arguments");
    }
    if str_eq(name, "bc_emit_substr") {
        return emit_rule(cg, args, Arity::Exact(0), OpCode::BcEmitStrSubstr, "bc_emit_substr expects 0 arguments");
    }
    if str_eq(name, "bc_emit_replace") {
        return emit_rule(cg, args, Arity::Exact(0), OpCode::BcEmitStrReplace, "bc_emit_replace expects 0 arguments");
    }
    if str_eq(name, "bc_emit_vec_new") {
        return emit_rule(cg, args, Arity::Exact(0), OpCode::BcEmitVecNew, "bc_emit_vec_new expects 0 arguments");
    }
    if str_eq(name, "bc_emit_vec_len") {
        return emit_rule(cg, args, Arity::Exact(0), OpCode::BcEmitVecLen, "bc_emit_vec_len expects 0 arguments");
    }
    if str_eq(name, "bc_emit_vec_get") {
        return emit_rule(cg, args, Arity::Exact(0), OpCode::BcEmitVecGet, "bc_emit_vec_get expects 0 arguments");
    }
    if str_eq(name, "bc_emit_vec_set") {
        return emit_rule(cg, args, Arity::Exact(0), OpCode::BcEmitVecSet, "bc_emit_vec_set expects 0 arguments");
    }
    if str_eq(name, "bc_emit_vec_push") {
        return emit_rule(cg, args, Arity::Exact(0), OpCode::BcEmitVecPush, "bc_emit_vec_push expects 0 arguments");
    }
    if str_eq(name, "bc_emit_vec_remove") {
        return emit_rule(cg, args, Arity::Exact(0), OpCode::BcEmitVecRemove, "bc_emit_vec_remove expects 0 arguments");
    }
    if str_eq(name, "bc_emit_vec_last") {
        return emit_rule(cg, args, Arity::Exact(0), OpCode::BcEmitVecLast, "bc_emit_vec_last expects 0 arguments");
    }
    if str_eq(name, "bc_emit_vec_pop") {
        return emit_rule(cg, args, Arity::Exact(0), OpCode::BcEmitVecPop, "bc_emit_vec_pop expects 0 arguments");
    }
    if str_eq(name, "bc_emit_map_new") {
        return emit_rule(cg, args, Arity::Exact(0), OpCode::BcEmitMapNew, "bc_emit_map_new expects 0 arguments");
    }
    if str_eq(name, "bc_emit_map_len") {
        return emit_rule(cg, args, Arity::Exact(0), OpCode::BcEmitMapLen, "bc_emit_map_len expects 0 arguments");
    }
    if str_eq(name, "bc_emit_map_set") {
        return emit_rule(cg, args, Arity::Exact(0), OpCode::BcEmitMapSet, "bc_emit_map_set expects 0 arguments");
    }
    if str_eq(name, "bc_emit_map_get") {
        return emit_rule(cg, args, Arity::Exact(0), OpCode::BcEmitMapGet, "bc_emit_map_get expects 0 arguments");
    }
    if str_eq(name, "bc_emit_map_has") {
        return emit_rule(cg, args, Arity::Exact(0), OpCode::BcEmitMapHas, "bc_emit_map_has expects 0 arguments");
    }
    if str_eq(name, "bc_emit_map_remove") {
        return emit_rule(cg, args, Arity::Exact(0), OpCode::BcEmitMapRemove, "bc_emit_map_remove expects 0 arguments");
    }
    if str_eq(name, "bc_emit_readfile") {
        return emit_rule(cg, args, Arity::Exact(0), OpCode::BcEmitReadFile, "bc_emit_readfile expects 0 arguments");
    }
    if str_eq(name, "bc_emit_writefile") {
        return emit_rule(cg, args, Arity::Exact(0), OpCode::BcEmitWriteFile, "bc_emit_writefile expects 0 arguments");
    }
    if str_eq(name, "bc_emit_arg_count") {
        return emit_rule(cg, args, Arity::Exact(0), OpCode::BcEmitArgCount, "bc_emit_arg_count expects 0 arguments");
    }
    if str_eq(name, "bc_emit_arg") {
        return emit_rule(cg, args, Arity::Exact(0), OpCode::BcEmitArg, "bc_emit_arg expects 0 arguments");
    }
    if str_eq(name, "bc_emit_str_clear") {
        return emit_rule(cg, args, Arity::Exact(0), OpCode::BcEmitStrClear, "bc_emit_str_clear expects 0 arguments");
    }
    if str_eq(name, "bc_emit_vec_clear") {
        return emit_rule(cg, args, Arity::Exact(0), OpCode::BcEmitVecClear, "bc_emit_vec_clear expects 0 arguments");
    }
    if str_eq(name, "bc_emit_map_clear") {
        return emit_rule(cg, args, Arity::Exact(0), OpCode::BcEmitMapClear, "bc_emit_map_clear expects 0 arguments");
    }
    if str_eq(name, "bc_emit_env_get") {
        return emit_rule(cg, args, Arity::Exact(0), OpCode::BcEmitEnvGet, "bc_emit_env_get expects 0 arguments");
    }
    if str_eq(name, "bc_emit_env_has") {
        return emit_rule(cg, args, Arity::Exact(0), OpCode::BcEmitEnvHas, "bc_emit_env_has expects 0 arguments");
    }
    if str_eq(name, "bc_emit_cwd") {
        return emit_rule(cg, args, Arity::Exact(0), OpCode::BcEmitCwd, "bc_emit_cwd expects 0 arguments");
    }
    if str_eq(name, "bc_emit_path_join") {
        return emit_rule(cg, args, Arity::Exact(0), OpCode::BcEmitPathJoin, "bc_emit_path_join expects 0 arguments");
    }
    if str_eq(name, "bc_emit_fs_exists") {
        return emit_rule(cg, args, Arity::Exact(0), OpCode::BcEmitFsExists, "bc_emit_fs_exists expects 0 arguments");
    }
    if str_eq(name, "bc_emit_fs_listdir") {
        return emit_rule(cg, args, Arity::Exact(0), OpCode::BcEmitFsListDir, "bc_emit_fs_listdir expects 0 arguments");
    }
    if str_eq(name, "bc_emit_now_timestamp") {
        return emit_rule(cg, args, Arity::Exact(0), OpCode::BcEmitNowTimestamp, "bc_emit_now_timestamp expects 0 arguments");
    }
    if str_eq(name, "bc_emit_const_int_op") {
        return emit_rule(cg, args, Arity::Exact(0), OpCode::BcEmitConstIntOp, "bc_emit_const_int_op expects 0 arguments");
    }
    if str_eq(name, "bc_emit_const_bool_op") {
        return emit_rule(cg, args, Arity::Exact(0), OpCode::BcEmitConstBoolOp, "bc_emit_const_bool_op expects 0 arguments");
    }
    if str_eq(name, "bc_emit_const_str_op") {
        return emit_rule(cg, args, Arity::Exact(0), OpCode::BcEmitConstStrOp, "bc_emit_const_str_op expects 0 arguments");
    }
    if str_eq(name, "bc_emit_load_op") {
        return emit_rule(cg, args, Arity::Exact(0), OpCode::BcEmitLoadOp, "bc_emit_load_op expects 0 arguments");
    }
    if str_eq(name, "bc_emit_store_op") {
        return emit_rule(cg, args, Arity::Exact(0), OpCode::BcEmitStoreOp, "bc_emit_store_op expects 0 arguments");
    }
    if str_eq(name, "bc_emit_println_op") {
        return emit_rule(cg, args, Arity::Exact(0), OpCode::BcEmitPrintLnOp, "bc_emit_println_op expects 0 arguments");
    }
    if str_eq(name, "bc_emit_writefile_op") {
        return emit_rule(cg, args, Arity::Exact(0), OpCode::BcEmitWriteFileOp, "bc_emit_writefile_op expects 0 arguments");
    }
    if str_eq(name, "bc_emit_add_op") {
        return emit_rule(cg, args, Arity::Exact(0), OpCode::BcEmitAddOp, "bc_emit_add_op expects 0 arguments");
    }
    if str_eq(name, "bc_emit_sub_op") {
        return emit_rule(cg, args, Arity::Exact(0), OpCode::BcEmitSubOp, "bc_emit_sub_op expects 0 arguments");
    }
    if str_eq(name, "bc_emit_mul_op") {
        return emit_rule(cg, args, Arity::Exact(0), OpCode::BcEmitMulOp, "bc_emit_mul_op expects 0 arguments");
    }
    if str_eq(name, "bc_emit_div_op") {
        return emit_rule(cg, args, Arity::Exact(0), OpCode::BcEmitDivOp, "bc_emit_div_op expects 0 arguments");
    }
    if str_eq(name, "bc_emit_eq_op") {
        return emit_rule(cg, args, Arity::Exact(0), OpCode::BcEmitEqOp, "bc_emit_eq_op expects 0 arguments");
    }
    if str_eq(name, "bc_emit_ne_op") {
        return emit_rule(cg, args, Arity::Exact(0), OpCode::BcEmitNeOp, "bc_emit_ne_op expects 0 arguments");
    }
    if str_eq(name, "bc_emit_lt_op") {
        return emit_rule(cg, args, Arity::Exact(0), OpCode::BcEmitLtOp, "bc_emit_lt_op expects 0 arguments");
    }
    if str_eq(name, "bc_emit_le_op") {
        return emit_rule(cg, args, Arity::Exact(0), OpCode::BcEmitLeOp, "bc_emit_le_op expects 0 arguments");
    }
    if str_eq(name, "bc_emit_gt_op") {
        return emit_rule(cg, args, Arity::Exact(0), OpCode::BcEmitGtOp, "bc_emit_gt_op expects 0 arguments");
    }
    if str_eq(name, "bc_emit_ge_op") {
        return emit_rule(cg, args, Arity::Exact(0), OpCode::BcEmitGeOp, "bc_emit_ge_op expects 0 arguments");
    }
    if str_eq(name, "bc_emit_and_op") {
        return emit_rule(cg, args, Arity::Exact(0), OpCode::BcEmitAndOp, "bc_emit_and_op expects 0 arguments");
    }
    if str_eq(name, "bc_emit_or_op") {
        return emit_rule(cg, args, Arity::Exact(0), OpCode::BcEmitOrOp, "bc_emit_or_op expects 0 arguments");
    }
    if str_eq(name, "bc_emit_not_op") {
        return emit_rule(cg, args, Arity::Exact(0), OpCode::BcEmitNotOp, "bc_emit_not_op expects 0 arguments");
    }
    if str_eq(name, "bc_emit_neg_op") {
        return emit_rule(cg, args, Arity::Exact(0), OpCode::BcEmitNegOp, "bc_emit_neg_op expects 0 arguments");
    }
    if str_eq(name, "bc_emit_strlen_op") {
        return emit_rule(cg, args, Arity::Exact(0), OpCode::BcEmitStrLenOp, "bc_emit_strlen_op expects 0 arguments");
    }
    if str_eq(name, "bc_emit_concat_op") {
        return emit_rule(cg, args, Arity::Exact(0), OpCode::BcEmitStrConcatOp, "bc_emit_concat_op expects 0 arguments");
    }
    if str_eq(name, "bc_emit_substr_op") {
        return emit_rule(cg, args, Arity::Exact(0), OpCode::BcEmitStrSubstrOp, "bc_emit_substr_op expects 0 arguments");
    }
    if str_eq(name, "bc_emit_replace_op") {
        return emit_rule(cg, args, Arity::Exact(0), OpCode::BcEmitStrReplaceOp, "bc_emit_replace_op expects 0 arguments");
    }
    if str_eq(name, "bc_emit_vec_new_op") {
        return emit_rule(cg, args, Arity::Exact(0), OpCode::BcEmitVecNewOp, "bc_emit_vec_new_op expects 0 arguments");
    }
    if str_eq(name, "bc_emit_vec_len_op") {
        return emit_rule(cg, args, Arity::Exact(0), OpCode::BcEmitVecLenOp, "bc_emit_vec_len_op expects 0 arguments");
    }
    if str_eq(name, "bc_emit_vec_get_op") {
        return emit_rule(cg, args, Arity::Exact(0), OpCode::BcEmitVecGetOp, "bc_emit_vec_get_op expects 0 arguments");
    }
    if str_eq(name, "bc_emit_vec_set_op") {
        return emit_rule(cg, args, Arity::Exact(0), OpCode::BcEmitVecSetOp, "bc_emit_vec_set_op expects 0 arguments");
    }
    if str_eq(name, "bc_emit_vec_push_op") {
        return emit_rule(cg, args, Arity::Exact(0), OpCode::BcEmitVecPushOp, "bc_emit_vec_push_op expects 0 arguments");
    }
    if str_eq(name, "bc_emit_vec_remove_op") {
        return emit_rule(cg, args, Arity::Exact(0), OpCode::BcEmitVecRemoveOp, "bc_emit_vec_remove_op expects 0 arguments");
    }
    if str_eq(name, "bc_emit_vec_last_op") {
        return emit_rule(cg, args, Arity::Exact(0), OpCode::BcEmitVecLastOp, "bc_emit_vec_last_op expects 0 arguments");
    }
    if str_eq(name, "bc_emit_vec_pop_op") {
        return emit_rule(cg, args, Arity::Exact(0), OpCode::BcEmitVecPopOp, "bc_emit_vec_pop_op expects 0 arguments");
    }
    if str_eq(name, "bc_emit_vec_clear_op") {
        return emit_rule(cg, args, Arity::Exact(0), OpCode::BcEmitVecClearOp, "bc_emit_vec_clear_op expects 0 arguments");
    }
    if str_eq(name, "bc_emit_map_new_op") {
        return emit_rule(cg, args, Arity::Exact(0), OpCode::BcEmitMapNewOp, "bc_emit_map_new_op expects 0 arguments");
    }
    if str_eq(name, "bc_emit_map_len_op") {
        return emit_rule(cg, args, Arity::Exact(0), OpCode::BcEmitMapLenOp, "bc_emit_map_len_op expects 0 arguments");
    }
    if str_eq(name, "bc_emit_map_set_op") {
        return emit_rule(cg, args, Arity::Exact(0), OpCode::BcEmitMapSetOp, "bc_emit_map_set_op expects 0 arguments");
    }
    if str_eq(name, "bc_emit_map_get_op") {
        return emit_rule(cg, args, Arity::Exact(0), OpCode::BcEmitMapGetOp, "bc_emit_map_get_op expects 0 arguments");
    }
    if str_eq(name, "bc_emit_map_has_op") {
        return emit_rule(cg, args, Arity::Exact(0), OpCode::BcEmitMapHasOp, "bc_emit_map_has_op expects 0 arguments");
    }
    if str_eq(name, "bc_emit_map_remove_op") {
        return emit_rule(cg, args, Arity::Exact(0), OpCode::BcEmitMapRemoveOp, "bc_emit_map_remove_op expects 0 arguments");
    }
    if str_eq(name, "bc_emit_map_clear_op") {
        return emit_rule(cg, args, Arity::Exact(0), OpCode::BcEmitMapClearOp, "bc_emit_map_clear_op expects 0 arguments");
    }
    if str_eq(name, "bc_emit_readfile_op") {
        return emit_rule(cg, args, Arity::Exact(0), OpCode::BcEmitReadFileOp, "bc_emit_readfile_op expects 0 arguments");
    }
    if str_eq(name, "bc_emit_arg_count_op") {
        return emit_rule(cg, args, Arity::Exact(0), OpCode::BcEmitArgCountOp, "bc_emit_arg_count_op expects 0 arguments");
    }
    if str_eq(name, "bc_emit_arg_op") {
        return emit_rule(cg, args, Arity::Exact(0), OpCode::BcEmitArgOp, "bc_emit_arg_op expects 0 arguments");
    }
    if str_eq(name, "bc_emit_env_get_op") {
        return emit_rule(cg, args, Arity::Exact(0), OpCode::BcEmitEnvGetOp, "bc_emit_env_get_op expects 0 arguments");
    }
    if str_eq(name, "bc_emit_env_has_op") {
        return emit_rule(cg, args, Arity::Exact(0), OpCode::BcEmitEnvHasOp, "bc_emit_env_has_op expects 0 arguments");
    }
    if str_eq(name, "bc_emit_cwd_op") {
        return emit_rule(cg, args, Arity::Exact(0), OpCode::BcEmitCwdOp, "bc_emit_cwd_op expects 0 arguments");
    }
    if str_eq(name, "bc_emit_path_join_op") {
        return emit_rule(cg, args, Arity::Exact(0), OpCode::BcEmitPathJoinOp, "bc_emit_path_join_op expects 0 arguments");
    }
    if str_eq(name, "bc_emit_fs_exists_op") {
        return emit_rule(cg, args, Arity::Exact(0), OpCode::BcEmitFsExistsOp, "bc_emit_fs_exists_op expects 0 arguments");
    }
    if str_eq(name, "bc_emit_fs_listdir_op") {
        return emit_rule(cg, args, Arity::Exact(0), OpCode::BcEmitFsListDirOp, "bc_emit_fs_listdir_op expects 0 arguments");
    }
    if str_eq(name, "bc_emit_now_timestamp_op") {
        return emit_rule(cg, args, Arity::Exact(0), OpCode::BcEmitNowTimestampOp, "bc_emit_now_timestamp_op expects 0 arguments");
    }
    Ok(false)
}

} // verus!
