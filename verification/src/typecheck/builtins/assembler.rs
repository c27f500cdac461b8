use vstd::prelude::*;

use crate::ast::Type;
use crate::typecheck::env::{EnvModel, TypeEnv};

use super::{add_proc, types0, types1, types2};

verus! {

/// The procedure signatures for starting, ending and writing bytecode units and functions, labels and jumps, entered after `s` in order.
pub open spec fn with_builder_procs(s: Seq<(Seq<char>, Seq<Type>)>) -> Seq<(Seq<char>, Seq<Type>)> {
    s
        .push(("bc_new"@, seq![Type::String]))
        .push(("bc_new_op"@, Seq::<Type>::empty()))
        .push(("bc_main"@, Seq::<Type>::empty()))
        .push(("bc_main_op"@, Seq::<Type>::empty()))
        .push(("bc_func_begin"@, seq![Type::String, Type::Integer]))
        .push(("bc_func_begin_op"@, Seq::<Type>::empty()))
        .push(("bc_func_end"@, Seq::<Type>::empty()))
        .push(("bc_func_end_op"@, Seq::<Type>::empty()))
        .push(("bc_label"@, seq![Type::Integer]))
        .push(("bc_label_op"@, Seq::<Type>::empty()))
        .push(("bc_jump"@, seq![Type::Integer]))
        .push(("bc_jump_op"@, Seq::<Type>::empty()))
        .push(("bc_jump_if_false"@, seq![Type::Integer]))
        .push(("bc_jump_if_false_op"@, Seq::<Type>::empty()))
        .push(("bc_emit_halt"@, Seq::<Type>::empty()))
        .push(("bc_emit_halt_op"@, Seq::<Type>::empty()))
        .push(("bc_write"@, seq![Type::String]))
        .push(("bc_write_op"@, Seq::<Type>::empty()))
        .push(("bc_emit_call"@, seq![Type::String]))
        .push(("bc_emit_call_op"@, Seq::<Type>::empty()))
        .push(("bc_emit_ret"@, Seq::<Type>::empty()))
        .push(("bc_emit_ret_op"@, Seq::<Type>::empty()))
        .push(("bc_emit_retval"@, Seq::<Type>::empty()))
        .push(("bc_emit_retval_op"@, Seq::<Type>::empty()))
        .push(("builder_new"@, seq![Type::String]))
        .push(("builder_main"@, Seq::<Type>::empty()))
        .push(("builder_write"@, seq![Type::String]))
        .push(("builder_func_begin"@, seq![Type::String, Type::Integer]))
        .push(("builder_func_end"@, Seq::<Type>::empty()))
        .push(("builder_emit_halt"@, Seq::<Type>::empty()))
        .push(("builder_label"@, seq![Type::Integer]))
        .push(("builder_jump"@, seq![Type::Integer]))
        .push(("builder_jump_if_false"@, seq![Type::Integer]))
        .push(("emit_bcop_new"@, Seq::<Type>::empty()))
        .push(("emit_bcop_main"@, Seq::<Type>::empty()))
        .push(("emit_bcop_write"@, Seq::<Type>::empty()))
        .push(("emit_bcop_func_begin"@, Seq::<Type>::empty()))
        .push(("emit_bcop_func_end"@, Seq::<Type>::empty()))
        .push(("emit_bcop_halt"@, Seq::<Type>::empty()))
        .push(("emit_bcop_label"@, Seq::<Type>::empty()))
        .push(("emit_bcop_jump"@, Seq::<Type>::empty()))
        .push(("emit_bcop_jump_if_false"@, Seq::<Type>::empty()))
}

/// The procedure signatures for appending the first half of the single instructions, entered after `s` in order.
pub open spec fn with_emit_procs_first(s: Seq<(Seq<char>, Seq<Type>)>) -> Seq<(Seq<char>, Seq<Type>)> {
    s
        .push(("bc_emit_print_str"@, seq![Type::String]))
        .push(("bc_emit_const_int"@, seq![Type::Integer]))
        .push(("bc_emit_const_int_op"@, Seq::<Type>::empty()))
        .push(("bc_emit_store0"@, Seq::<Type>::empty()))
        .push(("bc_emit_load0"@, Seq::<Type>::empty()))
        .push(("bc_emit_println"@, Seq::<Type>::empty()))
        .push(("bc_emit_println_op"@, Seq::<Type>::empty()))
        .push(("bc_emit_const_bool"@, seq![Type::Boolean]))
        .push(("bc_emit_const_bool_op"@, Seq::<Type>::empty()))
        .push(("bc_emit_const_str"@, seq![Type::String]))
        .push(("bc_emit_const_str_op"@, Seq::<Type>::empty()))
        .push(("bc_emit_load"@, seq![Type::Integer]))
        .push(("bc_emit_load_op"@, Seq::<Type>::empty()))
        .push(("bc_emit_store"@, seq![Type::Integer]))
        .push(("bc_emit_store_op"@, Seq::<Type>::empty()))
        .push(("bc_emit_add"@, Seq::<Type>::empty()))
        .push(("bc_emit_add_op"@, Seq::<Type>::empty()))
        .push(("bc_emit_sub"@, Seq::<Type>::empty()))
        .push(("bc_emit_sub_op"@, Seq::<Type>::empty()))
        .push(("bc_emit_mul"@, Seq::<Type>::empty()))
        .push(("bc_emit_mul_op"@, Seq::<Type>::empty()))
        .push(("bc_emit_div"@, Seq::<Type>::empty()))
        .push(("bc_emit_div_op"@, Seq::<Type>::empty()))
        .push(("bc_emit_eq"@, Seq::<Type>::empty()))
        .push(("bc_emit_eq_op"@, Seq::<Type>::empty()))
        .push(("bc_emit_ne"@, Seq::<Type>::empty()))
        .push(("bc_emit_ne_op"@, Seq::<Type>::empty()))
        .push(("bc_emit_lt"@, Seq::<Type>::empty()))
        .push(("bc_emit_lt_op"@, Seq::<Type>::empty()))
        .push(("bc_emit_le"@, Seq::<Type>::empty()))
        .push(("bc_emit_le_op"@, Seq::<Type>::empty()))
        .push(("bc_emit_gt"@, Seq::<Type>::empty()))
        .push(("bc_emit_gt_op"@, Seq::<Type>::empty()))
        .push(("bc_emit_ge"@, Seq::<Type>::empty()))
        .push(("bc_emit_ge_op"@, Seq::<Type>::empty()))
        .push(("bc_emit_and"@, Seq::<Type>::empty()))
        .push(("bc_emit_and_op"@, Seq::<Type>::empty()))
        .push(("bc_emit_or"@, Seq::<Type>::empty()))
        .push(("bc_emit_or_op"@, Seq::<Type>::empty()))
        .push(("bc_emit_not"@, Seq::<Type>::empty()))
        .push(("bc_emit_not_op"@, Seq::<Type>::empty()))
        .push(("bc_emit_neg"@, Seq::<Type>::empty()))
        .push(("bc_emit_neg_op"@, Seq::<Type>::empty()))
        .push(("bc_emit_strlen"@, Seq::<Type>::empty()))
        .push(("bc_emit_strlen_op"@, Seq::<Type>::empty()))
        .push(("bc_emit_concat"@, Seq::<Type>::empty()))
        .push(("bc_emit_concat_op"@, Seq::<Type>::empty()))
        .push(("bc_emit_substr"@, Seq::<Type>::empty()))
        .push(("bc_emit_substr_op"@, Seq::<Type>::empty()))
        .push(("bc_emit_replace"@, Seq::<Type>::empty()))
        .push(("bc_emit_replace_op"@, Seq::<Type>::empty()))
        .push(("bc_emit_vec_new"@, Seq::<Type>::empty()))
        .push(("bc_emit_vec_new_op"@, Seq::<Type>::empty()))
        .push(("bc_emit_vec_len"@, Seq::<Type>::empty()))
}

/// The procedure signatures for appending the rest of the single instructions, entered after `s` in order.
pub open spec fn with_emit_procs_rest(s: Seq<(Seq<char>, Seq<Type>)>) -> Seq<(Seq<char>, Seq<Type>)> {
    s
        .push(("bc_emit_vec_len_op"@, Seq::<Type>::empty()))
        .push(("bc_emit_vec_get"@, Seq::<Type>::empty()))
        .push(("bc_emit_vec_get_op"@, Seq::<Type>::empty()))
        .push(("bc_emit_vec_set"@, Seq::<Type>::empty()))
        .push(("bc_emit_vec_set_op"@, Seq::<Type>::empty()))
        .push(("bc_emit_vec_push"@, Seq::<Type>::empty()))
        .push(("bc_emit_vec_push_op"@, Seq::<Type>::empty()))
        .push(("bc_emit_vec_remove"@, Seq::<Type>::empty()))
        .push(("bc_emit_vec_remove_op"@, Seq::<Type>::empty()))
        .push(("bc_emit_vec_last"@, Seq::<Type>::empty()))
        .push(("bc_emit_vec_last_op"@, Seq::<Type>::empty()))
        .push(("bc_emit_vec_pop"@, Seq::<Type>::empty()))
        .push(("bc_emit_vec_pop_op"@, Seq::<Type>::empty()))
        .push(("bc_emit_map_new"@, Seq::<Type>::empty()))
        .push(("bc_emit_map_new_op"@, Seq::<Type>::empty()))
        .push(("bc_emit_map_len"@, Seq::<Type>::empty()))
        .push(("bc_emit_map_len_op"@, Seq::<Type>::empty()))
        .push(("bc_emit_map_set"@, Seq::<Type>::empty()))
        .push(("bc_emit_map_set_op"@, Seq::<Type>::empty()))
        .push(("bc_emit_map_get"@, Seq::<Type>::empty()))
        .push(("bc_emit_map_get_op"@, Seq::<Type>::empty()))
        .push(("bc_emit_map_has"@, Seq::<Type>::empty()))
        .push(("bc_emit_map_has_op"@, Seq::<Type>::empty()))
        .push(("bc_emit_map_remove"@, Seq::<Type>::empty()))
        .push(("bc_emit_map_remove_op"@, Seq::<Type>::empty()))
        .push(("bc_emit_map_clear"@, Seq::<Type>::empty()))
        .push(("bc_emit_map_clear_op"@, Seq::<Type>::empty()))
        .push(("bc_emit_readfile"@, Seq::<Type>::empty()))
        .push(("bc_emit_readfile_op"@, Seq::<Type>::empty()))
        .push(("bc_emit_writefile"@, Seq::<Type>::empty()))
        .push(("bc_emit_writefile_op"@, Seq::<Type>::empty()))
        .push(("bc_emit_arg_count"@, Seq::<Type>::empty()))
        .push(("bc_emit_arg_count_op"@, Seq::<Type>::empty()))
        .push(("bc_emit_arg"@, Seq::<Type>::empty()))
        .push(("bc_emit_arg_op"@, Seq::<Type>::empty()))
        .push(("bc_emit_str_clear"@, Seq::<Type>::empty()))
        .push(("bc_emit_str_clear_op"@, Seq::<Type>::empty()))
        .push(("bc_emit_vec_clear"@, Seq::<Type>::empty()))
        .push(("bc_emit_vec_clear_op"@, Seq::<Type>::empty()))
        .push(("bc_emit_env_get"@, Seq::<Type>::empty()))
        .push(("bc_emit_env_get_op"@, Seq::<Type>::empty()))
        .push(("bc_emit_env_has"@, Seq::<Type>::empty()))
        .push(("bc_emit_env_has_op"@, Seq::<Type>::empty()))
        .push(("bc_emit_cwd"@, Seq::<Type>::empty()))
        .push(("bc_emit_cwd_op"@, Seq::<Type>::empty()))
        .push(("bc_emit_path_join"@, Seq::<Type>::empty()))
        .push(("bc_emit_path_join_op"@, Seq::<Type>::empty()))
        .push(("bc_emit_fs_exists"@, Seq::<Type>::empty()))
        .push(("bc_emit_fs_exists_op"@, Seq::<Type>::empty()))
        .push(("bc_emit_fs_listdir"@, Seq::<Type>::empty()))
        .push(("bc_emit_fs_listdir_op"@, Seq::<Type>::empty()))
        .push(("bc_emit_now_timestamp"@, Seq::<Type>::empty()))
        .push(("bc_emit_now_timestamp_op"@, Seq::<Type>::empty()))
}

/// The procedure signatures for the bytecode builder that the compiler written in the language itself uses, entered after `s` in order.
pub open spec fn with_assembler_procs(s: Seq<(Seq<char>, Seq<Type>)>) -> Seq<(Seq<char>, Seq<Type>)> {
    with_emit_procs_rest(with_emit_procs_first(with_builder_procs(s)))
}

/// Enters a procedure with 0 parameters.
fn reg0(env: &mut TypeEnv, name: &str)
    ensures
        final(env).model() == (EnvModel { procs: old(env).model().procs.push((name@, Seq::<Type>::empty())), ..old(env).model() }),
{
    add_proc(env, name, types0());
}

/// Enters a procedure with 1 parameter.
fn reg1(env: &mut TypeEnv, name: &str, ty: Type)
    ensures
        final(env).model() == (EnvModel { procs: old(env).model().procs.push((name@, seq![ty])), ..old(env).model() }),
{
    add_proc(env, name, types1(ty));
}

/// Enters a procedure with 2 parameters.
fn reg2(env: &mut TypeEnv, name: &str, a: Type, b: Type)
    ensures
        final(env).model() == (EnvModel { procs: old(env).model().procs.push((name@, seq![a, b])), ..old(env).model() }),
{
    add_proc(env, name, types2(a, b));
}

/// Enters the procedures for bytecode units, functions, labels and jumps.
fn register_builder_procs(env: &mut TypeEnv)
    ensures
        final(env).model() == (EnvModel { procs: with_builder_procs(old(env).model().procs), ..old(env).model() }),
{
    reg1(env, "bc_new", Type::String);
    reg0(env, "bc_new_op");
    reg0(env, "bc_main");
    reg0(env, "bc_main_op");
    reg2(env, "bc_func_begin", Type::String, Type::Integer);
    reg0(env, "bc_func_begin_op");
    reg0(env, "bc_func_end");
    reg0(env, "bc_func_end_op");
    reg1(env, "bc_label", Type::Integer);
    reg0(env, "bc_label_op");
    reg1(env, "bc_jump", Type::Integer);
    reg0(env, "bc_jump_op");
    reg1(env, "bc_jump_if_false", Type::Integer);
    reg0(env, "bc_jump_if_false_op");
    reg0(env, "bc_emit_halt");
    reg0(env, "bc_emit_halt_op");
    reg1(env, "bc_write", Type::String);
    reg0(env, "bc_write_op");
    reg1(env, "bc_emit_call", Type::String);
    reg0(env, "bc_emit_call_op");
    reg0(env, "bc_emit_ret");
    reg0(env, "bc_emit_ret_op");
    reg0(env, "bc_emit_retval");
    reg0(env, "bc_emit_retval_op");
    reg1(env, "builder_new", Type::String);
    reg0(env, "builder_main");
    reg1(env, "builder_write", Type::String);
    reg2(env, "builder_func_begin", Type::String, Type::Integer);
    reg0(env, "builder_func_end");
    reg0(env, "builder_emit_halt");
    reg1(env, "builder_label", Type::Integer);
    reg1(env, "builder_jump", Type::Integer);
    reg1(env, "builder_jump_if_false", Type::Integer);
    reg0(env, "emit_bcop_new");
    reg0(env, "emit_bcop_main");
    reg0(env, "emit_bcop_write");
    reg0(env, "emit_bcop_func_begin");
    reg0(env, "emit_bcop_func_end");
    reg0(env, "emit_bcop_halt");
    reg0(env, "emit_bcop_label");
    reg0(env, "emit_bcop_jump");
    reg0(env, "emit_bcop_jump_if_false");
}

/// Enters the procedures for the first half of the single instructions.
fn register_emit_procs_first(env: &mut TypeEnv)
    ensures
        final(env).model() == (EnvModel { procs: with_emit_procs_first(old(env).model().procs), ..old(env).model() }),
{
    reg1(env, "bc_emit_print_str", Type::String);
    reg1(env, "bc_emit_const_int", Type::Integer);
    reg0(env, "bc_emit_const_int_op");
    reg0(env, "bc_emit_store0");
    reg0(env, "bc_emit_load0");
    reg0(env, "bc_emit_println");
    reg0(env, "bc_emit_println_op");
    reg1(env, "bc_emit_const_bool", Type::Boolean);
    reg0(env, "bc_emit_const_bool_op");
    reg1(env, "bc_emit_const_str", Type::String);
    reg0(env, "bc_emit_const_str_op");
    reg1(env, "bc_emit_load", Type::Integer);
    reg0(env, "bc_emit_load_op");
    reg1(env, "bc_emit_store", Type::Integer);
    reg0(env, "bc_emit_store_op");
    reg0(env, "bc_emit_add");
    reg0(env, "bc_emit_add_op");
    reg0(env, "bc_emit_sub");
    reg0(env, "bc_emit_sub_op");
    reg0(env, "bc_emit_mul");
    reg0(env, "bc_emit_mul_op");
    reg0(env, "bc_emit_div");
    reg0(env, "bc_emit_div_op");
    reg0(env, "bc_emit_eq");
    reg0(env, "bc_emit_eq_op");
    reg0(env, "bc_emit_ne");
    reg0(env, "bc_emit_ne_op");
    reg0(env, "bc_emit_lt");
    reg0(env, "bc_emit_lt_op");
    reg0(env, "bc_emit_le");
    reg0(env, "bc_emit_le_op");
    reg0(env, "bc_emit_gt");
    reg0(env, "bc_emit_gt_op");
    reg0(env, "bc_emit_ge");
    reg0(env, "bc_emit_ge_op");
    reg0(env, "bc_emit_and");
    reg0(env, "bc_emit_and_op");
    reg0(env, "bc_emit_or");
    reg0(env, "bc_emit_or_op");
    reg0(env, "bc_emit_not");
    reg0(env, "bc_emit_not_op");
    reg0(env, "bc_emit_neg");
    reg0(env, "bc_emit_neg_op");
    reg0(env, "bc_emit_strlen");
    reg0(env, "bc_emit_strlen_op");
    reg0(env, "bc_emit_concat");
    reg0(env, "bc_emit_concat_op");
    reg0(env, "bc_emit_substr");
    reg0(env, "bc_emit_substr_op");
    reg0(env, "bc_emit_replace");
    reg0(env, "bc_emit_replace_op");
    reg0(env, "bc_emit_vec_new");
    reg0(env, "bc_emit_vec_new_op");
    reg0(env, "bc_emit_vec_len");
}

/// Enters the procedures for the rest of the single instructions.
fn register_emit_procs_rest(env: &mut TypeEnv)
    ensures
        final(env).model() == (EnvModel { procs: with_emit_procs_rest(old(env).model().procs), ..old(env).model() }),
{
    reg0(env, "bc_emit_vec_len_op");
    reg0(env, "bc_emit_vec_get");
    reg0(env, "bc_emit_vec_get_op");
    reg0(env, "bc_emit_vec_set");
    reg0(env, "bc_emit_vec_set_op");
    reg0(env, "bc_emit_vec_push");
    reg0(env, "bc_emit_vec_push_op");
    reg0(env, "bc_emit_vec_remove");
    reg0(env, "bc_emit_vec_remove_op");
    reg0(env, "bc_emit_vec_last");
    reg0(env, "bc_emit_vec_last_op");
    reg0(env, "bc_emit_vec_pop");
    reg0(env, "bc_emit_vec_pop_op");
    reg0(env, "bc_emit_map_new");
    reg0(env, "bc_emit_map_new_op");
    reg0(env, "bc_emit_map_len");
    reg0(env, "bc_emit_map_len_op");
    reg0(env, "bc_emit_map_set");
    reg0(env, "bc_emit_map_set_op");
    reg0(env, "bc_emit_map_get");
    reg0(env, "bc_emit_map_get_op");
    reg0(env, "bc_emit_map_has");
    reg0(env, "bc_emit_map_has_op");
    reg0(env, "bc_emit_map_remove");
    reg0(env, "bc_emit_map_remove_op");
    reg0(env, "bc_emit_map_clear");
    reg0(env, "bc_emit_map_clear_op");
    reg0(env, "bc_emit_readfile");
    reg0(env, "bc_emit_readfile_op");
    reg0(env, "bc_emit_writefile");
    reg0(env, "bc_emit_writefile_op");
    reg0(env, "bc_emit_arg_count");
    reg0(env, "bc_emit_arg_count_op");
    reg0(env, "bc_emit_arg");
    reg0(env, "bc_emit_arg_op");
    reg0(env, "bc_emit_str_clear");
    reg0(env, "bc_emit_str_clear_op");
    reg0(env, "bc_emit_vec_clear");
    reg0(env, "bc_emit_vec_clear_op");
    reg0(env, "bc_emit_env_get");
    reg0(env, "bc_emit_env_get_op");
    reg0(env, "bc_emit_env_has");
    reg0(env, "bc_emit_env_has_op");
    reg0(env, "bc_emit_cwd");
    reg0(env, "bc_emit_cwd_op");
    reg0(env, "bc_emit_path_join");
    reg0(env, "bc_emit_path_join_op");
    reg0(env, "bc_emit_fs_exists");
    reg0(env, "bc_emit_fs_exists_op");
    reg0(env, "bc_emit_fs_listdir");
    reg0(env, "bc_emit_fs_listdir_op");
    reg0(env, "bc_emit_now_timestamp");
    reg0(env, "bc_emit_now_timestamp_op");
}

/// Enters the built-ins for the bytecode builder that the compiler written in the language itself uses.
pub fn register_assembler(env: &mut TypeEnv)
    ensures
        final(env).model() == (EnvModel { procs: with_assembler_procs(old(env).model().procs), ..old(env).model() }),
{
    register_builder_procs(env);
    register_emit_procs_first(env);
    register_emit_procs_rest(env);
}

} // verus!
