//! The code generator compiles every built-in that the type checker knows.

use vstd::prelude::*;

use crate::ast::Type;
use crate::codegen::expr::builtins::{arity_ok, expr_builtin, Rule};
use crate::codegen::stmt::builtins::stmt_builtin;
use crate::typecheck::builtins::assembler::{with_builder_procs, with_emit_procs_first, with_emit_procs_rest};
use crate::typecheck::builtins::base::with_core_procs;
use crate::typecheck::builtins::{with_builtin_funcs, with_builtin_procs};

verus! {

/// The built-in function signatures the type checker starts with.
pub open spec fn builtin_funcs() -> Seq<(Seq<char>, (Seq<Type>, Type))> {
    with_builtin_funcs(Seq::empty())
}

/// The built-in procedure signatures the type checker starts with.
pub open spec fn builtin_procs() -> Seq<(Seq<char>, Seq<Type>)> {
    with_builtin_procs(Seq::empty())
}

/// Whether a built-in rule was found and takes `n` arguments.
pub open spec fn takes(rule: Option<Rule>, n: nat) -> bool {
    rule matches Some(r) && arity_ok(r.0, n)
}

/// Every built-in function the type checker knows, but `os_exec`, is
/// compiled by a built-in rule of the code generator, and that rule takes
/// the number of arguments the type checker asks for.
#[verifier::rlimit(100)]
pub proof fn lemma_builtin_functions_compile()
    ensures
        forall|i: int|
            0 <= i < builtin_funcs().len() && builtin_funcs()[i].0 != "os_exec"@ ==> takes(
                expr_builtin(#[trigger] builtin_funcs()[i].0),
                builtin_funcs()[i].1.0.len(),
            ),
{
    // The names are told apart by their lengths, or else by one character.
    reveal_strlit("arg");
    reveal_strlit("arg_count");
    reveal_strlit("concat");
    reveal_strlit("cwd");
    reveal_strlit("env_get");
    reveal_strlit("env_has");
    reveal_strlit("fs_exists");
    reveal_strlit("fs_listdir");
    reveal_strlit("map_clear");
    reveal_strlit("map_get");
    reveal_strlit("map_has");
    reveal_strlit("map_len");
    reveal_strlit("map_new");
    reveal_strlit("map_remove");
    reveal_strlit("map_set");
    reveal_strlit("now_timestamp");
    reveal_strlit("option_is_some_bool");
    reveal_strlit("option_is_some_int");
    reveal_strlit("option_is_some_str");
    reveal_strlit("option_none_bool");
    reveal_strlit("option_none_int");
    reveal_strlit("option_none_str");
    reveal_strlit("option_some_bool");
    reveal_strlit("option_some_int");
    reveal_strlit("option_some_str");
    reveal_strlit("option_unwrap_bool");
    reveal_strlit("option_unwrap_int");
    reveal_strlit("option_unwrap_or_bool");
    reveal_strlit("option_unwrap_or_int");
    reveal_strlit("option_unwrap_or_str");
    reveal_strlit("option_unwrap_str");
    reveal_strlit("path_join");
    reveal_strlit("readfile");
    reveal_strlit("replace");
    reveal_strlit("result_err_bool");
    reveal_strlit("result_err_int");
    reveal_strlit("result_err_str");
    reveal_strlit("result_is_ok_bool");
    reveal_strlit("result_is_ok_int");
    reveal_strlit("result_is_ok_str");
    reveal_strlit("result_ok_bool");
    reveal_strlit("result_ok_int");
    reveal_strlit("result_ok_str");
    reveal_strlit("result_unwrap_bool");
    reveal_strlit("result_unwrap_err_bool");
    reveal_strlit("result_unwrap_err_int");
    reveal_strlit("result_unwrap_err_str");
    reveal_strlit("result_unwrap_int");
    reveal_strlit("result_unwrap_or_bool");
    reveal_strlit("result_unwrap_or_int");
    reveal_strlit("result_unwrap_or_str");
    reveal_strlit("result_unwrap_str");
    reveal_strlit("set_add");
    reveal_strlit("set_clear");
    reveal_strlit("set_has");
    reveal_strlit("set_len");
    reveal_strlit("set_new");
    reveal_strlit("set_remove");
    reveal_strlit("stack_clear");
    reveal_strlit("stack_len");
    reveal_strlit("stack_new");
    reveal_strlit("stack_pop");
    reveal_strlit("stack_push");
    reveal_strlit("stack_top");
    reveal_strlit("string_clear");
    reveal_strlit("strlen");
    reveal_strlit("substr");
    reveal_strlit("vector_clear");
    reveal_strlit("vector_get");
    reveal_strlit("vector_last");
    reveal_strlit("vector_len");
    reveal_strlit("vector_new");
    reveal_strlit("vector_new_bool");
    reveal_strlit("vector_new_int");
    reveal_strlit("vector_new_str");
    reveal_strlit("vector_pop");
    reveal_strlit("vector_push");
    reveal_strlit("vector_remove");
    reveal_strlit("vector_set");
    assert("arg"@.len() == 3 && "arg"@[0] == 'a');
    assert("arg_count"@.len() == 9 && "arg_count"@[0] == 'a');
    assert("concat"@.len() == 6 && "concat"@[0] == 'c');
    assert("cwd"@.len() == 3 && "cwd"@[0] == 'c');
    assert("env_get"@.len() == 7 && "env_get"@[0] == 'e' && "env_get"@[4] == 'g');
    assert("env_has"@.len() == 7 && "env_has"@[0] == 'e' && "env_has"@[4] == 'h');
    assert("fs_exists"@.len() == 9 && "fs_exists"@[0] == 'f');
    assert("fs_listdir"@.len() == 10 && "fs_listdir"@[0] == 'f');
    assert("map_clear"@.len() == 9 && "map_clear"@[0] == 'm');
    assert("map_get"@.len() == 7 && "map_get"@[0] == 'm' && "map_get"@[4] == 'g');
    assert("map_has"@.len() == 7 && "map_has"@[0] == 'm' && "map_has"@[4] == 'h');
    assert("map_len"@.len() == 7 && "map_len"@[0] == 'm' && "map_len"@[4] == 'l');
    assert("map_new"@.len() == 7 && "map_new"@[0] == 'm' && "map_new"@[4] == 'n');
    assert("map_remove"@.len() == 10 && "map_remove"@[0] == 'm');
    assert("map_set"@.len() == 7 && "map_set"@[0] == 'm' && "map_set"@[4] == 's');
    assert("now_timestamp"@.len() == 13 && "now_timestamp"@[0] == 'n');
    assert("option_is_some_bool"@.len() == 19);
    assert("option_is_some_int"@.len() == 18 && "option_is_some_int"@[0] == 'o' && "option_is_some_int"@[7] == 'i' && "option_is_some_int"@[15] == 'i');
    assert("option_is_some_str"@.len() == 18 && "option_is_some_str"@[0] == 'o' && "option_is_some_str"@[7] == 'i' && "option_is_some_str"@[15] == 's');
    assert("option_none_bool"@.len() == 16 && "option_none_bool"@[0] == 'o' && "option_none_bool"@[7] == 'n');
    assert("option_none_int"@.len() == 15 && "option_none_int"@[0] == 'o' && "option_none_int"@[7] == 'n' && "option_none_int"@[12] == 'i');
    assert("option_none_str"@.len() == 15 && "option_none_str"@[0] == 'o' && "option_none_str"@[7] == 'n' && "option_none_str"@[12] == 's');
    assert("option_some_bool"@.len() == 16 && "option_some_bool"@[0] == 'o' && "option_some_bool"@[7] == 's');
    assert("option_some_int"@.len() == 15 && "option_some_int"@[0] == 'o' && "option_some_int"@[7] == 's' && "option_some_int"@[12] == 'i');
    assert("option_some_str"@.len() == 15 && "option_some_str"@[0] == 'o' && "option_some_str"@[7] == 's' && "option_some_str"@[12] == 's');
    assert("option_unwrap_bool"@.len() == 18 && "option_unwrap_bool"@[0] == 'o' && "option_unwrap_bool"@[7] == 'u');
    assert("option_unwrap_int"@.len() == 17 && "option_unwrap_int"@[0] == 'o' && "option_unwrap_int"@[14] == 'i');
    assert("option_unwrap_or_bool"@.len() == 21 && "option_unwrap_or_bool"@[0] == 'o');
    assert("option_unwrap_or_int"@.len() == 20 && "option_unwrap_or_int"@[0] == 'o' && "option_unwrap_or_int"@[17] == 'i');
    assert("option_unwrap_or_str"@.len() == 20 && "option_unwrap_or_str"@[0] == 'o' && "option_unwrap_or_str"@[17] == 's');
    assert("option_unwrap_str"@.len() == 17 && "option_unwrap_str"@[0] == 'o' && "option_unwrap_str"@[14] == 's');
    assert("path_join"@.len() == 9 && "path_join"@[0] == 'p');
    assert("readfile"@.len() == 8);
    assert("replace"@.len() == 7 && "replace"@[0] == 'r');
    assert("result_err_bool"@.len() == 15 && "result_err_bool"@[0] == 'r');
    assert("result_err_int"@.len() == 14 && "result_err_int"@[0] == 'r' && "result_err_int"@[7] == 'e' && "result_err_int"@[11] == 'i');
    assert("result_err_str"@.len() == 14 && "result_err_str"@[0] == 'r' && "result_err_str"@[7] == 'e' && "result_err_str"@[11] == 's');
    assert("result_is_ok_bool"@.len() == 17 && "result_is_ok_bool"@[0] == 'r' && "result_is_ok_bool"@[7] == 'i');
    assert("result_is_ok_int"@.len() == 16 && "result_is_ok_int"@[0] == 'r' && "result_is_ok_int"@[13] == 'i');
    assert("result_is_ok_str"@.len() == 16 && "result_is_ok_str"@[0] == 'r' && "result_is_ok_str"@[13] == 's');
    assert("result_ok_bool"@.len() == 14 && "result_ok_bool"@[0] == 'r' && "result_ok_bool"@[7] == 'o');
    assert("result_ok_int"@.len() == 13 && "result_ok_int"@[0] == 'r' && "result_ok_int"@[10] == 'i');
    assert("result_ok_str"@.len() == 13 && "result_ok_str"@[0] == 'r' && "result_ok_str"@[10] == 's');
    assert("result_unwrap_bool"@.len() == 18 && "result_unwrap_bool"@[0] == 'r');
    assert("result_unwrap_err_bool"@.len() == 22);
    assert("result_unwrap_err_int"@.len() == 21 && "result_unwrap_err_int"@[0] == 'r' && "result_unwrap_err_int"@[14] == 'e' && "result_unwrap_err_int"@[18] == 'i');
    assert("result_unwrap_err_str"@.len() == 21 && "result_unwrap_err_str"@[0] == 'r' && "result_unwrap_err_str"@[14] == 'e' && "result_unwrap_err_str"@[18] == 's');
    assert("result_unwrap_int"@.len() == 17 && "result_unwrap_int"@[0] == 'r' && "result_unwrap_int"@[7] == 'u' && "result_unwrap_int"@[14] == 'i');
    assert("result_unwrap_or_bool"@.len() == 21 && "result_unwrap_or_bool"@[0] == 'r' && "result_unwrap_or_bool"@[14] == 'o');
    assert("result_unwrap_or_int"@.len() == 20 && "result_unwrap_or_int"@[0] == 'r' && "result_unwrap_or_int"@[17] == 'i');
    assert("result_unwrap_or_str"@.len() == 20 && "result_unwrap_or_str"@[0] == 'r' && "result_unwrap_or_str"@[17] == 's');
    assert("result_unwrap_str"@.len() == 17 && "result_unwrap_str"@[0] == 'r' && "result_unwrap_str"@[7] == 'u' && "result_unwrap_str"@[14] == 's');
    assert("set_add"@.len() == 7 && "set_add"@[0] == 's' && "set_add"@[4] == 'a');
    assert("set_clear"@.len() == 9 && "set_clear"@[0] == 's' && "set_clear"@[1] == 'e');
    assert("set_has"@.len() == 7 && "set_has"@[0] == 's' && "set_has"@[4] == 'h');
    assert("set_len"@.len() == 7 && "set_len"@[0] == 's' && "set_len"@[4] == 'l');
    assert("set_new"@.len() == 7 && "set_new"@[0] == 's' && "set_new"@[4] == 'n');
    assert("set_remove"@.len() == 10 && "set_remove"@[0] == 's' && "set_remove"@[1] == 'e');
    assert("stack_clear"@.len() == 11 && "stack_clear"@[0] == 's');
    assert("stack_len"@.len() == 9 && "stack_len"@[0] == 's' && "stack_len"@[1] == 't' && "stack_len"@[6] == 'l');
    assert("stack_new"@.len() == 9 && "stack_new"@[0] == 's' && "stack_new"@[1] == 't' && "stack_new"@[6] == 'n');
    assert("stack_pop"@.len() == 9 && "stack_pop"@[0] == 's' && "stack_pop"@[1] == 't' && "stack_pop"@[6] == 'p');
    assert("stack_push"@.len() == 10 && "stack_push"@[0] == 's' && "stack_push"@[1] == 't');
    assert("stack_top"@.len() == 9 && "stack_top"@[0] == 's' && "stack_top"@[1] == 't' && "stack_top"@[6] == 't');
    assert("string_clear"@.len() == 12);
    assert("strlen"@.len() == 6 && "strlen"@[0] == 's' && "strlen"@[1] == 't');
    assert("substr"@.len() == 6 && "substr"@[0] == 's' && "substr"@[1] == 'u');
    assert("vector_clear"@.len() == 12);
    assert("vector_get"@.len() == 10 && "vector_get"@[0] == 'v');
    assert("vector_last"@.len() == 11 && "vector_last"@[0] == 'v');
    assert("vector_len"@.len() == 10 && "vector_len"@[0] == 'v');
    assert("vector_new"@.len() == 10 && "vector_new"@[0] == 'v');
    assert("vector_new_bool"@.len() == 15 && "vector_new_bool"@[0] == 'v');
    assert("vector_new_int"@.len() == 14 && "vector_new_int"@[0] == 'v' && "vector_new_int"@[11] == 'i');
    assert("vector_new_str"@.len() == 14 && "vector_new_str"@[0] == 'v' && "vector_new_str"@[11] == 's');
    assert("vector_pop"@.len() == 10 && "vector_pop"@[0] == 'v');
    assert("vector_push"@.len() == 11 && "vector_push"@[0] == 'v');
    assert("vector_remove"@.len() == 13 && "vector_remove"@[0] == 'v');
    assert("vector_set"@.len() == 10 && "vector_set"@[0] == 'v');
}

/// Every built-in procedure the type checker knows, but
/// `bc_emit_str_clear_op`, is compiled by a built-in rule of the code
/// generator, and that rule takes the number of arguments the type checker
/// asks for.
pub proof fn lemma_builtin_procedures_compile()
    ensures
        forall|i: int|
            0 <= i < builtin_procs().len() && builtin_procs()[i].0 != "bc_emit_str_clear_op"@ ==> takes(
                stmt_builtin(#[trigger] builtin_procs()[i].0),
                builtin_procs()[i].1.len(),
            ),
{
    let s0 = Seq::<(Seq<char>, Seq<Type>)>::empty();
    let s1 = with_core_procs(s0);
    let s2 = with_builder_procs(s1);
    let s3 = with_emit_procs_first(s2);
    let s4 = with_emit_procs_rest(s3);
    lemma_core_procs_compile(s0);
    lemma_builder_procs_compile(s1);
    lemma_emit_first_procs_compile(s2);
    lemma_emit_rest_procs_compile(s3);
    assert(builtin_procs() == s4);
    assert forall|i: int| 0 <= i < s4.len() && s4[i].0 != "bc_emit_str_clear_op"@ implies takes(
        stmt_builtin(#[trigger] s4[i].0),
        s4[i].1.len(),
    ) by {
        if i < s3.len() {
            assert(s4[i] == s3[i]);
            if i < s2.len() {
                assert(s3[i] == s2[i]);
                if i < s1.len() {
                    assert(s2[i] == s1[i]);
                }
            }
        }
    }
}

/// The procedures that `with_core_procs` enters keep the ones before them and compile
/// as `lemma_builtin_procedures_compile` says.
#[verifier::rlimit(100)]
proof fn lemma_core_procs_compile(s: Seq<(Seq<char>, Seq<Type>)>)
    ensures
        with_core_procs(s).len() == s.len() + 5,
        forall|i: int| 0 <= i < s.len() ==> #[trigger] with_core_procs(s)[i] == s[i],
        forall|i: int|
            s.len() <= i < with_core_procs(s).len() && with_core_procs(s)[i].0 != "bc_emit_str_clear_op"@ ==> takes(
                stmt_builtin(#[trigger] with_core_procs(s)[i].0),
                with_core_procs(s)[i].1.len(),
            ),
{
    // The names are told apart by their lengths, or else by one character.
    reveal_strlit("emit_bcop_func_begin");
    reveal_strlit("emit_bcop_func_end");
    reveal_strlit("emit_bcop_halt");
    reveal_strlit("emit_bcop_jump");
    reveal_strlit("emit_bcop_jump_if_false");
    reveal_strlit("emit_bcop_label");
    reveal_strlit("emit_bcop_main");
    reveal_strlit("emit_bcop_new");
    reveal_strlit("emit_bcop_write");
    reveal_strlit("log_bool");
    reveal_strlit("log_int");
    reveal_strlit("log_str");
    reveal_strlit("sleep_ms");
    reveal_strlit("writefile");
    assert("emit_bcop_func_begin"@.len() == 20);
    assert("emit_bcop_func_end"@.len() == 18);
    assert("emit_bcop_halt"@.len() == 14);
    assert("emit_bcop_jump"@.len() == 14);
    assert("emit_bcop_jump_if_false"@.len() == 23);
    assert("emit_bcop_label"@.len() == 15);
    assert("emit_bcop_main"@.len() == 14);
    assert("emit_bcop_new"@.len() == 13);
    assert("emit_bcop_write"@.len() == 15);
    assert("log_bool"@.len() == 8 && "log_bool"@[0] == 'l');
    assert("log_int"@.len() == 7 && "log_int"@[4] == 'i');
    assert("log_str"@.len() == 7 && "log_str"@[4] == 's');
    assert("sleep_ms"@.len() == 8 && "sleep_ms"@[0] == 's');
    assert("writefile"@.len() == 9);
}

/// The procedures that `with_builder_procs` enters keep the ones before them and compile
/// as `lemma_builtin_procedures_compile` says.
#[verifier::rlimit(100)]
proof fn lemma_builder_procs_compile(s: Seq<(Seq<char>, Seq<Type>)>)
    ensures
        with_builder_procs(s).len() == s.len() + 42,
        forall|i: int| 0 <= i < s.len() ==> #[trigger] with_builder_procs(s)[i] == s[i],
        forall|i: int|
            s.len() <= i < with_builder_procs(s).len() && with_builder_procs(s)[i].0 != "bc_emit_str_clear_op"@ ==> takes(
                stmt_builtin(#[trigger] with_builder_procs(s)[i].0),
                with_builder_procs(s)[i].1.len(),
            ),
{
    // The names are told apart by their lengths, or else by one character.
    reveal_strlit("bc_emit_call");
    reveal_strlit("bc_emit_call_op");
    reveal_strlit("bc_emit_halt");
    reveal_strlit("bc_emit_halt_op");
    reveal_strlit("bc_emit_ret");
    reveal_strlit("bc_emit_ret_op");
    reveal_strlit("bc_emit_retval");
    reveal_strlit("bc_emit_retval_op");
    reveal_strlit("bc_func_begin");
    reveal_strlit("bc_func_begin_op");
    reveal_strlit("bc_func_end");
    reveal_strlit("bc_func_end_op");
    reveal_strlit("bc_jump");
    reveal_strlit("bc_jump_if_false");
    reveal_strlit("bc_jump_if_false_op");
    reveal_strlit("bc_jump_op");
    reveal_strlit("bc_label");
    reveal_strlit("bc_label_op");
    reveal_strlit("bc_main");
    reveal_strlit("bc_main_op");
    reveal_strlit("bc_new");
    reveal_strlit("bc_new_op");
    reveal_strlit("bc_write");
    reveal_strlit("bc_write_op");
    reveal_strlit("builder_emit_halt");
    reveal_strlit("builder_func_begin");
    reveal_strlit("builder_func_end");
    reveal_strlit("builder_jump");
    reveal_strlit("builder_jump_if_false");
    reveal_strlit("builder_label");
    reveal_strlit("builder_main");
    reveal_strlit("builder_new");
    reveal_strlit("builder_write");
    reveal_strlit("emit_bcop_func_begin");
    reveal_strlit("emit_bcop_func_end");
    reveal_strlit("emit_bcop_halt");
    reveal_strlit("emit_bcop_jump");
    reveal_strlit("emit_bcop_jump_if_false");
    reveal_strlit("emit_bcop_label");
    reveal_strlit("emit_bcop_main");
    reveal_strlit("emit_bcop_new");
    reveal_strlit("emit_bcop_write");
    reveal_strlit("log_bool");
    reveal_strlit("log_int");
    reveal_strlit("log_str");
    reveal_strlit("sleep_ms");
    reveal_strlit("writefile");
    assert("bc_emit_call"@.len() == 12 && "bc_emit_call"@[1] == 'c' && "bc_emit_call"@[8] == 'c');
    assert("bc_emit_call_op"@.len() == 15 && "bc_emit_call_op"@[0] == 'b' && "bc_emit_call_op"@[8] == 'c');
    assert("bc_emit_halt"@.len() == 12 && "bc_emit_halt"@[1] == 'c' && "bc_emit_halt"@[8] == 'h');
    assert("bc_emit_halt_op"@.len() == 15 && "bc_emit_halt_op"@[0] == 'b' && "bc_emit_halt_op"@[8] == 'h');
    assert("bc_emit_ret"@.len() == 11 && "bc_emit_ret"@[1] == 'c' && "bc_emit_ret"@[3] == 'e');
    assert("bc_emit_ret_op"@.len() == 14 && "bc_emit_ret_op"@[0] == 'b' && "bc_emit_ret_op"@[3] == 'e' && "bc_emit_ret_op"@[11] == '_');
    assert("bc_emit_retval"@.len() == 14 && "bc_emit_retval"@[0] == 'b' && "bc_emit_retval"@[3] == 'e' && "bc_emit_retval"@[11] == 'v');
    assert("bc_emit_retval_op"@.len() == 17 && "bc_emit_retval_op"@[1] == 'c');
    assert("bc_func_begin"@.len() == 13 && "bc_func_begin"@[0] == 'b' && "bc_func_begin"@[1] == 'c');
    assert("bc_func_begin_op"@.len() == 16 && "bc_func_begin_op"@[1] == 'c' && "bc_func_begin_op"@[3] == 'f');
    assert("bc_func_end"@.len() == 11 && "bc_func_end"@[1] == 'c' && "bc_func_end"@[3] == 'f');
    assert("bc_func_end_op"@.len() == 14 && "bc_func_end_op"@[0] == 'b' && "bc_func_end_op"@[3] == 'f');
    assert("bc_jump"@.len() == 7 && "bc_jump"@[0] == 'b' && "bc_jump"@[3] == 'j');
    assert("bc_jump_if_false"@.len() == 16 && "bc_jump_if_false"@[1] == 'c' && "bc_jump_if_false"@[3] == 'j');
    assert("bc_jump_if_false_op"@.len() == 19);
    assert("bc_jump_op"@.len() == 10 && "bc_jump_op"@[3] == 'j');
    assert("bc_label"@.len() == 8 && "bc_label"@[0] == 'b' && "bc_label"@[3] == 'l');
    assert("bc_label_op"@.len() == 11 && "bc_label_op"@[1] == 'c' && "bc_label_op"@[3] == 'l');
    assert("bc_main"@.len() == 7 && "bc_main"@[0] == 'b' && "bc_main"@[3] == 'm');
    assert("bc_main_op"@.len() == 10 && "bc_main_op"@[3] == 'm');
    assert("bc_new"@.len() == 6);
    assert("bc_new_op"@.len() == 9 && "bc_new_op"@[0] == 'b');
    assert("bc_write"@.len() == 8 && "bc_write"@[0] == 'b' && "bc_write"@[3] == 'w');
    assert("bc_write_op"@.len() == 11 && "bc_write_op"@[1] == 'c' && "bc_write_op"@[3] == 'w');
    assert("builder_emit_halt"@.len() == 17 && "builder_emit_halt"@[1] == 'u');
    assert("builder_func_begin"@.len() == 18 && "builder_func_begin"@[0] == 'b');
    assert("builder_func_end"@.len() == 16 && "builder_func_end"@[1] == 'u');
    assert("builder_jump"@.len() == 12 && "builder_jump"@[1] == 'u' && "builder_jump"@[8] == 'j');
    assert("builder_jump_if_false"@.len() == 21);
    assert("builder_label"@.len() == 13 && "builder_label"@[0] == 'b' && "builder_label"@[1] == 'u' && "builder_label"@[8] == 'l');
    assert("builder_main"@.len() == 12 && "builder_main"@[1] == 'u' && "builder_main"@[8] == 'm');
    assert("builder_new"@.len() == 11 && "builder_new"@[1] == 'u');
    assert("builder_write"@.len() == 13 && "builder_write"@[0] == 'b' && "builder_write"@[1] == 'u' && "builder_write"@[8] == 'w');
    assert("emit_bcop_func_begin"@.len() == 20);
    assert("emit_bcop_func_end"@.len() == 18 && "emit_bcop_func_end"@[0] == 'e');
    assert("emit_bcop_halt"@.len() == 14 && "emit_bcop_halt"@[0] == 'e' && "emit_bcop_halt"@[10] == 'h');
    assert("emit_bcop_jump"@.len() == 14 && "emit_bcop_jump"@[0] == 'e' && "emit_bcop_jump"@[10] == 'j');
    assert("emit_bcop_jump_if_false"@.len() == 23);
    assert("emit_bcop_label"@.len() == 15 && "emit_bcop_label"@[0] == 'e' && "emit_bcop_label"@[10] == 'l');
    assert("emit_bcop_main"@.len() == 14 && "emit_bcop_main"@[0] == 'e' && "emit_bcop_main"@[10] == 'm');
    assert("emit_bcop_new"@.len() == 13 && "emit_bcop_new"@[0] == 'e');
    assert("emit_bcop_write"@.len() == 15 && "emit_bcop_write"@[0] == 'e' && "emit_bcop_write"@[10] == 'w');
    assert("log_bool"@.len() == 8 && "log_bool"@[0] == 'l');
    assert("log_int"@.len() == 7 && "log_int"@[0] == 'l');
    assert("log_str"@.len() == 7 && "log_str"@[0] == 'l');
    assert("sleep_ms"@.len() == 8 && "sleep_ms"@[0] == 's');
    assert("writefile"@.len() == 9 && "writefile"@[0] == 'w');
}

/// The procedures that `with_emit_procs_first` enters keep the ones before them and compile
/// as `lemma_builtin_procedures_compile` says.
#[verifier::rlimit(100)]
proof fn lemma_emit_first_procs_compile(s: Seq<(Seq<char>, Seq<Type>)>)
    ensures
        with_emit_procs_first(s).len() == s.len() + 54,
        forall|i: int| 0 <= i < s.len() ==> #[trigger] with_emit_procs_first(s)[i] == s[i],
        forall|i: int|
            s.len() <= i < with_emit_procs_first(s).len() && with_emit_procs_first(s)[i].0 != "bc_emit_str_clear_op"@ ==> takes(
                stmt_builtin(#[trigger] with_emit_procs_first(s)[i].0),
                with_emit_procs_first(s)[i].1.len(),
            ),
{
    // The names are told apart by their lengths, or else by one character.
    reveal_strlit("bc_emit_add");
    reveal_strlit("bc_emit_add_op");
    reveal_strlit("bc_emit_and");
    reveal_strlit("bc_emit_and_op");
    reveal_strlit("bc_emit_arg");
    reveal_strlit("bc_emit_arg_count");
    reveal_strlit("bc_emit_call");
    reveal_strlit("bc_emit_call_op");
    reveal_strlit("bc_emit_concat");
    reveal_strlit("bc_emit_concat_op");
    reveal_strlit("bc_emit_const_bool");
    reveal_strlit("bc_emit_const_bool_op");
    reveal_strlit("bc_emit_const_int");
    reveal_strlit("bc_emit_const_int_op");
    reveal_strlit("bc_emit_const_str");
    reveal_strlit("bc_emit_const_str_op");
    reveal_strlit("bc_emit_cwd");
    reveal_strlit("bc_emit_div");
    reveal_strlit("bc_emit_div_op");
    reveal_strlit("bc_emit_env_get");
    reveal_strlit("bc_emit_env_has");
    reveal_strlit("bc_emit_eq");
    reveal_strlit("bc_emit_eq_op");
    reveal_strlit("bc_emit_fs_exists");
    reveal_strlit("bc_emit_fs_listdir");
    reveal_strlit("bc_emit_ge");
    reveal_strlit("bc_emit_ge_op");
    reveal_strlit("bc_emit_gt");
    reveal_strlit("bc_emit_gt_op");
    reveal_strlit("bc_emit_halt");
    reveal_strlit("bc_emit_halt_op");
    reveal_strlit("bc_emit_le");
    reveal_strlit("bc_emit_le_op");
    reveal_strlit("bc_emit_load");
    reveal_strlit("bc_emit_load0");
    reveal_strlit("bc_emit_load_op");
    reveal_strlit("bc_emit_lt");
    reveal_strlit("bc_emit_lt_op");
    reveal_strlit("bc_emit_map_clear");
    reveal_strlit("bc_emit_map_get");
    reveal_strlit("bc_emit_map_has");
    reveal_strlit("bc_emit_map_len");
    reveal_strlit("bc_emit_map_new");
    reveal_strlit("bc_emit_map_remove");
    reveal_strlit("bc_emit_map_set");
    reveal_strlit("bc_emit_mul");
    reveal_strlit("bc_emit_mul_op");
    reveal_strlit("bc_emit_ne");
    reveal_strlit("bc_emit_ne_op");
    reveal_strlit("bc_emit_neg");
    reveal_strlit("bc_emit_neg_op");
    reveal_strlit("bc_emit_not");
    reveal_strlit("bc_emit_not_op");
    reveal_strlit("bc_emit_now_timestamp");
    reveal_strlit("bc_emit_or");
    reveal_strlit("bc_emit_or_op");
    reveal_strlit("bc_emit_path_join");
    reveal_strlit("bc_emit_print_str");
    reveal_strlit("bc_emit_println");
    reveal_strlit("bc_emit_println_op");
    reveal_strlit("bc_emit_readfile");
    reveal_strlit("bc_emit_replace");
    reveal_strlit("bc_emit_replace_op");
    reveal_strlit("bc_emit_ret");
    reveal_strlit("bc_emit_ret_op");
    reveal_strlit("bc_emit_retval");
    reveal_strlit("bc_emit_retval_op");
    reveal_strlit("bc_emit_store");
    reveal_strlit("bc_emit_store0");
    reveal_strlit("bc_emit_store_op");
    reveal_strlit("bc_emit_str_clear");
    reveal_strlit("bc_emit_strlen");
    reveal_strlit("bc_emit_strlen_op");
    reveal_strlit("bc_emit_sub");
    reveal_strlit("bc_emit_sub_op");
    reveal_strlit("bc_emit_substr");
    reveal_strlit("bc_emit_substr_op");
    reveal_strlit("bc_emit_vec_clear");
    reveal_strlit("bc_emit_vec_get");
    reveal_strlit("bc_emit_vec_last");
    reveal_strlit("bc_emit_vec_len");
    reveal_strlit("bc_emit_vec_new");
    reveal_strlit("bc_emit_vec_new_op");
    reveal_strlit("bc_emit_vec_pop");
    reveal_strlit("bc_emit_vec_push");
    reveal_strlit("bc_emit_vec_remove");
    reveal_strlit("bc_emit_vec_set");
    reveal_strlit("bc_emit_writefile");
    reveal_strlit("bc_emit_writefile_op");
    reveal_strlit("bc_func_begin");
    reveal_strlit("bc_func_begin_op");
    reveal_strlit("bc_func_end");
    reveal_strlit("bc_func_end_op");
    reveal_strlit("bc_jump");
    reveal_strlit("bc_jump_if_false");
    reveal_strlit("bc_jump_if_false_op");
    reveal_strlit("bc_jump_op");
    reveal_strlit("bc_label");
    reveal_strlit("bc_label_op");
    reveal_strlit("bc_main");
    reveal_strlit("bc_main_op");
    reveal_strlit("bc_new");
    reveal_strlit("bc_new_op");
    reveal_strlit("bc_write");
    reveal_strlit("bc_write_op");
    reveal_strlit("builder_emit_halt");
    reveal_strlit("builder_func_begin");
    reveal_strlit("builder_func_end");
    reveal_strlit("builder_jump");
    reveal_strlit("builder_jump_if_false");
    reveal_strlit("builder_label");
    reveal_strlit("builder_main");
    reveal_strlit("builder_new");
    reveal_strlit("builder_write");
    reveal_strlit("emit_bcop_func_begin");
    reveal_strlit("emit_bcop_func_end");
    reveal_strlit("emit_bcop_halt");
    reveal_strlit("emit_bcop_jump");
    reveal_strlit("emit_bcop_jump_if_false");
    reveal_strlit("emit_bcop_label");
    reveal_strlit("emit_bcop_main");
    reveal_strlit("emit_bcop_new");
    reveal_strlit("emit_bcop_write");
    reveal_strlit("log_bool");
    reveal_strlit("log_int");
    reveal_strlit("log_str");
    reveal_strlit("sleep_ms");
    reveal_strlit("writefile");
    assert("bc_emit_add"@.len() == 11 && "bc_emit_add"@[1] == 'c' && "bc_emit_add"@[3] == 'e' && "bc_emit_add"@[8] == 'a' && "bc_emit_add"@[9] == 'd');
    assert("bc_emit_add_op"@.len() == 14 && "bc_emit_add_op"@[0] == 'b' && "bc_emit_add_op"@[3] == 'e' && "bc_emit_add_op"@[8] == 'a' && "bc_emit_add_op"@[9] == 'd');
    assert("bc_emit_and"@.len() == 11 && "bc_emit_and"@[1] == 'c' && "bc_emit_and"@[3] == 'e' && "bc_emit_and"@[8] == 'a' && "bc_emit_and"@[9] == 'n');
    assert("bc_emit_and_op"@.len() == 14 && "bc_emit_and_op"@[0] == 'b' && "bc_emit_and_op"@[3] == 'e' && "bc_emit_and_op"@[8] == 'a' && "bc_emit_and_op"@[9] == 'n');
    assert("bc_emit_arg"@.len() == 11);
    assert("bc_emit_arg_count"@.len() == 17 && "bc_emit_arg_count"@[8] == 'a');
    assert("bc_emit_call"@.len() == 12 && "bc_emit_call"@[8] == 'c');
    assert("bc_emit_call_op"@.len() == 15 && "bc_emit_call_op"@[8] == 'c');
    assert("bc_emit_concat"@.len() == 14 && "bc_emit_concat"@[0] == 'b' && "bc_emit_concat"@[3] == 'e' && "bc_emit_concat"@[8] == 'c');
    assert("bc_emit_concat_op"@.len() == 17 && "bc_emit_concat_op"@[1] == 'c' && "bc_emit_concat_op"@[8] == 'c' && "bc_emit_concat_op"@[11] == 'c');
    assert("bc_emit_const_bool"@.len() == 18 && "bc_emit_const_bool"@[0] == 'b' && "bc_emit_const_bool"@[1] == 'c' && "bc_emit_const_bool"@[8] == 'c');
    assert("bc_emit_const_bool_op"@.len() == 21 && "bc_emit_const_bool_op"@[1] == 'c' && "bc_emit_const_bool_op"@[8] == 'c');
    assert("bc_emit_const_int"@.len() == 17 && "bc_emit_const_int"@[1] == 'c' && "bc_emit_const_int"@[8] == 'c' && "bc_emit_const_int"@[11] == 's' && "bc_emit_const_int"@[14] == 'i');
    assert("bc_emit_const_int_op"@.len() == 20 && "bc_emit_const_int_op"@[0] == 'b' && "bc_emit_const_int_op"@[14] == 'i');
    assert("bc_emit_const_str"@.len() == 17 && "bc_emit_const_str"@[1] == 'c' && "bc_emit_const_str"@[8] == 'c' && "bc_emit_const_str"@[11] == 's' && "bc_emit_const_str"@[14] == 's');
    assert("bc_emit_const_str_op"@.len() == 20 && "bc_emit_const_str_op"@[0] == 'b' && "bc_emit_const_str_op"@[14] == 's');
    assert("bc_emit_cwd"@.len() == 11);
    assert("bc_emit_div"@.len() == 11 && "bc_emit_div"@[1] == 'c' && "bc_emit_div"@[3] == 'e' && "bc_emit_div"@[8] == 'd');
    assert("bc_emit_div_op"@.len() == 14 && "bc_emit_div_op"@[0] == 'b' && "bc_emit_div_op"@[3] == 'e' && "bc_emit_div_op"@[8] == 'd');
    assert("bc_emit_env_get"@.len() == 15 && "bc_emit_env_get"@[8] == 'e');
    assert("bc_emit_env_has"@.len() == 15 && "bc_emit_env_has"@[8] == 'e');
    assert("bc_emit_eq"@.len() == 10 && "bc_emit_eq"@[3] == 'e' && "bc_emit_eq"@[8] == 'e');
    assert("bc_emit_eq_op"@.len() == 13 && "bc_emit_eq_op"@[0] == 'b' && "bc_emit_eq_op"@[1] == 'c' && "bc_emit_eq_op"@[3] == 'e' && "bc_emit_eq_op"@[8] == 'e');
    assert("bc_emit_fs_exists"@.len() == 17 && "bc_emit_fs_exists"@[8] == 'f');
    assert("bc_emit_fs_listdir"@.len() == 18 && "bc_emit_fs_listdir"@[8] == 'f');
    assert("bc_emit_ge"@.len() == 10 && "bc_emit_ge"@[3] == 'e' && "bc_emit_ge"@[8] == 'g' && "bc_emit_ge"@[9] == 'e');
    assert("bc_emit_ge_op"@.len() == 13 && "bc_emit_ge_op"@[0] == 'b' && "bc_emit_ge_op"@[1] == 'c' && "bc_emit_ge_op"@[3] == 'e' && "bc_emit_ge_op"@[8] == 'g' && "bc_emit_ge_op"@[9] == 'e');
    assert("bc_emit_gt"@.len() == 10 && "bc_emit_gt"@[3] == 'e' && "bc_emit_gt"@[8] == 'g' && "bc_emit_gt"@[9] == 't');
    assert("bc_emit_gt_op"@.len() == 13 && "bc_emit_gt_op"@[0] == 'b' && "bc_emit_gt_op"@[1] == 'c' && "bc_emit_gt_op"@[3] == 'e' && "bc_emit_gt_op"@[8] == 'g' && "bc_emit_gt_op"@[9] == 't');
    assert("bc_emit_halt"@.len() == 12 && "bc_emit_halt"@[8] == 'h');
    assert("bc_emit_halt_op"@.len() == 15 && "bc_emit_halt_op"@[8] == 'h');
    assert("bc_emit_le"@.len() == 10 && "bc_emit_le"@[3] == 'e' && "bc_emit_le"@[8] == 'l' && "bc_emit_le"@[9] == 'e');
    assert("bc_emit_le_op"@.len() == 13 && "bc_emit_le_op"@[0] == 'b' && "bc_emit_le_op"@[1] == 'c' && "bc_emit_le_op"@[3] == 'e' && "bc_emit_le_op"@[8] == 'l' && "bc_emit_le_op"@[9] == 'e');
    assert("bc_emit_load"@.len() == 12 && "bc_emit_load"@[1] == 'c' && "bc_emit_load"@[8] == 'l');
    assert("bc_emit_load0"@.len() == 13 && "bc_emit_load0"@[0] == 'b' && "bc_emit_load0"@[1] == 'c' && "bc_emit_load0"@[3] == 'e' && "bc_emit_load0"@[8] == 'l' && "bc_emit_load0"@[9] == 'o');
    assert("bc_emit_load_op"@.len() == 15 && "bc_emit_load_op"@[0] == 'b' && "bc_emit_load_op"@[8] == 'l');
    assert("bc_emit_lt"@.len() == 10 && "bc_emit_lt"@[3] == 'e' && "bc_emit_lt"@[8] == 'l' && "bc_emit_lt"@[9] == 't');
    assert("bc_emit_lt_op"@.len() == 13 && "bc_emit_lt_op"@[0] == 'b' && "bc_emit_lt_op"@[1] == 'c' && "bc_emit_lt_op"@[3] == 'e' && "bc_emit_lt_op"@[8] == 'l' && "bc_emit_lt_op"@[9] == 't');
    assert("bc_emit_map_clear"@.len() == 17 && "bc_emit_map_clear"@[8] == 'm');
    assert("bc_emit_map_get"@.len() == 15 && "bc_emit_map_get"@[8] == 'm');
    assert("bc_emit_map_has"@.len() == 15 && "bc_emit_map_has"@[8] == 'm');
    assert("bc_emit_map_len"@.len() == 15 && "bc_emit_map_len"@[8] == 'm');
    assert("bc_emit_map_new"@.len() == 15 && "bc_emit_map_new"@[8] == 'm');
    assert("bc_emit_map_remove"@.len() == 18 && "bc_emit_map_remove"@[8] == 'm');
    assert("bc_emit_map_set"@.len() == 15 && "bc_emit_map_set"@[8] == 'm');
    assert("bc_emit_mul"@.len() == 11 && "bc_emit_mul"@[1] == 'c' && "bc_emit_mul"@[3] == 'e' && "bc_emit_mul"@[8] == 'm');
    assert("bc_emit_mul_op"@.len() == 14 && "bc_emit_mul_op"@[0] == 'b' && "bc_emit_mul_op"@[3] == 'e' && "bc_emit_mul_op"@[8] == 'm');
    assert("bc_emit_ne"@.len() == 10 && "bc_emit_ne"@[3] == 'e' && "bc_emit_ne"@[8] == 'n');
    assert("bc_emit_ne_op"@.len() == 13 && "bc_emit_ne_op"@[0] == 'b' && "bc_emit_ne_op"@[1] == 'c' && "bc_emit_ne_op"@[3] == 'e' && "bc_emit_ne_op"@[8] == 'n');
    assert("bc_emit_neg"@.len() == 11 && "bc_emit_neg"@[1] == 'c' && "bc_emit_neg"@[3] == 'e' && "bc_emit_neg"@[8] == 'n' && "bc_emit_neg"@[9] == 'e');
    assert("bc_emit_neg_op"@.len() == 14 && "bc_emit_neg_op"@[0] == 'b' && "bc_emit_neg_op"@[3] == 'e' && "bc_emit_neg_op"@[8] == 'n' && "bc_emit_neg_op"@[9] == 'e');
    assert("bc_emit_not"@.len() == 11 && "bc_emit_not"@[1] == 'c' && "bc_emit_not"@[3] == 'e' && "bc_emit_not"@[8] == 'n' && "bc_emit_not"@[9] == 'o');
    assert("bc_emit_not_op"@.len() == 14 && "bc_emit_not_op"@[0] == 'b' && "bc_emit_not_op"@[3] == 'e' && "bc_emit_not_op"@[8] == 'n' && "bc_emit_not_op"@[9] == 'o');
    assert("bc_emit_now_timestamp"@.len() == 21 && "bc_emit_now_timestamp"@[8] == 'n');
    assert("bc_emit_or"@.len() == 10 && "bc_emit_or"@[3] == 'e' && "bc_emit_or"@[8] == 'o');
    assert("bc_emit_or_op"@.len() == 13 && "bc_emit_or_op"@[0] == 'b' && "bc_emit_or_op"@[1] == 'c' && "bc_emit_or_op"@[3] == 'e' && "bc_emit_or_op"@[8] == 'o');
    assert("bc_emit_path_join"@.len() == 17 && "bc_emit_path_join"@[8] == 'p');
    assert("bc_emit_print_str"@.len() == 17 && "bc_emit_print_str"@[1] == 'c' && "bc_emit_print_str"@[8] == 'p');
    assert("bc_emit_println"@.len() == 15 && "bc_emit_println"@[0] == 'b' && "bc_emit_println"@[8] == 'p');
    assert("bc_emit_println_op"@.len() == 18 && "bc_emit_println_op"@[0] == 'b' && "bc_emit_println_op"@[1] == 'c' && "bc_emit_println_op"@[8] == 'p');
    assert("bc_emit_readfile"@.len() == 16 && "bc_emit_readfile"@[8] == 'r');
    assert("bc_emit_replace"@.len() == 15 && "bc_emit_replace"@[0] == 'b' && "bc_emit_replace"@[8] == 'r');
    assert("bc_emit_replace_op"@.len() == 18 && "bc_emit_replace_op"@[0] == 'b' && "bc_emit_replace_op"@[1] == 'c' && "bc_emit_replace_op"@[8] == 'r');
    assert("bc_emit_ret"@.len() == 11 && "bc_emit_ret"@[8] == 'r');
    assert("bc_emit_ret_op"@.len() == 14 && "bc_emit_ret_op"@[8] == 'r');
    assert("bc_emit_retval"@.len() == 14 && "bc_emit_retval"@[8] == 'r');
    assert("bc_emit_retval_op"@.len() == 17 && "bc_emit_retval_op"@[8] == 'r');
    assert("bc_emit_store"@.len() == 13 && "bc_emit_store"@[0] == 'b' && "bc_emit_store"@[1] == 'c' && "bc_emit_store"@[3] == 'e' && "bc_emit_store"@[8] == 's');
    assert("bc_emit_store0"@.len() == 14 && "bc_emit_store0"@[0] == 'b' && "bc_emit_store0"@[3] == 'e' && "bc_emit_store0"@[8] == 's' && "bc_emit_store0"@[9] == 't' && "bc_emit_store0"@[10] == 'o');
    assert("bc_emit_store_op"@.len() == 16 && "bc_emit_store_op"@[1] == 'c' && "bc_emit_store_op"@[3] == 'e' && "bc_emit_store_op"@[8] == 's');
    assert("bc_emit_str_clear"@.len() == 17 && "bc_emit_str_clear"@[8] == 's' && "bc_emit_str_clear"@[9] == 't' && "bc_emit_str_clear"@[11] == '_');
    assert("bc_emit_strlen"@.len() == 14 && "bc_emit_strlen"@[0] == 'b' && "bc_emit_strlen"@[3] == 'e' && "bc_emit_strlen"@[8] == 's' && "bc_emit_strlen"@[9] == 't' && "bc_emit_strlen"@[10] == 'r');
    assert("bc_emit_strlen_op"@.len() == 17 && "bc_emit_strlen_op"@[1] == 'c' && "bc_emit_strlen_op"@[8] == 's' && "bc_emit_strlen_op"@[9] == 't' && "bc_emit_strlen_op"@[11] == 'l');
    assert("bc_emit_sub"@.len() == 11 && "bc_emit_sub"@[1] == 'c' && "bc_emit_sub"@[3] == 'e' && "bc_emit_sub"@[8] == 's');
    assert("bc_emit_sub_op"@.len() == 14 && "bc_emit_sub_op"@[0] == 'b' && "bc_emit_sub_op"@[3] == 'e' && "bc_emit_sub_op"@[8] == 's' && "bc_emit_sub_op"@[9] == 'u' && "bc_emit_sub_op"@[11] == '_');
    assert("bc_emit_substr"@.len() == 14 && "bc_emit_substr"@[0] == 'b' && "bc_emit_substr"@[3] == 'e' && "bc_emit_substr"@[8] == 's' && "bc_emit_substr"@[9] == 'u' && "bc_emit_substr"@[11] == 's');
    assert("bc_emit_substr_op"@.len() == 17 && "bc_emit_substr_op"@[1] == 'c' && "bc_emit_substr_op"@[8] == 's' && "bc_emit_substr_op"@[9] == 'u');
    assert("bc_emit_vec_clear"@.len() == 17 && "bc_emit_vec_clear"@[8] == 'v');
    assert("bc_emit_vec_get"@.len() == 15 && "bc_emit_vec_get"@[8] == 'v');
    assert("bc_emit_vec_last"@.len() == 16 && "bc_emit_vec_last"@[8] == 'v');
    assert("bc_emit_vec_len"@.len() == 15 && "bc_emit_vec_len"@[0] == 'b' && "bc_emit_vec_len"@[8] == 'v' && "bc_emit_vec_len"@[12] == 'l');
    assert("bc_emit_vec_new"@.len() == 15 && "bc_emit_vec_new"@[0] == 'b' && "bc_emit_vec_new"@[8] == 'v' && "bc_emit_vec_new"@[12] == 'n');
    assert("bc_emit_vec_new_op"@.len() == 18 && "bc_emit_vec_new_op"@[0] == 'b' && "bc_emit_vec_new_op"@[1] == 'c' && "bc_emit_vec_new_op"@[8] == 'v' && "bc_emit_vec_new_op"@[12] == 'n');
    assert("bc_emit_vec_pop"@.len() == 15 && "bc_emit_vec_pop"@[8] == 'v');
    assert("bc_emit_vec_push"@.len() == 16 && "bc_emit_vec_push"@[8] == 'v');
    assert("bc_emit_vec_remove"@.len() == 18 && "bc_emit_vec_remove"@[8] == 'v' && "bc_emit_vec_remove"@[12] == 'r');
    assert("bc_emit_vec_set"@.len() == 15 && "bc_emit_vec_set"@[8] == 'v');
    assert("bc_emit_writefile"@.len() == 17 && "bc_emit_writefile"@[8] == 'w');
    assert("bc_emit_writefile_op"@.len() == 20);
    assert("bc_func_begin"@.len() == 13 && "bc_func_begin"@[3] == 'f');
    assert("bc_func_begin_op"@.len() == 16 && "bc_func_begin_op"@[3] == 'f');
    assert("bc_func_end"@.len() == 11 && "bc_func_end"@[3] == 'f');
    assert("bc_func_end_op"@.len() == 14 && "bc_func_end_op"@[3] == 'f');
    assert("bc_jump"@.len() == 7);
    assert("bc_jump_if_false"@.len() == 16 && "bc_jump_if_false"@[3] == 'j');
    assert("bc_jump_if_false_op"@.len() == 19);
    assert("bc_jump_op"@.len() == 10 && "bc_jump_op"@[3] == 'j');
    assert("bc_label"@.len() == 8);
    assert("bc_label_op"@.len() == 11 && "bc_label_op"@[3] == 'l');
    assert("bc_main"@.len() == 7);
    assert("bc_main_op"@.len() == 10 && "bc_main_op"@[3] == 'm');
    assert("bc_new"@.len() == 6);
    assert("bc_new_op"@.len() == 9);
    assert("bc_write"@.len() == 8);
    assert("bc_write_op"@.len() == 11 && "bc_write_op"@[3] == 'w');
    assert("builder_emit_halt"@.len() == 17 && "builder_emit_halt"@[1] == 'u');
    assert("builder_func_begin"@.len() == 18 && "builder_func_begin"@[1] == 'u');
    assert("builder_func_end"@.len() == 16 && "builder_func_end"@[1] == 'u');
    assert("builder_jump"@.len() == 12 && "builder_jump"@[1] == 'u');
    assert("builder_jump_if_false"@.len() == 21 && "builder_jump_if_false"@[1] == 'u');
    assert("builder_label"@.len() == 13 && "builder_label"@[1] == 'u');
    assert("builder_main"@.len() == 12 && "builder_main"@[1] == 'u');
    assert("builder_new"@.len() == 11 && "builder_new"@[1] == 'u');
    assert("builder_write"@.len() == 13 && "builder_write"@[1] == 'u');
    assert("emit_bcop_func_begin"@.len() == 20 && "emit_bcop_func_begin"@[0] == 'e');
    assert("emit_bcop_func_end"@.len() == 18 && "emit_bcop_func_end"@[0] == 'e');
    assert("emit_bcop_halt"@.len() == 14 && "emit_bcop_halt"@[0] == 'e');
    assert("emit_bcop_jump"@.len() == 14 && "emit_bcop_jump"@[0] == 'e');
    assert("emit_bcop_jump_if_false"@.len() == 23);
    assert("emit_bcop_label"@.len() == 15 && "emit_bcop_label"@[0] == 'e');
    assert("emit_bcop_main"@.len() == 14 && "emit_bcop_main"@[0] == 'e');
    assert("emit_bcop_new"@.len() == 13 && "emit_bcop_new"@[0] == 'e');
    assert("emit_bcop_write"@.len() == 15 && "emit_bcop_write"@[0] == 'e');
    assert("log_bool"@.len() == 8);
    assert("log_int"@.len() == 7);
    assert("log_str"@.len() == 7);
    assert("sleep_ms"@.len() == 8);
    assert("writefile"@.len() == 9);
}

/// The procedures that `with_emit_procs_rest` enters keep the ones before them and compile
/// as `lemma_builtin_procedures_compile` says.
#[verifier::rlimit(100)]
proof fn lemma_emit_rest_procs_compile(s: Seq<(Seq<char>, Seq<Type>)>)
    ensures
        with_emit_procs_rest(s).len() == s.len() + 53,
        forall|i: int| 0 <= i < s.len() ==> #[trigger] with_emit_procs_rest(s)[i] == s[i],
        forall|i: int|
            s.len() <= i < with_emit_procs_rest(s).len() && with_emit_procs_rest(s)[i].0 != "bc_emit_str_clear_op"@ ==> takes(
                stmt_builtin(#[trigger] with_emit_procs_rest(s)[i].0),
                with_emit_procs_rest(s)[i].1.len(),
            ),
{
    // The names are told apart by their lengths, or else by one character.
    reveal_strlit("bc_emit_add");
    reveal_strlit("bc_emit_add_op");
    reveal_strlit("bc_emit_and");
    reveal_strlit("bc_emit_and_op");
    reveal_strlit("bc_emit_arg");
    reveal_strlit("bc_emit_arg_count");
    reveal_strlit("bc_emit_arg_count_op");
    reveal_strlit("bc_emit_arg_op");
    reveal_strlit("bc_emit_call");
    reveal_strlit("bc_emit_call_op");
    reveal_strlit("bc_emit_concat");
    reveal_strlit("bc_emit_concat_op");
    reveal_strlit("bc_emit_const_bool");
    reveal_strlit("bc_emit_const_bool_op");
    reveal_strlit("bc_emit_const_int");
    reveal_strlit("bc_emit_const_int_op");
    reveal_strlit("bc_emit_const_str");
    reveal_strlit("bc_emit_const_str_op");
    reveal_strlit("bc_emit_cwd");
    reveal_strlit("bc_emit_cwd_op");
    reveal_strlit("bc_emit_div");
    reveal_strlit("bc_emit_div_op");
    reveal_strlit("bc_emit_env_get");
    reveal_strlit("bc_emit_env_get_op");
    reveal_strlit("bc_emit_env_has");
    reveal_strlit("bc_emit_env_has_op");
    reveal_strlit("bc_emit_eq");
    reveal_strlit("bc_emit_eq_op");
    reveal_strlit("bc_emit_fs_exists");
    reveal_strlit("bc_emit_fs_exists_op");
    reveal_strlit("bc_emit_fs_listdir");
    reveal_strlit("bc_emit_fs_listdir_op");
    reveal_strlit("bc_emit_ge");
    reveal_strlit("bc_emit_ge_op");
    reveal_strlit("bc_emit_gt");
    reveal_strlit("bc_emit_gt_op");
    reveal_strlit("bc_emit_halt");
    reveal_strlit("bc_emit_halt_op");
    reveal_strlit("bc_emit_le");
    reveal_strlit("bc_emit_le_op");
    reveal_strlit("bc_emit_load");
    reveal_strlit("bc_emit_load0");
    reveal_strlit("bc_emit_load_op");
    reveal_strlit("bc_emit_lt");
    reveal_strlit("bc_emit_lt_op");
    reveal_strlit("bc_emit_map_clear");
    reveal_strlit("bc_emit_map_clear_op");
    reveal_strlit("bc_emit_map_get");
    reveal_strlit("bc_emit_map_get_op");
    reveal_strlit("bc_emit_map_has");
    reveal_strlit("bc_emit_map_has_op");
    reveal_strlit("bc_emit_map_len");
    reveal_strlit("bc_emit_map_len_op");
    reveal_strlit("bc_emit_map_new");
    reveal_strlit("bc_emit_map_new_op");
    reveal_strlit("bc_emit_map_remove");
    reveal_strlit("bc_emit_map_remove_op");
    reveal_strlit("bc_emit_map_set");
    reveal_strlit("bc_emit_map_set_op");
    reveal_strlit("bc_emit_mul");
    reveal_strlit("bc_emit_mul_op");
    reveal_strlit("bc_emit_ne");
    reveal_strlit("bc_emit_ne_op");
    reveal_strlit("bc_emit_neg");
    reveal_strlit("bc_emit_neg_op");
    reveal_strlit("bc_emit_not");
    reveal_strlit("bc_emit_not_op");
    reveal_strlit("bc_emit_now_timestamp");
    reveal_strlit("bc_emit_now_timestamp_op");
    reveal_strlit("bc_emit_or");
    reveal_strlit("bc_emit_or_op");
    reveal_strlit("bc_emit_path_join");
    reveal_strlit("bc_emit_path_join_op");
    reveal_strlit("bc_emit_print_str");
    reveal_strlit("bc_emit_println");
    reveal_strlit("bc_emit_println_op");
    reveal_strlit("bc_emit_readfile");
    reveal_strlit("bc_emit_readfile_op");
    reveal_strlit("bc_emit_replace");
    reveal_strlit("bc_emit_replace_op");
    reveal_strlit("bc_emit_ret");
    reveal_strlit("bc_emit_ret_op");
    reveal_strlit("bc_emit_retval");
    reveal_strlit("bc_emit_retval_op");
    reveal_strlit("bc_emit_store");
    reveal_strlit("bc_emit_store0");
    reveal_strlit("bc_emit_store_op");
    reveal_strlit("bc_emit_str_clear");
    reveal_strlit("bc_emit_strlen");
    reveal_strlit("bc_emit_strlen_op");
    reveal_strlit("bc_emit_sub");
    reveal_strlit("bc_emit_sub_op");
    reveal_strlit("bc_emit_substr");
    reveal_strlit("bc_emit_substr_op");
    reveal_strlit("bc_emit_vec_clear");
    reveal_strlit("bc_emit_vec_clear_op");
    reveal_strlit("bc_emit_vec_get");
    reveal_strlit("bc_emit_vec_get_op");
    reveal_strlit("bc_emit_vec_last");
    reveal_strlit("bc_emit_vec_last_op");
    reveal_strlit("bc_emit_vec_len");
    reveal_strlit("bc_emit_vec_len_op");
    reveal_strlit("bc_emit_vec_new");
    reveal_strlit("bc_emit_vec_new_op");
    reveal_strlit("bc_emit_vec_pop");
    reveal_strlit("bc_emit_vec_pop_op");
    reveal_strlit("bc_emit_vec_push");
    reveal_strlit("bc_emit_vec_push_op");
    reveal_strlit("bc_emit_vec_remove");
    reveal_strlit("bc_emit_vec_remove_op");
    reveal_strlit("bc_emit_vec_set");
    reveal_strlit("bc_emit_vec_set_op");
    reveal_strlit("bc_emit_writefile");
    reveal_strlit("bc_emit_writefile_op");
    reveal_strlit("bc_func_begin");
    reveal_strlit("bc_func_begin_op");
    reveal_strlit("bc_func_end");
    reveal_strlit("bc_func_end_op");
    reveal_strlit("bc_jump");
    reveal_strlit("bc_jump_if_false");
    reveal_strlit("bc_jump_if_false_op");
    reveal_strlit("bc_jump_op");
    reveal_strlit("bc_label");
    reveal_strlit("bc_label_op");
    reveal_strlit("bc_main");
    reveal_strlit("bc_main_op");
    reveal_strlit("bc_new");
    reveal_strlit("bc_new_op");
    reveal_strlit("bc_write");
    reveal_strlit("bc_write_op");
    reveal_strlit("builder_emit_halt");
    reveal_strlit("builder_func_begin");
    reveal_strlit("builder_func_end");
    reveal_strlit("builder_jump");
    reveal_strlit("builder_jump_if_false");
    reveal_strlit("builder_label");
    reveal_strlit("builder_main");
    reveal_strlit("builder_new");
    reveal_strlit("builder_write");
    reveal_strlit("emit_bcop_func_begin");
    reveal_strlit("emit_bcop_func_end");
    reveal_strlit("emit_bcop_halt");
    reveal_strlit("emit_bcop_jump");
    reveal_strlit("emit_bcop_jump_if_false");
    reveal_strlit("emit_bcop_label");
    reveal_strlit("emit_bcop_main");
    reveal_strlit("emit_bcop_new");
    reveal_strlit("emit_bcop_write");
    reveal_strlit("log_bool");
    reveal_strlit("log_int");
    reveal_strlit("log_str");
    reveal_strlit("sleep_ms");
    reveal_strlit("writefile");
    assert("bc_emit_add"@.len() == 11 && "bc_emit_add"@[8] == 'a' && "bc_emit_add"@[9] == 'd');
    assert("bc_emit_add_op"@.len() == 14 && "bc_emit_add_op"@[8] == 'a' && "bc_emit_add_op"@[9] == 'd');
    assert("bc_emit_and"@.len() == 11 && "bc_emit_and"@[8] == 'a' && "bc_emit_and"@[9] == 'n');
    assert("bc_emit_and_op"@.len() == 14 && "bc_emit_and_op"@[8] == 'a' && "bc_emit_and_op"@[9] == 'n');
    assert("bc_emit_arg"@.len() == 11 && "bc_emit_arg"@[1] == 'c' && "bc_emit_arg"@[3] == 'e' && "bc_emit_arg"@[8] == 'a' && "bc_emit_arg"@[9] == 'r');
    assert("bc_emit_arg_count"@.len() == 17 && "bc_emit_arg_count"@[1] == 'c' && "bc_emit_arg_count"@[8] == 'a');
    assert("bc_emit_arg_count_op"@.len() == 20 && "bc_emit_arg_count_op"@[0] == 'b' && "bc_emit_arg_count_op"@[8] == 'a');
    assert("bc_emit_arg_op"@.len() == 14 && "bc_emit_arg_op"@[0] == 'b' && "bc_emit_arg_op"@[3] == 'e' && "bc_emit_arg_op"@[8] == 'a' && "bc_emit_arg_op"@[9] == 'r');
    assert("bc_emit_call"@.len() == 12);
    assert("bc_emit_call_op"@.len() == 15 && "bc_emit_call_op"@[8] == 'c');
    assert("bc_emit_concat"@.len() == 14 && "bc_emit_concat"@[8] == 'c' && "bc_emit_concat"@[9] == 'o');
    assert("bc_emit_concat_op"@.len() == 17);
    assert("bc_emit_const_bool"@.len() == 18 && "bc_emit_const_bool"@[8] == 'c');
    assert("bc_emit_const_bool_op"@.len() == 21 && "bc_emit_const_bool_op"@[8] == 'c');
    assert("bc_emit_const_int"@.len() == 17 && "bc_emit_const_int"@[8] == 'c');
    assert("bc_emit_const_int_op"@.len() == 20 && "bc_emit_const_int_op"@[8] == 'c');
    assert("bc_emit_const_str"@.len() == 17 && "bc_emit_const_str"@[8] == 'c');
    assert("bc_emit_const_str_op"@.len() == 20 && "bc_emit_const_str_op"@[8] == 'c');
    assert("bc_emit_cwd"@.len() == 11 && "bc_emit_cwd"@[1] == 'c' && "bc_emit_cwd"@[3] == 'e' && "bc_emit_cwd"@[8] == 'c');
    assert("bc_emit_cwd_op"@.len() == 14 && "bc_emit_cwd_op"@[0] == 'b' && "bc_emit_cwd_op"@[3] == 'e' && "bc_emit_cwd_op"@[8] == 'c' && "bc_emit_cwd_op"@[9] == 'w');
    assert("bc_emit_div"@.len() == 11 && "bc_emit_div"@[8] == 'd');
    assert("bc_emit_div_op"@.len() == 14 && "bc_emit_div_op"@[8] == 'd');
    assert("bc_emit_env_get"@.len() == 15 && "bc_emit_env_get"@[0] == 'b' && "bc_emit_env_get"@[8] == 'e' && "bc_emit_env_get"@[12] == 'g');
    assert("bc_emit_env_get_op"@.len() == 18 && "bc_emit_env_get_op"@[0] == 'b' && "bc_emit_env_get_op"@[1] == 'c' && "bc_emit_env_get_op"@[8] == 'e' && "bc_emit_env_get_op"@[12] == 'g');
    assert("bc_emit_env_has"@.len() == 15 && "bc_emit_env_has"@[0] == 'b' && "bc_emit_env_has"@[8] == 'e' && "bc_emit_env_has"@[12] == 'h');
    assert("bc_emit_env_has_op"@.len() == 18 && "bc_emit_env_has_op"@[0] == 'b' && "bc_emit_env_has_op"@[1] == 'c' && "bc_emit_env_has_op"@[8] == 'e' && "bc_emit_env_has_op"@[12] == 'h');
    assert("bc_emit_eq"@.len() == 10);
    assert("bc_emit_eq_op"@.len() == 13);
    assert("bc_emit_fs_exists"@.len() == 17 && "bc_emit_fs_exists"@[1] == 'c' && "bc_emit_fs_exists"@[8] == 'f');
    assert("bc_emit_fs_exists_op"@.len() == 20 && "bc_emit_fs_exists_op"@[0] == 'b' && "bc_emit_fs_exists_op"@[8] == 'f');
    assert("bc_emit_fs_listdir"@.len() == 18 && "bc_emit_fs_listdir"@[0] == 'b' && "bc_emit_fs_listdir"@[1] == 'c' && "bc_emit_fs_listdir"@[8] == 'f');
    assert("bc_emit_fs_listdir_op"@.len() == 21 && "bc_emit_fs_listdir_op"@[1] == 'c' && "bc_emit_fs_listdir_op"@[8] == 'f');
    assert("bc_emit_ge"@.len() == 10);
    assert("bc_emit_ge_op"@.len() == 13);
    assert("bc_emit_gt"@.len() == 10);
    assert("bc_emit_gt_op"@.len() == 13);
    assert("bc_emit_halt"@.len() == 12);
    assert("bc_emit_halt_op"@.len() == 15 && "bc_emit_halt_op"@[8] == 'h');
    assert("bc_emit_le"@.len() == 10);
    assert("bc_emit_le_op"@.len() == 13);
    assert("bc_emit_load"@.len() == 12);
    assert("bc_emit_load0"@.len() == 13);
    assert("bc_emit_load_op"@.len() == 15);
    assert("bc_emit_lt"@.len() == 10);
    assert("bc_emit_lt_op"@.len() == 13);
    assert("bc_emit_map_clear"@.len() == 17 && "bc_emit_map_clear"@[1] == 'c' && "bc_emit_map_clear"@[8] == 'm');
    assert("bc_emit_map_clear_op"@.len() == 20 && "bc_emit_map_clear_op"@[0] == 'b' && "bc_emit_map_clear_op"@[8] == 'm');
    assert("bc_emit_map_get"@.len() == 15 && "bc_emit_map_get"@[0] == 'b' && "bc_emit_map_get"@[8] == 'm' && "bc_emit_map_get"@[12] == 'g');
    assert("bc_emit_map_get_op"@.len() == 18 && "bc_emit_map_get_op"@[0] == 'b' && "bc_emit_map_get_op"@[1] == 'c' && "bc_emit_map_get_op"@[8] == 'm' && "bc_emit_map_get_op"@[12] == 'g');
    assert("bc_emit_map_has"@.len() == 15 && "bc_emit_map_has"@[0] == 'b' && "bc_emit_map_has"@[8] == 'm' && "bc_emit_map_has"@[12] == 'h');
    assert("bc_emit_map_has_op"@.len() == 18 && "bc_emit_map_has_op"@[0] == 'b' && "bc_emit_map_has_op"@[1] == 'c' && "bc_emit_map_has_op"@[8] == 'm' && "bc_emit_map_has_op"@[12] == 'h');
    assert("bc_emit_map_len"@.len() == 15 && "bc_emit_map_len"@[0] == 'b' && "bc_emit_map_len"@[8] == 'm' && "bc_emit_map_len"@[12] == 'l');
    assert("bc_emit_map_len_op"@.len() == 18 && "bc_emit_map_len_op"@[0] == 'b' && "bc_emit_map_len_op"@[1] == 'c' && "bc_emit_map_len_op"@[8] == 'm' && "bc_emit_map_len_op"@[12] == 'l');
    assert("bc_emit_map_new"@.len() == 15 && "bc_emit_map_new"@[0] == 'b' && "bc_emit_map_new"@[8] == 'm' && "bc_emit_map_new"@[12] == 'n');
    assert("bc_emit_map_new_op"@.len() == 18 && "bc_emit_map_new_op"@[0] == 'b' && "bc_emit_map_new_op"@[1] == 'c' && "bc_emit_map_new_op"@[8] == 'm' && "bc_emit_map_new_op"@[12] == 'n');
    assert("bc_emit_map_remove"@.len() == 18 && "bc_emit_map_remove"@[0] == 'b' && "bc_emit_map_remove"@[1] == 'c' && "bc_emit_map_remove"@[8] == 'm' && "bc_emit_map_remove"@[12] == 'r');
    assert("bc_emit_map_remove_op"@.len() == 21 && "bc_emit_map_remove_op"@[1] == 'c' && "bc_emit_map_remove_op"@[8] == 'm');
    assert("bc_emit_map_set"@.len() == 15 && "bc_emit_map_set"@[0] == 'b' && "bc_emit_map_set"@[8] == 'm' && "bc_emit_map_set"@[12] == 's');
    assert("bc_emit_map_set_op"@.len() == 18 && "bc_emit_map_set_op"@[0] == 'b' && "bc_emit_map_set_op"@[1] == 'c' && "bc_emit_map_set_op"@[8] == 'm' && "bc_emit_map_set_op"@[12] == 's');
    assert("bc_emit_mul"@.len() == 11 && "bc_emit_mul"@[8] == 'm');
    assert("bc_emit_mul_op"@.len() == 14 && "bc_emit_mul_op"@[8] == 'm');
    assert("bc_emit_ne"@.len() == 10);
    assert("bc_emit_ne_op"@.len() == 13);
    assert("bc_emit_neg"@.len() == 11 && "bc_emit_neg"@[8] == 'n');
    assert("bc_emit_neg_op"@.len() == 14 && "bc_emit_neg_op"@[8] == 'n');
    assert("bc_emit_not"@.len() == 11 && "bc_emit_not"@[8] == 'n');
    assert("bc_emit_not_op"@.len() == 14 && "bc_emit_not_op"@[8] == 'n');
    assert("bc_emit_now_timestamp"@.len() == 21 && "bc_emit_now_timestamp"@[1] == 'c' && "bc_emit_now_timestamp"@[8] == 'n');
    assert("bc_emit_now_timestamp_op"@.len() == 24);
    assert("bc_emit_or"@.len() == 10);
    assert("bc_emit_or_op"@.len() == 13);
    assert("bc_emit_path_join"@.len() == 17 && "bc_emit_path_join"@[1] == 'c' && "bc_emit_path_join"@[8] == 'p' && "bc_emit_path_join"@[9] == 'a');
    assert("bc_emit_path_join_op"@.len() == 20 && "bc_emit_path_join_op"@[0] == 'b' && "bc_emit_path_join_op"@[8] == 'p');
    assert("bc_emit_print_str"@.len() == 17 && "bc_emit_print_str"@[8] == 'p' && "bc_emit_print_str"@[9] == 'r');
    assert("bc_emit_println"@.len() == 15 && "bc_emit_println"@[8] == 'p');
    assert("bc_emit_println_op"@.len() == 18 && "bc_emit_println_op"@[8] == 'p');
    assert("bc_emit_readfile"@.len() == 16 && "bc_emit_readfile"@[1] == 'c' && "bc_emit_readfile"@[3] == 'e' && "bc_emit_readfile"@[8] == 'r');
    assert("bc_emit_readfile_op"@.len() == 19 && "bc_emit_readfile_op"@[3] == 'e' && "bc_emit_readfile_op"@[8] == 'r');
    assert("bc_emit_replace"@.len() == 15 && "bc_emit_replace"@[8] == 'r');
    assert("bc_emit_replace_op"@.len() == 18 && "bc_emit_replace_op"@[8] == 'r');
    assert("bc_emit_ret"@.len() == 11 && "bc_emit_ret"@[8] == 'r');
    assert("bc_emit_ret_op"@.len() == 14 && "bc_emit_ret_op"@[8] == 'r');
    assert("bc_emit_retval"@.len() == 14 && "bc_emit_retval"@[8] == 'r');
    assert("bc_emit_retval_op"@.len() == 17 && "bc_emit_retval_op"@[8] == 'r');
    assert("bc_emit_store"@.len() == 13);
    assert("bc_emit_store0"@.len() == 14 && "bc_emit_store0"@[8] == 's');
    assert("bc_emit_store_op"@.len() == 16);
    assert("bc_emit_str_clear"@.len() == 17 && "bc_emit_str_clear"@[1] == 'c' && "bc_emit_str_clear"@[8] == 's');
    assert("bc_emit_strlen"@.len() == 14 && "bc_emit_strlen"@[8] == 's');
    assert("bc_emit_strlen_op"@.len() == 17);
    assert("bc_emit_sub"@.len() == 11 && "bc_emit_sub"@[8] == 's');
    assert("bc_emit_sub_op"@.len() == 14 && "bc_emit_sub_op"@[8] == 's');
    assert("bc_emit_substr"@.len() == 14 && "bc_emit_substr"@[8] == 's');
    assert("bc_emit_substr_op"@.len() == 17);
    assert("bc_emit_vec_clear"@.len() == 17 && "bc_emit_vec_clear"@[1] == 'c' && "bc_emit_vec_clear"@[8] == 'v');
    assert("bc_emit_vec_clear_op"@.len() == 20 && "bc_emit_vec_clear_op"@[0] == 'b' && "bc_emit_vec_clear_op"@[8] == 'v');
    assert("bc_emit_vec_get"@.len() == 15 && "bc_emit_vec_get"@[0] == 'b' && "bc_emit_vec_get"@[8] == 'v' && "bc_emit_vec_get"@[12] == 'g');
    assert("bc_emit_vec_get_op"@.len() == 18 && "bc_emit_vec_get_op"@[0] == 'b' && "bc_emit_vec_get_op"@[1] == 'c' && "bc_emit_vec_get_op"@[8] == 'v' && "bc_emit_vec_get_op"@[12] == 'g');
    assert("bc_emit_vec_last"@.len() == 16 && "bc_emit_vec_last"@[1] == 'c' && "bc_emit_vec_last"@[3] == 'e' && "bc_emit_vec_last"@[8] == 'v' && "bc_emit_vec_last"@[12] == 'l');
    assert("bc_emit_vec_last_op"@.len() == 19 && "bc_emit_vec_last_op"@[3] == 'e' && "bc_emit_vec_last_op"@[8] == 'v' && "bc_emit_vec_last_op"@[12] == 'l');
    assert("bc_emit_vec_len"@.len() == 15 && "bc_emit_vec_len"@[8] == 'v' && "bc_emit_vec_len"@[12] == 'l');
    assert("bc_emit_vec_len_op"@.len() == 18 && "bc_emit_vec_len_op"@[0] == 'b' && "bc_emit_vec_len_op"@[1] == 'c' && "bc_emit_vec_len_op"@[8] == 'v' && "bc_emit_vec_len_op"@[12] == 'l');
    assert("bc_emit_vec_new"@.len() == 15 && "bc_emit_vec_new"@[8] == 'v' && "bc_emit_vec_new"@[12] == 'n');
    assert("bc_emit_vec_new_op"@.len() == 18 && "bc_emit_vec_new_op"@[8] == 'v' && "bc_emit_vec_new_op"@[12] == 'n');
    assert("bc_emit_vec_pop"@.len() == 15 && "bc_emit_vec_pop"@[0] == 'b' && "bc_emit_vec_pop"@[8] == 'v' && "bc_emit_vec_pop"@[12] == 'p');
    assert("bc_emit_vec_pop_op"@.len() == 18 && "bc_emit_vec_pop_op"@[0] == 'b' && "bc_emit_vec_pop_op"@[1] == 'c' && "bc_emit_vec_pop_op"@[8] == 'v' && "bc_emit_vec_pop_op"@[12] == 'p');
    assert("bc_emit_vec_push"@.len() == 16 && "bc_emit_vec_push"@[1] == 'c' && "bc_emit_vec_push"@[3] == 'e' && "bc_emit_vec_push"@[8] == 'v' && "bc_emit_vec_push"@[12] == 'p');
    assert("bc_emit_vec_push_op"@.len() == 19 && "bc_emit_vec_push_op"@[3] == 'e' && "bc_emit_vec_push_op"@[8] == 'v' && "bc_emit_vec_push_op"@[12] == 'p');
    assert("bc_emit_vec_remove"@.len() == 18 && "bc_emit_vec_remove"@[0] == 'b' && "bc_emit_vec_remove"@[1] == 'c' && "bc_emit_vec_remove"@[8] == 'v' && "bc_emit_vec_remove"@[12] == 'r');
    assert("bc_emit_vec_remove_op"@.len() == 21 && "bc_emit_vec_remove_op"@[1] == 'c' && "bc_emit_vec_remove_op"@[8] == 'v');
    assert("bc_emit_vec_set"@.len() == 15 && "bc_emit_vec_set"@[0] == 'b' && "bc_emit_vec_set"@[8] == 'v' && "bc_emit_vec_set"@[12] == 's');
    assert("bc_emit_vec_set_op"@.len() == 18 && "bc_emit_vec_set_op"@[0] == 'b' && "bc_emit_vec_set_op"@[1] == 'c' && "bc_emit_vec_set_op"@[8] == 'v' && "bc_emit_vec_set_op"@[12] == 's');
    assert("bc_emit_writefile"@.len() == 17 && "bc_emit_writefile"@[1] == 'c' && "bc_emit_writefile"@[8] == 'w');
    assert("bc_emit_writefile_op"@.len() == 20 && "bc_emit_writefile_op"@[0] == 'b' && "bc_emit_writefile_op"@[8] == 'w');
    assert("bc_func_begin"@.len() == 13);
    assert("bc_func_begin_op"@.len() == 16 && "bc_func_begin_op"@[3] == 'f');
    assert("bc_func_end"@.len() == 11 && "bc_func_end"@[3] == 'f');
    assert("bc_func_end_op"@.len() == 14 && "bc_func_end_op"@[3] == 'f');
    assert("bc_jump"@.len() == 7);
    assert("bc_jump_if_false"@.len() == 16 && "bc_jump_if_false"@[3] == 'j');
    assert("bc_jump_if_false_op"@.len() == 19 && "bc_jump_if_false_op"@[3] == 'j');
    assert("bc_jump_op"@.len() == 10);
    assert("bc_label"@.len() == 8);
    assert("bc_label_op"@.len() == 11 && "bc_label_op"@[3] == 'l');
    assert("bc_main"@.len() == 7);
    assert("bc_main_op"@.len() == 10);
    assert("bc_new"@.len() == 6);
    assert("bc_new_op"@.len() == 9);
    assert("bc_write"@.len() == 8);
    assert("bc_write_op"@.len() == 11 && "bc_write_op"@[3] == 'w');
    assert("builder_emit_halt"@.len() == 17 && "builder_emit_halt"@[1] == 'u');
    assert("builder_func_begin"@.len() == 18 && "builder_func_begin"@[1] == 'u');
    assert("builder_func_end"@.len() == 16 && "builder_func_end"@[1] == 'u');
    assert("builder_jump"@.len() == 12);
    assert("builder_jump_if_false"@.len() == 21 && "builder_jump_if_false"@[1] == 'u');
    assert("builder_label"@.len() == 13);
    assert("builder_main"@.len() == 12);
    assert("builder_new"@.len() == 11 && "builder_new"@[1] == 'u');
    assert("builder_write"@.len() == 13);
    assert("emit_bcop_func_begin"@.len() == 20 && "emit_bcop_func_begin"@[0] == 'e');
    assert("emit_bcop_func_end"@.len() == 18 && "emit_bcop_func_end"@[0] == 'e');
    assert("emit_bcop_halt"@.len() == 14 && "emit_bcop_halt"@[0] == 'e');
    assert("emit_bcop_jump"@.len() == 14 && "emit_bcop_jump"@[0] == 'e');
    assert("emit_bcop_jump_if_false"@.len() == 23);
    assert("emit_bcop_label"@.len() == 15 && "emit_bcop_label"@[0] == 'e');
    assert("emit_bcop_main"@.len() == 14 && "emit_bcop_main"@[0] == 'e');
    assert("emit_bcop_new"@.len() == 13);
    assert("emit_bcop_write"@.len() == 15 && "emit_bcop_write"@[0] == 'e');
    assert("log_bool"@.len() == 8);
    assert("log_int"@.len() == 7);
    assert("log_str"@.len() == 7);
    assert("sleep_ms"@.len() == 8);
    assert("writefile"@.len() == 9);
}

} // verus!
