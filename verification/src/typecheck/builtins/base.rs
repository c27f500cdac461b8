use vstd::prelude::*;

use crate::ast::Type;
use crate::typecheck::env::{EnvModel, TypeEnv};

use super::{add_func, add_proc, types0, types1, types2, types3};

verus! {

/// The function signatures for files, arguments, strings, the environment, the file system, time and logging, entered after `s` in order.
pub open spec fn with_core_funcs(s: Seq<(Seq<char>, (Seq<Type>, Type))>) -> Seq<(Seq<char>, (Seq<Type>, Type))> {
    s
        .push(("readfile"@, (seq![Type::String], Type::String)))
        .push(("arg_count"@, (Seq::<Type>::empty(), Type::Integer)))
        .push(("arg"@, (seq![Type::Integer], Type::String)))
        .push(("strlen"@, (seq![Type::String], Type::Integer)))
        .push(("substr"@, (seq![Type::String, Type::Integer, Type::Integer], Type::String)))
        .push(("replace"@, (seq![Type::String, Type::String, Type::String], Type::String)))
        .push(("concat"@, (seq![Type::String, Type::String], Type::String)))
        .push(("string_clear"@, (seq![Type::String], Type::String)))
        .push(("env_get"@, (seq![Type::String], Type::String)))
        .push(("env_has"@, (seq![Type::String], Type::Boolean)))
        .push(("cwd"@, (Seq::<Type>::empty(), Type::String)))
        .push(("path_join"@, (seq![Type::String, Type::String], Type::String)))
        .push(("fs_exists"@, (seq![Type::String], Type::Boolean)))
        .push(("fs_listdir"@, (seq![Type::String], Type::Vector(Box::new(Type::String)))))
        .push(("os_exec"@, (seq![Type::String], Type::Integer)))
        .push(("now_timestamp"@, (Seq::<Type>::empty(), Type::Integer)))
}

/// The procedure signatures for files, arguments, strings, the environment, the file system, time and logging, entered after `s` in order.
pub open spec fn with_core_procs(s: Seq<(Seq<char>, Seq<Type>)>) -> Seq<(Seq<char>, Seq<Type>)> {
    s
        .push(("writefile"@, seq![Type::String, Type::String]))
        .push(("sleep_ms"@, seq![Type::Integer]))
        .push(("log_str"@, seq![Type::String]))
        .push(("log_int"@, seq![Type::Integer]))
        .push(("log_bool"@, seq![Type::Boolean]))
}

/// Enters the built-ins for files, arguments, strings, the environment, the file system, time and logging.
pub fn register_core(env: &mut TypeEnv)
    ensures
        final(env).model() == (EnvModel { funcs: with_core_funcs(old(env).model().funcs), procs: with_core_procs(old(env).model().procs), ..old(env).model() }),
{
    add_func(env, "readfile", types1(Type::String), Type::String);
    add_proc(env, "writefile", types2(Type::String, Type::String));
    add_func(env, "arg_count", types0(), Type::Integer);
    add_func(env, "arg", types1(Type::Integer), Type::String);
    add_func(env, "strlen", types1(Type::String), Type::Integer);
    add_func(env, "substr", types3(Type::String, Type::Integer, Type::Integer), Type::String);
    add_func(env, "replace", types3(Type::String, Type::String, Type::String), Type::String);
    add_func(env, "concat", types2(Type::String, Type::String), Type::String);
    add_func(env, "string_clear", types1(Type::String), Type::String);
    add_func(env, "env_get", types1(Type::String), Type::String);
    add_func(env, "env_has", types1(Type::String), Type::Boolean);
    add_func(env, "cwd", types0(), Type::String);
    add_func(env, "path_join", types2(Type::String, Type::String), Type::String);
    add_func(env, "fs_exists", types1(Type::String), Type::Boolean);
    add_func(env, "fs_listdir", types1(Type::String), Type::Vector(Box::new(Type::String)));
    add_func(env, "os_exec", types1(Type::String), Type::Integer);
    add_func(env, "now_timestamp", types0(), Type::Integer);
    add_proc(env, "sleep_ms", types1(Type::Integer));
    add_proc(env, "log_str", types1(Type::String));
    add_proc(env, "log_int", types1(Type::Integer));
    add_proc(env, "log_bool", types1(Type::Boolean));
}

} // verus!
