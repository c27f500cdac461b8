use vstd::prelude::*;

use crate::ast::Type;
use crate::typecheck::env::{EnvModel, TypeEnv};

use super::{add_func, types0, types1, types2, types3};

verus! {

/// The function signatures for results holding an integer, boolean or string, or an error text, entered after `s` in order.
pub open spec fn with_results_funcs(s: Seq<(Seq<char>, (Seq<Type>, Type))>) -> Seq<(Seq<char>, (Seq<Type>, Type))> {
    s
        .push(("result_ok_int"@, (seq![Type::Integer], Type::Result(Box::new(Type::Integer)))))
        .push(("result_ok_bool"@, (seq![Type::Boolean], Type::Result(Box::new(Type::Boolean)))))
        .push(("result_ok_str"@, (seq![Type::String], Type::Result(Box::new(Type::String)))))
        .push(("result_err_int"@, (seq![Type::String], Type::Result(Box::new(Type::Integer)))))
        .push(("result_err_bool"@, (seq![Type::String], Type::Result(Box::new(Type::Boolean)))))
        .push(("result_err_str"@, (seq![Type::String], Type::Result(Box::new(Type::String)))))
        .push(("result_is_ok_int"@, (seq![Type::Result(Box::new(Type::Integer))], Type::Boolean)))
        .push(("result_is_ok_bool"@, (seq![Type::Result(Box::new(Type::Boolean))], Type::Boolean)))
        .push(("result_is_ok_str"@, (seq![Type::Result(Box::new(Type::String))], Type::Boolean)))
        .push(("result_unwrap_int"@, (seq![Type::Result(Box::new(Type::Integer))], Type::Integer)))
        .push(("result_unwrap_bool"@, (seq![Type::Result(Box::new(Type::Boolean))], Type::Boolean)))
        .push(("result_unwrap_str"@, (seq![Type::Result(Box::new(Type::String))], Type::String)))
        .push(("result_unwrap_or_int"@, (seq![Type::Result(Box::new(Type::Integer)), Type::Integer], Type::Integer)))
        .push(("result_unwrap_or_bool"@, (seq![Type::Result(Box::new(Type::Boolean)), Type::Boolean], Type::Boolean)))
        .push(("result_unwrap_or_str"@, (seq![Type::Result(Box::new(Type::String)), Type::String], Type::String)))
        .push(("result_unwrap_err_int"@, (seq![Type::Result(Box::new(Type::Integer))], Type::String)))
        .push(("result_unwrap_err_bool"@, (seq![Type::Result(Box::new(Type::Boolean))], Type::String)))
        .push(("result_unwrap_err_str"@, (seq![Type::Result(Box::new(Type::String))], Type::String)))
}

/// Enters the built-ins for results holding an integer, boolean or string, or an error text.
pub fn register_result_builtins(env: &mut TypeEnv)
    ensures
        final(env).model() == (EnvModel { funcs: with_results_funcs(old(env).model().funcs), ..old(env).model() }),
{
    add_func(env, "result_ok_int", types1(Type::Integer), Type::Result(Box::new(Type::Integer)));
    add_func(env, "result_ok_bool", types1(Type::Boolean), Type::Result(Box::new(Type::Boolean)));
    add_func(env, "result_ok_str", types1(Type::String), Type::Result(Box::new(Type::String)));
    add_func(env, "result_err_int", types1(Type::String), Type::Result(Box::new(Type::Integer)));
    add_func(env, "result_err_bool", types1(Type::String), Type::Result(Box::new(Type::Boolean)));
    add_func(env, "result_err_str", types1(Type::String), Type::Result(Box::new(Type::String)));
    add_func(env, "result_is_ok_int", types1(Type::Result(Box::new(Type::Integer))), Type::Boolean);
    add_func(env, "result_is_ok_bool", types1(Type::Result(Box::new(Type::Boolean))), Type::Boolean);
    add_func(env, "result_is_ok_str", types1(Type::Result(Box::new(Type::String))), Type::Boolean);
    add_func(env, "result_unwrap_int", types1(Type::Result(Box::new(Type::Integer))), Type::Integer);
    add_func(env, "result_unwrap_bool", types1(Type::Result(Box::new(Type::Boolean))), Type::Boolean);
    add_func(env, "result_unwrap_str", types1(Type::Result(Box::new(Type::String))), Type::String);
    add_func(env, "result_unwrap_or_int", types2(Type::Result(Box::new(Type::Integer)), Type::Integer), Type::Integer);
    add_func(env, "result_unwrap_or_bool", types2(Type::Result(Box::new(Type::Boolean)), Type::Boolean), Type::Boolean);
    add_func(env, "result_unwrap_or_str", types2(Type::Result(Box::new(Type::String)), Type::String), Type::String);
    add_func(env, "result_unwrap_err_int", types1(Type::Result(Box::new(Type::Integer))), Type::String);
    add_func(env, "result_unwrap_err_bool", types1(Type::Result(Box::new(Type::Boolean))), Type::String);
    add_func(env, "result_unwrap_err_str", types1(Type::Result(Box::new(Type::String))), Type::String);
}

} // verus!
