use vstd::prelude::*;

use crate::ast::Type;
use crate::typecheck::env::{EnvModel, TypeEnv};

use super::{add_func, types0, types1, types2, types3};

verus! {

/// The function signatures for optional integers, booleans and strings, entered after `s` in order.
pub open spec fn with_options_funcs(s: Seq<(Seq<char>, (Seq<Type>, Type))>) -> Seq<(Seq<char>, (Seq<Type>, Type))> {
    s
        .push(("option_some_int"@, (seq![Type::Integer], Type::Option(Box::new(Type::Integer)))))
        .push(("option_some_bool"@, (seq![Type::Boolean], Type::Option(Box::new(Type::Boolean)))))
        .push(("option_some_str"@, (seq![Type::String], Type::Option(Box::new(Type::String)))))
        .push(("option_none_int"@, (Seq::<Type>::empty(), Type::Option(Box::new(Type::Integer)))))
        .push(("option_none_bool"@, (Seq::<Type>::empty(), Type::Option(Box::new(Type::Boolean)))))
        .push(("option_none_str"@, (Seq::<Type>::empty(), Type::Option(Box::new(Type::String)))))
        .push(("option_is_some_int"@, (seq![Type::Option(Box::new(Type::Integer))], Type::Boolean)))
        .push(("option_is_some_bool"@, (seq![Type::Option(Box::new(Type::Boolean))], Type::Boolean)))
        .push(("option_is_some_str"@, (seq![Type::Option(Box::new(Type::String))], Type::Boolean)))
        .push(("option_unwrap_int"@, (seq![Type::Option(Box::new(Type::Integer))], Type::Integer)))
        .push(("option_unwrap_bool"@, (seq![Type::Option(Box::new(Type::Boolean))], Type::Boolean)))
        .push(("option_unwrap_str"@, (seq![Type::Option(Box::new(Type::String))], Type::String)))
        .push(("option_unwrap_or_int"@, (seq![Type::Option(Box::new(Type::Integer)), Type::Integer], Type::Integer)))
        .push(("option_unwrap_or_bool"@, (seq![Type::Option(Box::new(Type::Boolean)), Type::Boolean], Type::Boolean)))
        .push(("option_unwrap_or_str"@, (seq![Type::Option(Box::new(Type::String)), Type::String], Type::String)))
}

/// Enters the built-ins for optional integers, booleans and strings.
pub fn register_option_builtins(env: &mut TypeEnv)
    ensures
        final(env).model() == (EnvModel { funcs: with_options_funcs(old(env).model().funcs), ..old(env).model() }),
{
    add_func(env, "option_some_int", types1(Type::Integer), Type::Option(Box::new(Type::Integer)));
    add_func(env, "option_some_bool", types1(Type::Boolean), Type::Option(Box::new(Type::Boolean)));
    add_func(env, "option_some_str", types1(Type::String), Type::Option(Box::new(Type::String)));
    add_func(env, "option_none_int", types0(), Type::Option(Box::new(Type::Integer)));
    add_func(env, "option_none_bool", types0(), Type::Option(Box::new(Type::Boolean)));
    add_func(env, "option_none_str", types0(), Type::Option(Box::new(Type::String)));
    add_func(env, "option_is_some_int", types1(Type::Option(Box::new(Type::Integer))), Type::Boolean);
    add_func(env, "option_is_some_bool", types1(Type::Option(Box::new(Type::Boolean))), Type::Boolean);
    add_func(env, "option_is_some_str", types1(Type::Option(Box::new(Type::String))), Type::Boolean);
    add_func(env, "option_unwrap_int", types1(Type::Option(Box::new(Type::Integer))), Type::Integer);
    add_func(env, "option_unwrap_bool", types1(Type::Option(Box::new(Type::Boolean))), Type::Boolean);
    add_func(env, "option_unwrap_str", types1(Type::Option(Box::new(Type::String))), Type::String);
    add_func(env, "option_unwrap_or_int", types2(Type::Option(Box::new(Type::Integer)), Type::Integer), Type::Integer);
    add_func(env, "option_unwrap_or_bool", types2(Type::Option(Box::new(Type::Boolean)), Type::Boolean), Type::Boolean);
    add_func(env, "option_unwrap_or_str", types2(Type::Option(Box::new(Type::String)), Type::String), Type::String);
}

} // verus!
