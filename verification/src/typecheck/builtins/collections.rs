use vstd::prelude::*;

use crate::ast::Type;
use crate::typecheck::env::{EnvModel, TypeEnv};

use super::{add_func, types0, types1, types2, types3};

verus! {

/// The function signatures for vectors, the integer stack, string maps and string sets, entered after `s` in order.
pub open spec fn with_collections_funcs(s: Seq<(Seq<char>, (Seq<Type>, Type))>) -> Seq<(Seq<char>, (Seq<Type>, Type))> {
    s
        .push(("vector_new_int"@, (Seq::<Type>::empty(), Type::Vector(Box::new(Type::Integer)))))
        .push(("vector_new"@, (Seq::<Type>::empty(), Type::Vector(Box::new(Type::Integer)))))
        .push(("vector_new_bool"@, (Seq::<Type>::empty(), Type::Vector(Box::new(Type::Boolean)))))
        .push(("vector_new_str"@, (Seq::<Type>::empty(), Type::Vector(Box::new(Type::String)))))
        .push(("stack_new"@, (Seq::<Type>::empty(), Type::StackInt)))
        .push(("stack_len"@, (seq![Type::StackInt], Type::Integer)))
        .push(("stack_push"@, (seq![Type::StackInt, Type::Integer], Type::StackInt)))
        .push(("stack_top"@, (seq![Type::StackInt], Type::Integer)))
        .push(("stack_pop"@, (seq![Type::StackInt], Type::StackInt)))
        .push(("stack_clear"@, (seq![Type::StackInt], Type::StackInt)))
        .push(("map_new"@, (Seq::<Type>::empty(), Type::MapStrStr)))
        .push(("map_len"@, (seq![Type::MapStrStr], Type::Integer)))
        .push(("map_set"@, (seq![Type::MapStrStr, Type::String, Type::String], Type::MapStrStr)))
        .push(("map_get"@, (seq![Type::MapStrStr, Type::String], Type::String)))
        .push(("map_has"@, (seq![Type::MapStrStr, Type::String], Type::Boolean)))
        .push(("map_remove"@, (seq![Type::MapStrStr, Type::String], Type::MapStrStr)))
        .push(("map_clear"@, (seq![Type::MapStrStr], Type::MapStrStr)))
        .push(("set_new"@, (Seq::<Type>::empty(), Type::SetStr)))
        .push(("set_len"@, (seq![Type::SetStr], Type::Integer)))
        .push(("set_add"@, (seq![Type::SetStr, Type::String], Type::SetStr)))
        .push(("set_has"@, (seq![Type::SetStr, Type::String], Type::Boolean)))
        .push(("set_remove"@, (seq![Type::SetStr, Type::String], Type::SetStr)))
        .push(("set_clear"@, (seq![Type::SetStr], Type::SetStr)))
}

/// Enters the built-ins for vectors, the integer stack, string maps and string sets.
pub fn register_collections(env: &mut TypeEnv)
    ensures
        final(env).model() == (EnvModel { funcs: with_collections_funcs(old(env).model().funcs), ..old(env).model() }),
{
    add_func(env, "vector_new_int", types0(), Type::Vector(Box::new(Type::Integer)));
    add_func(env, "vector_new", types0(), Type::Vector(Box::new(Type::Integer)));
    add_func(env, "vector_new_bool", types0(), Type::Vector(Box::new(Type::Boolean)));
    add_func(env, "vector_new_str", types0(), Type::Vector(Box::new(Type::String)));
    add_func(env, "stack_new", types0(), Type::StackInt);
    add_func(env, "stack_len", types1(Type::StackInt), Type::Integer);
    add_func(env, "stack_push", types2(Type::StackInt, Type::Integer), Type::StackInt);
    add_func(env, "stack_top", types1(Type::StackInt), Type::Integer);
    add_func(env, "stack_pop", types1(Type::StackInt), Type::StackInt);
    add_func(env, "stack_clear", types1(Type::StackInt), Type::StackInt);
    add_func(env, "map_new", types0(), Type::MapStrStr);
    add_func(env, "map_len", types1(Type::MapStrStr), Type::Integer);
    add_func(env, "map_set", types3(Type::MapStrStr, Type::String, Type::String), Type::MapStrStr);
    add_func(env, "map_get", types2(Type::MapStrStr, Type::String), Type::String);
    add_func(env, "map_has", types2(Type::MapStrStr, Type::String), Type::Boolean);
    add_func(env, "map_remove", types2(Type::MapStrStr, Type::String), Type::MapStrStr);
    add_func(env, "map_clear", types1(Type::MapStrStr), Type::MapStrStr);
    add_func(env, "set_new", types0(), Type::SetStr);
    add_func(env, "set_len", types1(Type::SetStr), Type::Integer);
    add_func(env, "set_add", types2(Type::SetStr, Type::String), Type::SetStr);
    add_func(env, "set_has", types2(Type::SetStr, Type::String), Type::Boolean);
    add_func(env, "set_remove", types2(Type::SetStr, Type::String), Type::SetStr);
    add_func(env, "set_clear", types1(Type::SetStr), Type::SetStr);
}

} // verus!
