pub mod assembler;
pub mod collections;
pub mod base;
pub mod options;
pub mod results;

use vstd::prelude::*;

use crate::ast::Type;
use crate::typecheck::env::{EnvModel, FuncSig, ProcSig, TypeEnv};

use self::assembler::{register_assembler, with_assembler_procs};
use self::collections::{register_collections, with_collections_funcs};
use self::base::{register_core, with_core_funcs, with_core_procs};
use self::options::{register_option_builtins, with_options_funcs};
use self::results::{register_result_builtins, with_results_funcs};

verus! {

/// A list of no types.
pub fn types0() -> (v: Vec<Type>)
    ensures
        v@ == Seq::<Type>::empty(),
{
    let v: Vec<Type> = Vec::new();
    assert(v@ =~= Seq::<Type>::empty());
    v
}

/// A list of one type.
pub fn types1(a: Type) -> (v: Vec<Type>)
    ensures
        v@ == seq![a],
{
    let mut v: Vec<Type> = Vec::new();
    v.push(a);
    assert(v@ =~= seq![a]);
    v
}

/// A list of two types.
pub fn types2(a: Type, b: Type) -> (v: Vec<Type>)
    ensures
        v@ == seq![a, b],
{
    let mut v: Vec<Type> = Vec::new();
    v.push(a);
    v.push(b);
    assert(v@ =~= seq![a, b]);
    v
}

/// A list of three types.
pub fn types3(a: Type, b: Type, c: Type) -> (v: Vec<Type>)
    ensures
        v@ == seq![a, b, c],
{
    let mut v: Vec<Type> = Vec::new();
    v.push(a);
    v.push(b);
    v.push(c);
    assert(v@ =~= seq![a, b, c]);
    v
}

/// Enters a function signature.
pub fn add_func(env: &mut TypeEnv, name: &str, params: Vec<Type>, ret: Type)
    ensures
        final(env).model() == (EnvModel {
            funcs: old(env).model().funcs.push((name@, (params@, ret))),
            ..old(env).model()
        }),
{
    let ghost prev = env.model().funcs;
    env.funcs.push((name.to_string(), FuncSig { params, ret }));
    assert(env.model().funcs =~= prev.push((name@, (params@, ret))));
}

/// Enters a procedure signature.
pub fn add_proc(env: &mut TypeEnv, name: &str, params: Vec<Type>)
    ensures
        final(env).model() == (EnvModel {
            procs: old(env).model().procs.push((name@, params@)),
            ..old(env).model()
        }),
{
    let ghost prev = env.model().procs;
    env.procs.push((name.to_string(), ProcSig { params }));
    assert(env.model().procs =~= prev.push((name@, params@)));
}

/// The function signatures of all built-ins, entered after `s` in order.
pub open spec fn with_builtin_funcs(s: Seq<(Seq<char>, (Seq<Type>, Type))>) -> Seq<
    (Seq<char>, (Seq<Type>, Type)),
> {
    with_results_funcs(with_options_funcs(with_collections_funcs(with_core_funcs(s))))
}

/// The procedure signatures of all built-ins, entered after `s` in order.
pub open spec fn with_builtin_procs(s: Seq<(Seq<char>, Seq<Type>)>) -> Seq<(Seq<char>, Seq<Type>)> {
    with_assembler_procs(with_core_procs(s))
}

/// Enters every built-in function and procedure.
pub fn register_builtins(env: &mut TypeEnv)
    ensures
        final(env).model() == (EnvModel {
            funcs: with_builtin_funcs(old(env).model().funcs),
            procs: with_builtin_procs(old(env).model().procs),
            ..old(env).model()
        }),
{
    register_core(env);
    register_collections(env);
    register_assembler(env);
    register_option_builtins(env);
    register_result_builtins(env);
}

} // verus!
