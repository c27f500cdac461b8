use vstd::prelude::*;

use crate::ast::{BinaryOp, CallExpr, Expr, Type, UnaryOp};
use crate::error::{agrees, message3, CompileError};
use crate::text::{push_str, str_eq};

use super::env::{lookup, EnvModel, TypeEnv};
use super::types::{
    expect_bool, expect_int, is_printable, spec_expect_bool, spec_expect_int,
};

verus! {

/// The message for a name that is not in scope: `lead` says what it should
/// have named, then the name follows in quotes.
pub open spec fn unknown_message(lead: Seq<char>, name: Seq<char>) -> Seq<char> {
    lead + name + "'"@
}

/// The number of arguments of a vector built-in, or zero for any other name.
pub open spec fn vector_arity(name: Seq<char>) -> nat {
    if name == "vector_len"@ {
        1
    } else if name == "vector_get"@ {
        2
    } else if name == "vector_set"@ {
        3
    } else if name == "vector_push"@ {
        2
    } else if name == "vector_remove"@ {
        2
    } else if name == "vector_last"@ {
        1
    } else if name == "vector_pop"@ {
        1
    } else if name == "vector_clear"@ {
        1
    } else {
        0
    }
}

/// The message of a built-in called with the wrong number of arguments.
pub open spec fn arity_message(name: Seq<char>, n: nat) -> Seq<char> {
    name + if n == 1 {
        " expects 1 argument"@
    } else if n == 2 {
        " expects 2 arguments"@
    } else {
        " expects 3 arguments"@
    }
}

/// The type of a vector built-in call, given the types of its arguments.
pub open spec fn spec_vector_result(name: Seq<char>, ts: Seq<Type>) -> Result<Type, Seq<char>> {
    let not_vector = name + " expects vector"@;
    if name == "vector_len"@ {
        if ts[0] is Vector {
            Ok(Type::Integer)
        } else {
            Err(not_vector)
        }
    } else if name == "vector_get"@ {
        match spec_expect_int(ts[1], name + " index"@) {
            Err(e) => Err(e),
            Ok(_) => match ts[0] {
                Type::Vector(inner) => Ok(*inner),
                _ => Err(not_vector),
            },
        }
    } else if name == "vector_set"@ {
        match spec_expect_int(ts[1], name + " index"@) {
            Err(e) => Err(e),
            Ok(_) => match ts[0] {
                Type::Vector(inner) => if *inner != ts[2] {
                    Err(name + " value type mismatch"@)
                } else {
                    Ok(Type::Vector(inner))
                },
                _ => Err(not_vector),
            },
        }
    } else if name == "vector_push"@ {
        match ts[0] {
            Type::Vector(inner) => if *inner != ts[1] {
                Err(name + " value type mismatch"@)
            } else {
                Ok(Type::Vector(inner))
            },
            _ => Err(not_vector),
        }
    } else if name == "vector_remove"@ {
        match spec_expect_int(ts[1], name + " index"@) {
            Err(e) => Err(e),
            Ok(_) => match ts[0] {
                Type::Vector(inner) => Ok(Type::Vector(inner)),
                _ => Err(not_vector),
            },
        }
    } else if name == "vector_last"@ {
        match ts[0] {
            Type::Vector(inner) => Ok(*inner),
            _ => Err(not_vector),
        }
    } else {
        match ts[0] {
            Type::Vector(inner) => Ok(Type::Vector(inner)),
            _ => Err(not_vector),
        }
    }
}

/// The type of a binary operation, given the types of its operands.
pub open spec fn spec_binary_result(op: BinaryOp, lt: Type, rt: Type) -> Result<Type, Seq<char>> {
    match op {
        BinaryOp::Add | BinaryOp::Sub | BinaryOp::Mul | BinaryOp::Div => {
            match spec_expect_int(lt, "binary arithmetic"@) {
                Err(e) => Err(e),
                Ok(_) => match spec_expect_int(rt, "binary arithmetic"@) {
                    Err(e) => Err(e),
                    Ok(_) => Ok(Type::Integer),
                },
            }
        },
        BinaryOp::Eq | BinaryOp::Ne => {
            if lt != rt {
                Err("type error in comparison: operands must have same type"@)
            } else if !is_printable(lt) {
                Err("type error in comparison: unsupported type"@)
            } else {
                Ok(Type::Boolean)
            }
        },
        BinaryOp::Lt | BinaryOp::Le | BinaryOp::Gt | BinaryOp::Ge => {
            match spec_expect_int(lt, "comparison"@) {
                Err(e) => Err(e),
                Ok(_) => match spec_expect_int(rt, "comparison"@) {
                    Err(e) => Err(e),
                    Ok(_) => Ok(Type::Boolean),
                },
            }
        },
        BinaryOp::And | BinaryOp::Or => {
            match spec_expect_bool(lt, "boolean operator"@) {
                Err(e) => Err(e),
                Ok(_) => match spec_expect_bool(rt, "boolean operator"@) {
                    Err(e) => Err(e),
                    Ok(_) => Ok(Type::Boolean),
                },
            }
        },
    }
}

/// The type of an expression in an environment, or the message of the first
/// type error in it, in evaluation order.
pub open spec fn spec_check_expr(env: EnvModel, e: Expr) -> Result<Type, Seq<char>>
    decreases e, 0nat,
{
    match e {
        Expr::Int(_) => Ok(Type::Integer),
        Expr::Bool(_) => Ok(Type::Boolean),
        Expr::Str(_) => Ok(Type::String),
        Expr::Var(name) => match lookup(env.vars, name@) {
            Some(t) => Ok(t),
            None => Err(unknown_message("unknown variable '"@, name@)),
        },
        Expr::Index { name, index } => match lookup(env.vars, name@) {
            None => Err(unknown_message("unknown variable '"@, name@)),
            Some(vt) => match spec_check_expr(env, *index) {
                Err(m) => Err(m),
                Ok(it) => match spec_expect_int(it, "array index"@) {
                    Err(m) => Err(m),
                    Ok(_) => match vt {
                        Type::Array { elem, .. } => Ok(*elem),
                        _ => Err("not an array"@),
                    },
                },
            },
        },
        Expr::Call(c) => {
            let n = vector_arity(c.name@);
            if n > 0 {
                if c.args@.len() != n {
                    Err(arity_message(c.name@, n))
                } else {
                    match spec_check_list(env, c.args@, n) {
                        Err(m) => Err(m),
                        Ok(ts) => spec_vector_result(c.name@, ts),
                    }
                }
            } else {
                match lookup(env.funcs, c.name@) {
                    None => Err(unknown_message("unknown function '"@, c.name@)),
                    Some(sig) => if sig.0.len() != c.args@.len() {
                        Err("function argument count mismatch"@)
                    } else {
                        match spec_check_args(
                            env,
                            c.args@,
                            sig.0,
                            "function argument type mismatch"@,
                            c.args@.len(),
                        ) {
                            Err(m) => Err(m),
                            Ok(_) => Ok(sig.1),
                        }
                    },
                }
            }
        },
        Expr::Unary { op, expr } => match spec_check_expr(env, *expr) {
            Err(m) => Err(m),
            Ok(t) => match op {
                UnaryOp::Neg => match spec_expect_int(t, "unary '-'"@) {
                    Err(m) => Err(m),
                    Ok(_) => Ok(Type::Integer),
                },
                UnaryOp::Not => match spec_expect_bool(t, "unary 'not'"@) {
                    Err(m) => Err(m),
                    Ok(_) => Ok(Type::Boolean),
                },
            },
        },
        Expr::Binary { op, left, right } => match spec_check_expr(env, *left) {
            Err(m) => Err(m),
            Ok(lt) => match spec_check_expr(env, *right) {
                Err(m) => Err(m),
                Ok(rt) => spec_binary_result(op, lt, rt),
            },
        },
    }
}

/// The types of the first `k` expressions, or the first error among them.
pub open spec fn spec_check_list(env: EnvModel, args: Seq<Expr>, k: nat) -> Result<
    Seq<Type>,
    Seq<char>,
>
    decreases args, k,
{
    if k == 0 || k > args.len() {
        Ok(Seq::empty())
    } else {
        match spec_check_list(env, args, (k - 1) as nat) {
            Err(m) => Err(m),
            Ok(ts) => match spec_check_expr(env, args[k - 1]) {
                Err(m) => Err(m),
                Ok(t) => Ok(ts.push(t)),
            },
        }
    }
}

/// Checks the first `k` arguments of a call against the parameter types, one
/// argument after the other: the first argument that fails to check, or
/// whose type differs from its parameter's (then with the message
/// `mismatch`), ends the check.
pub open spec fn spec_check_args(
    env: EnvModel,
    args: Seq<Expr>,
    params: Seq<Type>,
    mismatch: Seq<char>,
    k: nat,
) -> Result<(), Seq<char>>
    decreases args, k,
{
    if k == 0 || k > args.len() {
        Ok(())
    } else {
        match spec_check_args(env, args, params, mismatch, (k - 1) as nat) {
            Err(m) => Err(m),
            Ok(_) => match spec_check_expr(env, args[k - 1]) {
                Err(m) => Err(m),
                Ok(t) => if t != params[k - 1] {
                    Err(mismatch)
                } else {
                    Ok(())
                },
            },
        }
    }
}

/// Once checking `i` expressions of a list fails, checking more fails the
/// same way.
pub proof fn lemma_check_list_err(env: EnvModel, args: Seq<Expr>, i: nat, n: nat)
    requires
        0 < i <= n <= args.len(),
        spec_check_list(env, args, i) is Err,
    ensures
        spec_check_list(env, args, n) == spec_check_list(env, args, i),
    decreases n - i,
{
    if i < n {
        lemma_check_list_err(env, args, i, (n - 1) as nat);
    }
}

/// Once checking `i` arguments fails, checking more fails the same way.
pub proof fn lemma_check_args_err(
    env: EnvModel,
    args: Seq<Expr>,
    params: Seq<Type>,
    mismatch: Seq<char>,
    i: nat,
    n: nat,
)
    requires
        0 < i <= n <= args.len(),
        spec_check_args(env, args, params, mismatch, i) is Err,
    ensures
        spec_check_args(env, args, params, mismatch, n) == spec_check_args(
            env,
            args,
            params,
            mismatch,
            i,
        ),
    decreases n - i,
{
    if i < n {
        lemma_check_args_err(env, args, params, mismatch, i, (n - 1) as nat);
    }
}

/// The number of arguments of a vector built-in, or zero for any other name.
pub fn vector_arity_of(name: &str) -> (n: usize)
    ensures
        n == vector_arity(name@),
{
    if str_eq(name, "vector_len") {
        1
    } else if str_eq(name, "vector_get") {
        2
    } else if str_eq(name, "vector_set") {
        3
    } else if str_eq(name, "vector_push") {
        2
    } else if str_eq(name, "vector_remove") {
        2
    } else if str_eq(name, "vector_last") {
        1
    } else if str_eq(name, "vector_pop") {
        1
    } else if str_eq(name, "vector_clear") {
        1
    } else {
        0
    }
}

/// A message made of a name and a text that follows it.
pub fn name_message(name: &str, rest: &str) -> (m: String)
    ensures
        m@ == name@ + rest@,
{
    let mut m = name.to_string();
    push_str(&mut m, rest);
    m
}

/// The message of a built-in called with the wrong number of arguments.
pub fn arity_error(name: &str, n: usize) -> (e: CompileError)
    requires
        1 <= n <= 3,
    ensures
        e.message@ == arity_message(name@, n as nat),
        e.span.is_none(),
{
    if n == 1 {
        CompileError::new_simple(name_message(name, " expects 1 argument"))
    } else if n == 2 {
        CompileError::new_simple(name_message(name, " expects 2 arguments"))
    } else {
        CompileError::new_simple(name_message(name, " expects 3 arguments"))
    }
}

/// The type of a vector built-in call, given the types of its arguments.
fn vector_result(name: &str, ts: &Vec<Type>) -> (r: Result<Type, CompileError>)
    requires
        vector_arity(name@) > 0,
        ts@.len() == vector_arity(name@),
    ensures
        agrees(r, spec_vector_result(name@, ts@)),
{
    let not_vector = name_message(name, " expects vector");
    if str_eq(name, "vector_len") {
        match &ts[0] {
            Type::Vector(_) => Ok(Type::Integer),
            _ => Err(CompileError::new_simple(not_vector)),
        }
    } else if str_eq(name, "vector_get") {
        expect_int(&ts[1], name_message(name, " index").as_str())?;
        match &ts[0] {
            Type::Vector(inner) => Ok(inner.duplicate()),
            _ => Err(CompileError::new_simple(not_vector)),
        }
    } else if str_eq(name, "vector_set") {
        expect_int(&ts[1], name_message(name, " index").as_str())?;
        match &ts[0] {
            Type::Vector(inner) => {
                if !inner.same(&ts[2]) {
                    Err(CompileError::new_simple(name_message(name, " value type mismatch")))
                } else {
                    Ok(Type::Vector(Box::new(inner.duplicate())))
                }
            },
            _ => Err(CompileError::new_simple(not_vector)),
        }
    } else if str_eq(name, "vector_push") {
        match &ts[0] {
            Type::Vector(inner) => {
                if !inner.same(&ts[1]) {
                    Err(CompileError::new_simple(name_message(name, " value type mismatch")))
                } else {
                    Ok(Type::Vector(Box::new(inner.duplicate())))
                }
            },
            _ => Err(CompileError::new_simple(not_vector)),
        }
    } else if str_eq(name, "vector_remove") {
        expect_int(&ts[1], name_message(name, " index").as_str())?;
        match &ts[0] {
            Type::Vector(inner) => Ok(Type::Vector(Box::new(inner.duplicate()))),
            _ => Err(CompileError::new_simple(not_vector)),
        }
    } else if str_eq(name, "vector_last") {
        match &ts[0] {
            Type::Vector(inner) => Ok(inner.duplicate()),
            _ => Err(CompileError::new_simple(not_vector)),
        }
    } else {
        match &ts[0] {
            Type::Vector(inner) => Ok(Type::Vector(Box::new(inner.duplicate()))),
            _ => Err(CompileError::new_simple(not_vector)),
        }
    }
}

/// The type of a binary operation, given the types of its operands.
fn binary_result(op: BinaryOp, lt: &Type, rt: &Type) -> (r: Result<Type, CompileError>)
    ensures
        agrees(r, spec_binary_result(op, *lt, *rt)),
{
    match op {
        BinaryOp::Add | BinaryOp::Sub | BinaryOp::Mul | BinaryOp::Div => {
            expect_int(lt, "binary arithmetic")?;
            expect_int(rt, "binary arithmetic")?;
            Ok(Type::Integer)
        },
        BinaryOp::Eq | BinaryOp::Ne => {
            if !lt.same(rt) {
                return Err(
                    CompileError::simple("type error in comparison: operands must have same type"),
                );
            }
            match lt {
                Type::Integer | Type::Boolean | Type::String => Ok(Type::Boolean),
                _ => Err(CompileError::simple("type error in comparison: unsupported type")),
            }
        },
        BinaryOp::Lt | BinaryOp::Le | BinaryOp::Gt | BinaryOp::Ge => {
            expect_int(lt, "comparison")?;
            expect_int(rt, "comparison")?;
            Ok(Type::Boolean)
        },
        BinaryOp::And | BinaryOp::Or => {
            expect_bool(lt, "boolean operator")?;
            expect_bool(rt, "boolean operator")?;
            Ok(Type::Boolean)
        },
    }
}

/// The type of an expression in an environment, or the first type error in
/// it.
pub fn infer(env: &TypeEnv, expr: &Expr) -> (r: Result<Type, CompileError>)
    ensures
        agrees(r, spec_check_expr(env.model(), *expr)),
    decreases expr,
{
    match expr {
        Expr::Int(_) => Ok(Type::Integer),
        Expr::Bool(_) => Ok(Type::Boolean),
        Expr::Str(_) => Ok(Type::String),
        Expr::Var(name) => match env.var_type(name.as_str()) {
            Some(t) => Ok(t),
            None => Err(CompileError::new_simple(message3("unknown variable '", name, "'"))),
        },
        Expr::Index { name, index } => {
            let var_ty = match env.var_type(name.as_str()) {
                Some(t) => t,
                None => {
                    return Err(
                        CompileError::new_simple(message3("unknown variable '", name, "'")),
                    );
                },
            };
            let idx_ty = infer(env, index)?;
            expect_int(&idx_ty, "array index")?;
            match var_ty {
                Type::Array { elem, .. } => Ok(*elem),
                _ => Err(CompileError::simple("not an array")),
            }
        },
        Expr::Call(c) => infer_call(env, c),
        Expr::Unary { op, expr: inner } => {
            let ty = infer(env, inner)?;
            match op {
                UnaryOp::Neg => {
                    expect_int(&ty, "unary '-'")?;
                    Ok(Type::Integer)
                },
                UnaryOp::Not => {
                    expect_bool(&ty, "unary 'not'")?;
                    Ok(Type::Boolean)
                },
            }
        },
        Expr::Binary { op, left, right } => {
            let lt = infer(env, left)?;
            let rt = infer(env, right)?;
            binary_result(*op, &lt, &rt)
        },
    }
}

/// The type of a call expression: a vector built-in, or a function in scope.
fn infer_call(env: &TypeEnv, c: &CallExpr) -> (r: Result<Type, CompileError>)
    ensures
        agrees(r, spec_check_expr(env.model(), Expr::Call(*c))),
    decreases c,
{
    let ghost m = env.model();
    let name = c.name.as_str();
    let n = vector_arity_of(name);
    if n > 0 {
        if c.args.len() != n {
            return Err(arity_error(name, n));
        }
        let mut ts: Vec<Type> = Vec::new();
        let mut i: usize = 0;
        while i < n
            invariant
                n == c.args@.len(),
                n == vector_arity(c.name@),
                name@ == c.name@,
                0 <= i <= n,
                ts@.len() == i,
                spec_check_list(m, c.args@, i as nat) == Ok::<Seq<Type>, Seq<char>>(ts@),
                m == env.model(),
            decreases n - i,
        {
            let t = match infer(env, &c.args[i]) {
                Ok(t) => t,
                Err(e) => {
                    proof {
                        lemma_check_list_err(m, c.args@, (i + 1) as nat, n as nat);
                    }
                    return Err(e);
                },
            };
            ts.push(t);
            i = i + 1;
        }
        return vector_result(name, &ts);
    }
    let idx = match env.func_index(name) {
        Some(idx) => idx,
        None => {
            return Err(CompileError::new_simple(message3("unknown function '", name, "'")));
        },
    };
    let sig = &env.funcs[idx].1;
    if sig.params.len() != c.args.len() {
        return Err(CompileError::simple("function argument count mismatch"));
    }
    let mut i: usize = 0;
    while i < c.args.len()
        invariant
            sig.params@.len() == c.args@.len(),
            vector_arity(c.name@) == 0,
            lookup(m.funcs, c.name@) == Some((sig.params@, sig.ret)),
            0 <= i <= c.args@.len(),
            spec_check_args(
                m,
                c.args@,
                sig.params@,
                "function argument type mismatch"@,
                i as nat,
            ) == Ok::<(), Seq<char>>(()),
            m == env.model(),
        decreases c.args@.len() - i,
    {
        let t = match infer(env, &c.args[i]) {
            Ok(t) => t,
            Err(e) => {
                proof {
                    lemma_check_args_err(
                        m,
                        c.args@,
                        sig.params@,
                        "function argument type mismatch"@,
                        (i + 1) as nat,
                        c.args@.len(),
                    );
                }
                return Err(e);
            },
        };
        if !t.same(&sig.params[i]) {
            proof {
                lemma_check_args_err(
                    m,
                    c.args@,
                    sig.params@,
                    "function argument type mismatch"@,
                    (i + 1) as nat,
                    c.args@.len(),
                );
            }
            return Err(CompileError::simple("function argument type mismatch"));
        }
        i = i + 1;
    }
    Ok(sig.ret.duplicate())
}

/// The type of an expression, or the first type error in it. The
/// environment is left as it was.
pub fn check_expr(env: &mut TypeEnv, expr: &Expr) -> (r: Result<Type, CompileError>)
    ensures
        *final(env) == *old(env),
        agrees(r, spec_check_expr(old(env).model(), *expr)),
{
    infer(&*env, expr)
}

/// Whether an operator combines truth values: `and`, `or`.
pub open spec fn is_logical(op: BinaryOp) -> bool {
    op is And || op is Or
}

/// Whether an operator computes a number: `+`, `-`, `*`, `div`.
pub open spec fn is_arithmetic(op: BinaryOp) -> bool {
    op is Add || op is Sub || op is Mul || op is Div
}

/// Whether an operator orders numbers: `<`, `<=`, `>`, `>=`.
pub open spec fn is_ordering(op: BinaryOp) -> bool {
    op is Lt || op is Le || op is Gt || op is Ge
}

/// The expression `left op right`.
pub open spec fn binary_expr(op: BinaryOp, left: Expr, right: Expr) -> Expr {
    Expr::Binary { op, left: Box::new(left), right: Box::new(right) }
}

/// The typing rules of the binary operators, for operands that type-check:
/// `and` and `or` take two booleans and give a boolean, and refuse anything
/// else with the boolean-operator error; `+ - * div` take two integers and
/// give an integer; `< <= > >=` take two integers and give a boolean; `=`
/// and `<>` take two operands of one printable type and give a boolean.
pub proof fn lemma_binary_typing(
    env: EnvModel,
    op: BinaryOp,
    left: Expr,
    right: Expr,
    lt: Type,
    rt: Type,
)
    requires
        spec_check_expr(env, left) == Ok::<Type, Seq<char>>(lt),
        spec_check_expr(env, right) == Ok::<Type, Seq<char>>(rt),
    ensures
        is_logical(op) ==> spec_check_expr(env, binary_expr(op, left, right)) == if lt is Boolean
            && rt is Boolean {
            Ok::<Type, Seq<char>>(Type::Boolean)
        } else {
            Err::<Type, Seq<char>>("type error in boolean operator: expected boolean"@)
        },
        is_arithmetic(op) ==> spec_check_expr(env, binary_expr(op, left, right)) == if lt is Integer
            && rt is Integer {
            Ok::<Type, Seq<char>>(Type::Integer)
        } else {
            Err::<Type, Seq<char>>("type error in binary arithmetic: expected integer"@)
        },
        is_ordering(op) ==> spec_check_expr(env, binary_expr(op, left, right)) == if lt is Integer
            && rt is Integer {
            Ok::<Type, Seq<char>>(Type::Boolean)
        } else {
            Err::<Type, Seq<char>>("type error in comparison: expected integer"@)
        },
        (op is Eq || op is Ne) && lt == rt && (lt is Integer || lt is Boolean || lt is String)
            ==> spec_check_expr(env, binary_expr(op, left, right)) == Ok::<Type, Seq<char>>(
            Type::Boolean,
        ),
        (op is Eq || op is Ne) && lt != rt ==> spec_check_expr(env, binary_expr(op, left, right))
            == Err::<Type, Seq<char>>("type error in comparison: operands must have same type"@),
{
    reveal_strlit("type error in ");
    reveal_strlit("boolean operator");
    reveal_strlit("binary arithmetic");
    reveal_strlit("comparison");
    reveal_strlit(": expected boolean");
    reveal_strlit(": expected integer");
    reveal_strlit("type error in boolean operator: expected boolean");
    reveal_strlit("type error in binary arithmetic: expected integer");
    reveal_strlit("type error in comparison: expected integer");
    assert("type error in "@ + "boolean operator"@ + ": expected boolean"@
        =~= "type error in boolean operator: expected boolean"@);
    assert("type error in "@ + "binary arithmetic"@ + ": expected integer"@
        =~= "type error in binary arithmetic: expected integer"@);
    assert("type error in "@ + "comparison"@ + ": expected integer"@
        =~= "type error in comparison: expected integer"@);
    let e = binary_expr(op, left, right);
    assert(spec_check_expr(env, e) == spec_binary_result(op, lt, rt));
}

} // verus!
