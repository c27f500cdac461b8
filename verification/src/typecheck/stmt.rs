use vstd::prelude::*;

use crate::ast::{Assign, AssignIndex, CallStmt, Expr, Stmt, Type};
use crate::error::{agrees, message3, CompileError};
use crate::text::push_str;

use super::env::{lookup, EnvModel, TypeEnv};
use super::expr::{infer, lemma_check_args_err, spec_check_args, spec_check_expr, unknown_message};
use super::types::{
    expect_bool, expect_int, expect_printable, push_type_text, spec_expect_bool, spec_expect_int,
    spec_expect_printable, type_text,
};

verus! {

/// Checks the first `k` names of a `readln`: each must be a variable in scope
/// of a printable type.
pub open spec fn spec_check_readln(env: EnvModel, names: Seq<String>, k: nat) -> Result<
    (),
    Seq<char>,
>
    decreases k,
{
    if k == 0 || k > names.len() {
        Ok(())
    } else {
        match spec_check_readln(env, names, (k - 1) as nat) {
            Err(m) => Err(m),
            Ok(_) => match lookup(env.vars, names[k - 1]@) {
                None => Err(unknown_message("unknown variable '"@, names[k - 1]@)),
                Some(t) => spec_expect_printable(t, "readln"@),
            },
        }
    }
}

/// Checks a statement in an environment: `Ok` when it is well typed, else the
/// message of its first type error.
pub open spec fn spec_check_stmt(env: EnvModel, s: Stmt) -> Result<(), Seq<char>>
    decreases s, 0nat,
{
    match s {
        Stmt::Assign(a) => match lookup(env.vars, a.name@) {
            None => Err(unknown_message("unknown variable '"@, a.name@)),
            Some(vt) => match spec_check_expr(env, a.expr) {
                Err(m) => Err(m),
                Ok(et) => if vt != et {
                    Err(
                        "type mismatch: '"@ + a.name@ + "' is "@ + type_text(vt)
                            + " but assigned "@ + type_text(et),
                    )
                } else {
                    Ok(())
                },
            },
        },
        Stmt::AssignIndex(a) => match lookup(env.vars, a.name@) {
            None => Err(unknown_message("unknown variable '"@, a.name@)),
            Some(vt) => match spec_check_expr(env, a.index) {
                Err(m) => Err(m),
                Ok(it) => match spec_expect_int(it, "array index"@) {
                    Err(m) => Err(m),
                    Ok(_) => match spec_check_expr(env, a.expr) {
                        Err(m) => Err(m),
                        Ok(et) => match vt {
                            Type::Array { elem, .. } => if *elem != et {
                                Err("type mismatch in array assignment"@)
                            } else {
                                Ok(())
                            },
                            _ => Err("not an array"@),
                        },
                    },
                },
            },
        },
        Stmt::Writeln(e) => match spec_check_expr(env, e) {
            Err(m) => Err(m),
            Ok(t) => spec_expect_printable(t, "writeln"@),
        },
        Stmt::Readln(names) => spec_check_readln(env, names@, names@.len()),
        Stmt::Call(c) => match lookup(env.procs, c.name@) {
            None => Err(unknown_message("unknown procedure '"@, c.name@)),
            Some(params) => if params.len() != c.args@.len() {
                Err("procedure argument count mismatch"@)
            } else {
                spec_check_args(
                    env,
                    c.args@,
                    params,
                    "procedure argument type mismatch"@,
                    c.args@.len(),
                )
            },
        },
        Stmt::Return(e) => match (env.ret, e) {
            (None, None) => Ok(()),
            (None, Some(_)) => Err("return with value is not allowed in procedure"@),
            (Some(_), None) => Err("return without value is not allowed in function"@),
            (Some(expected), Some(e)) => match spec_check_expr(env, e) {
                Err(m) => Err(m),
                Ok(t) => if t != expected {
                    Err("return type does not match function type"@)
                } else {
                    Ok(())
                },
            },
        },
        Stmt::If(s) => match spec_check_expr(env, s.cond) {
            Err(m) => Err(m),
            Ok(c) => match spec_expect_bool(c, "if condition"@) {
                Err(m) => Err(m),
                Ok(_) => match spec_check_stmt(env, *s.then_branch) {
                    Err(m) => Err(m),
                    Ok(_) => match s.else_branch {
                        Some(b) => spec_check_stmt(env, *b),
                        None => Ok(()),
                    },
                },
            },
        },
        Stmt::While(s) => match spec_check_expr(env, s.cond) {
            Err(m) => Err(m),
            Ok(c) => match spec_expect_bool(c, "while condition"@) {
                Err(m) => Err(m),
                Ok(_) => spec_check_stmt(env, *s.body),
            },
        },
        Stmt::Compound(stmts) => spec_check_stmts(env, stmts@, stmts@.len()),
        Stmt::Empty => Ok(()),
    }
}

/// Checks the first `k` statements of a list, in order.
pub open spec fn spec_check_stmts(env: EnvModel, ss: Seq<Stmt>, k: nat) -> Result<(), Seq<char>>
    decreases ss, k,
{
    if k == 0 || k > ss.len() {
        Ok(())
    } else {
        match spec_check_stmts(env, ss, (k - 1) as nat) {
            Err(m) => Err(m),
            Ok(_) => spec_check_stmt(env, ss[k - 1]),
        }
    }
}

/// Once checking `i` statements fails, checking more fails the same way.
pub proof fn lemma_check_stmts_err(env: EnvModel, ss: Seq<Stmt>, i: nat, n: nat)
    requires
        0 < i <= n <= ss.len(),
        spec_check_stmts(env, ss, i) is Err,
    ensures
        spec_check_stmts(env, ss, n) == spec_check_stmts(env, ss, i),
    decreases n - i,
{
    if i < n {
        lemma_check_stmts_err(env, ss, i, (n - 1) as nat);
    }
}

/// Once checking `i` names of a `readln` fails, checking more fails the same
/// way.
proof fn lemma_check_readln_err(env: EnvModel, names: Seq<String>, i: nat, n: nat)
    requires
        0 < i <= n <= names.len(),
        spec_check_readln(env, names, i) is Err,
    ensures
        spec_check_readln(env, names, n) == spec_check_readln(env, names, i),
    decreases n - i,
{
    if i < n {
        lemma_check_readln_err(env, names, i, (n - 1) as nat);
    }
}

fn unknown_variable(name: &str) -> (e: CompileError)
    ensures
        e.message@ == unknown_message("unknown variable '"@, name@),
        e.span.is_none(),
{
    CompileError::new_simple(message3("unknown variable '", name, "'"))
}

fn check_assign(env: &TypeEnv, a: &Assign) -> (r: Result<(), CompileError>)
    ensures
        agrees(r, spec_check_stmt(env.model(), Stmt::Assign(*a))),
{
    let var_ty = match env.var_type(a.name.as_str()) {
        Some(t) => t,
        None => {
            return Err(unknown_variable(a.name.as_str()));
        },
    };
    let expr_ty = infer(env, &a.expr)?;
    if !var_ty.same(&expr_ty) {
        let mut m = "type mismatch: '".to_string();
        push_str(&mut m, a.name.as_str());
        push_str(&mut m, "' is ");
        push_type_text(&mut m, &var_ty);
        push_str(&mut m, " but assigned ");
        push_type_text(&mut m, &expr_ty);
        return Err(CompileError::new_simple(m));
    }
    Ok(())
}

fn check_assign_index(env: &TypeEnv, a: &AssignIndex) -> (r: Result<(), CompileError>)
    ensures
        agrees(r, spec_check_stmt(env.model(), Stmt::AssignIndex(*a))),
{
    let var_ty = match env.var_type(a.name.as_str()) {
        Some(t) => t,
        None => {
            return Err(unknown_variable(a.name.as_str()));
        },
    };
    let idx_ty = infer(env, &a.index)?;
    expect_int(&idx_ty, "array index")?;
    let expr_ty = infer(env, &a.expr)?;
    match var_ty {
        Type::Array { elem, .. } => {
            if !elem.same(&expr_ty) {
                return Err(CompileError::simple("type mismatch in array assignment"));
            }
            Ok(())
        },
        _ => Err(CompileError::simple("not an array")),
    }
}

fn check_readln(env: &TypeEnv, names: &Vec<String>) -> (r: Result<(), CompileError>)
    ensures
        agrees(r, spec_check_readln(env.model(), names@, names@.len())),
{
    let mut i: usize = 0;
    while i < names.len()
        invariant
            0 <= i <= names@.len(),
            spec_check_readln(env.model(), names@, i as nat) == Ok::<(), Seq<char>>(()),
        decreases names@.len() - i,
    {
        let name = names[i].as_str();
        let r = match env.var_type(name) {
            None => Err(unknown_variable(name)),
            Some(t) => expect_printable(&t, "readln"),
        };
        if r.is_err() {
            proof {
                lemma_check_readln_err(env.model(), names@, (i + 1) as nat, names@.len());
            }
            return r;
        }
        i = i + 1;
    }
    Ok(())
}

fn check_call(env: &TypeEnv, c: &CallStmt) -> (r: Result<(), CompileError>)
    ensures
        agrees(r, spec_check_stmt(env.model(), Stmt::Call(*c))),
{
    let ghost m = env.model();
    let idx = match env.proc_index(c.name.as_str()) {
        Some(idx) => idx,
        None => {
            return Err(CompileError::new_simple(message3("unknown procedure '", &c.name, "'")));
        },
    };
    let params = &env.procs[idx].1.params;
    if params.len() != c.args.len() {
        return Err(CompileError::simple("procedure argument count mismatch"));
    }
    let mut i: usize = 0;
    while i < c.args.len()
        invariant
            params@.len() == c.args@.len(),
            lookup(m.procs, c.name@) == Some(params@),
            0 <= i <= c.args@.len(),
            spec_check_args(m, c.args@, params@, "procedure argument type mismatch"@, i as nat)
                == Ok::<(), Seq<char>>(()),
            m == env.model(),
        decreases c.args@.len() - i,
    {
        let t = match infer(env, &c.args[i]) {
            Ok(t) => t,
            Err(e) => {
                proof {
                    lemma_check_args_err(
                        m,
                        c.args@,
                        params@,
                        "procedure argument type mismatch"@,
                        (i + 1) as nat,
                        c.args@.len(),
                    );
                }
                return Err(e);
            },
        };
        if !t.same(&params[i]) {
            proof {
                lemma_check_args_err(
                    m,
                    c.args@,
                    params@,
                    "procedure argument type mismatch"@,
                    (i + 1) as nat,
                    c.args@.len(),
                );
            }
            return Err(CompileError::simple("procedure argument type mismatch"));
        }
        i = i + 1;
    }
    Ok(())
}

fn check_return(env: &TypeEnv, e: &Option<Expr>) -> (r: Result<(), CompileError>)
    ensures
        agrees(r, spec_check_stmt(env.model(), Stmt::Return(*e))),
{
    match (&env.current_return, e) {
        (None, None) => Ok(()),
        (None, Some(_)) => Err(CompileError::simple("return with value is not allowed in procedure")),
        (Some(_), None) => Err(
            CompileError::simple("return without value is not allowed in function"),
        ),
        (Some(expected), Some(e)) => {
            let ty = infer(env, e)?;
            if !ty.same(expected) {
                return Err(CompileError::simple("return type does not match function type"));
            }
            Ok(())
        },
    }
}

/// Checks a statement: `Ok` when it is well typed, else its first type error.
pub fn check_stmt_in(env: &TypeEnv, stmt: &Stmt) -> (r: Result<(), CompileError>)
    ensures
        agrees(r, spec_check_stmt(env.model(), *stmt)),
    decreases stmt,
{
    match stmt {
        Stmt::Assign(a) => check_assign(env, a),
        Stmt::AssignIndex(a) => check_assign_index(env, a),
        Stmt::Writeln(expr) => {
            let ty = infer(env, expr)?;
            expect_printable(&ty, "writeln")
        },
        Stmt::Readln(names) => check_readln(env, names),
        Stmt::Call(c) => check_call(env, c),
        Stmt::Return(e) => check_return(env, e),
        Stmt::If(s) => {
            let cond = infer(env, &s.cond)?;
            expect_bool(&cond, "if condition")?;
            check_stmt_in(env, &s.then_branch)?;
            match &s.else_branch {
                Some(b) => check_stmt_in(env, b),
                None => Ok(()),
            }
        },
        Stmt::While(s) => {
            let cond = infer(env, &s.cond)?;
            expect_bool(&cond, "while condition")?;
            check_stmt_in(env, &s.body)
        },
        Stmt::Compound(stmts) => {
            let mut i: usize = 0;
            while i < stmts.len()
                invariant
                    *stmt == Stmt::Compound(*stmts),
                    0 <= i <= stmts@.len(),
                    spec_check_stmts(env.model(), stmts@, i as nat) == Ok::<(), Seq<char>>(()),
                decreases stmts@.len() - i,
            {
                let r = check_stmt_in(env, &stmts[i]);
                if r.is_err() {
                    proof {
                        lemma_check_stmts_err(env.model(), stmts@, (i + 1) as nat, stmts@.len());
                    }
                    return r;
                }
                i = i + 1;
            }
            Ok(())
        },
        Stmt::Empty => Ok(()),
    }
}

/// Checks a statement: `Ok` when it is well typed, else its first type error.
/// The environment is left as it was.
pub fn check_stmt(env: &mut TypeEnv, stmt: &Stmt) -> (r: Result<(), CompileError>)
    ensures
        *final(env) == *old(env),
        agrees(r, spec_check_stmt(old(env).model(), *stmt)),
{
    check_stmt_in(&*env, stmt)
}

} // verus!
