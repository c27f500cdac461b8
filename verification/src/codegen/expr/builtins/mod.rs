pub mod collections;
pub mod io;
pub mod option_result;
pub mod runtime;
pub mod string;

use vstd::prelude::*;

use crate::ast::{CallExpr, Expr};
use crate::bytecode::instr::{plain_model, OpCode};
use crate::bytecode::Instr;
use crate::codegen::{emitted, handled, with_instr, Codegen, GenState, Outcome};
use crate::error::CompileError;

use super::{emit_expr, lemma_emit_args_err, spec_emit_args};
use self::collections::collections_rule;
use self::io::io_rule;
use self::option_result::option_result_rule;
use self::runtime::runtime_rule;
use self::string::string_rule;

verus! {

/// How many arguments a built-in takes: exactly `n`, or none or `n`.
#[derive(Debug, Clone, Copy)]
pub enum Arity {
    Exact(usize),
    ZeroOr(usize),
}

/// A built-in's arity, the operation it compiles to, and the message when it
/// is called with another number of arguments.
pub type Rule = (Arity, OpCode, Seq<char>);

/// Whether `len` arguments meet an arity.
pub open spec fn arity_ok(a: Arity, len: nat) -> bool {
    match a {
        Arity::Exact(n) => len == n,
        Arity::ZeroOr(n) => len == 0 || len == n,
    }
}

/// A built-in call compiles to its arguments, left to right, then its
/// operation; a wrong number of arguments is refused first.
pub open spec fn spec_apply_rule(st: GenState, rule: Rule, args: Seq<Expr>) -> Outcome {
    if !arity_ok(rule.0, args.len()) {
        Err(rule.2)
    } else {
        match spec_emit_args(st, args, args.len()) {
            Err(m) => Err(m),
            Ok(s1) => Ok(with_instr(s1, plain_model(rule.1))),
        }
    }
}

/// What compiling a call gives when the name has the rule `rule`: nothing
/// when it has none.
pub open spec fn rule_outcome(st: GenState, rule: Option<Rule>, args: Seq<Expr>) -> Option<Outcome> {
    match rule {
        None => None,
        Some(r) => Some(spec_apply_rule(st, r, args)),
    }
}

/// Every expression built-in, in the order the groups are tried.
pub open spec fn expr_builtin(name: Seq<char>) -> Option<Rule> {
    match io_rule(name) {
        Some(r) => Some(r),
        None => match string_rule(name) {
            Some(r) => Some(r),
            None => match collections_rule(name) {
                Some(r) => Some(r),
                None => match option_result_rule(name) {
                    Some(r) => Some(r),
                    None => runtime_rule(name),
                },
            },
        },
    }
}

/// Whether a built-in was found and refuses `n` arguments.
pub open spec fn arity_refused(rule: Option<Rule>, n: nat) -> bool {
    match rule {
        Some(r) => !arity_ok(r.0, n),
        None => false,
    }
}

/// A built-in call was compiled as `rule_outcome` says for `rule`, and a
/// call with a number of arguments the built-in refuses left the generator
/// as it was: the count is checked before any code is emitted.
pub open spec fn handled_rule(
    old: Codegen,
    new: Codegen,
    r: Result<bool, CompileError>,
    rule: Option<Rule>,
    args: Seq<Expr>,
) -> bool {
    &&& handled(old, new, r, rule_outcome(old.state(), rule, args))
    &&& arity_refused(rule, args.len()) ==> new == old
}

/// Compiles a built-in call with the given rule.
pub fn emit_rule(cg: &mut Codegen, args: &Vec<Expr>, arity: Arity, op: OpCode, message: &str) -> (r:
    Result<bool, CompileError>)
    requires
        old(cg).wf(),
        !op.spec_has_operand(),
    ensures
        handled(
            *old(cg),
            *final(cg),
            r,
            Some(spec_apply_rule(old(cg).state(), (arity, op, message@), args@)),
        ),
        !arity_ok(arity, args@.len()) ==> *final(cg) == *old(cg),
    decreases args, 1nat,
{
    let fits = match arity {
        Arity::Exact(n) => args.len() == n,
        Arity::ZeroOr(n) => args.len() == 0 || args.len() == n,
    };
    if !fits {
        return Err(CompileError::simple(message));
    }
    match emit_args(cg, args) {
        Err(e) => return Err(e),
        Ok(_) => {},
    }
    cg.emit(Instr::from_plain(op));
    Ok(true)
}

/// Compiles a call of an expression built-in; `Ok(false)` when the call
/// names none.
pub fn try_emit(cg: &mut Codegen, call: &CallExpr) -> (r: Result<bool, CompileError>)
    requires
        old(cg).wf(),
    ensures
        handled_rule(*old(cg), *final(cg), r, expr_builtin(call.name@), call.args@),
    decreases call, 2nat,
{
    match io::try_emit(cg, call) {
        Ok(false) => {},
        other => return other,
    }
    match string::try_emit(cg, call) {
        Ok(false) => {},
        other => return other,
    }
    match collections::try_emit(cg, call) {
        Ok(false) => {},
        other => return other,
    }
    match option_result::try_emit(cg, call) {
        Ok(false) => {},
        other => return other,
    }
    runtime::try_emit(cg, call)
}

/// Compiles arguments, left to right.
pub fn emit_args(cg: &mut Codegen, args: &Vec<Expr>) -> (r: Result<(), CompileError>)
    requires
        old(cg).wf(),
    ensures
        emitted(*old(cg), *final(cg), r, spec_emit_args(old(cg).state(), args@, args@.len())),
    decreases args, 0nat,
{
    let ghost st0 = cg.state();
    let mut i: usize = 0;
    while i < args.len()
        invariant
            0 <= i <= args@.len(),
            st0 == old(cg).state(),
            spec_emit_args(st0, args@, i as nat) == Ok::<GenState, Seq<char>>(cg.state()),
            cg.wf(),
            crate::codegen::grows(*old(cg), *cg),
        decreases args@.len() - i,
    {
        match emit_expr(cg, &args[i]) {
            Err(e) => {
                proof {
                    lemma_emit_args_err(st0, args@, (i + 1) as nat, args@.len());
                }
                return Err(e);
            },
            Ok(_) => {},
        }
        i = i + 1;
    }
    Ok(())
}

} // verus!
