use vstd::prelude::*;

use crate::ast::{CallStmt, Expr, Stmt, Type};
use crate::bytecode::Instr;
use crate::codegen::expr::builtins::emit_args;
use crate::codegen::expr::emit_expr;
use crate::codegen::{emitted, grows, Codegen, GenState};
use crate::error::{message3, CompileError};

use super::builtins::emit_builtin_call;
use super::{spec_emit_readln, spec_emit_stmt, spec_read_one};

verus! {

/// Appends the code of `writeln`: the value, then the print.
pub fn emit_writeln(cg: &mut Codegen, expr: &Expr) -> (r: Result<(), CompileError>)
    requires
        old(cg).wf(),
    ensures
        emitted(*old(cg), *final(cg), r, spec_emit_stmt(old(cg).state(), Stmt::Writeln(*expr))),
{
    match emit_expr(cg, expr) {
        Err(e) => return Err(e),
        Ok(_) => {},
    }
    cg.emit(Instr::PrintLn);
    Ok(())
}

/// Once reading `i` names fails, reading more fails the same way.
proof fn lemma_readln_err(st: GenState, names: Seq<Seq<char>>, i: nat, n: nat)
    requires
        0 < i <= n <= names.len(),
        spec_emit_readln(st, names, i) is Err,
    ensures
        spec_emit_readln(st, names, n) == spec_emit_readln(st, names, i),
    decreases n - i,
{
    if i < n {
        lemma_readln_err(st, names, i, (n - 1) as nat);
    }
}

/// Appends the reads of `readln`, one per name, by the declared type.
pub fn emit_readln(cg: &mut Codegen, names: &Vec<String>) -> (r: Result<(), CompileError>)
    requires
        old(cg).wf(),
    ensures
        emitted(*old(cg), *final(cg), r, spec_emit_stmt(old(cg).state(), Stmt::Readln(*names))),
{
    let ghost st0 = cg.state();
    let ghost ns = names@.map_values(|n: String| n@);
    let mut i: usize = 0;
    while i < names.len()
        invariant
            0 <= i <= names@.len(),
            st0 == old(cg).state(),
            ns == names@.map_values(|n: String| n@),
            spec_emit_readln(st0, ns, i as nat) == Ok::<GenState, Seq<char>>(cg.state()),
            grows(*old(cg), *cg),
        decreases names@.len() - i,
    {
        let name = names[i].as_str();
        let ghost before = cg.state();
        assert(ns[i as int] == name@);
        let idx = match cg.symbols.get(name) {
            Ok(idx) => idx,
            Err(e) => {
                proof {
                    lemma_readln_err(st0, ns, (i + 1) as nat, names@.len());
                }
                return Err(e);
            },
        };
        let instr = match cg.symbols.get_type(name) {
            None => {
                proof {
                    lemma_readln_err(st0, ns, (i + 1) as nat, names@.len());
                }
                return Err(CompileError::new_simple(message3("unknown variable '", name, "'")));
            },
            Some(Type::Integer) => Instr::ReadInt(idx),
            Some(Type::Boolean) => Instr::ReadBool(idx),
            Some(Type::String) => Instr::ReadStr(idx),
            Some(t) => {
                let msg = match t {
                    Type::Array { .. } => "readln does not support array types",
                    Type::Vector(_) => "readln does not support vector types",
                    Type::StackInt => "readln does not support stack types",
                    Type::MapStrStr => "readln does not support map types",
                    Type::SetStr => "readln does not support set types",
                    Type::Option(_) => "readln does not support option types",
                    _ => "readln does not support result types",
                };
                proof {
                    lemma_readln_err(st0, ns, (i + 1) as nat, names@.len());
                }
                return Err(CompileError::simple(msg));
            },
        };
        cg.emit(instr);
        assert(cg.state() == spec_read_one(before, name@)->Ok_0);
        i = i + 1;
    }
    Ok(())
}

/// Appends the code of a procedure call: a built-in compiles to its
/// operation, any other name to a call of the function of that name.
pub fn emit_call(cg: &mut Codegen, call: &CallStmt) -> (r: Result<(), CompileError>)
    requires
        old(cg).wf(),
    ensures
        emitted(*old(cg), *final(cg), r, spec_emit_stmt(old(cg).state(), Stmt::Call(*call))),
{
    match emit_builtin_call(cg, call.name.as_str(), &call.args) {
        Ok(true) => return Ok(()),
        Err(e) => return Err(e),
        Ok(false) => {},
    }
    match emit_args(cg, &call.args) {
        Err(e) => return Err(e),
        Ok(_) => {},
    }
    let idx = match cg.register_function(call.name.as_str(), call.args.len() as u32) {
        Ok(i) => i,
        Err(e) => return Err(e),
    };
    cg.emit(Instr::Call(idx));
    Ok(())
}

} // verus!
