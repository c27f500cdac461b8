pub mod assign;
pub mod block;
pub mod builtins;
pub mod call;
pub mod control;

use vstd::prelude::*;

use crate::ast::{Block, Decl, Param, Stmt, Type};
use crate::bytecode::instr::{plain_model, OpCode};
use crate::bytecode::Instr;
use crate::codegen::expr::builtins::spec_apply_rule;
use crate::codegen::expr::{emit_expr, spec_emit_args, spec_emit_expr};
use crate::codegen::symbols::{duplicate_message, slot_of, unknown_variable_message};
use crate::codegen::{emitted, grows, operand_model, spec_register, with_instr, Codegen, GenState, Outcome};
use crate::error::CompileError;

use self::builtins::stmt_builtin;

verus! {

/// The state with the jump at `pos` made to go to `target`; any other
/// instruction there is left as it is.
pub open spec fn patch(st: GenState, pos: int, target: u32) -> GenState {
    let m = st.code[pos];
    GenState {
        code: st.code.update(
            pos,
            if m.0 == OpCode::Jump {
                operand_model(OpCode::Jump, target)
            } else if m.0 == OpCode::JumpIfFalse {
                operand_model(OpCode::JumpIfFalse, target)
            } else {
                m
            },
        ),
        ..st
    }
}

/// The code that reads one variable from input: by its declared type, an
/// integer, a boolean or a string; other types are refused.
pub open spec fn spec_read_one(st: GenState, name: Seq<char>) -> Outcome {
    match slot_of(st.syms, name) {
        None => Err(unknown_variable_message(name)),
        Some(i) => match st.syms[i].1 {
            Type::Integer => Ok(with_instr(st, operand_model(OpCode::ReadInt, i as u32))),
            Type::Boolean => Ok(with_instr(st, operand_model(OpCode::ReadBool, i as u32))),
            Type::String => Ok(with_instr(st, operand_model(OpCode::ReadStr, i as u32))),
            Type::Array { .. } => Err("readln does not support array types"@),
            Type::Vector(_) => Err("readln does not support vector types"@),
            Type::StackInt => Err("readln does not support stack types"@),
            Type::MapStrStr => Err("readln does not support map types"@),
            Type::SetStr => Err("readln does not support set types"@),
            Type::Option(_) => Err("readln does not support option types"@),
            Type::Result(_) => Err("readln does not support result types"@),
        },
    }
}

/// The code that reads the first `k` names, in order.
pub open spec fn spec_emit_readln(st: GenState, names: Seq<Seq<char>>, k: nat) -> Outcome
    decreases k,
{
    if k == 0 || k > names.len() {
        Ok(st)
    } else {
        match spec_emit_readln(st, names, (k - 1) as nat) {
            Err(m) => Err(m),
            Ok(s1) => spec_read_one(s1, names[k - 1]),
        }
    }
}

/// Declares a local variable: a name already declared is refused; an array
/// is allocated and stored in its slot at once.
pub open spec fn spec_declare_var(st: GenState, name: Seq<char>, ty: Type) -> Outcome {
    match slot_of(st.syms, name) {
        Some(_) => Err(duplicate_message(name)),
        None => {
            let idx = st.syms.len() as u32;
            let s1 = GenState { syms: st.syms.push((name, ty)), ..st };
            match ty {
                Type::Array { len, .. } => Ok(
                    with_instr(
                        with_instr(s1, operand_model(OpCode::AllocArray, len as u32)),
                        operand_model(OpCode::Store, idx),
                    ),
                ),
                _ => Ok(s1),
            }
        },
    }
}

/// The locals of a function that has just the first `k` parameters; a
/// parameter name that occurs twice is refused.
pub open spec fn spec_declare_params(params: Seq<Param>, k: nat) -> Result<
    Seq<(Seq<char>, Type)>,
    Seq<char>,
>
    decreases k,
{
    if k == 0 || k > params.len() {
        Ok(Seq::empty())
    } else {
        match spec_declare_params(params, (k - 1) as nat) {
            Err(m) => Err(m),
            Ok(s) => if slot_of(s, params[k - 1].name@) is Some {
                Err(duplicate_message(params[k - 1].name@))
            } else {
                Ok(s.push((params[k - 1].name@, params[k - 1].ty)))
            },
        }
    }
}

/// The code of a statement appended to the generator's code. Jumps are
/// first emitted with target zero and then set to the position after the
/// code they skip.
pub open spec fn spec_emit_stmt(st: GenState, s: Stmt) -> Outcome
    decreases s, 0nat,
{
    match s {
        Stmt::Assign(a) => match slot_of(st.syms, a.name@) {
            None => Err(unknown_variable_message(a.name@)),
            Some(i) => match spec_emit_expr(st, a.expr) {
                Err(m) => Err(m),
                Ok(s1) => Ok(with_instr(s1, operand_model(OpCode::Store, i as u32))),
            },
        },
        Stmt::AssignIndex(a) => match slot_of(st.syms, a.name@) {
            None => Err(unknown_variable_message(a.name@)),
            Some(i) => match spec_emit_expr(
                with_instr(st, operand_model(OpCode::Load, i as u32)),
                a.index,
            ) {
                Err(m) => Err(m),
                Ok(s1) => match spec_emit_expr(s1, a.expr) {
                    Err(m) => Err(m),
                    Ok(s2) => Ok(
                        with_instr(
                            with_instr(s2, plain_model(OpCode::StoreIndex)),
                            operand_model(OpCode::Store, i as u32),
                        ),
                    ),
                },
            },
        },
        Stmt::Writeln(e) => match spec_emit_expr(st, e) {
            Err(m) => Err(m),
            Ok(s1) => Ok(with_instr(s1, plain_model(OpCode::PrintLn))),
        },
        Stmt::Readln(names) => spec_emit_readln(
            st,
            names@.map_values(|n: String| n@),
            names@.len(),
        ),
        Stmt::Call(c) => {
            let n = c.args@.len();
            match stmt_builtin(c.name@) {
                Some(rule) => spec_apply_rule(st, rule, c.args@),
                None => match spec_emit_args(st, c.args@, n) {
                    Err(m) => Err(m),
                    Ok(s1) => {
                        let (s2, idx) = spec_register(s1, c.name@, n as u32);
                        Ok(with_instr(s2, operand_model(OpCode::Call, idx)))
                    },
                },
            }
        },
        Stmt::Return(None) => Ok(with_instr(st, plain_model(OpCode::Ret))),
        Stmt::Return(Some(e)) => match spec_emit_expr(st, e) {
            Err(m) => Err(m),
            Ok(s1) => Ok(with_instr(s1, plain_model(OpCode::RetVal))),
        },
        Stmt::If(i) => match spec_emit_expr(st, i.cond) {
            Err(m) => Err(m),
            Ok(s1) => {
                let jf = s1.code.len() as int;
                match spec_emit_stmt(
                    with_instr(s1, operand_model(OpCode::JumpIfFalse, 0)),
                    *i.then_branch,
                ) {
                    Err(m) => Err(m),
                    Ok(s2) => match i.else_branch {
                        None => Ok(patch(s2, jf, s2.code.len() as u32)),
                        Some(e) => {
                            let je = s2.code.len() as int;
                            let s3 = with_instr(s2, operand_model(OpCode::Jump, 0));
                            match spec_emit_stmt(patch(s3, jf, s3.code.len() as u32), *e) {
                                Err(m) => Err(m),
                                Ok(s4) => Ok(patch(s4, je, s4.code.len() as u32)),
                            }
                        },
                    },
                }
            },
        },
        Stmt::While(w) => {
            let start = st.code.len() as u32;
            match spec_emit_expr(st, w.cond) {
                Err(m) => Err(m),
                Ok(s1) => {
                    let jf = s1.code.len() as int;
                    match spec_emit_stmt(
                        with_instr(s1, operand_model(OpCode::JumpIfFalse, 0)),
                        *w.body,
                    ) {
                        Err(m) => Err(m),
                        Ok(s2) => {
                            let s3 = with_instr(s2, operand_model(OpCode::Jump, start));
                            Ok(patch(s3, jf, s3.code.len() as u32))
                        },
                    }
                },
            }
        },
        Stmt::Compound(ss) => spec_emit_stmts(st, ss@, ss@.len()),
        Stmt::Empty => Ok(st),
    }
}

/// The code of the first `k` statements, in order.
pub open spec fn spec_emit_stmts(st: GenState, ss: Seq<Stmt>, k: nat) -> Outcome
    decreases ss, k,
{
    if k == 0 || k > ss.len() {
        Ok(st)
    } else {
        match spec_emit_stmts(st, ss, (k - 1) as nat) {
            Err(m) => Err(m),
            Ok(s1) => spec_emit_stmt(s1, ss[k - 1]),
        }
    }
}

/// The code of a block: its declarations in order (variables become locals,
/// procedures and functions are compiled into the function list), then its
/// statements.
pub open spec fn spec_emit_block(st: GenState, b: Block) -> Outcome
    decreases b, 0nat,
{
    match spec_emit_decls(st, b.declarations@, b.declarations@.len()) {
        Err(m) => Err(m),
        Ok(s1) => spec_emit_stmts(s1, b.statements@, b.statements@.len()),
    }
}

/// The first `k` declarations of a block, in order.
pub open spec fn spec_emit_decls(st: GenState, ds: Seq<Decl>, k: nat) -> Outcome
    decreases ds, k,
{
    if k == 0 || k > ds.len() {
        Ok(st)
    } else {
        match spec_emit_decls(st, ds, (k - 1) as nat) {
            Err(m) => Err(m),
            Ok(s1) => match ds[k - 1] {
                Decl::Var(v) => spec_declare_var(s1, v.name@, v.ty),
                Decl::Proc(p) => {
                    let (s2, idx) = spec_register(s1, p.name@, p.params@.len() as u32);
                    spec_emit_body(s2, idx, p.params@, p.block)
                },
                Decl::Func(f) => {
                    let (s2, idx) = spec_register(s1, f.name@, f.params@.len() as u32);
                    spec_emit_body(s2, idx, f.params@, f.block)
                },
            },
        }
    }
}

/// Compiles a procedure or function body into entry `idx` of the function
/// list: its parameters are its first locals, its code is the block's code
/// and a final return, and its local count is at least its parameter count.
/// The locals and code of the enclosing function are left as they were.
pub open spec fn spec_emit_body(st: GenState, idx: u32, params: Seq<Param>, b: Block) -> Outcome
    decreases b, 1nat,
{
    match spec_declare_params(params, params.len()) {
        Err(m) => Err(m),
        Ok(syms) => match spec_emit_block(
            GenState { syms: syms, code: Seq::empty(), funcs: st.funcs },
            b,
        ) {
            Err(m) => Err(m),
            Ok(s1) => {
                let count = if s1.syms.len() >= params.len() {
                    s1.syms.len()
                } else {
                    params.len()
                };
                Ok(
                    GenState {
                        syms: st.syms,
                        code: st.code,
                        funcs: s1.funcs.update(
                            idx as int,
                            (
                                s1.funcs[idx as int].0,
                                params.len() as u32,
                                count as u32,
                                s1.code.push(plain_model(OpCode::Ret)),
                            ),
                        ),
                    },
                )
            },
        },
    }
}

/// Once compiling `i` statements fails, compiling more fails the same way.
pub proof fn lemma_emit_stmts_err(st: GenState, ss: Seq<Stmt>, i: nat, n: nat)
    requires
        0 < i <= n <= ss.len(),
        spec_emit_stmts(st, ss, i) is Err,
    ensures
        spec_emit_stmts(st, ss, n) == spec_emit_stmts(st, ss, i),
    decreases n - i,
{
    if i < n {
        lemma_emit_stmts_err(st, ss, i, (n - 1) as nat);
    }
}

/// Appends the code of a block.
pub fn emit_block(cg: &mut Codegen, block: &Block) -> (r: Result<(), CompileError>)
    requires
        old(cg).wf(),
    ensures
        emitted(*old(cg), *final(cg), r, spec_emit_block(old(cg).state(), *block)),
    decreases block, 1nat,
{
    block::emit_block(cg, block)
}

/// Appends the code of a statement.
pub fn emit_stmt(cg: &mut Codegen, stmt: &Stmt) -> (r: Result<(), CompileError>)
    requires
        old(cg).wf(),
    ensures
        emitted(*old(cg), *final(cg), r, spec_emit_stmt(old(cg).state(), *stmt)),
    decreases stmt, 2nat,
{
    match stmt {
        Stmt::Assign(a) => assign::emit_assign(cg, a),
        Stmt::AssignIndex(a) => assign::emit_assign_index(cg, a),
        Stmt::Writeln(expr) => call::emit_writeln(cg, expr),
        Stmt::Readln(names) => call::emit_readln(cg, names),
        Stmt::Call(c) => call::emit_call(cg, c),
        Stmt::Return(expr) => {
            match expr {
                Some(e) => {
                    match emit_expr(cg, e) {
                        Err(err) => return Err(err),
                        Ok(_) => {},
                    }
                    cg.emit(Instr::RetVal);
                },
                None => cg.emit(Instr::Ret),
            }
            Ok(())
        },
        Stmt::If(s) => control::emit_if(cg, s),
        Stmt::While(s) => control::emit_while(cg, s),
        Stmt::Compound(stmts) => {
            let ghost st0 = cg.state();
            let mut i: usize = 0;
            while i < stmts.len()
                invariant
                    *stmt == Stmt::Compound(*stmts),
                    0 <= i <= stmts@.len(),
                    st0 == old(cg).state(),
                    spec_emit_stmts(st0, stmts@, i as nat) == Ok::<GenState, Seq<char>>(
                        cg.state(),
                    ),
                    grows(*old(cg), *cg),
                decreases stmts@.len() - i,
            {
                match emit_stmt(cg, &stmts[i]) {
                    Err(e) => {
                        proof {
                            lemma_emit_stmts_err(st0, stmts@, (i + 1) as nat, stmts@.len());
                        }
                        return Err(e);
                    },
                    Ok(_) => {},
                }
                i = i + 1;
            }
            Ok(())
        },
        Stmt::Empty => Ok(()),
    }
}

} // verus!
