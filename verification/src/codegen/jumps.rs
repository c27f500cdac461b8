//! Every jump that code generation emits lands inside its function, and
//! every call names a function of the program.

use vstd::prelude::*;

use crate::ast::{Block, Decl, Expr, Param, Stmt};
use crate::bytecode::instr::{plain_model, FunctionModel, InstrModel, OpCode};
use crate::codegen::expr::builtins::{expr_builtin, spec_apply_rule, Rule};
use crate::codegen::expr::{spec_emit_args, spec_emit_expr};
use crate::codegen::stmt::builtins::stmt_builtin;
use crate::codegen::stmt::{
    patch, spec_declare_params, spec_declare_var, spec_emit_block, spec_emit_body, spec_emit_decls,
    spec_emit_readln, spec_emit_stmt, spec_emit_stmts, spec_read_one,
};
use crate::codegen::{
    func_slot, lemma_func_slot_bounds, operand_model, spec_emit_program, spec_register, with_instr,
    GenState,
};

verus! {

/// Whether an instruction is a jump, conditional or not.
pub open spec fn is_jump(m: InstrModel) -> bool {
    m.0 == OpCode::Jump || m.0 == OpCode::JumpIfFalse
}

/// Whether every jump in `code` goes to a place no later than `bound`.
pub open spec fn targets_within(code: Seq<InstrModel>, bound: int) -> bool {
    forall|i: int| 0 <= i < code.len() && is_jump(#[trigger] code[i]) ==> code[i].4 <= bound
}

/// Whether every call in `code` names one of the first `n` functions.
pub open spec fn calls_within(code: Seq<InstrModel>, n: int) -> bool {
    forall|i: int| 0 <= i < code.len() && (#[trigger] code[i]).0 == OpCode::Call ==> (code[i].4 as int) < n
}

/// Whether the jumps of the code being generated go no further than its
/// end, those of every function already generated land inside it, and
/// every call names a function of the list.
pub open spec fn sound(st: GenState) -> bool {
    &&& targets_within(st.code, st.code.len() as int)
    &&& calls_within(st.code, st.funcs.len() as int)
    &&& forall|k: int|
        0 <= k < st.funcs.len() ==> targets_within(#[trigger] st.funcs[k].3, st.funcs[k].3.len() - 1)
            && calls_within(st.funcs[k].3, st.funcs.len() as int)
}

/// A step of generation kept the state sound and did not shrink the code or
/// the function list.
pub open spec fn grew(st: GenState, s2: GenState) -> bool {
    &&& sound(s2)
    &&& s2.code.len() >= st.code.len()
    &&& s2.funcs.len() >= st.funcs.len()
}

/// Appending an instruction keeps the state sound, when a jump it may be
/// goes no further than the end of the code and a call it may be names a
/// function of the list.
proof fn lemma_with_instr(st: GenState, m: InstrModel)
    requires
        sound(st),
        is_jump(m) ==> m.4 <= st.code.len(),
        m.0 == OpCode::Call ==> (m.4 as int) < st.funcs.len(),
    ensures
        grew(st, with_instr(st, m)),
{
    let s2 = with_instr(st, m);
    assert forall|i: int| 0 <= i < s2.code.len() && is_jump(#[trigger] s2.code[i]) implies s2.code[i].4
        <= s2.code.len() by {
        if i < st.code.len() {
            assert(s2.code[i] == st.code[i]);
        }
    }
    assert forall|i: int| 0 <= i < s2.code.len() && (#[trigger] s2.code[i]).0 == OpCode::Call implies (
    s2.code[i].4 as int) < s2.funcs.len() by {
        if i < st.code.len() {
            assert(s2.code[i] == st.code[i]);
        }
    }
}

/// Entering a function name keeps the state sound and the code as it is,
/// and gives an index in the function list.
proof fn lemma_register(st: GenState, name: Seq<char>, n: u32)
    requires
        sound(st),
    ensures
        grew(st, spec_register(st, name, n).0),
        spec_register(st, name, n).0.code == st.code,
        (spec_register(st, name, n).1 as int) < spec_register(st, name, n).0.funcs.len(),
{
    lemma_func_slot_bounds(st.funcs, name);
    let s2 = spec_register(st, name, n).0;
    if func_slot(st.funcs, name) is None {
        assert forall|k: int| 0 <= k < s2.funcs.len() implies targets_within(
            #[trigger] s2.funcs[k].3,
            s2.funcs[k].3.len() - 1,
        ) && calls_within(s2.funcs[k].3, s2.funcs.len() as int) by {
            if k < st.funcs.len() {
                assert(s2.funcs[k] == st.funcs[k]);
            }
        }
    }
}

/// Setting the target of the jump at `pos` to a place no further than the
/// end of the code keeps the state sound.
proof fn lemma_patch(st: GenState, pos: int, target: u32)
    requires
        sound(st),
        0 <= pos < st.code.len(),
        target <= st.code.len(),
    ensures
        grew(st, patch(st, pos, target)),
        patch(st, pos, target).code.len() == st.code.len(),
{
    let s2 = patch(st, pos, target);
    assert forall|i: int| 0 <= i < s2.code.len() && is_jump(#[trigger] s2.code[i]) implies s2.code[i].4
        <= s2.code.len() by {
        if i != pos {
            assert(s2.code[i] == st.code[i]);
        }
    }
    assert forall|i: int| 0 <= i < s2.code.len() && (#[trigger] s2.code[i]).0 == OpCode::Call implies (
    s2.code[i].4 as int) < s2.funcs.len() by {
        if i != pos {
            assert(s2.code[i] == st.code[i]);
        }
    }
}

/// Generating an expression keeps the state sound.
proof fn lemma_emit_expr(st: GenState, e: Expr)
    requires
        sound(st),
    ensures
        spec_emit_expr(st, e) matches Ok(s2) ==> grew(st, s2),
    decreases e, 0nat,
{
    match e {
        Expr::Int(v) => lemma_with_instr(st, (OpCode::ConstInt, v, false, Seq::<char>::empty(), 0u32)),
        Expr::Bool(b) => lemma_with_instr(
            st,
            (OpCode::ConstBool, 0i64, b, Seq::<char>::empty(), 0u32),
        ),
        Expr::Str(s) => lemma_with_instr(st, (OpCode::ConstStr, 0i64, false, s@, 0u32)),
        Expr::Var(name) => {
            if let Some(i) = crate::codegen::symbols::slot_of(st.syms, name@) {
                lemma_with_instr(st, operand_model(OpCode::Load, i as u32));
            }
        },
        Expr::Index { name, index } => {
            if let Some(i) = crate::codegen::symbols::slot_of(st.syms, name@) {
                let s0 = with_instr(st, operand_model(OpCode::Load, i as u32));
                lemma_with_instr(st, operand_model(OpCode::Load, i as u32));
                lemma_emit_expr(s0, *index);
                if let Ok(s1) = spec_emit_expr(s0, *index) {
                    lemma_with_instr(s1, plain_model(OpCode::LoadIndex));
                }
            }
        },
        Expr::Call(c) => {
            let n = c.args@.len();
            lemma_emit_args(st, c.args@, n);
            if let Ok(s1) = spec_emit_args(st, c.args@, n) {
                match expr_builtin(c.name@) {
                    Some(rule) => lemma_with_instr(s1, plain_model(rule.1)),
                    None => {
                        lemma_register(s1, c.name@, n as u32);
                        let (s2, idx) = spec_register(s1, c.name@, n as u32);
                        lemma_with_instr(s2, operand_model(OpCode::Call, idx));
                    },
                }
            }
        },
        Expr::Unary { op, expr } => {
            lemma_emit_expr(st, *expr);
            if let Ok(s1) = spec_emit_expr(st, *expr) {
                lemma_with_instr(s1, plain_model(crate::codegen::expr::unary_opcode(op)));
            }
        },
        Expr::Binary { op, left, right } => {
            lemma_emit_expr(st, *left);
            if let Ok(s1) = spec_emit_expr(st, *left) {
                lemma_emit_expr(s1, *right);
                if let Ok(s2) = spec_emit_expr(s1, *right) {
                    let strings = crate::codegen::expr::compare::is_string_operand(s2.syms, *left)
                        && crate::codegen::expr::compare::is_string_operand(s2.syms, *right);
                    lemma_with_instr(
                        s2,
                        plain_model(crate::codegen::expr::binary_opcode(op, strings)),
                    );
                }
            }
        },
    }
}

/// Generating arguments keeps the state sound.
proof fn lemma_emit_args(st: GenState, args: Seq<Expr>, k: nat)
    requires
        sound(st),
    ensures
        spec_emit_args(st, args, k) matches Ok(s2) ==> grew(st, s2),
    decreases args, k,
{
    if 0 < k <= args.len() {
        lemma_emit_args(st, args, (k - 1) as nat);
        if let Ok(s1) = spec_emit_args(st, args, (k - 1) as nat) {
            lemma_emit_expr(s1, args[k - 1]);
        }
    }
}

/// A built-in call whose operation is no call keeps the state sound.
proof fn lemma_apply_rule(st: GenState, rule: Rule, args: Seq<Expr>)
    requires
        sound(st),
        rule.1 != OpCode::Call,
    ensures
        spec_apply_rule(st, rule, args) matches Ok(s2) ==> grew(st, s2),
{
    lemma_emit_args(st, args, args.len());
    if let Ok(s1) = spec_emit_args(st, args, args.len()) {
        lemma_with_instr(s1, plain_model(rule.1));
    }
}

/// Reading variables keeps the state sound.
proof fn lemma_emit_readln(st: GenState, names: Seq<Seq<char>>, k: nat)
    requires
        sound(st),
    ensures
        spec_emit_readln(st, names, k) matches Ok(s2) ==> grew(st, s2),
    decreases k,
{
    if 0 < k <= names.len() {
        lemma_emit_readln(st, names, (k - 1) as nat);
        if let Ok(s1) = spec_emit_readln(st, names, (k - 1) as nat) {
            if let Some(i) = crate::codegen::symbols::slot_of(s1.syms, names[k - 1]) {
                lemma_with_instr(s1, operand_model(OpCode::ReadInt, i as u32));
                lemma_with_instr(s1, operand_model(OpCode::ReadBool, i as u32));
                lemma_with_instr(s1, operand_model(OpCode::ReadStr, i as u32));
            }
            assert(spec_read_one(s1, names[k - 1]) matches Ok(s2) ==> grew(s1, s2));
        }
    }
}

/// Declaring a variable keeps the state sound.
proof fn lemma_declare_var(st: GenState, name: Seq<char>, ty: crate::ast::Type)
    requires
        sound(st),
    ensures
        spec_declare_var(st, name, ty) matches Ok(s2) ==> grew(st, s2),
{
    let s1 = GenState { syms: st.syms.push((name, ty)), ..st };
    assert(sound(s1));
    if let crate::ast::Type::Array { len, .. } = ty {
        let a = operand_model(OpCode::AllocArray, len as u32);
        lemma_with_instr(s1, a);
        lemma_with_instr(with_instr(s1, a), operand_model(OpCode::Store, st.syms.len() as u32));
    }
}

/// Generating a statement keeps the state sound.
proof fn lemma_emit_stmt(st: GenState, s: Stmt)
    requires
        sound(st),
    ensures
        spec_emit_stmt(st, s) matches Ok(s2) ==> grew(st, s2),
    decreases s, 0nat,
{
    match s {
        Stmt::Assign(a) => {
            if let Some(i) = crate::codegen::symbols::slot_of(st.syms, a.name@) {
                lemma_emit_expr(st, a.expr);
                if let Ok(s1) = spec_emit_expr(st, a.expr) {
                    lemma_with_instr(s1, operand_model(OpCode::Store, i as u32));
                }
            }
        },
        Stmt::AssignIndex(a) => {
            if let Some(i) = crate::codegen::symbols::slot_of(st.syms, a.name@) {
                let s0 = with_instr(st, operand_model(OpCode::Load, i as u32));
                lemma_with_instr(st, operand_model(OpCode::Load, i as u32));
                lemma_emit_expr(s0, a.index);
                if let Ok(s1) = spec_emit_expr(s0, a.index) {
                    lemma_emit_expr(s1, a.expr);
                    if let Ok(s2) = spec_emit_expr(s1, a.expr) {
                        let s3 = with_instr(s2, plain_model(OpCode::StoreIndex));
                        lemma_with_instr(s2, plain_model(OpCode::StoreIndex));
                        lemma_with_instr(s3, operand_model(OpCode::Store, i as u32));
                    }
                }
            }
        },
        Stmt::Writeln(e) => {
            lemma_emit_expr(st, e);
            if let Ok(s1) = spec_emit_expr(st, e) {
                lemma_with_instr(s1, plain_model(OpCode::PrintLn));
            }
        },
        Stmt::Readln(names) => {
            lemma_emit_readln(st, names@.map_values(|n: String| n@), names@.len());
        },
        Stmt::Call(c) => {
            let n = c.args@.len();
            match stmt_builtin(c.name@) {
                Some(rule) => lemma_apply_rule(st, rule, c.args@),
                None => {
                    lemma_emit_args(st, c.args@, n);
                    if let Ok(s1) = spec_emit_args(st, c.args@, n) {
                        lemma_register(s1, c.name@, n as u32);
                        let (s2, idx) = spec_register(s1, c.name@, n as u32);
                        lemma_with_instr(s2, operand_model(OpCode::Call, idx));
                    }
                },
            }
        },
        Stmt::Return(None) => lemma_with_instr(st, plain_model(OpCode::Ret)),
        Stmt::Return(Some(e)) => {
            lemma_emit_expr(st, e);
            if let Ok(s1) = spec_emit_expr(st, e) {
                lemma_with_instr(s1, plain_model(OpCode::RetVal));
            }
        },
        Stmt::If(i) => {
            lemma_emit_expr(st, i.cond);
            if let Ok(s1) = spec_emit_expr(st, i.cond) {
                let jf = s1.code.len() as int;
                let t = with_instr(s1, operand_model(OpCode::JumpIfFalse, 0));
                lemma_with_instr(s1, operand_model(OpCode::JumpIfFalse, 0));
                lemma_emit_stmt(t, *i.then_branch);
                if let Ok(s2) = spec_emit_stmt(t, *i.then_branch) {
                    lemma_patch(s2, jf, s2.code.len() as u32);
                    if let Some(e) = i.else_branch {
                        let je = s2.code.len() as int;
                        let s3 = with_instr(s2, operand_model(OpCode::Jump, 0));
                        lemma_with_instr(s2, operand_model(OpCode::Jump, 0));
                        let s3p = patch(s3, jf, s3.code.len() as u32);
                        lemma_patch(s3, jf, s3.code.len() as u32);
                        lemma_emit_stmt(s3p, *e);
                        if let Ok(s4) = spec_emit_stmt(s3p, *e) {
                            lemma_patch(s4, je, s4.code.len() as u32);
                        }
                    }
                }
            }
        },
        Stmt::While(w) => {
            let start = st.code.len() as u32;
            lemma_emit_expr(st, w.cond);
            if let Ok(s1) = spec_emit_expr(st, w.cond) {
                let jf = s1.code.len() as int;
                let t = with_instr(s1, operand_model(OpCode::JumpIfFalse, 0));
                lemma_with_instr(s1, operand_model(OpCode::JumpIfFalse, 0));
                lemma_emit_stmt(t, *w.body);
                if let Ok(s2) = spec_emit_stmt(t, *w.body) {
                    let s3 = with_instr(s2, operand_model(OpCode::Jump, start));
                    lemma_with_instr(s2, operand_model(OpCode::Jump, start));
                    lemma_patch(s3, jf, s3.code.len() as u32);
                }
            }
        },
        Stmt::Compound(ss) => lemma_emit_stmts(st, ss@, ss@.len()),
        Stmt::Empty => {},
    }
}

/// Generating statements keeps the state sound.
proof fn lemma_emit_stmts(st: GenState, ss: Seq<Stmt>, k: nat)
    requires
        sound(st),
    ensures
        spec_emit_stmts(st, ss, k) matches Ok(s2) ==> grew(st, s2),
    decreases ss, k,
{
    if 0 < k <= ss.len() {
        lemma_emit_stmts(st, ss, (k - 1) as nat);
        if let Ok(s1) = spec_emit_stmts(st, ss, (k - 1) as nat) {
            lemma_emit_stmt(s1, ss[k - 1]);
        }
    }
}

/// Generating a block keeps the state sound.
proof fn lemma_emit_block(st: GenState, b: Block)
    requires
        sound(st),
    ensures
        spec_emit_block(st, b) matches Ok(s2) ==> grew(st, s2),
    decreases b, 0nat,
{
    lemma_emit_decls(st, b.declarations@, b.declarations@.len());
    if let Ok(s1) = spec_emit_decls(st, b.declarations@, b.declarations@.len()) {
        lemma_emit_stmts(s1, b.statements@, b.statements@.len());
    }
}

/// Generating declarations keeps the state sound.
proof fn lemma_emit_decls(st: GenState, ds: Seq<Decl>, k: nat)
    requires
        sound(st),
    ensures
        spec_emit_decls(st, ds, k) matches Ok(s2) ==> grew(st, s2),
    decreases ds, k,
{
    if 0 < k <= ds.len() {
        lemma_emit_decls(st, ds, (k - 1) as nat);
        if let Ok(s1) = spec_emit_decls(st, ds, (k - 1) as nat) {
            match ds[k - 1] {
                Decl::Var(v) => lemma_declare_var(s1, v.name@, v.ty),
                Decl::Proc(p) => {
                    lemma_register(s1, p.name@, p.params@.len() as u32);
                    let (s2, idx) = spec_register(s1, p.name@, p.params@.len() as u32);
                    lemma_emit_body(s2, idx, p.params@, p.block);
                },
                Decl::Func(f) => {
                    lemma_register(s1, f.name@, f.params@.len() as u32);
                    let (s2, idx) = spec_register(s1, f.name@, f.params@.len() as u32);
                    lemma_emit_body(s2, idx, f.params@, f.block);
                },
            }
        }
    }
}

/// Generating a function body keeps the state sound: the body's jumps land
/// inside the body, whose last instruction is a return.
proof fn lemma_emit_body(st: GenState, idx: u32, params: Seq<Param>, b: Block)
    requires
        sound(st),
        (idx as int) < st.funcs.len(),
    ensures
        spec_emit_body(st, idx, params, b) matches Ok(s2) ==> grew(st, s2),
    decreases b, 1nat,
{
    if let Ok(syms) = spec_declare_params(params, params.len()) {
        let inner = GenState { syms: syms, code: Seq::empty(), funcs: st.funcs };
        lemma_emit_block(inner, b);
        if let Ok(s1) = spec_emit_block(inner, b) {
            let code = s1.code.push(plain_model(OpCode::Ret));
            assert forall|i: int| 0 <= i < code.len() && is_jump(#[trigger] code[i]) implies code[i].4
                <= code.len() - 1 by {
                if i < s1.code.len() {
                    assert(code[i] == s1.code[i]);
                }
            }
            assert forall|i: int| 0 <= i < code.len() && (#[trigger] code[i]).0 == OpCode::Call implies (
            code[i].4 as int) < s1.funcs.len() by {
                if i < s1.code.len() {
                    assert(code[i] == s1.code[i]);
                }
            }
            if let Ok(s2) = spec_emit_body(st, idx, params, b) {
                assert(s2.funcs.len() == s1.funcs.len());
                assert forall|k: int| 0 <= k < s2.funcs.len() implies targets_within(
                    #[trigger] s2.funcs[k].3,
                    s2.funcs[k].3.len() - 1,
                ) && calls_within(s2.funcs[k].3, s2.funcs.len() as int) by {
                    if k != idx {
                        assert(s2.funcs[k] == s1.funcs[k]);
                    } else {
                        assert(s2.funcs[k].3 == code);
                    }
                }
                assert(calls_within(s2.code, s2.funcs.len() as int));
            }
        }
    }
}

/// Whether every jump in every function lands on an instruction of that
/// function.
pub open spec fn jumps_land(fs: Seq<FunctionModel>) -> bool {
    forall|k: int, i: int|
        0 <= k < fs.len() && 0 <= i < fs[k].3.len() && is_jump(#[trigger] fs[k].3[i]) ==> (fs[k].3[i].4
            as int) < fs[k].3.len()
}

/// Whether every call in every function names one of the functions.
pub open spec fn calls_land(fs: Seq<FunctionModel>) -> bool {
    forall|k: int, i: int|
        0 <= k < fs.len() && 0 <= i < fs[k].3.len() && (#[trigger] fs[k].3[i]).0 == OpCode::Call ==> (
        fs[k].3[i].4 as int) < fs.len()
}

/// Whether a compiled program's entry is one of its functions, its jumps
/// land inside their functions and its calls name its functions; a failed
/// compilation has nothing to check.
pub open spec fn well_linked(r: Result<(GenState, u32), Seq<char>>) -> bool {
    match r {
        Ok((st, entry)) => (entry as int) < st.funcs.len() && jumps_land(st.funcs) && calls_land(st.funcs),
        Err(_) => true,
    }
}

/// The state before anything is generated.
pub open spec fn empty_state() -> GenState {
    GenState { syms: Seq::empty(), code: Seq::empty(), funcs: Seq::empty() }
}

/// Every jump of a compiled program lands on an instruction of the function
/// it belongs to, every call names one of the program's functions, and the
/// entry is one of them.
pub proof fn lemma_program_well_linked(b: Block)
    ensures
        well_linked(spec_emit_program(empty_state(), b)),
{
    let st0 = empty_state();
    assert(sound(st0));
    lemma_register(st0, "main"@, 0u32);
    let (s1, entry) = spec_register(st0, "main"@, 0u32);
    lemma_emit_body(s1, entry, Seq::empty(), b);
    if let Ok((st, e)) = spec_emit_program(st0, b) {
        assert forall|k: int, i: int|
            0 <= k < st.funcs.len() && 0 <= i < st.funcs[k].3.len() && is_jump(
                #[trigger] st.funcs[k].3[i],
            ) implies (st.funcs[k].3[i].4 as int) < st.funcs[k].3.len() by {
            assert(targets_within(st.funcs[k].3, st.funcs[k].3.len() - 1));
        }
        assert forall|k: int, i: int|
            0 <= k < st.funcs.len() && 0 <= i < st.funcs[k].3.len() && (
            #[trigger] st.funcs[k].3[i]).0 == OpCode::Call implies (st.funcs[k].3[i].4 as int)
            < st.funcs.len() by {
            assert(calls_within(st.funcs[k].3, st.funcs.len() as int));
        }
    }
}

} // verus!
