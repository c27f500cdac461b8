use vstd::prelude::*;

use crate::ast::{IfStmt, Stmt, WhileStmt};
use crate::bytecode::instr::{lemma_model_opcode, OpCode};
use crate::bytecode::Instr;
use crate::codegen::expr::emit_expr;
use crate::codegen::{emitted, Codegen};
use crate::error::CompileError;

use super::{emit_stmt, patch, spec_emit_stmt};

verus! {

/// Appends the code of an `if`: the condition, a jump past the `then`
/// branch when it is false, the `then` branch, and, when there is an `else`
/// branch, a jump past it followed by it.
pub fn emit_if(cg: &mut Codegen, s: &IfStmt) -> (r: Result<(), CompileError>)
    requires
        old(cg).wf(),
    ensures
        emitted(*old(cg), *final(cg), r, spec_emit_stmt(old(cg).state(), Stmt::If(*s))),
    decreases s, 0nat,
{
    match emit_expr(cg, &s.cond) {
        Err(e) => return Err(e),
        Ok(_) => {},
    }
    let jmp_false_pos = cg.code.len();
    cg.emit(Instr::JumpIfFalse(0));
    match emit_stmt(cg, &s.then_branch) {
        Err(e) => return Err(e),
        Ok(_) => {},
    }
    match &s.else_branch {
        Some(else_branch) => {
            let jmp_end_pos = cg.code.len();
            cg.emit(Instr::Jump(0));
            let after_then = cg.code.len() as u32;
            patch_jump(cg, jmp_false_pos, after_then);
            match emit_stmt(cg, else_branch) {
                Err(e) => return Err(e),
                Ok(_) => {},
            }
            let after_else = cg.code.len() as u32;
            patch_jump(cg, jmp_end_pos, after_else);
        },
        None => {
            let after_then = cg.code.len() as u32;
            patch_jump(cg, jmp_false_pos, after_then);
        },
    }
    Ok(())
}

/// Appends the code of a `while`: the condition, a jump past the loop when
/// it is false, the body, and a jump back to the condition.
pub fn emit_while(cg: &mut Codegen, s: &WhileStmt) -> (r: Result<(), CompileError>)
    requires
        old(cg).wf(),
    ensures
        emitted(*old(cg), *final(cg), r, spec_emit_stmt(old(cg).state(), Stmt::While(*s))),
    decreases s, 0nat,
{
    let loop_start = cg.code.len() as u32;
    match emit_expr(cg, &s.cond) {
        Err(e) => return Err(e),
        Ok(_) => {},
    }
    let jmp_false_pos = cg.code.len();
    cg.emit(Instr::JumpIfFalse(0));
    match emit_stmt(cg, &s.body) {
        Err(e) => return Err(e),
        Ok(_) => {},
    }
    cg.emit(Instr::Jump(loop_start));
    let after_loop = cg.code.len() as u32;
    patch_jump(cg, jmp_false_pos, after_loop);
    Ok(())
}

/// Makes the jump at `pos` go to `target`; any other instruction there is
/// left as it is.
fn patch_jump(cg: &mut Codegen, pos: usize, target: u32)
    requires
        pos < old(cg).code@.len(),
    ensures
        final(cg).state() == patch(old(cg).state(), pos as int, target),
        final(cg).code@.len() == old(cg).code@.len(),
        final(cg).symbols == old(cg).symbols,
        final(cg).functions == old(cg).functions,
        final(cg).module_name == old(cg).module_name,
        final(cg).program_name == old(cg).program_name,
{
    let ghost before = cg.state();
    proof {
        lemma_model_opcode(cg.code@[pos as int]);
    }
    let op = cg.code[pos].opcode();
    if op == OpCode::Jump {
        cg.code.set(pos, Instr::Jump(target));
    } else if op == OpCode::JumpIfFalse {
        cg.code.set(pos, Instr::JumpIfFalse(target));
    }
    assert(cg.state().code =~= patch(before, pos as int, target).code);
}

} // verus!
