use vstd::prelude::*;

use crate::ast::{Block, Decl, FuncDecl, ProcDecl, Type, VarDecl};
use crate::bytecode::Instr;
use crate::codegen::{emitted, grows, Codegen, GenState};
use crate::error::CompileError;

use super::{emit_stmt, lemma_emit_stmts_err, spec_emit_block, spec_emit_decls, spec_emit_stmts};

verus! {

/// Once compiling `i` declarations fails, compiling more fails the same way.
proof fn lemma_emit_decls_err(st: GenState, ds: Seq<Decl>, i: nat, n: nat)
    requires
        0 < i <= n <= ds.len(),
        spec_emit_decls(st, ds, i) is Err,
    ensures
        spec_emit_decls(st, ds, n) == spec_emit_decls(st, ds, i),
    decreases n - i,
{
    if i < n {
        lemma_emit_decls_err(st, ds, i, (n - 1) as nat);
    }
}

/// Appends the code of a block: its declarations, then its statements.
pub fn emit_block(cg: &mut Codegen, block: &Block) -> (r: Result<(), CompileError>)
    requires
        old(cg).wf(),
    ensures
        emitted(*old(cg), *final(cg), r, spec_emit_block(old(cg).state(), *block)),
    decreases block, 0nat,
{
    let ghost st0 = cg.state();
    let decls = &block.declarations;
    let mut i: usize = 0;
    while i < decls.len()
        invariant
            decls == &block.declarations,
            0 <= i <= decls@.len(),
            st0 == old(cg).state(),
            spec_emit_decls(st0, decls@, i as nat) == Ok::<GenState, Seq<char>>(cg.state()),
            grows(*old(cg), *cg),
        decreases decls@.len() - i,
    {
        let step = match &decls[i] {
            Decl::Var(VarDecl { name, ty }) => {
                match cg.symbols.declare(name.as_str(), ty) {
                    Err(e) => Err(e),
                    Ok(idx) => {
                        if let Type::Array { len, .. } = ty {
                            cg.emit(Instr::AllocArray(*len as u32));
                            cg.emit(Instr::Store(idx));
                        }
                        Ok(())
                    },
                }
            },
            Decl::Proc(ProcDecl { name, params, block: body }) => {
                match cg.register_function(name.as_str(), params.len() as u32) {
                    Err(e) => Err(e),
                    Ok(idx) => cg.emit_function_body(idx, params, body),
                }
            },
            Decl::Func(FuncDecl { name, params, block: body, .. }) => {
                match cg.register_function(name.as_str(), params.len() as u32) {
                    Err(e) => Err(e),
                    Ok(idx) => cg.emit_function_body(idx, params, body),
                }
            },
        };
        if let Err(e) = step {
            proof {
                lemma_emit_decls_err(st0, decls@, (i + 1) as nat, decls@.len());
            }
            return Err(e);
        }
        i = i + 1;
    }
    let ghost st1 = cg.state();
    let stmts = &block.statements;
    let mut i: usize = 0;
    while i < stmts.len()
        invariant
            stmts == &block.statements,
            0 <= i <= stmts@.len(),
            st0 == old(cg).state(),
            spec_emit_decls(st0, block.declarations@, block.declarations@.len()) == Ok::<
                GenState,
                Seq<char>,
            >(st1),
            spec_emit_stmts(st1, stmts@, i as nat) == Ok::<GenState, Seq<char>>(cg.state()),
            grows(*old(cg), *cg),
        decreases stmts@.len() - i,
    {
        match emit_stmt(cg, &stmts[i]) {
            Err(e) => {
                proof {
                    lemma_emit_stmts_err(st1, stmts@, (i + 1) as nat, stmts@.len());
                }
                return Err(e);
            },
            Ok(_) => {},
        }
        i = i + 1;
    }
    Ok(())
}

} // verus!
