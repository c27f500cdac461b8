use vstd::prelude::*;

use crate::ast::{
    decl_view, decls_view, lemma_decls_view_push, lemma_stmts_view_push, names_view, params_view,
    stmts_view, Block, Decl, DeclV, FuncDecl, Param, ProcDecl, Stmt, Type, VarDecl,
};
use crate::error::CompileError;
use crate::lexer::{TokenKind, TokenTag};

use super::grammar::{
    p_block, p_compound, p_compound_rest, p_func_decl, p_param_list, p_params_rest, p_proc_decl,
    p_subprograms, p_var_decls, p_var_section, rank, expect, tag_at, PErr,
};
use super::stmt::parse_statement;
use super::types::parse_type;
use super::{moved, parsed, Parser};

verus! {

/// Adds a variable declaration of type `ty` for each name, in order.
fn push_var_decls(decls: &mut Vec<Decl>, names: Vec<String>, ty: &Type)
    ensures
        decls_view(final(decls)@, final(decls)@.len()) == decls_view(old(decls)@, old(decls)@.len())
            + names_view(names@).map_values(|n: Seq<char>| DeclV::Var(n, *ty)),
{
    let ghost start = decls_view(decls@, decls@.len());
    let mut i: usize = 0;
    while i < names.len()
        invariant
            0 <= i <= names@.len(),
            decls_view(decls@, decls@.len()) == start + names_view(names@).take(i as int).map_values(
                |n: Seq<char>| DeclV::Var(n, *ty),
            ),
        decreases names@.len() - i,
    {
        let d = Decl::Var(VarDecl { name: names[i].clone(), ty: ty.duplicate() });
        proof {
            lemma_decls_view_push(decls@, d);
        }
        decls.push(d);
        i = i + 1;
        assert(names_view(names@).take(i as int).map_values(|n: Seq<char>| DeclV::Var(n, *ty))
            =~= names_view(names@).take(i - 1).map_values(|n: Seq<char>| DeclV::Var(n, *ty)).push(
            DeclV::Var(names@[i - 1]@, *ty),
        ));
    }
    assert(names_view(names@).take(names@.len() as int) =~= names_view(names@));
}

/// Adds a parameter of type `ty` for each name, in order.
fn push_params(params: &mut Vec<Param>, names: Vec<String>, ty: &Type)
    ensures
        params_view(final(params)@) == params_view(old(params)@) + names_view(names@).map_values(
            |n: Seq<char>| (n, *ty),
        ),
{
    let ghost start = params_view(params@);
    let mut i: usize = 0;
    while i < names.len()
        invariant
            0 <= i <= names@.len(),
            params_view(params@) == start + names_view(names@).take(i as int).map_values(
                |n: Seq<char>| (n, *ty),
            ),
        decreases names@.len() - i,
    {
        let ghost before = params@;
        params.push(Param { name: names[i].clone(), ty: ty.duplicate() });
        i = i + 1;
        assert(params_view(params@) =~= params_view(before).push((names@[i - 1]@, *ty)));
        assert(names_view(names@).take(i as int).map_values(|n: Seq<char>| (n, *ty))
            =~= names_view(names@).take(i - 1).map_values(|n: Seq<char>| (n, *ty)).push(
            (names@[i - 1]@, *ty),
        ));
    }
    assert(names_view(names@).take(names@.len() as int) =~= names_view(names@));
}

/// Parses a block: an optional `var` section, procedure and function
/// declarations, then a compound statement.
pub fn parse_block(p: &mut Parser<'_>) -> (r: Result<Block, CompileError>)
    requires
        old(p).wf(),
    ensures
        parsed(*old(p), *final(p), r, p_block(old(p).bytes(), old(p).at@), |bl: Block| bl.view(), true),
    decreases rank(old(p).bytes(), old(p).at@), 6nat,
{
    let ghost b = p.bytes();
    let ghost k0 = p.at@;
    let mut declarations: Vec<Decl> = Vec::new();
    assert(decls_view(declarations@, 0) =~= Seq::<DeclV>::empty());
    if p.current_is(TokenKind::Var) {
        match p.advance() {
            Err(e) => return Err(e),
            Ok(_) => {},
        }
        let ghost k1 = p.at@;
        while p.current_is_ident()
            invariant
                b == old(p).bytes(),
                k0 == old(p).at@,
                moved(*old(p), *p, p.at@),
                p_var_section(b, k0) == p_var_decls(
                    b,
                    decls_view(declarations@, declarations@.len()),
                    p.at@,
                ),
            decreases rank(b, p.at@),
        {
            let names = match p.parse_ident_list() {
                Ok(n) => n,
                Err(e) => return Err(e),
            };
            match p.expect_kind(TokenKind::Colon, "':'") {
                Err(e) => return Err(e),
                Ok(_) => {},
            }
            let ty = match parse_type(p) {
                Ok(t) => t,
                Err(e) => return Err(e),
            };
            match p.expect_kind(TokenKind::Semi, "';'") {
                Err(e) => return Err(e),
                Ok(_) => {},
            }
            push_var_decls(&mut declarations, names, &ty);
        }
    }
    let ghost k2 = p.at@;
    let ghost ds = decls_view(declarations@, declarations@.len());
    assert(p_var_section(b, k0) == Ok::<(Seq<DeclV>, nat), PErr>((ds, k2)));
    while p.current_is(TokenKind::Procedure) || p.current_is(TokenKind::Function)
        invariant
            b == old(p).bytes(),
            k0 == old(p).at@,
            moved(*old(p), *p, p.at@),
            rank(b, k2) <= rank(b, k0),
            p_var_section(b, k0) == Ok::<(Seq<DeclV>, nat), PErr>((ds, k2)),
            p_subprograms(b, ds, k2) == p_subprograms(
                b,
                decls_view(declarations@, declarations@.len()),
                p.at@,
            ),
        decreases rank(b, p.at@),
    {
        let d = if p.current_is(TokenKind::Procedure) {
            match parse_proc_decl(p) {
                Ok(d) => Decl::Proc(d),
                Err(e) => return Err(e),
            }
        } else {
            match parse_func_decl(p) {
                Ok(d) => Decl::Func(d),
                Err(e) => return Err(e),
            }
        };
        proof {
            lemma_decls_view_push(declarations@, d);
        }
        declarations.push(d);
    }
    let statements = match parse_compound_statement(p) {
        Ok(s) => s,
        Err(e) => return Err(e),
    };
    Ok(Block { declarations, statements })
}

/// Parses `begin ... end`: statements separated by `;`, where a lone `;` is
/// an empty statement.
pub fn parse_compound_statement(p: &mut Parser<'_>) -> (r: Result<Vec<Stmt>, CompileError>)
    requires
        old(p).wf(),
    ensures
        parsed(
            *old(p),
            *final(p),
            r,
            p_compound(old(p).bytes(), old(p).at@),
            |v: Vec<Stmt>| stmts_view(v@, v@.len()),
            true,
        ),
    decreases rank(old(p).bytes(), old(p).at@), 2nat,
{
    let ghost b = p.bytes();
    match p.expect_keyword(TokenKind::Begin, "begin") {
        Err(e) => return Err(e),
        Ok(_) => {},
    }
    let mut statements: Vec<Stmt> = Vec::new();
    assert(stmts_view(statements@, 0) =~= Seq::empty());
    while !p.current_is(TokenKind::End)
        invariant
            b == old(p).bytes(),
            moved(*old(p), *p, p.at@),
            rank(b, p.at@) < rank(b, old(p).at@),
            p_compound(b, old(p).at@) == p_compound_rest(
                b,
                stmts_view(statements@, statements@.len()),
                p.at@,
            ),
        decreases rank(b, p.at@),
    {
        if p.current_is(TokenKind::Semi) {
            match p.advance() {
                Err(e) => return Err(e),
                Ok(_) => {},
            }
            proof {
                lemma_stmts_view_push(statements@, Stmt::Empty);
            }
            statements.push(Stmt::Empty);
            continue;
        }
        let stmt = match parse_statement(p) {
            Ok(s) => s,
            Err(e) => return Err(e),
        };
        proof {
            lemma_stmts_view_push(statements@, stmt);
        }
        statements.push(stmt);
        if p.current_is(TokenKind::Semi) {
            match p.advance() {
                Err(e) => return Err(e),
                Ok(_) => {},
            }
        } else if !p.current_is(TokenKind::End) {
            return Err(p.unexpected("';' or 'end'"));
        }
    }
    match p.expect_keyword(TokenKind::End, "end") {
        Err(e) => return Err(e),
        Ok(_) => {},
    }
    Ok(statements)
}

/// Parses `procedure name(params); block;`.
fn parse_proc_decl(p: &mut Parser<'_>) -> (r: Result<ProcDecl, CompileError>)
    requires
        old(p).wf(),
    ensures
        parsed(
            *old(p),
            *final(p),
            r,
            p_proc_decl(old(p).bytes(), old(p).at@),
            |d: ProcDecl| decl_view(Decl::Proc(d)),
            true,
        ),
    decreases rank(old(p).bytes(), old(p).at@), 4nat,
{
    match p.expect_keyword(TokenKind::Procedure, "procedure") {
        Err(e) => return Err(e),
        Ok(_) => {},
    }
    let name = match p.expect_ident() {
        Ok(n) => n,
        Err(e) => return Err(e),
    };
    let params = match parse_param_list(p) {
        Ok(ps) => ps,
        Err(e) => return Err(e),
    };
    match p.expect_kind(TokenKind::Semi, "';'") {
        Err(e) => return Err(e),
        Ok(_) => {},
    }
    let block = match parse_block(p) {
        Ok(bl) => bl,
        Err(e) => return Err(e),
    };
    match p.expect_kind(TokenKind::Semi, "';'") {
        Err(e) => return Err(e),
        Ok(_) => {},
    }
    Ok(ProcDecl { name, params, block })
}

/// Parses `function name(params): type; block;`.
fn parse_func_decl(p: &mut Parser<'_>) -> (r: Result<FuncDecl, CompileError>)
    requires
        old(p).wf(),
    ensures
        parsed(
            *old(p),
            *final(p),
            r,
            p_func_decl(old(p).bytes(), old(p).at@),
            |d: FuncDecl| decl_view(Decl::Func(d)),
            true,
        ),
    decreases rank(old(p).bytes(), old(p).at@), 4nat,
{
    match p.expect_keyword(TokenKind::Function, "function") {
        Err(e) => return Err(e),
        Ok(_) => {},
    }
    let name = match p.expect_ident() {
        Ok(n) => n,
        Err(e) => return Err(e),
    };
    let params = match parse_param_list(p) {
        Ok(ps) => ps,
        Err(e) => return Err(e),
    };
    match p.expect_kind(TokenKind::Colon, "':'") {
        Err(e) => return Err(e),
        Ok(_) => {},
    }
    let return_type = match parse_type(p) {
        Ok(t) => t,
        Err(e) => return Err(e),
    };
    match p.expect_kind(TokenKind::Semi, "';'") {
        Err(e) => return Err(e),
        Ok(_) => {},
    }
    let block = match parse_block(p) {
        Ok(bl) => bl,
        Err(e) => return Err(e),
    };
    match p.expect_kind(TokenKind::Semi, "';'") {
        Err(e) => return Err(e),
        Ok(_) => {},
    }
    Ok(FuncDecl { name, params, return_type, block })
}

/// Parses a parameter list in parentheses, if there is one: groups
/// `names : type` separated by `;`.
fn parse_param_list(p: &mut Parser<'_>) -> (r: Result<Vec<Param>, CompileError>)
    requires
        old(p).wf(),
    ensures
        parsed(
            *old(p),
            *final(p),
            r,
            p_param_list(old(p).bytes(), old(p).at@),
            |v: Vec<Param>| params_view(v@),
            false,
        ),
{
    let ghost b = p.bytes();
    let mut params: Vec<Param> = Vec::new();
    assert(params_view(params@) =~= Seq::empty());
    if !p.current_is(TokenKind::LParen) {
        return Ok(params);
    }
    match p.expect_kind(TokenKind::LParen, "'('") {
        Err(e) => return Err(e),
        Ok(_) => {},
    }
    let ghost k1 = p.at@;
    if !p.current_is(TokenKind::RParen) {
        loop
            invariant_except_break
                tag_at(b, old(p).at@) == TokenTag::LParen,
                expect(b, old(p).at@, TokenTag::LParen, "'('"@) == Ok::<nat, PErr>(k1),
                tag_at(b, k1) != TokenTag::RParen,
                b == old(p).bytes(),
                moved(*old(p), *p, p.at@),
                p_params_rest(b, Seq::empty(), k1) == p_params_rest(b, params_view(params@), p.at@),
            ensures
                b == old(p).bytes(),
                moved(*old(p), *p, p.at@),
                p_params_rest(b, Seq::empty(), k1) == Ok::<(Seq<(Seq<char>, Type)>, nat), PErr>(
                    (params_view(params@), p.at@),
                ),
            decreases rank(b, p.at@),
        {
            let names = match p.parse_ident_list() {
                Ok(n) => n,
                Err(e) => return Err(e),
            };
            match p.expect_kind(TokenKind::Colon, "':'") {
                Err(e) => return Err(e),
                Ok(_) => {},
            }
            let ty = match parse_type(p) {
                Ok(t) => t,
                Err(e) => return Err(e),
            };
            push_params(&mut params, names, &ty);
            if p.current_is(TokenKind::Semi) {
                match p.advance() {
                    Err(e) => return Err(e),
                    Ok(_) => {},
                }
                continue;
            }
            break;
        }
    }
    match p.expect_kind(TokenKind::RParen, "')'") {
        Err(e) => return Err(e),
        Ok(_) => {},
    }
    Ok(params)
}

} // verus!
