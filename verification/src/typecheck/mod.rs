pub mod builtins;
pub mod env;
pub mod expr;
pub mod stmt;
pub mod types;

use vstd::prelude::*;

use crate::ast::{Block, Decl, FuncDecl, Param, ProcDecl, Program, Type, VarDecl};
use crate::error::{agrees, message3, CompileError};
use crate::text::str_eq;

use env::{lookup, EnvModel, FuncSig, ProcSig, TypeEnv};
use stmt::{check_stmt_in, lemma_check_stmts_err, spec_check_stmts};

verus! {

/// The types of a parameter list.
pub open spec fn param_types(ps: Seq<Param>) -> Seq<Type> {
    ps.map_values(|p: Param| p.ty)
}

/// The variable entries that a parameter list adds.
pub open spec fn param_entries(ps: Seq<Param>) -> Seq<(Seq<char>, Type)> {
    ps.map_values(|p: Param| (p.name@, p.ty))
}

/// Whether a variable of this type is refused: an array whose elements are
/// not integers.
pub open spec fn is_unsupported_array(ty: Type) -> bool {
    match ty {
        Type::Array { elem, .. } => *elem != Type::Integer,
        _ => false,
    }
}

/// Enters one declaration of a block into the environment; `locals` are the
/// variable names this block has declared so far.
pub open spec fn spec_declare(env: EnvModel, locals: Seq<Seq<char>>, d: Decl) -> Result<
    (EnvModel, Seq<Seq<char>>),
    Seq<char>,
> {
    match d {
        Decl::Var(v) => if locals.contains(v.name@) {
            Err("duplicate variable '"@ + v.name@ + "'"@)
        } else if is_unsupported_array(v.ty) {
            Err("only arrays of integer are supported"@)
        } else {
            Ok((EnvModel { vars: env.vars.push((v.name@, v.ty)), ..env }, locals.push(v.name@)))
        },
        Decl::Proc(p) => if lookup(env.procs, p.name@) is Some || lookup(env.funcs, p.name@) is Some {
            Err("duplicate procedure '"@ + p.name@ + "'"@)
        } else {
            Ok(
                (
                    EnvModel {
                        procs: env.procs.push((p.name@, param_types(p.params@))),
                        ..env
                    },
                    locals,
                ),
            )
        },
        Decl::Func(f) => if lookup(env.procs, f.name@) is Some || lookup(env.funcs, f.name@) is Some {
            Err("duplicate function '"@ + f.name@ + "'"@)
        } else {
            Ok(
                (
                    EnvModel {
                        funcs: env.funcs.push(
                            (f.name@, (param_types(f.params@), f.return_type)),
                        ),
                        ..env
                    },
                    locals,
                ),
            )
        },
    }
}

/// Enters the first `k` declarations of a block, in order.
pub open spec fn spec_declare_prefix(env: EnvModel, decls: Seq<Decl>, k: nat) -> Result<
    (EnvModel, Seq<Seq<char>>),
    Seq<char>,
>
    decreases k,
{
    if k == 0 || k > decls.len() {
        Ok((env, Seq::empty()))
    } else {
        match spec_declare_prefix(env, decls, (k - 1) as nat) {
            Err(m) => Err(m),
            Ok((e, locals)) => spec_declare(e, locals, decls[k - 1]),
        }
    }
}

/// Checks a block: its declarations are entered, then the bodies of its
/// procedures and functions are checked in order, then its statements.
pub open spec fn spec_check_block(env: EnvModel, b: Block) -> Result<(), Seq<char>>
    decreases b, 0nat,
{
    let decls = b.declarations@;
    match spec_declare_prefix(env, decls, decls.len()) {
        Err(m) => Err(m),
        Ok((e1, _)) => match spec_check_bodies(e1, decls, decls.len()) {
            Err(m) => Err(m),
            Ok(e2) => spec_check_stmts(e2, b.statements@, b.statements@.len()),
        },
    }
}

/// Checks the bodies of the first `k` declarations. Each procedure or
/// function body is checked with its parameters added to the variables and
/// its own signature entered again; the parameters stay in scope afterwards.
pub open spec fn spec_check_bodies(env: EnvModel, decls: Seq<Decl>, k: nat) -> Result<
    EnvModel,
    Seq<char>,
>
    decreases decls, k,
{
    if k == 0 || k > decls.len() {
        Ok(env)
    } else {
        match spec_check_bodies(env, decls, (k - 1) as nat) {
            Err(m) => Err(m),
            Ok(e1) => match decls[k - 1] {
                Decl::Proc(p) => {
                    let inner = EnvModel {
                        vars: e1.vars + param_entries(p.params@),
                        funcs: e1.funcs,
                        procs: e1.procs.push((p.name@, param_types(p.params@))),
                        ret: None,
                    };
                    match spec_check_block(inner, p.block) {
                        Err(m) => Err(m),
                        Ok(_) => Ok(EnvModel { ret: e1.ret, ..inner }),
                    }
                },
                Decl::Func(f) => {
                    let inner = EnvModel {
                        vars: e1.vars + param_entries(f.params@),
                        funcs: e1.funcs.push((f.name@, (param_types(f.params@), f.return_type))),
                        procs: e1.procs,
                        ret: Some(f.return_type),
                    };
                    match spec_check_block(inner, f.block) {
                        Err(m) => Err(m),
                        Ok(_) => Ok(EnvModel { ret: e1.ret, ..inner }),
                    }
                },
                Decl::Var(_) => Ok(e1),
            },
        }
    }
}

/// Checks whole programs against the names in scope: the built-ins, then
/// what the program declares.
pub struct TypeChecker {
    pub env: TypeEnv,
}

/// Whether a list of names holds `name`.
fn contains_name(names: &Vec<String>, name: &str) -> (r: bool)
    ensures
        r == names@.map_values(|s: String| s@).contains(name@),
{
    let ghost m = names@.map_values(|s: String| s@);
    let mut i: usize = 0;
    while i < names.len()
        invariant
            0 <= i <= names@.len(),
            m == names@.map_values(|s: String| s@),
            forall|j: int| 0 <= j < i ==> m[j] != name@,
        decreases names@.len() - i,
    {
        if str_eq(names[i].as_str(), name) {
            assert(m[i as int] == name@);
            return true;
        }
        i = i + 1;
    }
    assert(!m.contains(name@));
    false
}

/// The types of a parameter list.
fn types_of(params: &Vec<Param>) -> (v: Vec<Type>)
    ensures
        v@ == param_types(params@),
{
    let mut v: Vec<Type> = Vec::new();
    let mut i: usize = 0;
    while i < params.len()
        invariant
            0 <= i <= params@.len(),
            v@ == param_types(params@.take(i as int)),
        decreases params@.len() - i,
    {
        v.push(params[i].ty.duplicate());
        i = i + 1;
        assert(param_types(params@.take(i as int)) =~= param_types(params@.take(i - 1)).push(
            params@[i - 1].ty,
        ));
    }
    assert(params@.take(params@.len() as int) =~= params@);
    v
}

/// Once entering `i` declarations fails, entering more fails the same way.
proof fn lemma_declare_err(env: EnvModel, decls: Seq<Decl>, i: nat, n: nat)
    requires
        0 < i <= n <= decls.len(),
        spec_declare_prefix(env, decls, i) is Err,
    ensures
        spec_declare_prefix(env, decls, n) == spec_declare_prefix(env, decls, i),
    decreases n - i,
{
    if i < n {
        lemma_declare_err(env, decls, i, (n - 1) as nat);
    }
}

/// Once checking `i` bodies fails, checking more fails the same way.
proof fn lemma_bodies_err(env: EnvModel, decls: Seq<Decl>, i: nat, n: nat)
    requires
        0 < i <= n <= decls.len(),
        spec_check_bodies(env, decls, i) is Err,
    ensures
        spec_check_bodies(env, decls, n) == spec_check_bodies(env, decls, i),
    decreases n - i,
{
    if i < n {
        lemma_bodies_err(env, decls, i, (n - 1) as nat);
    }
}

impl TypeEnv {
    /// Adds the parameters of a procedure or function as variables.
    fn push_params(&mut self, params: &Vec<Param>)
        ensures
            final(self).model() == (EnvModel {
                vars: old(self).model().vars + param_entries(params@),
                ..old(self).model()
            }),
            final(self).vars@.len() >= old(self).vars@.len(),
            final(self).vars@.take(old(self).vars@.len() as int) == old(self).vars@,
            final(self).funcs@ == old(self).funcs@,
            final(self).procs@ == old(self).procs@,
            final(self).current_return == old(self).current_return,
    {
        let mut i: usize = 0;
        while i < params.len()
            invariant
                0 <= i <= params@.len(),
                self.model() == (EnvModel {
                    vars: old(self).model().vars + param_entries(params@.take(i as int)),
                    ..old(self).model()
                }),
                self.vars@.len() >= old(self).vars@.len(),
                self.vars@.take(old(self).vars@.len() as int) == old(self).vars@,
                self.funcs@ == old(self).funcs@,
                self.procs@ == old(self).procs@,
                self.current_return == old(self).current_return,
            decreases params@.len() - i,
        {
            let p = &params[i];
            let ghost prev = self.model().vars;
            self.vars.push((p.name.clone(), p.ty.duplicate()));
            assert(self.model().vars =~= prev.push((p.name@, p.ty)));
            assert(self.vars@.take(old(self).vars@.len() as int) =~= old(self).vars@);
            i = i + 1;
            assert(param_entries(params@.take(i as int)) =~= param_entries(
                params@.take(i - 1),
            ).push((p.name@, p.ty)));
            assert(self.model().vars =~= old(self).model().vars + param_entries(
                params@.take(i as int),
            ));
        }
        assert(params@.take(params@.len() as int) =~= params@);
    }
}

/// The environment that every check starts from: no variables, the
/// built-in functions and procedures, and no result type.
pub open spec fn builtin_env() -> EnvModel {
    EnvModel {
        vars: Seq::empty(),
        funcs: builtins::with_builtin_funcs(Seq::empty()),
        procs: builtins::with_builtin_procs(Seq::empty()),
        ret: None,
    }
}

impl TypeChecker {
    /// A checker whose scope holds the built-ins.
    pub fn new() -> (tc: TypeChecker)
        ensures
            tc.env.model() == builtin_env(),
    {
        let mut env = TypeEnv::new();
        proof {
            assert(env.model().vars =~= Seq::empty());
            assert(env.model().funcs =~= Seq::empty());
            assert(env.model().procs =~= Seq::empty());
        }
        builtins::register_builtins(&mut env);
        TypeChecker { env }
    }

    /// Checks a program: `Ok` when it is well typed, else the first type
    /// error. On success the names in scope are as they were.
    pub fn check_program(&mut self, program: &Program) -> (r: Result<(), CompileError>)
        ensures
            agrees(r, spec_check_block(old(self).env.model(), program.block)),
            r is Ok ==> final(self).env.model() == old(self).env.model(),
    {
        self.check_block(&program.block)
    }

    /// Checks a block; on success the names in scope are restored to what
    /// they were before it.
    pub fn check_block(&mut self, block: &Block) -> (r: Result<(), CompileError>)
        ensures
            agrees(r, spec_check_block(old(self).env.model(), *block)),
            r is Ok ==> final(self).env.model() == old(self).env.model(),
            r is Ok ==> final(self).env.vars@ == old(self).env.vars@,
            r is Ok ==> final(self).env.funcs@ == old(self).env.funcs@,
            r is Ok ==> final(self).env.procs@ == old(self).env.procs@,
        decreases block,
    {
        let ghost env0 = self.env.model();
        let vars_len = self.env.vars.len();
        let funcs_len = self.env.funcs.len();
        let procs_len = self.env.procs.len();
        let ghost vars0 = self.env.vars@;
        let ghost funcs0 = self.env.funcs@;
        let ghost procs0 = self.env.procs@;
        let decls = &block.declarations;
        let n = decls.len();
        let mut local_vars: Vec<String> = Vec::new();
        assert(local_vars@.map_values(|s: String| s@) =~= Seq::<Seq<char>>::empty());
        let mut i: usize = 0;
        while i < n
            invariant
                n == decls@.len(),
                decls == &block.declarations,
                0 <= i <= n,
                env0 == old(self).env.model(),
                spec_declare_prefix(env0, decls@, i as nat) == Ok::<
                    (EnvModel, Seq<Seq<char>>),
                    Seq<char>,
                >((self.env.model(), local_vars@.map_values(|s: String| s@))),
                self.env.vars@.len() >= vars_len,
                self.env.funcs@.len() >= funcs_len,
                self.env.procs@.len() >= procs_len,
                self.env.vars@.take(vars_len as int) == vars0,
                self.env.funcs@.take(funcs_len as int) == funcs0,
                self.env.procs@.take(procs_len as int) == procs0,
                vars0.len() == vars_len,
                funcs0.len() == funcs_len,
                procs0.len() == procs_len,
                self.env.current_return == old(self).env.current_return,
            decreases n - i,
        {
            let ghost before = self.env.model();
            let ghost locals_before = local_vars@.map_values(|s: String| s@);
            let r = self.declare(&decls[i], &mut local_vars);
            if r.is_err() {
                proof {
                    lemma_declare_err(env0, decls@, (i + 1) as nat, n as nat);
                }
                return r;
            }
            i = i + 1;
        }
        let ghost env1 = self.env.model();
        let mut i: usize = 0;
        while i < n
            invariant
                n == decls@.len(),
                decls == &block.declarations,
                0 <= i <= n,
                env0 == old(self).env.model(),
                spec_declare_prefix(env0, decls@, n as nat) is Ok,
                env1 == spec_declare_prefix(env0, decls@, n as nat)->Ok_0.0,
                spec_check_bodies(env1, decls@, i as nat) == Ok::<EnvModel, Seq<char>>(
                    self.env.model(),
                ),
                self.env.vars@.len() >= vars_len,
                self.env.funcs@.len() >= funcs_len,
                self.env.procs@.len() >= procs_len,
                self.env.vars@.take(vars_len as int) == vars0,
                self.env.funcs@.take(funcs_len as int) == funcs0,
                self.env.procs@.take(procs_len as int) == procs0,
                vars0.len() == vars_len,
                funcs0.len() == funcs_len,
                procs0.len() == procs_len,
                self.env.current_return == old(self).env.current_return,
            decreases n - i,
        {
            let r = match &decls[i] {
                Decl::Proc(p) => {
                    let ghost e1 = self.env.model();
                    let mut saved_ret: Option<Type> = None;
                    std::mem::swap(&mut saved_ret, &mut self.env.current_return);
                    self.env.push_params(&p.params);
                    assert(self.env.vars@.take(vars_len as int) =~= vars0);
                    let ghost prev = self.env.model().procs;
                    self.env.procs.push((p.name.clone(), ProcSig { params: types_of(&p.params) }));
                    proof {
                        assert(self.env.model().procs =~= prev.push(
                            (p.name@, param_types(p.params@)),
                        ));
                        assert(self.env.model() == (EnvModel {
                            vars: e1.vars + param_entries(p.params@),
                            funcs: e1.funcs,
                            procs: e1.procs.push((p.name@, param_types(p.params@))),
                            ret: None,
                        }));
                    }
                    let r = self.check_block(&p.block);
                    self.env.current_return = saved_ret;
                    r
                },
                Decl::Func(f) => {
                    let ghost e1 = self.env.model();
                    let mut saved_ret: Option<Type> = Some(f.return_type.duplicate());
                    std::mem::swap(&mut saved_ret, &mut self.env.current_return);
                    self.env.push_params(&f.params);
                    assert(self.env.vars@.take(vars_len as int) =~= vars0);
                    let ghost prev = self.env.model().funcs;
                    self.env.funcs.push(
                        (
                            f.name.clone(),
                            FuncSig { params: types_of(&f.params), ret: f.return_type.duplicate() },
                        ),
                    );
                    proof {
                        assert(self.env.model().funcs =~= prev.push(
                            (f.name@, (param_types(f.params@), f.return_type)),
                        ));
                        assert(self.env.model() == (EnvModel {
                            vars: e1.vars + param_entries(f.params@),
                            funcs: e1.funcs.push((f.name@, (param_types(f.params@), f.return_type))),
                            procs: e1.procs,
                            ret: Some(f.return_type),
                        }));
                    }
                    let r = self.check_block(&f.block);
                    self.env.current_return = saved_ret;
                    r
                },
                Decl::Var(_) => Ok(()),
            };
            if r.is_err() {
                proof {
                    lemma_bodies_err(env1, decls@, (i + 1) as nat, n as nat);
                }
                return r;
            }
            i = i + 1;
        }
        let ghost env2 = self.env.model();
        let stmts = &block.statements;
        let mut i: usize = 0;
        while i < stmts.len()
            invariant
                stmts == &block.statements,
                0 <= i <= stmts@.len(),
                env0 == old(self).env.model(),
                spec_declare_prefix(env0, decls@, n as nat) is Ok,
                env1 == spec_declare_prefix(env0, decls@, n as nat)->Ok_0.0,
                spec_check_bodies(env1, decls@, n as nat) == Ok::<EnvModel, Seq<char>>(env2),
                n == decls@.len(),
                decls == &block.declarations,
                env2 == self.env.model(),
                spec_check_stmts(env2, stmts@, i as nat) == Ok::<(), Seq<char>>(()),
                self.env.vars@.len() >= vars_len,
                self.env.funcs@.len() >= funcs_len,
                self.env.procs@.len() >= procs_len,
                self.env.vars@.take(vars_len as int) == vars0,
                self.env.funcs@.take(funcs_len as int) == funcs0,
                self.env.procs@.take(procs_len as int) == procs0,
                vars0.len() == vars_len,
                funcs0.len() == funcs_len,
                procs0.len() == procs_len,
                self.env.current_return == old(self).env.current_return,
            decreases stmts@.len() - i,
        {
            let r = check_stmt_in(&self.env, &stmts[i]);
            if r.is_err() {
                proof {
                    lemma_check_stmts_err(env2, stmts@, (i + 1) as nat, stmts@.len());
                }
                return r;
            }
            i = i + 1;
        }
        self.env.vars.truncate(vars_len);
        self.env.funcs.truncate(funcs_len);
        self.env.procs.truncate(procs_len);
        proof {
            assert(self.env.vars@ =~= vars0);
            assert(self.env.funcs@ =~= funcs0);
            assert(self.env.procs@ =~= procs0);
        }
        Ok(())
    }

    /// Enters one declaration of a block; `local_vars` holds the variable
    /// names this block has declared so far.
    fn declare(&mut self, decl: &Decl, local_vars: &mut Vec<String>) -> (r: Result<
        (),
        CompileError,
    >)
        ensures
            match (r, spec_declare(
                old(self).env.model(),
                old(local_vars)@.map_values(|s: String| s@),
                *decl,
            )) {
                (Ok(_), Ok((e, l))) => final(self).env.model() == e && final(local_vars)@.map_values(
                    |s: String| s@,
                ) == l,
                (Err(e), Err(m)) => e.message@ == m && e.span.is_none(),
                _ => false,
            },
            final(self).env.vars@.len() >= old(self).env.vars@.len(),
            final(self).env.funcs@.len() >= old(self).env.funcs@.len(),
            final(self).env.procs@.len() >= old(self).env.procs@.len(),
            final(self).env.vars@.take(old(self).env.vars@.len() as int) == old(self).env.vars@,
            final(self).env.funcs@.take(old(self).env.funcs@.len() as int) == old(self).env.funcs@,
            final(self).env.procs@.take(old(self).env.procs@.len() as int) == old(self).env.procs@,
            final(self).env.current_return == old(self).env.current_return,
    {
        match decl {
            Decl::Var(VarDecl { name, ty }) => {
                if contains_name(local_vars, name.as_str()) {
                    return Err(CompileError::new_simple(message3("duplicate variable '", name, "'")));
                }
                let ghost before = local_vars@;
                local_vars.push(name.clone());
                proof {
                    assert(local_vars@.map_values(|s: String| s@) =~= before.map_values(
                        |s: String| s@,
                    ).push(name@));
                }
                if let Type::Array { elem, .. } = ty {
                    if !elem.same(&Type::Integer) {
                        return Err(CompileError::simple("only arrays of integer are supported"));
                    }
                }
                self.env.vars.push((name.clone(), ty.duplicate()));
                proof {
                    assert(self.env.model().vars =~= old(self).env.model().vars.push((name@, *ty)));
                }
                Ok(())
            },
            Decl::Proc(ProcDecl { name, params, .. }) => {
                if self.env.proc_index(name.as_str()).is_some() || self.env.func_index(
                    name.as_str(),
                ).is_some() {
                    return Err(
                        CompileError::new_simple(message3("duplicate procedure '", name, "'")),
                    );
                }
                self.env.procs.push((name.clone(), ProcSig { params: types_of(params) }));
                proof {
                    assert(self.env.model().procs =~= old(self).env.model().procs.push(
                        (name@, param_types(params@)),
                    ));
                }
                Ok(())
            },
            Decl::Func(FuncDecl { name, return_type, params, .. }) => {
                if self.env.proc_index(name.as_str()).is_some() || self.env.func_index(
                    name.as_str(),
                ).is_some() {
                    return Err(
                        CompileError::new_simple(message3("duplicate function '", name, "'")),
                    );
                }
                self.env.funcs.push(
                    (name.clone(), FuncSig { params: types_of(params), ret: return_type.duplicate() }),
                );
                proof {
                    assert(self.env.model().funcs =~= old(self).env.model().funcs.push(
                        (name@, (param_types(params@), *return_type)),
                    ));
                }
                Ok(())
            },
        }
    }
}

} // verus!
