use vstd::prelude::*;

verus! {

/// A whole program: its name, the modules it uses, and its main block.
#[derive(Debug)]
pub struct Program {
    pub name: String,
    pub uses: Vec<String>,
    pub block: Block,
}

/// Declarations followed by the statements of a `begin ... end` body.
#[derive(Debug)]
pub struct Block {
    pub declarations: Vec<Decl>,
    pub statements: Vec<Stmt>,
}

#[derive(Debug)]
pub enum Decl {
    Var(VarDecl),
    Proc(ProcDecl),
    Func(FuncDecl),
}

#[derive(Debug, Clone)]
pub struct VarDecl {
    pub name: String,
    pub ty: Type,
}

#[derive(Debug)]
pub struct ProcDecl {
    pub name: String,
    pub params: Vec<Param>,
    pub block: Block,
}

#[derive(Debug)]
pub struct FuncDecl {
    pub name: String,
    pub params: Vec<Param>,
    pub return_type: Type,
    pub block: Block,
}

#[derive(Debug)]
pub enum Stmt {
    Assign(Assign),
    AssignIndex(AssignIndex),
    Writeln(Expr),
    Readln(Vec<String>),
    Call(CallStmt),
    Return(Option<Expr>),
    If(IfStmt),
    While(WhileStmt),
    Compound(Vec<Stmt>),
    Empty,
}

#[derive(Debug)]
pub struct Assign {
    pub name: String,
    pub expr: Expr,
}

#[derive(Debug)]
pub struct AssignIndex {
    pub name: String,
    pub index: Expr,
    pub expr: Expr,
}

#[derive(Debug)]
pub struct CallStmt {
    pub name: String,
    pub args: Vec<Expr>,
}

#[derive(Debug)]
pub struct IfStmt {
    pub cond: Expr,
    pub then_branch: Box<Stmt>,
    pub else_branch: Option<Box<Stmt>>,
}

#[derive(Debug)]
pub struct WhileStmt {
    pub cond: Expr,
    pub body: Box<Stmt>,
}

#[derive(Debug)]
pub enum Expr {
    Int(i64),
    Bool(bool),
    Str(String),
    Var(String),
    Index { name: String, index: Box<Expr> },
    Call(CallExpr),
    Unary { op: UnaryOp, expr: Box<Expr> },
    Binary { op: BinaryOp, left: Box<Expr>, right: Box<Expr> },
}

#[derive(Debug)]
pub struct CallExpr {
    pub name: String,
    pub args: Vec<Expr>,
}

#[derive(Debug, Clone)]
pub struct Param {
    pub name: String,
    pub ty: Type,
}

#[derive(Debug, Clone, Copy, PartialEq, Eq, Structural)]
pub enum UnaryOp {
    Neg,
    Not,
}

#[derive(Debug, Clone, Copy, PartialEq, Eq, Structural)]
pub enum BinaryOp {
    Add,
    Sub,
    Mul,
    Div,
    Eq,
    Ne,
    Lt,
    Le,
    Gt,
    Ge,
    And,
    Or,
}

#[derive(Debug)]
pub enum Type {
    Integer,
    Boolean,
    String,
    Array { elem: Box<Type>, len: usize },
    Option(Box<Type>),
    Result(Box<Type>),
    Vector(Box<Type>),
    StackInt,
    MapStrStr,
    SetStr,
}

impl Type {
    /// An exact copy of this type.
    pub fn duplicate(&self) -> (r: Type)
        ensures
            r == *self,
        decreases self,
    {
        match self {
            Type::Integer => Type::Integer,
            Type::Boolean => Type::Boolean,
            Type::String => Type::String,
            Type::Array { elem, len } => Type::Array { elem: Box::new(elem.duplicate()), len: *len },
            Type::Option(t) => Type::Option(Box::new(t.duplicate())),
            Type::Result(t) => Type::Result(Box::new(t.duplicate())),
            Type::Vector(t) => Type::Vector(Box::new(t.duplicate())),
            Type::StackInt => Type::StackInt,
            Type::MapStrStr => Type::MapStrStr,
            Type::SetStr => Type::SetStr,
        }
    }

    /// Whether two types are the same type.
    pub fn same(&self, other: &Type) -> (r: bool)
        ensures
            r == (*self == *other),
        decreases self,
    {
        match (self, other) {
            (Type::Integer, Type::Integer) => true,
            (Type::Boolean, Type::Boolean) => true,
            (Type::String, Type::String) => true,
            (Type::Array { elem: e1, len: l1 }, Type::Array { elem: e2, len: l2 }) => {
                *l1 == *l2 && e1.same(e2)
            },
            (Type::Option(a), Type::Option(b)) => a.same(b),
            (Type::Result(a), Type::Result(b)) => a.same(b),
            (Type::Vector(a), Type::Vector(b)) => a.same(b),
            (Type::StackInt, Type::StackInt) => true,
            (Type::MapStrStr, Type::MapStrStr) => true,
            (Type::SetStr, Type::SetStr) => true,
            _ => false,
        }
    }
}

impl Clone for Type {
    fn clone(&self) -> (r: Type)
        ensures
            r == *self,
    {
        self.duplicate()
    }
}

impl PartialEq for Type {
    fn eq(&self, other: &Type) -> (r: bool) {
        self.same(other)
    }
}

impl vstd::std_specs::cmp::PartialEqSpecImpl for Type {
    open spec fn obeys_eq_spec() -> bool {
        true
    }

    open spec fn eq_spec(&self, other: &Type) -> bool {
        *self == *other
    }
}

/// The mathematical content of an expression: names and texts as character
/// sequences.
pub enum ExprV {
    Int(i64),
    Bool(bool),
    Str(Seq<char>),
    Var(Seq<char>),
    Index(Seq<char>, Box<ExprV>),
    Call(Seq<char>, Seq<ExprV>),
    Unary(UnaryOp, Box<ExprV>),
    Binary(BinaryOp, Box<ExprV>, Box<ExprV>),
}

/// The mathematical content of a statement.
pub enum StmtV {
    Assign(Seq<char>, ExprV),
    AssignIndex(Seq<char>, ExprV, ExprV),
    Writeln(ExprV),
    Readln(Seq<Seq<char>>),
    Call(Seq<char>, Seq<ExprV>),
    Return(Option<ExprV>),
    If(ExprV, Box<StmtV>, Option<Box<StmtV>>),
    While(ExprV, Box<StmtV>),
    Compound(Seq<StmtV>),
    Empty,
}

/// The mathematical content of a declaration; a parameter is a name and a
/// type.
pub enum DeclV {
    Var(Seq<char>, Type),
    Proc(Seq<char>, Seq<(Seq<char>, Type)>, BlockV),
    Func(Seq<char>, Seq<(Seq<char>, Type)>, Type, BlockV),
}

/// The mathematical content of a block.
pub struct BlockV {
    pub decls: Seq<DeclV>,
    pub stmts: Seq<StmtV>,
}

/// The mathematical content of a program.
pub struct ProgramV {
    pub name: Seq<char>,
    pub uses: Seq<Seq<char>>,
    pub block: BlockV,
}

/// The names of a list of strings.
pub open spec fn names_view(s: Seq<String>) -> Seq<Seq<char>> {
    s.map_values(|n: String| n@)
}

/// The names and types of a parameter list.
pub open spec fn params_view(s: Seq<Param>) -> Seq<(Seq<char>, Type)> {
    s.map_values(|p: Param| (p.name@, p.ty))
}

impl Expr {
    /// The content of this expression.
    pub open spec fn view(&self) -> ExprV
        decreases self, 0nat,
    {
        match self {
            Expr::Int(v) => ExprV::Int(*v),
            Expr::Bool(b) => ExprV::Bool(*b),
            Expr::Str(s) => ExprV::Str(s@),
            Expr::Var(n) => ExprV::Var(n@),
            Expr::Index { name, index } => ExprV::Index(name@, Box::new((**index).view())),
            Expr::Call(c) => ExprV::Call(c.name@, exprs_view(c.args@, c.args@.len())),
            Expr::Unary { op, expr } => ExprV::Unary(*op, Box::new((**expr).view())),
            Expr::Binary { op, left, right } => ExprV::Binary(
                *op,
                Box::new((**left).view()),
                Box::new((**right).view()),
            ),
        }
    }
}

/// The contents of the first `k` expressions of a list.
pub open spec fn exprs_view(s: Seq<Expr>, k: nat) -> Seq<ExprV>
    decreases s, k,
{
    if k == 0 || k > s.len() {
        Seq::empty()
    } else {
        exprs_view(s, (k - 1) as nat).push(s[k - 1].view())
    }
}

impl Stmt {
    /// The content of this statement.
    pub open spec fn view(&self) -> StmtV
        decreases self, 0nat,
    {
        match self {
            Stmt::Assign(a) => StmtV::Assign(a.name@, a.expr.view()),
            Stmt::AssignIndex(a) => StmtV::AssignIndex(a.name@, a.index.view(), a.expr.view()),
            Stmt::Writeln(e) => StmtV::Writeln(e.view()),
            Stmt::Readln(names) => StmtV::Readln(names_view(names@)),
            Stmt::Call(c) => StmtV::Call(c.name@, exprs_view(c.args@, c.args@.len())),
            Stmt::Return(None) => StmtV::Return(None),
            Stmt::Return(Some(e)) => StmtV::Return(Some(e.view())),
            Stmt::If(i) => StmtV::If(
                i.cond.view(),
                Box::new((*i.then_branch).view()),
                match i.else_branch {
                    None => None,
                    Some(e) => Some(Box::new((*e).view())),
                },
            ),
            Stmt::While(w) => StmtV::While(w.cond.view(), Box::new((*w.body).view())),
            Stmt::Compound(ss) => StmtV::Compound(stmts_view(ss@, ss@.len())),
            Stmt::Empty => StmtV::Empty,
        }
    }
}

/// The contents of the first `k` statements of a list.
pub open spec fn stmts_view(s: Seq<Stmt>, k: nat) -> Seq<StmtV>
    decreases s, k,
{
    if k == 0 || k > s.len() {
        Seq::empty()
    } else {
        stmts_view(s, (k - 1) as nat).push(s[k - 1].view())
    }
}

impl Block {
    /// The content of this block.
    pub open spec fn view(&self) -> BlockV
        decreases self, 0nat,
    {
        BlockV {
            decls: decls_view(self.declarations@, self.declarations@.len()),
            stmts: stmts_view(self.statements@, self.statements@.len()),
        }
    }
}

/// The contents of the first `k` declarations of a list.
pub open spec fn decls_view(s: Seq<Decl>, k: nat) -> Seq<DeclV>
    decreases s, k,
{
    if k == 0 || k > s.len() {
        Seq::empty()
    } else {
        decls_view(s, (k - 1) as nat).push(decl_view(s[k - 1]))
    }
}

/// The content of a declaration.
pub open spec fn decl_view(d: Decl) -> DeclV
    decreases d, 0nat,
{
    match d {
        Decl::Var(v) => DeclV::Var(v.name@, v.ty),
        Decl::Proc(p) => DeclV::Proc(p.name@, params_view(p.params@), p.block.view()),
        Decl::Func(f) => DeclV::Func(f.name@, params_view(f.params@), f.return_type, f.block.view()),
    }
}

impl Program {
    /// The content of this program.
    pub open spec fn view(&self) -> ProgramV {
        ProgramV { name: self.name@, uses: names_view(self.uses@), block: self.block.view() }
    }
}

/// Appending an expression appends its content.
pub proof fn lemma_exprs_view_push(s: Seq<Expr>, e: Expr)
    ensures
        exprs_view(s.push(e), s.len() + 1) == exprs_view(s, s.len()).push(e.view()),
{
    lemma_exprs_view_prefix(s, e, s.len());
}

/// The contents of a prefix do not depend on what follows it.
proof fn lemma_exprs_view_prefix(s: Seq<Expr>, e: Expr, k: nat)
    requires
        k <= s.len(),
    ensures
        exprs_view(s.push(e), k) == exprs_view(s, k),
    decreases k,
{
    if k > 0 {
        lemma_exprs_view_prefix(s, e, (k - 1) as nat);
    }
}

/// Appending a statement appends its content.
pub proof fn lemma_stmts_view_push(s: Seq<Stmt>, x: Stmt)
    ensures
        stmts_view(s.push(x), s.len() + 1) == stmts_view(s, s.len()).push(x.view()),
{
    lemma_stmts_view_prefix(s, x, s.len());
}

/// The contents of a prefix do not depend on what follows it.
proof fn lemma_stmts_view_prefix(s: Seq<Stmt>, x: Stmt, k: nat)
    requires
        k <= s.len(),
    ensures
        stmts_view(s.push(x), k) == stmts_view(s, k),
    decreases k,
{
    if k > 0 {
        lemma_stmts_view_prefix(s, x, (k - 1) as nat);
    }
}

/// Appending a declaration appends its content.
pub proof fn lemma_decls_view_push(s: Seq<Decl>, d: Decl)
    ensures
        decls_view(s.push(d), s.len() + 1) == decls_view(s, s.len()).push(decl_view(d)),
{
    lemma_decls_view_prefix(s, d, s.len());
}

/// The contents of a prefix do not depend on what follows it.
proof fn lemma_decls_view_prefix(s: Seq<Decl>, d: Decl, k: nat)
    requires
        k <= s.len(),
    ensures
        decls_view(s.push(d), k) == decls_view(s, k),
    decreases k,
{
    if k > 0 {
        lemma_decls_view_prefix(s, d, (k - 1) as nat);
    }
}

} // verus!
