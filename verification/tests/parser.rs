use cerberus::ast::{BinaryOp, Decl, Expr, Stmt, Type, UnaryOp};
use cerberus::driver::parse_source;
use cerberus::parser::block::parse_block;
use cerberus::parser::expr::parse_expr;
use cerberus::parser::types::parse_type;
use cerberus::parser::Parser;

const DEMO: &str = "program demo;
var x, y: integer;
    s: string;
begin
  x := 1 + 2 * 3;
  if x > 5 then writeln(x) else writeln(0);
  while x > 0 do x := x - 1;
  s := 'hi'
end.
";

fn is_int(e: &Expr, v: i64) -> bool {
    matches!(e, Expr::Int(n) if *n == v)
}

#[test]
fn parses_a_whole_program() {
    let mut p = Parser::new(DEMO).unwrap();
    let prog = p.parse_program().unwrap();
    assert_eq!(prog.name, "demo");
    assert!(prog.uses.is_empty());
    let decls = &prog.block.declarations;
    assert_eq!(decls.len(), 3);
    match &decls[0] {
        Decl::Var(v) => {
            assert_eq!(v.name, "x");
            assert!(matches!(v.ty, Type::Integer));
        }
        _ => panic!("expected a variable"),
    }
    match &decls[1] {
        Decl::Var(v) => assert_eq!(v.name, "y"),
        _ => panic!("expected a variable"),
    }
    match &decls[2] {
        Decl::Var(v) => {
            assert_eq!(v.name, "s");
            assert!(matches!(v.ty, Type::String));
        }
        _ => panic!("expected a variable"),
    }
    let stmts = &prog.block.statements;
    assert_eq!(stmts.len(), 4);
    match &stmts[0] {
        Stmt::Assign(a) => {
            assert_eq!(a.name, "x");
            match &a.expr {
                Expr::Binary { op: BinaryOp::Add, left, right } => {
                    assert!(is_int(left, 1));
                    match &**right {
                        Expr::Binary { op: BinaryOp::Mul, left, right } => {
                            assert!(is_int(left, 2));
                            assert!(is_int(right, 3));
                        }
                        _ => panic!("expected a product"),
                    }
                }
                _ => panic!("expected a sum"),
            }
        }
        _ => panic!("expected an assignment"),
    }
    match &stmts[1] {
        Stmt::If(s) => {
            assert!(matches!(&s.cond, Expr::Binary { op: BinaryOp::Gt, .. }));
            assert!(matches!(&*s.then_branch, Stmt::Writeln(Expr::Var(n)) if n == "x"));
            assert!(matches!(s.else_branch.as_deref(), Some(Stmt::Writeln(Expr::Int(0)))));
        }
        _ => panic!("expected an if"),
    }
    assert!(matches!(&stmts[2], Stmt::While(_)));
    assert!(matches!(&stmts[3], Stmt::Assign(a) if a.name == "s" && matches!(&a.expr, Expr::Str(t) if t == "hi")));
}

#[test]
fn parse_source_agrees_with_parser() {
    let prog = parse_source(DEMO).unwrap();
    assert_eq!(prog.name, "demo");
    assert_eq!(prog.block.statements.len(), 4);
}

#[test]
fn uses_clause_and_subprograms() {
    let src = "program p; uses a, b;
procedure hello(n: integer; t: string);
begin writeln(t) end;
function twice(n: integer): integer;
begin return n * 2 end;
begin hello(1, 'x') end.";
    let prog = parse_source(src).unwrap();
    assert_eq!(prog.uses, vec!["a".to_string(), "b".to_string()]);
    assert_eq!(prog.block.declarations.len(), 2);
    match &prog.block.declarations[0] {
        Decl::Proc(d) => {
            assert_eq!(d.name, "hello");
            assert_eq!(d.params.len(), 2);
            assert_eq!(d.params[1].name, "t");
            assert!(matches!(d.params[1].ty, Type::String));
        }
        _ => panic!("expected a procedure"),
    }
    match &prog.block.declarations[1] {
        Decl::Func(d) => {
            assert_eq!(d.name, "twice");
            assert!(matches!(d.return_type, Type::Integer));
            assert!(matches!(&d.block.statements[0], Stmt::Return(Some(_))));
        }
        _ => panic!("expected a function"),
    }
    assert!(matches!(&prog.block.statements[0], Stmt::Call(c) if c.name == "hello" && c.args.len() == 2));
}

#[test]
fn empty_statements_are_kept() {
    let prog = parse_source("program p; begin ; end.").unwrap();
    assert_eq!(prog.block.statements.len(), 1);
    assert!(matches!(prog.block.statements[0], Stmt::Empty));
}

#[test]
fn missing_semicolon_after_name() {
    let e = parse_source("program demo begin end.").unwrap_err();
    assert_eq!(e.message, "expected ';'");
    let sp = e.span.unwrap();
    assert_eq!((sp.line, sp.col, sp.len), (1, 14, 5));
}

#[test]
fn missing_final_dot() {
    let e = parse_source("program demo; begin end").unwrap_err();
    assert_eq!(e.message, "expected '.'");
}

#[test]
fn trailing_text_after_dot() {
    let e = parse_source("program demo; begin end. x").unwrap_err();
    assert_eq!(e.message, "expected end of file");
}

#[test]
fn statement_separator_required() {
    let e = parse_source("program p; begin x := 1 y := 2 end.").unwrap_err();
    assert_eq!(e.message, "expected ';' or 'end'");
}

#[test]
fn lexer_error_reaches_the_parser() {
    let e = parse_source("program p; begin x := 'open end.").unwrap_err();
    assert_eq!(e.message, "unterminated string literal");
}

#[test]
fn expression_precedence_and_unary() {
    let mut p = Parser::new("not a or b and c = -1").unwrap();
    let e = parse_expr(&mut p).unwrap();
    match e {
        Expr::Binary { op: BinaryOp::Or, left, right } => {
            assert!(matches!(*left, Expr::Unary { op: UnaryOp::Not, .. }));
            match *right {
                Expr::Binary { op: BinaryOp::And, right, .. } => match *right {
                    Expr::Binary { op: BinaryOp::Eq, right, .. } => {
                        assert!(matches!(*right, Expr::Unary { op: UnaryOp::Neg, .. }));
                    }
                    _ => panic!("expected an equality"),
                },
                _ => panic!("expected a conjunction"),
            }
        }
        _ => panic!("expected a disjunction"),
    }
}

#[test]
fn subtraction_groups_to_the_left() {
    let mut p = Parser::new("10 - 3 - 2").unwrap();
    match parse_expr(&mut p).unwrap() {
        Expr::Binary { op: BinaryOp::Sub, left, right } => {
            assert!(is_int(&right, 2));
            assert!(matches!(*left, Expr::Binary { op: BinaryOp::Sub, .. }));
        }
        _ => panic!("expected a difference"),
    }
}

#[test]
fn calls_and_indexing() {
    let mut p = Parser::new("f(a[1], 'z')").unwrap();
    match parse_expr(&mut p).unwrap() {
        Expr::Call(c) => {
            assert_eq!(c.name, "f");
            assert_eq!(c.args.len(), 2);
            assert!(matches!(&c.args[0], Expr::Index { name, .. } if name == "a"));
        }
        _ => panic!("expected a call"),
    }
}

#[test]
fn missing_expression() {
    let mut p = Parser::new(")").unwrap();
    let e = parse_expr(&mut p).unwrap_err();
    assert_eq!(e.message, "expected expression");
}

#[test]
fn types_of_every_shape() {
    let mut p = Parser::new("array [3] of boolean").unwrap();
    match parse_type(&mut p).unwrap() {
        Type::Array { elem, len } => {
            assert_eq!(len, 3);
            assert!(matches!(*elem, Type::Boolean));
        }
        _ => panic!("expected an array"),
    }
    let mut p = Parser::new("vector").unwrap();
    assert!(matches!(parse_type(&mut p).unwrap(), Type::Vector(t) if matches!(*t, Type::Integer)));
    let mut p = Parser::new("list of string").unwrap();
    assert!(matches!(parse_type(&mut p).unwrap(), Type::Vector(t) if matches!(*t, Type::String)));
    let mut p = Parser::new("option integer").unwrap();
    assert!(matches!(parse_type(&mut p).unwrap(), Type::Option(_)));
    let mut p = Parser::new("result string").unwrap();
    assert!(matches!(parse_type(&mut p).unwrap(), Type::Result(_)));
}

#[test]
fn option_of_array_is_refused() {
    let mut p = Parser::new("option array [2] of integer").unwrap();
    let e = parse_type(&mut p).unwrap_err();
    assert_eq!(e.message, "option only supports integer, boolean, or string");
    assert!(e.span.is_none());
}

#[test]
fn block_with_var_section() {
    let mut p = Parser::new("var a: boolean; begin a := true end").unwrap();
    let b = parse_block(&mut p).unwrap();
    assert_eq!(b.declarations.len(), 1);
    assert_eq!(b.statements.len(), 1);
}
