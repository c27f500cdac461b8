use cerberus::ast::{Decl, Expr, Type};
use cerberus::driver::{
    check_module_body, is_vm_text_script, local_module_candidates, parse_source, prepend_declarations,
    stdlib_module_candidates,
};
use cerberus::error::{line_text, lines_of, CompileError, Span};
use cerberus::typecheck::builtins::register_builtins;
use cerberus::typecheck::env::TypeEnv;
use cerberus::typecheck::expr::check_expr;
use cerberus::typecheck::types::{expect_bool, expect_int, expect_printable};
use cerberus::typecheck::TypeChecker;

fn check(src: &str) -> Result<(), String> {
    let prog = parse_source(src).map_err(|e| e.message)?;
    let mut tc = TypeChecker::new();
    tc.check_program(&prog).map_err(|e| e.message)
}

#[test]
fn well_typed_program_passes() {
    let src = "program p;
var n: integer; ok: boolean; s: string;
function sq(x: integer): integer;
begin return x * x end;
procedure show(t: string);
begin writeln(t) end;
begin
  n := sq(4);
  ok := (n = 16) and not false;
  s := concat('a', 'b');
  show(s);
  if ok then writeln(n)
end.";
    assert_eq!(check(src), Ok(()));
}

#[test]
fn type_errors_name_the_problem() {
    assert_eq!(check("program p; var x: integer; begin x := 'a' end."), Err("type mismatch: 'x' is Integer but assigned String".to_string()));
    assert_eq!(check("program p; begin while 1 do writeln(1) end."), Err("type error in while condition: expected boolean".to_string()));
    assert_eq!(check("program p; begin writeln(1 + true) end."), Err("type error in binary arithmetic: expected integer".to_string()));
    assert_eq!(check("program p; begin writeln(1 = 'a') end."), Err("type error in comparison: operands must have same type".to_string()));
    assert_eq!(check("program p; begin writeln(nothere(1)) end."), Err("unknown function 'nothere'".to_string()));
    assert_eq!(check("program p; begin nothere(1) end."), Err("unknown procedure 'nothere'".to_string()));
    assert_eq!(check("program p; begin return 1 end."), Err("return with value is not allowed in procedure".to_string()));
}

#[test]
fn declaration_errors() {
    assert_eq!(check("program p; var x: integer; x: integer; begin end."), Err("duplicate variable 'x'".to_string()));
    assert_eq!(check("program p; var a: array [2] of boolean; begin end."), Err("only arrays of integer are supported".to_string()));
    let src = "program p;
procedure f; begin end;
procedure f; begin end;
begin end.";
    assert_eq!(check(src), Err("duplicate procedure 'f'".to_string()));
}

#[test]
fn argument_checks() {
    let src = "program p;
function f(a: integer): integer; begin return a end;
begin writeln(f(1, 2)) end.";
    assert_eq!(check(src), Err("function argument count mismatch".to_string()));
    let src = "program p;
function f(a: integer): integer; begin return a end;
begin writeln(f('x')) end.";
    assert_eq!(check(src), Err("function argument type mismatch".to_string()));
    let src = "program p;
function f(a: integer): integer; begin return end;
begin writeln(f(1)) end.";
    assert_eq!(check(src), Err("return without value is not allowed in function".to_string()));
}

#[test]
fn parameters_stay_in_scope_after_their_procedure() {
    let src = "program p;
procedure f(a: integer); begin writeln(a) end;
begin writeln(a) end.";
    assert_eq!(check(src), Ok(()));
    let src = "program p;
procedure f; var a: integer; begin writeln(a) end;
begin writeln(a) end.";
    assert_eq!(check(src), Err("unknown variable 'a'".to_string()));
}

#[test]
fn checker_is_reusable_after_success() {
    let prog = parse_source("program p; var x: integer; begin x := 1 end.").unwrap();
    let mut tc = TypeChecker::new();
    assert!(tc.check_program(&prog).is_ok());
    assert!(tc.check_program(&prog).is_ok());
}

#[test]
fn environment_lookups() {
    let mut env = TypeEnv::new();
    assert!(env.var_type("x").is_none());
    assert!(env.func_index("strlen").is_none());
    register_builtins(&mut env);
    assert!(env.func_index("strlen").is_some());
    let t = check_expr(&mut env, &Expr::Str("abc".to_string())).unwrap();
    assert!(matches!(t, Type::String));
    let e = check_expr(&mut env, &Expr::Var("q".to_string())).unwrap_err();
    assert_eq!(e.message, "unknown variable 'q'");
}

#[test]
fn expectations_on_types() {
    assert!(expect_int(&Type::Integer, "x").is_ok());
    assert_eq!(expect_int(&Type::String, "ctx").unwrap_err().message, "type error in ctx: expected integer");
    assert!(expect_bool(&Type::Boolean, "x").is_ok());
    assert_eq!(expect_bool(&Type::Integer, "c").unwrap_err().message, "type error in c: expected boolean");
    assert!(expect_printable(&Type::String, "w").is_ok());
    assert_eq!(
        expect_printable(&Type::StackInt, "writeln").unwrap_err().message,
        "type error in writeln: expected integer, boolean, or string"
    );
}

#[test]
fn vm_text_detection() {
    assert!(is_vm_text_script("const_int 1\nprintln"));
    assert!(is_vm_text_script("# comment\n\n  HALT;  "));
    assert!(is_vm_text_script("label start # note"));
    assert!(!is_vm_text_script("program p; begin end."));
    assert!(!is_vm_text_script(""));
    assert!(!is_vm_text_script("# only\n   # comments"));
}

#[test]
fn module_candidates() {
    let local = local_module_candidates("m");
    assert_eq!(local.len(), 21);
    assert_eq!(local[0], vec!["m.cer".to_string()]);
    assert_eq!(local[7], vec!["vm".to_string(), "runtime".to_string(), "m.cerberus".to_string()]);
    assert_eq!(local[20], vec!["typecheck".to_string(), "builtins".to_string(), "m.cer".to_string()]);
    let std = stdlib_module_candidates("m");
    assert_eq!(std.len(), 25);
    assert_eq!(std[3], vec!["lexer".to_string(), "scanner".to_string(), "m.cer".to_string()]);
    assert_eq!(std[24], vec!["runtime".to_string(), "vm".to_string(), "runtime".to_string(), "m.cerberus".to_string()]);
}

#[test]
fn declarations_are_prepended() {
    let mut prog = parse_source("program p; var b: integer; begin b := 1 end.").unwrap();
    let module = parse_source("program m; var a: integer; begin end.").unwrap();
    prepend_declarations(&mut prog, module.block.declarations);
    assert_eq!(prog.block.declarations.len(), 2);
    assert!(matches!(&prog.block.declarations[0], Decl::Var(v) if v.name == "a"));
    assert!(matches!(&prog.block.declarations[1], Decl::Var(v) if v.name == "b"));
    assert_eq!(prog.block.statements.len(), 1);
}

#[test]
fn modules_hold_only_declarations() {
    let ok = parse_source("program m; var a: integer; begin ; end.").unwrap();
    assert!(check_module_body(&ok, "m").is_ok());
    let bad = parse_source("program m; begin writeln(1) end.").unwrap();
    assert_eq!(check_module_body(&bad, "m").unwrap_err().message, "module 'm' must not contain statements");
}

#[test]
fn render_with_a_place() {
    let e = CompileError::new("expected ';'".to_string(), Span { line: 1, col: 14, len: 5 });
    assert_eq!(
        e.render("program demo begin end."),
        "error: expected ';'\n --> 1:14\n  |\n1 | program demo begin end.\n  |              ^^^^^"
    );
}

#[test]
fn render_without_a_place() {
    let e = CompileError::new_simple("boom".to_string());
    assert_eq!(e.render("anything"), "error: boom");
}

#[test]
fn render_past_the_last_line_and_zero_length() {
    let e = CompileError::new("m".to_string(), Span { line: 5, col: 1, len: 0 });
    assert_eq!(e.render("one\ntwo"), "error: m\n --> 5:1\n  |\n5 | \n  | ^");
}

#[test]
fn lines_follow_str_lines() {
    assert_eq!(lines_of("a\r\nbc\n\nd\n"), vec!["a".to_string(), "bc".to_string(), String::new(), "d".to_string()]);
    assert_eq!(lines_of(""), Vec::<String>::new());
    assert_eq!(line_text("a\r\nbc\r\n", 1), "bc");
    assert_eq!(line_text("x\ny", 7), "");
}

#[test]
fn one_line_text_ignores_the_place() {
    let e = CompileError::new("bad".to_string(), Span { line: 3, col: 2, len: 1 });
    assert_eq!(e.display(), "error: bad");
}
