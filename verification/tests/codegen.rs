use cerberus::codegen::expr::builtins::try_emit;
use cerberus::codegen::stmt::builtins::bc_emit::emit_bc_emit;
use cerberus::codegen::stmt::builtins::emit_bc_control;
use cerberus::ast::{BinaryOp, CallExpr, Expr, Type};
use cerberus::bytecode::format::{decode_bytecode, encode_bytecode};
use cerberus::bytecode::{disassemble, Bytecode, Function, Instr, OpCode};
use cerberus::codegen::expr::emit_expr;
use cerberus::codegen::symbols::Symbols;
use cerberus::codegen::Codegen;
use cerberus::driver::{compile_program, parse_source};

fn compile(src: &str, skip_typecheck: bool) -> Result<Bytecode, String> {
    let prog = parse_source(src).map_err(|e| e.message)?;
    compile_program(&prog, "mod", skip_typecheck).map_err(|e| e.message)
}

fn mnemonics(code: &[Instr]) -> Vec<String> {
    let mut out = Vec::new();
    for i in code {
        out.push(i.opcode().mnemonic().to_string());
    }
    out
}

const COUNTDOWN: &str = "program demo;
var x: integer;
begin
  x := 3;
  while x > 0 do x := x - 1;
  writeln('done')
end.";

#[test]
fn countdown_listing() {
    let bc = compile(COUNTDOWN, false).unwrap();
    let expected = "bytecode: demo::mod
entry: 0
functions: 1

fn #0 main (params: 0, locals: 1)
0000  const_int 3
0001  store 0
0002  load 0
0003  const_int 0
0004  gt
0005  jump_if_false 11
0006  load 0
0007  const_int 1
0008  sub
0009  store 0
0010  jump 2
0011  const_str \"done\"
0012  print_ln
0013  ret
";
    assert_eq!(disassemble(&bc), expected);
}

#[test]
fn if_else_jumps() {
    let bc = compile(
        "program p; var b: boolean; begin if b then writeln(1) else writeln(2) end.",
        false,
    )
    .unwrap();
    let code = &bc.functions[0].code;
    assert_eq!(
        mnemonics(code),
        vec!["load", "jump_if_false", "const_int", "print_ln", "jump", "const_int", "print_ln", "ret"]
    );
    assert!(matches!(code[1], Instr::JumpIfFalse(5)));
    assert!(matches!(code[4], Instr::Jump(7)));
}

#[test]
fn procedures_are_registered_and_called() {
    let src = "program p;
procedure greet(n: integer);
begin writeln(n) end;
begin greet(7) end.";
    let bc = compile(src, false).unwrap();
    assert_eq!(bc.name, "p::mod");
    assert_eq!(bc.entry, 0);
    assert_eq!(bc.functions.len(), 2);
    let main = &bc.functions[0];
    assert_eq!(main.name, "main");
    assert_eq!((main.param_count, main.locals), (0, 0));
    assert_eq!(mnemonics(&main.code), vec!["const_int", "call", "ret"]);
    assert!(matches!(main.code[1], Instr::Call(1)));
    let greet = &bc.functions[1];
    assert_eq!(greet.name, "greet");
    assert_eq!((greet.param_count, greet.locals), (1, 1));
    assert_eq!(mnemonics(&greet.code), vec!["load", "print_ln", "ret"]);
}

#[test]
fn string_equality_uses_string_compare() {
    let bc = compile("program p; var s: string; begin writeln(s = 'a'); writeln(s <> 'b') end.", false)
        .unwrap();
    assert_eq!(
        mnemonics(&bc.functions[0].code),
        vec!["load", "const_str", "str_eq", "print_ln", "load", "const_str", "str_ne", "print_ln", "ret"]
    );
}

#[test]
fn arrays_are_allocated() {
    let bc = compile("program p; var a: array [4] of integer; begin a[1] := 9 end.", false).unwrap();
    let code = &bc.functions[0].code;
    assert!(matches!(code[0], Instr::AllocArray(4)));
    assert!(matches!(code[1], Instr::Store(0)));
}

#[test]
fn typecheck_errors_stop_compilation() {
    let e = compile("program p; var x: integer; begin x := true end.", false).unwrap_err();
    assert_eq!(e, "type mismatch: 'x' is Integer but assigned Boolean");
    let e = compile("program p; begin if 1 then writeln(1) end.", false).unwrap_err();
    assert_eq!(e, "type error in if condition: expected boolean");
    let e = compile("program p; begin writeln(y) end.", false).unwrap_err();
    assert_eq!(e, "unknown variable 'y'");
}

#[test]
fn skipping_the_typecheck() {
    assert!(compile("program p; var x: integer; begin x := true end.", true).is_ok());
    let e = compile("program p; begin writeln(y) end.", true).unwrap_err();
    assert_eq!(e, "unknown variable 'y'");
}

#[test]
fn duplicate_variable_in_codegen() {
    let e = compile("program p; var x: integer; x: boolean; begin end.", true).unwrap_err();
    assert_eq!(e, "duplicate variable 'x'");
}

#[test]
fn builtin_arity_is_checked() {
    let e = compile("program p; begin writeln(strlen('a', 'b')) end.", true).unwrap_err();
    assert_eq!(e, "strlen expects 1 argument");
    let bc = compile("program p; begin writeln(strlen('abc')) end.", true).unwrap();
    assert_eq!(mnemonics(&bc.functions[0].code), vec!["const_str", "str_len", "print_ln", "ret"]);
}

#[test]
fn symbols_declare_and_get() {
    let mut s = Symbols::new();
    assert_eq!(s.count(), 0);
    assert_eq!(s.declare("a", &Type::Integer).unwrap(), 0);
    assert_eq!(s.declare("b", &Type::String).unwrap(), 1);
    assert_eq!(s.count(), 2);
    assert_eq!(s.get("b").unwrap(), 1);
    assert!(matches!(s.get_type("a"), Some(Type::Integer)));
    assert!(s.get_type("c").is_none());
    assert_eq!(s.get("c").unwrap_err().message, "unknown variable 'c'");
    assert_eq!(s.declare("a", &Type::Boolean).unwrap_err().message, "duplicate variable 'a'");
    assert_eq!(s.count(), 2);
}

#[test]
fn expression_code_by_hand() {
    let mut cg = Codegen::new("p", "m");
    let e = Expr::Binary {
        op: BinaryOp::Mul,
        left: Box::new(Expr::Int(6)),
        right: Box::new(Expr::Call(CallExpr { name: "f".to_string(), args: vec![Expr::Bool(true)] })),
    };
    emit_expr(&mut cg, &e).unwrap();
    assert_eq!(mnemonics(&cg.code), vec!["const_int", "const_bool", "call", "mul"]);
    assert_eq!(cg.functions.len(), 1);
    assert_eq!(cg.functions[0].name, "f");
    assert_eq!(cg.functions[0].param_count, 1);
}

#[test]
fn bytecode_round_trip() {
    let bc = compile(COUNTDOWN, false).unwrap();
    let bytes = encode_bytecode(&bc);
    let back = decode_bytecode(&bytes).unwrap();
    assert_eq!(disassemble(&back), disassemble(&bc));
}

#[test]
fn bytecode_layout() {
    let bc = Bytecode {
        name: "a::b".to_string(),
        functions: vec![Function { name: "m".to_string(), param_count: 0, locals: 2, code: vec![Instr::Ret] }],
        entry: 0,
    };
    let bytes = encode_bytecode(&bc);
    let ret = OpCode::Ret.code();
    let expected: Vec<u8> = vec![
        67, 69, 82, 66, 2, 1, 0, 0, 0, 0, 0, 0, 0, 4, 0, 0, 0, b'a', b':', b':', b'b', 1, 0, 0, 0, b'm',
        0, 0, 0, 0, 2, 0, 0, 0, 1, 0, 0, 0, ret,
    ];
    assert_eq!(bytes, expected);
}

#[test]
fn bytecode_decode_errors() {
    assert_eq!(decode_bytecode(b"CER").unwrap_err().message, "invalid bytecode header");
    assert_eq!(decode_bytecode(b"XERB\x02").unwrap_err().message, "invalid bytecode header");
    assert_eq!(decode_bytecode(b"CERB\x01").unwrap_err().message, "unsupported bytecode version");
    assert_eq!(decode_bytecode(b"CERB\x02\x01\x00").unwrap_err().message, "unexpected end of bytecode");
    let bad_str = b"CERB\x02\x00\x00\x00\x00\x00\x00\x00\x00\x01\x00\x00\x00\xff";
    assert_eq!(decode_bytecode(bad_str).unwrap_err().message, "invalid bytecode string");
}

#[test]
fn unknown_opcode_is_refused() {
    let mut bytes = encode_bytecode(&Bytecode {
        name: String::new(),
        functions: vec![Function { name: String::new(), param_count: 0, locals: 0, code: vec![Instr::Ret] }],
        entry: 0,
    });
    let last = bytes.len() - 1;
    bytes[last] = 255;
    assert_eq!(decode_bytecode(&bytes).unwrap_err().message, "unknown bytecode opcode");
}

#[test]
fn opcode_bytes_round_trip() {
    for b in 0u8..=255 {
        if let Some(op) = OpCode::from_code(b) {
            assert_eq!(op.code(), b);
        }
    }
    assert_eq!(OpCode::from_code(OpCode::PrintLn.code()), Some(OpCode::PrintLn));
}

#[test]
fn checked_builtins_compile_as_builtins() {
    let bc = compile("program p; begin log_str('x'); writeln(now_timestamp()) end.", false).unwrap();
    assert_eq!(bc.functions.len(), 1);
    assert_eq!(
        mnemonics(&bc.functions[0].code),
        vec!["const_str", "log_str", "now_timestamp", "print_ln", "ret"]
    );
}

#[test]
fn os_exec_is_checked_but_compiled_as_a_call() {
    let bc = compile("program p; begin writeln(os_exec('ls')) end.", false).unwrap();
    assert_eq!(bc.functions.len(), 2);
    assert_eq!(bc.functions[1].name, "os_exec");
    assert!(bc.functions[1].code.is_empty());
    assert!(matches!(bc.functions[0].code[1], Instr::Call(1)));
}

#[test]
fn registering_a_name_twice_reuses_it() {
    let mut cg = Codegen::new("p", "m");
    let call = Expr::Call(CallExpr { name: "g".to_string(), args: vec![] });
    emit_expr(&mut cg, &call).unwrap();
    emit_expr(&mut cg, &call).unwrap();
    assert_eq!(cg.functions.len(), 1);
    assert!(matches!(cg.code[0], Instr::Call(0)));
    assert!(matches!(cg.code[1], Instr::Call(0)));
    assert_eq!(cg.register_function("g", 5).unwrap(), 0);
    assert_eq!(cg.functions[0].param_count, 0);
    assert_eq!(cg.register_function("h", 2).unwrap(), 1);
}

#[test]
fn jumps_and_calls_stay_inside_the_program() {
    let nested = "program p;
var b: boolean;
procedure f;
var c: boolean;
begin
  while c do if c then writeln(1) else c := false
end;
begin if b then f() end.";
    for src in [COUNTDOWN, nested] {
        let bc = compile(src, false).unwrap();
        assert!((bc.entry as usize) < bc.functions.len());
        for f in &bc.functions {
            for i in &f.code {
                match i {
                    Instr::Jump(t) | Instr::JumpIfFalse(t) => assert!((*t as usize) < f.code.len()),
                    Instr::Call(k) => assert!((*k as usize) < bc.functions.len()),
                    _ => {}
                }
            }
        }
    }
}

#[test]
fn procedures_do_not_see_the_main_block_variables() {
    let src = "program p; var b: boolean; procedure f; begin writeln(b) end; begin f() end.";
    assert_eq!(compile(src, false).unwrap_err(), "unknown variable 'b'");
}

#[test]
fn wrong_builtin_argument_counts_leave_the_generator_alone() {
    let mut cg = Codegen::new("p", "m");
    cg.emit(Instr::Ret);
    let call = CallExpr { name: "option_some_int".to_string(), args: vec![Expr::Int(1), Expr::Int(2)] };
    let e = try_emit(&mut cg, &call).unwrap_err();
    assert_eq!(e.message, "option_some_int expects 1 argument");
    assert_eq!(mnemonics(&cg.code), vec!["ret"]);
    assert!(cg.functions.is_empty());
    let e = emit_bc_emit(&mut cg, "bc_emit_load", &vec![Expr::Int(1), Expr::Int(2)]).unwrap_err();
    assert_eq!(e.message, "bc_emit_load expects 0 or 1 argument");
    assert_eq!(mnemonics(&cg.code), vec!["ret"]);
}

#[test]
fn builder_names_compile_like_bc_names() {
    for (a, b, args) in [
        ("builder_new", "bc_new", vec![Expr::Str("x".to_string())]),
        ("builder_func_begin", "bc_func_begin", vec![Expr::Str("f".to_string()), Expr::Int(0)]),
        ("builder_emit_halt", "bc_emit_halt", vec![]),
    ] {
        let mut c1 = Codegen::new("p", "m");
        let mut c2 = Codegen::new("p", "m");
        assert!(emit_bc_control(&mut c1, a, &args).unwrap());
        assert!(emit_bc_control(&mut c2, b, &args).unwrap());
        assert_eq!(mnemonics(&c1.code), mnemonics(&c2.code));
    }
}
