use cerberus::aot::fold::{asm_div_overflows, asm_value_to_string, evaluate_asm_stdout_lines, pop_asm, pop_int_asm, pop_str_asm, AsmValue};
use cerberus::aot::nasm::{bytes_to_nasm_db, generate_nasm_linux_source, generate_nasm_win64_source};
use cerberus::aot::package::{
    features_supported, is_int_token, parse_int_range, toolchain_char_value, toolchain_checksum,
};
use cerberus::aot::script::{
    decode_double_quoted, parse_vm_op_arg, parse_vm_string_literal, split_vm_lines, strip_vm_inline_comment,
};
use cerberus::aot::{normalize_vm_script_or_package, prepare_native_script, resolve_vm_script_or_package, AotBackend};

fn strings(v: &[&str]) -> Vec<String> {
    v.iter().map(|s| s.to_string()).collect()
}

fn run(script: &str) -> Result<Vec<String>, String> {
    evaluate_asm_stdout_lines(script).map_err(|e| e.message)
}

fn resolve(raw: &str) -> Result<String, String> {
    normalize_vm_script_or_package(raw).map_err(|e| e.message)
}

#[test]
fn backend_names() {
    assert_eq!(AotBackend::parse(" ASM "), Some(AotBackend::Asm));
    assert_eq!(AotBackend::parse("auto"), Some(AotBackend::Auto));
    assert_eq!(AotBackend::parse("Rust\n"), Some(AotBackend::Rust));
    assert_eq!(AotBackend::parse("llvm"), None);
    assert_eq!(AotBackend::parse(""), None);
    for b in [AotBackend::Auto, AotBackend::Asm, AotBackend::Rust] {
        assert_eq!(AotBackend::parse(b.as_str()), Some(b));
    }
    assert_eq!(AotBackend::Asm.as_str(), "asm");
}

#[test]
fn integer_tokens() {
    assert!(is_int_token("  -12 "));
    assert!(is_int_token("007"));
    assert!(!is_int_token("-"));
    assert!(!is_int_token(""));
    assert!(!is_int_token("   "));
    assert!(!is_int_token("1a"));
    assert!(!is_int_token("+1"));
}

#[test]
fn integer_ranges() {
    let v: Vec<char> = "x-42y".chars().collect();
    assert_eq!(parse_int_range(&v, 1, 4), Some(-42));
    assert_eq!(parse_int_range(&v, 0, 4), None);
    let big: Vec<char> = "9223372036854775808".chars().collect();
    assert_eq!(parse_int_range(&big, 0, big.len()), None);
}

#[test]
fn feature_lists() {
    assert!(features_supported("core, io ,strings"));
    assert!(features_supported("core,io,collections,fs,time,strings"));
    assert!(!features_supported("core,,io"));
    assert!(!features_supported("gpu"));
    assert!(!features_supported("  "));
    assert!(!features_supported("core,"));
}

#[test]
fn checksum_values() {
    assert_eq!(toolchain_char_value('0'), 1);
    assert_eq!(toolchain_char_value('a'), 11);
    assert_eq!(toolchain_char_value('A'), 37);
    assert_eq!(toolchain_char_value(' '), 79);
    assert_eq!(toolchain_char_value('\''), 109);
    assert_eq!(toolchain_char_value('é'), 251);
    assert_eq!(toolchain_checksum(""), "1");
    assert_eq!(toolchain_checksum("x"), "1120140");
    assert_eq!(toolchain_checksum("const_int 1;println"), "204627819");
    assert_eq!(toolchain_checksum("hello world"), "57253671");
    assert_eq!(toolchain_checksum("é"), "8065008");
}

#[test]
fn script_lines() {
    assert_eq!(
        split_vm_lines("const_int 1; println\n# c\nconst_str 'a;b' # x\r\n  \n"),
        strings(&["const_int 1", "println", "const_str 'a;b'"])
    );
    assert_eq!(split_vm_lines("const_str \"q\\\";x\""), strings(&["const_str \"q\\\";x\""]));
    assert!(split_vm_lines(";;\n").is_empty());
}

#[test]
fn inline_comments() {
    assert_eq!(strip_vm_inline_comment("push 'a#b' # c"), "push 'a#b'");
    assert_eq!(strip_vm_inline_comment("  # all"), "");
    assert_eq!(strip_vm_inline_comment("x \"#\\\"#\" y#z"), "x \"#\\\"#\" y");
}

#[test]
fn operations_and_arguments() {
    assert_eq!(parse_vm_op_arg("  CONST_INT   42 "), ("const_int".to_string(), "42".to_string()));
    assert_eq!(parse_vm_op_arg("Halt"), ("halt".to_string(), String::new()));
    assert_eq!(parse_vm_op_arg("   "), (String::new(), String::new()));
    assert_eq!(parse_vm_op_arg("const_str\t'A b'"), ("const_str".to_string(), "'A b'".to_string()));
}

#[test]
fn string_literals() {
    assert_eq!(parse_vm_string_literal("'it''s'"), "it's");
    assert_eq!(parse_vm_string_literal(" \"a\\nb\" "), "a\nb");
    assert_eq!(parse_vm_string_literal("bare"), "bare");
    assert_eq!(parse_vm_string_literal("'"), "'");
    assert_eq!(parse_vm_string_literal("''"), "");
    assert_eq!(decode_double_quoted("a\\tb\\\\c\\q\\"), "a\tb\\cq\\");
    assert_eq!(decode_double_quoted("\\\"\\r"), "\"\r");
}

#[test]
fn evaluation_prints_lines() {
    assert_eq!(
        run("const_int 2; const_int 3; add; println; const_str 'hi'; println; const_bool true; not; println"),
        Ok(strings(&["5", "hi", "false"]))
    );
    assert_eq!(run("const_int 1; println; halt; const_int 2; println"), Ok(strings(&["1"])));
    assert_eq!(run("@cerberus_vm 1; @entry main; label x; nop; const_int -4; neg; println"), Ok(strings(&["4"])));
    assert_eq!(run("const_int 1; const_str '1'; eq; println"), Ok(strings(&["false"])));
    assert_eq!(run("const_str 'a'; const_str 'a'; ne; println"), Ok(strings(&["false"])));
    assert_eq!(run("const_str 'héllo'; strlen; println"), Ok(strings(&["5"])));
    assert_eq!(run("const_str 'a'; const_str \"b\"; concat; println"), Ok(strings(&["ab"])));
    assert_eq!(run("const_int 7; const_int 2; div; const_int 3; mul; const_int 1; sub; println"), Ok(strings(&["8"])));
    assert_eq!(run("const_int -7; const_int 2; div; println"), Ok(strings(&["-3"])));
    assert_eq!(run("const_int 1; const_int 2; lt; const_int 2; const_int 2; ge; and; println"), Ok(strings(&["true"])));
    assert_eq!(run("const_bool false; const_bool true; or; println"), Ok(strings(&["true"])));
    assert_eq!(run(""), Ok(Vec::new()));
}

#[test]
fn evaluation_errors() {
    assert_eq!(run("add"), Err("aot-asm: add stack underflow".to_string()));
    assert_eq!(run("const_int x"), Err("aot-asm: const_int invalid integer 'x'".to_string()));
    assert_eq!(run("const_bool maybe"), Err("aot-asm: const_bool invalid bool 'maybe'".to_string()));
    assert_eq!(run("const_int 1; const_int 0; div"), Err("aot-asm: div by zero".to_string()));
    assert_eq!(run("const_str 'a'; const_int 1; add"), Err("aot-asm: add expected int".to_string()));
    assert_eq!(run("const_int 1; not"), Err("aot-asm: not expected bool".to_string()));
    assert_eq!(run("const_int 1; strlen"), Err("aot-asm: strlen expected string".to_string()));
    assert_eq!(run("frob 1"), Err("aot-asm: unsupported opcode 'frob'".to_string()));
    assert_eq!(run("println"), Err("aot-asm: println stack underflow".to_string()));
}

#[test]
fn stack_pops() {
    let mut st = vec![AsmValue::Str("s".to_string()), AsmValue::Int(3)];
    assert_eq!(pop_int_asm(&mut st, "x").unwrap(), 3);
    assert_eq!(pop_int_asm(&mut st, "y").unwrap_err().message, "aot-asm: y expected int");
    assert!(st.is_empty());
    assert_eq!(pop_asm(&mut st, "z").unwrap_err().message, "aot-asm: z stack underflow");
    let mut st = vec![AsmValue::Str("w".to_string())];
    assert_eq!(pop_str_asm(&mut st, "q").unwrap(), "w");
    assert_eq!(asm_value_to_string(&AsmValue::Int(-5)), "-5");
    assert_eq!(asm_value_to_string(&AsmValue::Bool(true)), "true");
    assert_eq!(asm_value_to_string(&AsmValue::Str("t".to_string())), "t");
}

#[test]
fn nasm_bytes() {
    assert_eq!(bytes_to_nasm_db(&[]), "0");
    assert_eq!(bytes_to_nasm_db(&[1, 2, 255]), "1,2,255");
}

#[test]
fn nasm_linux_source() {
    let src = generate_nasm_linux_source(&strings(&["hi"]));
    assert_eq!(
        src,
        "default rel\nglobal _start\n\nsection .text\n_start:\n    mov rax, 1\n    mov rdi, 1\n    lea rsi, [rel msg]\n    mov rdx, msg_len\n    syscall\n    mov rax, 60\n    xor rdi, rdi\n    syscall\n\nsection .rodata\nmsg: db 104,105,10\nmsg_len equ $ - msg\n"
    );
    let quiet = "default rel\nglobal _start\n\nsection .text\n_start:\n    mov rax, 60\n    xor rdi, rdi\n    syscall\n";
    assert_eq!(generate_nasm_linux_source(&Vec::new()), quiet);
    assert_eq!(generate_nasm_linux_source(&strings(&[""])), quiet);
    assert!(generate_nasm_linux_source(&strings(&["a", "b"])).contains("msg: db 97,10,98,10\n"));
}

#[test]
fn nasm_win64_source() {
    assert_eq!(
        generate_nasm_win64_source(&strings(&["a"])),
        "default rel\nextern puts\nglobal main\n\nsection .text\nmain:\n    sub rsp, 40\n    lea rcx, [rel msg0]\n    call puts\n    xor eax, eax\n    add rsp, 40\n    ret\n\nsection .rdata\nmsg0: db 97,0\n"
    );
    assert_eq!(
        generate_nasm_win64_source(&Vec::new()),
        "default rel\nextern puts\nglobal main\n\nsection .text\nmain:\n    sub rsp, 40\n    xor eax, eax\n    add rsp, 40\n    ret\n"
    );
}

#[test]
fn plain_scripts_pass_through() {
    assert_eq!(resolve("const_int 1\nprintln"), Ok("const_int 1\nprintln".to_string()));
    assert_eq!(resolve_vm_script_or_package("x").map_err(|e| e.message), Ok("x".to_string()));
}

#[test]
fn package_is_unpacked() {
    assert_eq!(
        resolve("  cerberus_toolchain_v1; vm_text_script; entry=main ;limit_steps=100;entry= ::code::const_int 1;println"),
        Ok("@cerberus_vm 1;@entry main;@limit_steps 100;const_int 1;println".to_string())
    );
    assert_eq!(
        resolve("cerberus_toolchain_v1;vm_text_script;vm=1;abi=1;features=core,io;artifact=vm_package;toolchain=cc;checksum=1120140::code::x"),
        Ok("@cerberus_vm 1;x".to_string())
    );
    assert_eq!(
        resolve("cerberus_toolchain_v1;vm_text_script;limit_stack=8;limit_call=4::code::p"),
        Ok("@cerberus_vm 1;@limit_stack 8;@limit_call 4;p".to_string())
    );
}

#[test]
fn package_errors() {
    let cases: Vec<(&str, &str)> = vec![
        ("cerberus_toolchain_v1;vm_text_script", "aot: invalid package, missing ::code:: marker"),
        ("cerberus_toolchain_v1::code::x", "aot: invalid package header"),
        ("cerberus_toolchain_v1x;vm_text_script::code::p", "aot: invalid package magic"),
        ("cerberus_toolchain_v1;other::code::p", "aot: unsupported package format 'other'"),
        ("cerberus_toolchain_v1;vm_text_script;color=red::code::p", "aot: unknown package header field 'color=red'"),
        ("cerberus_toolchain_v1;vm_text_script;vm=x::code::p", "aot: vm must be integer"),
        ("cerberus_toolchain_v1;vm_text_script;abi=::code::p", "aot: abi must be integer"),
        ("cerberus_toolchain_v1;vm_text_script;features= ::code::p", "aot: unsupported features "),
        ("cerberus_toolchain_v1;vm_text_script::code::   ", "aot: package payload is empty"),
        ("cerberus_toolchain_v1;vm_text_script;vm=2::code::p", "aot: unsupported vm version 2"),
        ("cerberus_toolchain_v1;vm_text_script;abi=-3::code::p", "aot: unsupported abi version -3"),
        ("cerberus_toolchain_v1;vm_text_script;features=gpu::code::p", "aot: unsupported features gpu"),
        ("cerberus_toolchain_v1;vm_text_script;artifact=zip::code::p", "aot: unsupported artifact zip"),
        ("cerberus_toolchain_v1;vm_text_script;toolchain=::code::p", "aot: toolchain must not be empty"),
        ("cerberus_toolchain_v1;vm_text_script;checksum=abc::code::p", "aot: checksum must be integer"),
        ("cerberus_toolchain_v1;vm_text_script;checksum=1::code::p", "aot: checksum mismatch"),
        ("cerberus_toolchain_v1;vm_text_script;limit_steps=x::code::p", "aot: limit_steps must be integer"),
        ("cerberus_toolchain_v1;vm_text_script;limit_stack=1.5::code::p", "aot: limit_stack must be integer"),
        ("cerberus_toolchain_v1;vm_text_script;limit_call=-::code::p", "aot: limit_call must be integer"),
    ];
    for (raw, msg) in cases {
        assert_eq!(resolve(raw), Err(msg.to_string()), "input {raw}");
    }
}

#[test]
fn native_script_preparation() {
    assert_eq!(prepare_native_script("const_int 1").map_err(|e| e.message), Ok("const_int 1".to_string()));
    assert_eq!(prepare_native_script(" \n\t").map_err(|e| e.message), Err("aot: input script is empty".to_string()));
    assert_eq!(
        prepare_native_script("cerberus_toolchain_v1;vm_text_script::code::").map_err(|e| e.message),
        Err("aot: package payload is empty".to_string())
    );
}

#[test]
fn dividing_the_smallest_integer_by_minus_one_is_found() {
    assert!(asm_div_overflows("const_int -9223372036854775808; const_int -1; div"));
    assert!(asm_div_overflows("nop; const_int -9223372036854775808; const_int -1; div; println"));
    assert!(!asm_div_overflows("const_int 4; const_int -1; div; println"));
    assert!(!asm_div_overflows("halt; const_int -9223372036854775808; const_int -1; div"));
    assert!(!asm_div_overflows("frob; const_int -9223372036854775808; const_int -1; div"));
    assert!(!asm_div_overflows("const_int -9223372036854775808; const_int -1; add"));
    assert_eq!(run("const_int 4; const_int -1; div; println"), Ok(strings(&["-4"])));
}
