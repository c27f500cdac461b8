use vstd::prelude::*;

use crate::chars::texts;
use crate::text::{chars_of, i64_text, owned, push_str, signed_decimal, str_eq};

use super::package::parse_int_text;
use super::script::{op_arg, parse_vm_op_arg, parse_vm_string_literal, script_lines, split_vm_lines, string_literal};
use super::{aot_error, AotError};

verus! {

/// A value on the stack of a script run at compile time.
#[derive(Debug, Clone)]
pub enum AsmValue {
    Int(i64),
    Bool(bool),
    Str(String),
}

/// The content of a stack value.
pub enum AsmV {
    Int(i64),
    Bool(bool),
    Str(Seq<char>),
}

impl AsmValue {
    /// The content of this value.
    pub open spec fn view(&self) -> AsmV {
        match self {
            AsmValue::Int(v) => AsmV::Int(*v),
            AsmValue::Bool(b) => AsmV::Bool(*b),
            AsmValue::Str(s) => AsmV::Str(s@),
        }
    }
}

/// The contents of a stack.
pub open spec fn stack_view(s: Seq<AsmValue>) -> Seq<AsmV> {
    s.map_values(|v: AsmValue| v.view())
}

/// The text a value prints as.
pub open spec fn value_text(v: AsmV) -> Seq<char> {
    match v {
        AsmV::Int(i) => signed_decimal(i as int),
        AsmV::Bool(b) => if b {
            "true"@
        } else {
            "false"@
        },
        AsmV::Str(s) => s,
    }
}

/// A run of a script at compile time: its stack, the lines printed, and
/// whether it has halted.
pub struct AsmRun {
    pub stack: Seq<AsmV>,
    pub out: Seq<Seq<char>>,
    pub halted: bool,
}

/// The top of the stack and the rest, for operation `op`.
pub open spec fn pop_v(stack: Seq<AsmV>, op: Seq<char>) -> Result<(AsmV, Seq<AsmV>), Seq<char>> {
    if stack.len() == 0 {
        Err("aot-asm: "@ + op + " stack underflow"@)
    } else {
        Ok((stack.last(), stack.drop_last()))
    }
}

/// The integer on top of the stack, for operation `op`.
pub open spec fn pop_int_v(stack: Seq<AsmV>, op: Seq<char>) -> Result<(i64, Seq<AsmV>), Seq<char>> {
    match pop_v(stack, op) {
        Err(e) => Err(e),
        Ok((AsmV::Int(v), rest)) => Ok((v, rest)),
        Ok(_) => Err("aot-asm: "@ + op + " expected int"@),
    }
}

/// The boolean on top of the stack, for operation `op`.
pub open spec fn pop_bool_v(stack: Seq<AsmV>, op: Seq<char>) -> Result<(bool, Seq<AsmV>), Seq<char>> {
    match pop_v(stack, op) {
        Err(e) => Err(e),
        Ok((AsmV::Bool(v), rest)) => Ok((v, rest)),
        Ok(_) => Err("aot-asm: "@ + op + " expected bool"@),
    }
}

/// The string on top of the stack, for operation `op`.
pub open spec fn pop_str_v(stack: Seq<AsmV>, op: Seq<char>) -> Result<(Seq<char>, Seq<AsmV>), Seq<char>> {
    match pop_v(stack, op) {
        Err(e) => Err(e),
        Ok((AsmV::Str(v), rest)) => Ok((v, rest)),
        Ok(_) => Err("aot-asm: "@ + op + " expected string"@),
    }
}

/// The result of an operation on two integers; addition, subtraction and
/// multiplication wrap around on overflow. Division truncates; the one
/// quotient that does not fit, `i64::MIN / -1`, is left out of the runs
/// that `evaluate_asm_stdout_lines` accepts (see `no_div_overflow`).
pub open spec fn int_op(op: Seq<char>, a: i64, b: i64) -> AsmV {
    if op == "add"@ {
        AsmV::Int(a.wrapping_add(b))
    } else if op == "sub"@ {
        AsmV::Int(a.wrapping_sub(b))
    } else if op == "mul"@ {
        AsmV::Int(a.wrapping_mul(b))
    } else if op == "div"@ {
        AsmV::Int(
            match a.checked_div(b) {
                Some(q) => q,
                None => i64::MIN,
            },
        )
    } else if op == "lt"@ {
        AsmV::Bool(a < b)
    } else if op == "le"@ {
        AsmV::Bool(a <= b)
    } else if op == "gt"@ {
        AsmV::Bool(a > b)
    } else {
        AsmV::Bool(a >= b)
    }
}

/// Whether an operation takes two integers.
pub open spec fn is_int_op(op: Seq<char>) -> bool {
    op == "add"@ || op == "sub"@ || op == "mul"@ || op == "lt"@ || op == "le"@ || op == "gt"@ || op
        == "ge"@
}

/// Whether an operation changes nothing: blank, comments, directives,
/// labels and `nop`.
pub open spec fn is_ignored_op(op: Seq<char>) -> bool {
    op == ""@ || op == "#"@ || op == "@cerberus_vm"@ || op == "@entry"@ || op == "@limit_steps"@
        || op == "@limit_stack"@ || op == "@limit_call"@ || op == "label"@ || op == "nop"@
}

/// One line of a script run at compile time.
pub open spec fn asm_step(st: AsmRun, line: Seq<char>) -> Result<AsmRun, Seq<char>> {
    let (op, arg) = op_arg(line);
    if st.halted || is_ignored_op(op) {
        Ok(st)
    } else if op == "halt"@ {
        Ok(AsmRun { halted: true, ..st })
    } else if op == "const_int"@ {
        match parse_int_text(arg) {
            None => Err("aot-asm: const_int invalid integer '"@ + arg + "'"@),
            Some(v) => Ok(AsmRun { stack: st.stack.push(AsmV::Int(v)), ..st }),
        }
    } else if op == "const_bool"@ {
        if arg == "true"@ {
            Ok(AsmRun { stack: st.stack.push(AsmV::Bool(true)), ..st })
        } else if arg == "false"@ {
            Ok(AsmRun { stack: st.stack.push(AsmV::Bool(false)), ..st })
        } else {
            Err("aot-asm: const_bool invalid bool '"@ + arg + "'"@)
        }
    } else if op == "const_str"@ {
        Ok(AsmRun { stack: st.stack.push(AsmV::Str(string_literal(arg))), ..st })
    } else if is_int_op(op) {
        match pop_int_v(st.stack, op) {
            Err(e) => Err(e),
            Ok((b, s1)) => match pop_int_v(s1, op) {
                Err(e) => Err(e),
                Ok((a, s2)) => Ok(AsmRun { stack: s2.push(int_op(op, a, b)), ..st }),
            },
        }
    } else if op == "div"@ {
        match pop_int_v(st.stack, op) {
            Err(e) => Err(e),
            Ok((b, s1)) => if b == 0 {
                Err("aot-asm: div by zero"@)
            } else {
                match pop_int_v(s1, op) {
                    Err(e) => Err(e),
                    Ok((a, s2)) => Ok(AsmRun { stack: s2.push(int_op(op, a, b)), ..st }),
                }
            },
        }
    } else if op == "eq"@ || op == "ne"@ {
        match pop_v(st.stack, op) {
            Err(e) => Err(e),
            Ok((b, s1)) => match pop_v(s1, op) {
                Err(e) => Err(e),
                Ok((a, s2)) => Ok(
                    AsmRun { stack: s2.push(AsmV::Bool((a == b) == (op == "eq"@))), ..st },
                ),
            },
        }
    } else if op == "and"@ || op == "or"@ {
        match pop_bool_v(st.stack, op) {
            Err(e) => Err(e),
            Ok((b, s1)) => match pop_bool_v(s1, op) {
                Err(e) => Err(e),
                Ok((a, s2)) => Ok(
                    AsmRun {
                        stack: s2.push(
                            AsmV::Bool(
                                if op == "and"@ {
                                    a && b
                                } else {
                                    a || b
                                },
                            ),
                        ),
                        ..st
                    },
                ),
            },
        }
    } else if op == "not"@ {
        match pop_bool_v(st.stack, op) {
            Err(e) => Err(e),
            Ok((a, s1)) => Ok(AsmRun { stack: s1.push(AsmV::Bool(!a)), ..st }),
        }
    } else if op == "neg"@ {
        match pop_int_v(st.stack, op) {
            Err(e) => Err(e),
            Ok((a, s1)) => Ok(AsmRun { stack: s1.push(AsmV::Int(0i64.wrapping_sub(a))), ..st }),
        }
    } else if op == "strlen"@ {
        match pop_str_v(st.stack, op) {
            Err(e) => Err(e),
            Ok((s, s1)) => Ok(AsmRun { stack: s1.push(AsmV::Int(s.len() as i64)), ..st }),
        }
    } else if op == "concat"@ {
        match pop_str_v(st.stack, op) {
            Err(e) => Err(e),
            Ok((b, s1)) => match pop_str_v(s1, op) {
                Err(e) => Err(e),
                Ok((a, s2)) => Ok(AsmRun { stack: s2.push(AsmV::Str(a + b)), ..st }),
            },
        }
    } else if op == "println"@ {
        match pop_v(st.stack, op) {
            Err(e) => Err(e),
            Ok((v, s1)) => Ok(AsmRun { stack: s1, out: st.out.push(value_text(v)), ..st }),
        }
    } else {
        Err("aot-asm: unsupported opcode '"@ + op + "'"@)
    }
}

/// A run over the first `k` lines.
pub open spec fn asm_run(lines: Seq<Seq<char>>, k: nat) -> Result<AsmRun, Seq<char>>
    decreases k,
{
    if k == 0 || k > lines.len() {
        Ok(AsmRun { stack: Seq::empty(), out: Seq::empty(), halted: false })
    } else {
        match asm_run(lines, (k - 1) as nat) {
            Err(e) => Err(e),
            Ok(st) => asm_step(st, lines[k - 1]),
        }
    }
}

/// What a script prints when run at compile time, line by line, or the
/// error that stops it.
pub open spec fn asm_output(script: Seq<char>) -> Result<Seq<Seq<char>>, Seq<char>> {
    let lines = script_lines(script);
    match asm_run(lines, lines.len()) {
        Err(e) => Err(e),
        Ok(st) => Ok(st.out),
    }
}

/// Whether running `line` in state `st` divides `i64::MIN` by `-1`, a
/// quotient that does not fit in an `i64`.
pub open spec fn divides_overflow(st: AsmRun, line: Seq<char>) -> bool {
    &&& !st.halted
    &&& op_arg(line).0 == "div"@
    &&& st.stack.len() >= 2
    &&& st.stack.last() == AsmV::Int(-1i64)
    &&& st.stack[st.stack.len() - 2] == AsmV::Int(i64::MIN)
}

/// Whether no line that a run of the script reaches divides `i64::MIN` by
/// `-1`.
pub open spec fn no_div_overflow(script: Seq<char>) -> bool {
    let lines = script_lines(script);
    forall|k: nat|
        k < lines.len() ==> (#[trigger] asm_run(lines, k) matches Ok(st) ==> !divides_overflow(
            st,
            lines[k as int],
        ))
}

/// An error naming an operation: `aot-asm: {op}{what}`.
fn op_error(op: &str, what: &str) -> (e: AotError)
    ensures
        e.message@ == "aot-asm: "@ + op@ + what@,
{
    let mut m = owned("aot-asm: ");
    push_str(&mut m, op);
    push_str(&mut m, what);
    aot_error(m)
}

/// A stack without its top value, if it has one.
pub open spec fn popped(stack: Seq<AsmV>) -> Seq<AsmV> {
    if stack.len() > 0 {
        stack.drop_last()
    } else {
        stack
    }
}

/// Takes the value on top of the stack.
pub fn pop_asm(stack: &mut Vec<AsmValue>, op: &str) -> (r: Result<AsmValue, AotError>)
    ensures
        stack_view(final(stack)@) == popped(stack_view(old(stack)@)),
        match (r, pop_v(stack_view(old(stack)@), op@)) {
            (Ok(v), Ok((w, rest))) => v.view() == w && stack_view(final(stack)@) == rest,
            (Err(e), Err(m)) => e.message@ == m,
            _ => false,
        },
{
    let ghost before = stack@;
    match stack.pop() {
        Some(v) => {
            assert(stack_view(stack@) =~= stack_view(before).drop_last());
            Ok(v)
        },
        None => Err(op_error(op, " stack underflow")),
    }
}

/// Takes the integer on top of the stack.
pub fn pop_int_asm(stack: &mut Vec<AsmValue>, op: &str) -> (r: Result<i64, AotError>)
    ensures
        stack_view(final(stack)@) == popped(stack_view(old(stack)@)),
        match (r, pop_int_v(stack_view(old(stack)@), op@)) {
            (Ok(v), Ok((w, rest))) => v == w && stack_view(final(stack)@) == rest,
            (Err(e), Err(m)) => e.message@ == m,
            _ => false,
        },
{
    match pop_asm(stack, op) {
        Err(e) => Err(e),
        Ok(AsmValue::Int(v)) => Ok(v),
        Ok(_) => Err(op_error(op, " expected int")),
    }
}

/// Takes the boolean on top of the stack.
pub fn pop_bool_asm(stack: &mut Vec<AsmValue>, op: &str) -> (r: Result<bool, AotError>)
    ensures
        stack_view(final(stack)@) == popped(stack_view(old(stack)@)),
        match (r, pop_bool_v(stack_view(old(stack)@), op@)) {
            (Ok(v), Ok((w, rest))) => v == w && stack_view(final(stack)@) == rest,
            (Err(e), Err(m)) => e.message@ == m,
            _ => false,
        },
{
    match pop_asm(stack, op) {
        Err(e) => Err(e),
        Ok(AsmValue::Bool(v)) => Ok(v),
        Ok(_) => Err(op_error(op, " expected bool")),
    }
}

/// Takes the string on top of the stack.
pub fn pop_str_asm(stack: &mut Vec<AsmValue>, op: &str) -> (r: Result<String, AotError>)
    ensures
        stack_view(final(stack)@) == popped(stack_view(old(stack)@)),
        match (r, pop_str_v(stack_view(old(stack)@), op@)) {
            (Ok(v), Ok((w, rest))) => v@ == w && stack_view(final(stack)@) == rest,
            (Err(e), Err(m)) => e.message@ == m,
            _ => false,
        },
{
    match pop_asm(stack, op) {
        Err(e) => Err(e),
        Ok(AsmValue::Str(v)) => Ok(v),
        Ok(_) => Err(op_error(op, " expected string")),
    }
}

/// The text a value prints as.
pub fn asm_value_to_string(v: &AsmValue) -> (s: String)
    ensures
        s@ == value_text(v.view()),
{
    match v {
        AsmValue::Int(i) => i64_text(*i),
        AsmValue::Bool(b) => if *b {
            owned("true")
        } else {
            owned("false")
        },
        AsmValue::Str(s) => s.clone(),
    }
}

/// Whether two values are equal: same kind and same content.
fn asm_eq(a: &AsmValue, b: &AsmValue) -> (r: bool)
    ensures
        r == (a.view() == b.view()),
{
    match (a, b) {
        (AsmValue::Int(x), AsmValue::Int(y)) => *x == *y,
        (AsmValue::Bool(x), AsmValue::Bool(y)) => *x == *y,
        (AsmValue::Str(x), AsmValue::Str(y)) => str_eq(x.as_str(), y.as_str()),
        _ => false,
    }
}

/// Pushes a value.
fn push_value(stack: &mut Vec<AsmValue>, v: AsmValue)
    ensures
        stack_view(final(stack)@) == stack_view(old(stack)@).push(v.view()),
{
    let ghost before = stack@;
    stack.push(v);
    assert(stack_view(stack@) =~= stack_view(before).push(v.view()));
}

/// Runs one line of a script at compile time.
#[verifier::rlimit(100)]
fn run_line(stack: &mut Vec<AsmValue>, output: &mut Vec<String>, line: &str) -> (r: Result<
    bool,
    AotError,
>)
    ensures
        match (r, asm_step(
            AsmRun { stack: stack_view(old(stack)@), out: texts(old(output)@), halted: false },
            line@,
        )) {
            (Ok(halt), Ok(st)) => {
                &&& st.stack == stack_view(final(stack)@)
                &&& st.out == texts(final(output)@)
                &&& st.halted == halt
            },
            (Err(e), Err(m)) => e.message@ == m,
            _ => false,
        },
{
    let (op, arg) = parse_vm_op_arg(line);
    let o = op.as_str();
    let a = arg.as_str();
    if str_eq(o, "") || str_eq(o, "#") || str_eq(o, "@cerberus_vm") || str_eq(o, "@entry")
        || str_eq(o, "@limit_steps") || str_eq(o, "@limit_stack") || str_eq(o, "@limit_call")
        || str_eq(o, "label") || str_eq(o, "nop") {
        return Ok(false);
    }
    if str_eq(o, "halt") {
        return Ok(true);
    }
    if str_eq(o, "const_int") {
        let av = chars_of(a);
        let v = super::package::parse_int_range(&av, 0, av.len());
        assert(av@.subrange(0, av@.len() as int) =~= a@);
        match v {
            Some(x) => push_value(stack, AsmValue::Int(x)),
            None => {
                let mut m = owned("aot-asm: const_int invalid integer '");
                push_str(&mut m, a);
                push_str(&mut m, "'");
                return Err(aot_error(m));
            },
        }
        return Ok(false);
    }
    if str_eq(o, "const_bool") {
        if str_eq(a, "true") {
            push_value(stack, AsmValue::Bool(true));
        } else if str_eq(a, "false") {
            push_value(stack, AsmValue::Bool(false));
        } else {
            let mut m = owned("aot-asm: const_bool invalid bool '");
            push_str(&mut m, a);
            push_str(&mut m, "'");
            return Err(aot_error(m));
        }
        return Ok(false);
    }
    if str_eq(o, "const_str") {
        push_value(stack, AsmValue::Str(parse_vm_string_literal(a)));
        return Ok(false);
    }
    if str_eq(o, "add") || str_eq(o, "sub") || str_eq(o, "mul") || str_eq(o, "lt") || str_eq(o, "le")
        || str_eq(o, "gt") || str_eq(o, "ge") {
        let b = match pop_int_asm(stack, o) {
            Ok(v) => v,
            Err(e) => return Err(e),
        };
        let x = match pop_int_asm(stack, o) {
            Ok(v) => v,
            Err(e) => return Err(e),
        };
        let result = if str_eq(o, "add") {
            AsmValue::Int(x.wrapping_add(b))
        } else if str_eq(o, "sub") {
            AsmValue::Int(x.wrapping_sub(b))
        } else if str_eq(o, "mul") {
            AsmValue::Int(x.wrapping_mul(b))
        } else if str_eq(o, "lt") {
            AsmValue::Bool(x < b)
        } else if str_eq(o, "le") {
            AsmValue::Bool(x <= b)
        } else if str_eq(o, "gt") {
            AsmValue::Bool(x > b)
        } else {
            AsmValue::Bool(x >= b)
        };
        proof {
            reveal_strlit("div");
            reveal_strlit("add");
            reveal_strlit("sub");
            reveal_strlit("mul");
            reveal_strlit("lt");
            reveal_strlit("le");
            reveal_strlit("gt");
            reveal_strlit("ge");
        }
        push_value(stack, result);
        return Ok(false);
    }
    if str_eq(o, "div") {
        let b = match pop_int_asm(stack, o) {
            Ok(v) => v,
            Err(e) => return Err(e),
        };
        if b == 0 {
            return Err(aot_error(owned("aot-asm: div by zero")));
        }
        let x = match pop_int_asm(stack, o) {
            Ok(v) => v,
            Err(e) => return Err(e),
        };
        let q = match x.checked_div(b) {
            Some(q) => q,
            None => i64::MIN,
        };
        push_value(stack, AsmValue::Int(q));
        return Ok(false);
    }
    if str_eq(o, "eq") || str_eq(o, "ne") {
        let y = match pop_asm(stack, o) {
            Ok(v) => v,
            Err(e) => return Err(e),
        };
        let x = match pop_asm(stack, o) {
            Ok(v) => v,
            Err(e) => return Err(e),
        };
        let same = asm_eq(&x, &y);
        push_value(stack, AsmValue::Bool(same == str_eq(o, "eq")));
        return Ok(false);
    }
    if str_eq(o, "and") || str_eq(o, "or") {
        let y = match pop_bool_asm(stack, o) {
            Ok(v) => v,
            Err(e) => return Err(e),
        };
        let x = match pop_bool_asm(stack, o) {
            Ok(v) => v,
            Err(e) => return Err(e),
        };
        let v = if str_eq(o, "and") {
            x && y
        } else {
            x || y
        };
        push_value(stack, AsmValue::Bool(v));
        return Ok(false);
    }
    if str_eq(o, "not") {
        let x = match pop_bool_asm(stack, o) {
            Ok(v) => v,
            Err(e) => return Err(e),
        };
        push_value(stack, AsmValue::Bool(!x));
        return Ok(false);
    }
    if str_eq(o, "neg") {
        let x = match pop_int_asm(stack, o) {
            Ok(v) => v,
            Err(e) => return Err(e),
        };
        push_value(stack, AsmValue::Int(0i64.wrapping_sub(x)));
        return Ok(false);
    }
    if str_eq(o, "strlen") {
        let s = match pop_str_asm(stack, o) {
            Ok(v) => v,
            Err(e) => return Err(e),
        };
        let n = chars_of(s.as_str()).len();
        push_value(stack, AsmValue::Int(n as i64));
        return Ok(false);
    }
    if str_eq(o, "concat") {
        let y = match pop_str_asm(stack, o) {
            Ok(v) => v,
            Err(e) => return Err(e),
        };
        let x = match pop_str_asm(stack, o) {
            Ok(v) => v,
            Err(e) => return Err(e),
        };
        let mut joined = x;
        push_str(&mut joined, y.as_str());
        push_value(stack, AsmValue::Str(joined));
        return Ok(false);
    }
    if str_eq(o, "println") {
        let v = match pop_asm(stack, o) {
            Ok(v) => v,
            Err(e) => return Err(e),
        };
        let ghost before = texts(output@);
        let t = asm_value_to_string(&v);
        output.push(t);
        assert(texts(output@) =~= before.push(t@));
        return Ok(false);
    }
    let mut m = owned("aot-asm: unsupported opcode '");
    push_str(&mut m, o);
    push_str(&mut m, "'");
    Err(aot_error(m))
}

/// Once a run over `i` lines fails, a run over more fails the same way.
proof fn lemma_asm_run_err(lines: Seq<Seq<char>>, i: nat, n: nat)
    requires
        0 < i <= n <= lines.len(),
        asm_run(lines, i) is Err,
    ensures
        asm_run(lines, n) == asm_run(lines, i),
    decreases n - i,
{
    if i < n {
        lemma_asm_run_err(lines, i, (n - 1) as nat);
    }
}

/// Once a run has halted, the lines after change nothing.
proof fn lemma_asm_run_halted(lines: Seq<Seq<char>>, i: nat, n: nat)
    requires
        0 < i <= n <= lines.len(),
        asm_run(lines, i) matches Ok(st) && st.halted,
    ensures
        asm_run(lines, n) == asm_run(lines, i),
    decreases n - i,
{
    if i < n {
        lemma_asm_run_halted(lines, i, (n - 1) as nat);
    }
}

/// The lines a script prints when run at compile time (see `asm_output`).
/// The script must not divide `i64::MIN` by `-1` (see
/// `asm_div_overflows`).
pub fn evaluate_asm_stdout_lines(script: &str) -> (r: Result<Vec<String>, AotError>)
    requires
        no_div_overflow(script@),
    ensures
        match (r, asm_output(script@)) {
            (Ok(v), Ok(w)) => texts(v@) == w,
            (Err(e), Err(m)) => e.message@ == m,
            _ => false,
        },
{
    let lines = split_vm_lines(script);
    let ghost ls = texts(lines@);
    let mut stack: Vec<AsmValue> = Vec::new();
    let mut output: Vec<String> = Vec::new();
    assert(stack_view(stack@) =~= Seq::<AsmV>::empty());
    assert(texts(output@) =~= Seq::<Seq<char>>::empty());
    let mut i: usize = 0;
    while i < lines.len()
        invariant
            0 <= i <= lines@.len(),
            ls == texts(lines@),
            ls == script_lines(script@),
            asm_run(ls, i as nat) == Ok::<AsmRun, Seq<char>>(
                AsmRun { stack: stack_view(stack@), out: texts(output@), halted: false },
            ),
        decreases lines@.len() - i,
    {
        assert(ls[i as int] == lines@[i as int]@);
        match run_line(&mut stack, &mut output, lines[i].as_str()) {
            Err(e) => {
                proof {
                    lemma_asm_run_err(ls, (i + 1) as nat, ls.len());
                }
                return Err(e);
            },
            Ok(true) => {
                proof {
                    lemma_asm_run_halted(ls, (i + 1) as nat, ls.len());
                }
                return Ok(output);
            },
            Ok(false) => {},
        }
        i = i + 1;
    }
    Ok(output)
}

/// Whether the top two values of a stack are `i64::MIN` and, on top, `-1`.
fn min_over_minus_one(stack: &Vec<AsmValue>) -> (r: bool)
    ensures
        r == (stack@.len() >= 2 && stack_view(stack@).last() == AsmV::Int(-1i64)
            && stack_view(stack@)[stack@.len() - 2] == AsmV::Int(i64::MIN)),
{
    let n = stack.len();
    if n < 2 {
        return false;
    }
    let top = match &stack[n - 1] {
        AsmValue::Int(v) => *v == -1,
        _ => false,
    };
    let below = match &stack[n - 2] {
        AsmValue::Int(v) => *v == i64::MIN,
        _ => false,
    };
    top && below
}

/// Whether running the script at compile time would divide `i64::MIN` by
/// `-1` before it stops.
pub fn asm_div_overflows(script: &str) -> (r: bool)
    ensures
        r == !no_div_overflow(script@),
{
    let lines = split_vm_lines(script);
    let ghost ls = texts(lines@);
    let mut stack: Vec<AsmValue> = Vec::new();
    let mut output: Vec<String> = Vec::new();
    assert(stack_view(stack@) =~= Seq::<AsmV>::empty());
    assert(texts(output@) =~= Seq::<Seq<char>>::empty());
    let mut i: usize = 0;
    while i < lines.len()
        invariant
            0 <= i <= lines@.len(),
            ls == texts(lines@),
            ls == script_lines(script@),
            asm_run(ls, i as nat) == Ok::<AsmRun, Seq<char>>(
                AsmRun { stack: stack_view(stack@), out: texts(output@), halted: false },
            ),
            forall|k: nat|
                k < i ==> (#[trigger] asm_run(ls, k) matches Ok(st) ==> !divides_overflow(st, ls[k as int])),
        decreases lines@.len() - i,
    {
        assert(ls[i as int] == lines@[i as int]@);
        let (op, _) = parse_vm_op_arg(lines[i].as_str());
        if str_eq(op.as_str(), "div") && min_over_minus_one(&stack) {
            proof {
                assert(stack_view(stack@).len() == stack@.len());
                assert(divides_overflow(asm_run(ls, i as nat)->Ok_0, ls[i as int]));
            }
            return true;
        }
        let ghost st = asm_run(ls, i as nat)->Ok_0;
        assert(!divides_overflow(st, ls[i as int]));
        match run_line(&mut stack, &mut output, lines[i].as_str()) {
            Err(_) => {
                proof {
                    assert forall|k: nat| k < ls.len() implies (#[trigger] asm_run(ls, k) matches Ok(
                        s,
                    ) ==> !divides_overflow(s, ls[k as int])) by {
                        if k > i {
                            lemma_asm_run_err(ls, (i + 1) as nat, k);
                        }
                    }
                }
                return false;
            },
            Ok(true) => {
                proof {
                    assert forall|k: nat| k < ls.len() implies (#[trigger] asm_run(ls, k) matches Ok(
                        s,
                    ) ==> !divides_overflow(s, ls[k as int])) by {
                        if k > i {
                            lemma_asm_run_halted(ls, (i + 1) as nat, k);
                        }
                    }
                }
                return false;
            },
            Ok(false) => {},
        }
        i = i + 1;
    }
    false
}

/// What the names of the operations are made of, enough to tell each from
/// the others.
proof fn lemma_op_names()
    ensures
        ""@.len() == 0,
        "#"@.len() == 1,
        "@cerberus_vm"@.len() == 12 && "@cerberus_vm"@[1] == 'c',
        "@entry"@.len() == 6 && "@entry"@[0] == '@',
        "@limit_steps"@.len() == 12 && "@limit_steps"@[1] == 'l' && "@limit_steps"@[9] == 'e',
        "@limit_stack"@.len() == 12 && "@limit_stack"@[1] == 'l' && "@limit_stack"@[9] == 'a',
        "@limit_call"@.len() == 11,
        "label"@.len() == 5,
        "nop"@.len() == 3 && "nop"@[0] == 'n' && "nop"@[1] == 'o' && "nop"@[2] == 'p',
        "halt"@.len() == 4,
        "const_int"@.len() == 9 && "const_int"@[6] == 'i',
        "const_bool"@.len() == 10,
        "const_str"@.len() == 9 && "const_str"@[6] == 's',
        "add"@.len() == 3 && "add"@[0] == 'a' && "add"@[1] == 'd',
        "sub"@.len() == 3 && "sub"@[0] == 's',
        "mul"@.len() == 3 && "mul"@[0] == 'm',
        "lt"@.len() == 2 && "lt"@[0] == 'l' && "lt"@[1] == 't',
        "le"@.len() == 2 && "le"@[0] == 'l' && "le"@[1] == 'e',
        "gt"@.len() == 2 && "gt"@[0] == 'g' && "gt"@[1] == 't',
        "ge"@.len() == 2 && "ge"@[0] == 'g' && "ge"@[1] == 'e',
        "div"@.len() == 3 && "div"@[0] == 'd',
        "eq"@.len() == 2 && "eq"@[0] == 'e',
        "ne"@.len() == 2 && "ne"@[0] == 'n',
        "and"@.len() == 3 && "and"@[0] == 'a' && "and"@[1] == 'n',
        "or"@.len() == 2 && "or"@[0] == 'o',
        "not"@.len() == 3 && "not"@[0] == 'n' && "not"@[1] == 'o' && "not"@[2] == 't',
        "neg"@.len() == 3 && "neg"@[0] == 'n' && "neg"@[1] == 'e',
        "strlen"@.len() == 6 && "strlen"@[0] == 's',
        "concat"@.len() == 6 && "concat"@[0] == 'c',
        "println"@.len() == 7,
        "add"@ =~= seq!['a', 'd', 'd'],
        "sub"@ =~= seq!['s', 'u', 'b'],
        "mul"@ =~= seq!['m', 'u', 'l'],
        "lt"@ =~= seq!['l', 't'],
        "le"@ =~= seq!['l', 'e'],
        "gt"@ =~= seq!['g', 't'],
        "ge"@ =~= seq!['g', 'e'],
        "div"@ =~= seq!['d', 'i', 'v'],
        "eq"@ =~= seq!['e', 'q'],
        "ne"@ =~= seq!['n', 'e'],
        "and"@ =~= seq!['a', 'n', 'd'],
        "or"@ =~= seq!['o', 'r'],
        "not"@ =~= seq!['n', 'o', 't'],
        "neg"@ =~= seq!['n', 'e', 'g'],
        "println"@ =~= seq!['p', 'r', 'i', 'n', 't', 'l', 'n'],
{
    reveal_strlit("");
    reveal_strlit("#");
    reveal_strlit("@cerberus_vm");
    reveal_strlit("@entry");
    reveal_strlit("@limit_steps");
    reveal_strlit("@limit_stack");
    reveal_strlit("@limit_call");
    reveal_strlit("label");
    reveal_strlit("nop");
    reveal_strlit("halt");
    reveal_strlit("const_int");
    reveal_strlit("const_bool");
    reveal_strlit("const_str");
    reveal_strlit("add");
    reveal_strlit("sub");
    reveal_strlit("mul");
    reveal_strlit("lt");
    reveal_strlit("le");
    reveal_strlit("gt");
    reveal_strlit("ge");
    reveal_strlit("div");
    reveal_strlit("eq");
    reveal_strlit("ne");
    reveal_strlit("and");
    reveal_strlit("or");
    reveal_strlit("not");
    reveal_strlit("neg");
    reveal_strlit("strlen");
    reveal_strlit("concat");
    reveal_strlit("println");
}

/// A run that is going on, with stack `s` and then `a` and `b`, `b` on top.
pub open spec fn with_two_ints(s: Seq<AsmV>, out: Seq<Seq<char>>, a: i64, b: i64) -> AsmRun {
    AsmRun { stack: s.push(AsmV::Int(a)).push(AsmV::Int(b)), out, halted: false }
}

/// A run that is going on, with stack `s` and then `v` on top.
pub open spec fn with_value(s: Seq<AsmV>, out: Seq<Seq<char>>, v: AsmV) -> AsmRun {
    AsmRun { stack: s.push(v), out, halted: false }
}

/// Each integer operation of a compile-time run takes `b` from the top of
/// the stack and `a` from below it and pushes what its name says of them:
/// the truth of `a < b`, `a <= b`, `a > b`, `a >= b`, or the sum,
/// difference, product or quotient, when that fits in an `i64`.
#[verifier::rlimit(50)]
pub proof fn lemma_int_ops_mean(s: Seq<AsmV>, out: Seq<Seq<char>>, a: i64, b: i64)
    ensures
        asm_step(with_two_ints(s, out, a, b), "lt"@) == Ok::<AsmRun, Seq<char>>(with_value(s, out, AsmV::Bool(a < b))),
        asm_step(with_two_ints(s, out, a, b), "le"@) == Ok::<AsmRun, Seq<char>>(with_value(s, out, AsmV::Bool(a <= b))),
        asm_step(with_two_ints(s, out, a, b), "gt"@) == Ok::<AsmRun, Seq<char>>(with_value(s, out, AsmV::Bool(a > b))),
        asm_step(with_two_ints(s, out, a, b), "ge"@) == Ok::<AsmRun, Seq<char>>(with_value(s, out, AsmV::Bool(a >= b))),
        i64::MIN <= a + b <= i64::MAX ==> asm_step(with_two_ints(s, out, a, b), "add"@) == Ok::<
            AsmRun,
            Seq<char>,
        >(with_value(s, out, AsmV::Int((a + b) as i64))),
        i64::MIN <= a - b <= i64::MAX ==> asm_step(with_two_ints(s, out, a, b), "sub"@) == Ok::<
            AsmRun,
            Seq<char>,
        >(with_value(s, out, AsmV::Int((a - b) as i64))),
        i64::MIN <= a * b <= i64::MAX ==> asm_step(with_two_ints(s, out, a, b), "mul"@) == Ok::<
            AsmRun,
            Seq<char>,
        >(with_value(s, out, AsmV::Int((a * b) as i64))),
        0 <= a && 0 < b ==> asm_step(with_two_ints(s, out, a, b), "div"@) == Ok::<AsmRun, Seq<char>>(
            with_value(s, out, AsmV::Int((a / b) as i64)),
        ),
{
    lemma_op_names();
    crate::aot::script::lemma_op_arg_word("add"@);
    crate::aot::script::lemma_op_arg_word("sub"@);
    crate::aot::script::lemma_op_arg_word("mul"@);
    crate::aot::script::lemma_op_arg_word("lt"@);
    crate::aot::script::lemma_op_arg_word("le"@);
    crate::aot::script::lemma_op_arg_word("gt"@);
    crate::aot::script::lemma_op_arg_word("ge"@);
    crate::aot::script::lemma_op_arg_word("div"@);
    let st = with_two_ints(s, out, a, b);
    assert(st.stack.last() == AsmV::Int(b));
    assert(st.stack.drop_last() == s.push(AsmV::Int(a)));
    assert(s.push(AsmV::Int(a)).last() == AsmV::Int(a));
    assert(s.push(AsmV::Int(a)).drop_last() =~= s);
}

/// A run that is going on, with stack `s` and then `x` and `y`, `y` on top.
pub open spec fn with_two_bools(s: Seq<AsmV>, out: Seq<Seq<char>>, x: bool, y: bool) -> AsmRun {
    AsmRun { stack: s.push(AsmV::Bool(x)).push(AsmV::Bool(y)), out, halted: false }
}

/// `eq` and `ne` push whether the two values on top of the stack are equal
/// or differ, and `and` and `or` push the conjunction and disjunction of two
/// booleans.
#[verifier::rlimit(50)]
pub proof fn lemma_logic_ops_mean(s: Seq<AsmV>, out: Seq<Seq<char>>, a: i64, b: i64, x: bool, y: bool)
    ensures
        asm_step(with_two_ints(s, out, a, b), "eq"@) == Ok::<AsmRun, Seq<char>>(with_value(s, out, AsmV::Bool(a == b))),
        asm_step(with_two_ints(s, out, a, b), "ne"@) == Ok::<AsmRun, Seq<char>>(with_value(s, out, AsmV::Bool(a != b))),
        asm_step(with_two_bools(s, out, x, y), "and"@) == Ok::<AsmRun, Seq<char>>(with_value(s, out, AsmV::Bool(x && y))),
        asm_step(with_two_bools(s, out, x, y), "or"@) == Ok::<AsmRun, Seq<char>>(with_value(s, out, AsmV::Bool(x || y))),
{
    lemma_op_names();
    crate::aot::script::lemma_op_arg_word("eq"@);
    crate::aot::script::lemma_op_arg_word("ne"@);
    crate::aot::script::lemma_op_arg_word("and"@);
    crate::aot::script::lemma_op_arg_word("or"@);
    let st = with_two_ints(s, out, a, b);
    assert(st.stack.drop_last() == s.push(AsmV::Int(a)));
    assert(s.push(AsmV::Int(a)).drop_last() =~= s);
    let bt = with_two_bools(s, out, x, y);
    assert(bt.stack.drop_last() == s.push(AsmV::Bool(x)));
    assert(s.push(AsmV::Bool(x)).drop_last() =~= s);
}

/// `not` pushes the negation of the boolean on top of the stack, `neg` the
/// opposite of the integer there (where it has one in `i64`), and `println`
/// takes the value on top and prints it: `true` or `false`, or the string.
#[verifier::rlimit(50)]
pub proof fn lemma_unary_ops_mean(s: Seq<AsmV>, out: Seq<Seq<char>>, a: i64, x: bool, t: Seq<char>)
    ensures
        asm_step(with_value(s, out, AsmV::Bool(x)), "not"@) == Ok::<AsmRun, Seq<char>>(with_value(s, out, AsmV::Bool(!x))),
        a != i64::MIN ==> asm_step(with_value(s, out, AsmV::Int(a)), "neg"@) == Ok::<AsmRun, Seq<char>>(
            with_value(s, out, AsmV::Int((-a) as i64)),
        ),
        asm_step(with_value(s, out, AsmV::Bool(x)), "println"@) == Ok::<AsmRun, Seq<char>>(
            AsmRun {
                stack: s,
                out: out.push(if x { seq!['t', 'r', 'u', 'e'] } else { seq!['f', 'a', 'l', 's', 'e'] }),
                halted: false,
            },
        ),
        asm_step(with_value(s, out, AsmV::Str(t)), "println"@) == Ok::<AsmRun, Seq<char>>(
            AsmRun { stack: s, out: out.push(t), halted: false },
        ),
{
    lemma_op_names();
    reveal_strlit("true");
    reveal_strlit("false");
    assert("true"@ =~= seq!['t', 'r', 'u', 'e']);
    assert("false"@ =~= seq!['f', 'a', 'l', 's', 'e']);
    crate::aot::script::lemma_op_arg_word("not"@);
    crate::aot::script::lemma_op_arg_word("neg"@);
    crate::aot::script::lemma_op_arg_word("println"@);
    assert(s.push(AsmV::Bool(x)).drop_last() =~= s);
    assert(s.push(AsmV::Int(a)).drop_last() =~= s);
    assert(s.push(AsmV::Str(t)).drop_last() =~= s);
}

} // verus!
