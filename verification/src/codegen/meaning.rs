//! What the operation that ends the code of a binary expression does.

use vstd::prelude::*;

use crate::aot::fold::{
    asm_step, lemma_int_ops_mean, lemma_logic_ops_mean, with_two_bools, with_two_ints, with_value, AsmRun,
    AsmV,
};
use crate::ast::{BinaryOp, Expr};
use crate::codegen::expr::compare::is_string_operand;
use crate::bytecode::instr::plain_model;
use crate::codegen::expr::{binary_opcode, spec_emit_expr};
use crate::codegen::{with_instr, GenState, Outcome};

verus! {

/// What running the operation named `name` on the stack `s` then `a` and
/// `b` (booleans `x` and `y` for `and` and `or`) must push for `op` to mean
/// what it says: the truth of a comparison, or the sum, difference, product
/// or quotient when it fits. Equality of two strings is named `str_eq` (and
/// `str_ne`) instead.
pub open spec fn means(
    op: BinaryOp,
    strings: bool,
    name: Seq<char>,
    s: Seq<AsmV>,
    out: Seq<Seq<char>>,
    a: i64,
    b: i64,
    x: bool,
    y: bool,
) -> bool {
    let step = asm_step(with_two_ints(s, out, a, b), name);
    let pushes = |v: AsmV| step == Ok::<AsmRun, Seq<char>>(with_value(s, out, v));
    match op {
        BinaryOp::Lt => pushes(AsmV::Bool(a < b)),
        BinaryOp::Le => pushes(AsmV::Bool(a <= b)),
        BinaryOp::Gt => pushes(AsmV::Bool(a > b)),
        BinaryOp::Ge => pushes(AsmV::Bool(a >= b)),
        BinaryOp::Add => i64::MIN <= a + b <= i64::MAX ==> pushes(AsmV::Int((a + b) as i64)),
        BinaryOp::Sub => i64::MIN <= a - b <= i64::MAX ==> pushes(AsmV::Int((a - b) as i64)),
        BinaryOp::Mul => i64::MIN <= a * b <= i64::MAX ==> pushes(AsmV::Int((a * b) as i64)),
        BinaryOp::Div => 0 <= a && 0 < b ==> pushes(AsmV::Int((a / b) as i64)),
        BinaryOp::Eq => if strings {
            name == "str_eq"@
        } else {
            pushes(AsmV::Bool(a == b))
        },
        BinaryOp::Ne => if strings {
            name == "str_ne"@
        } else {
            pushes(AsmV::Bool(a != b))
        },
        BinaryOp::And => asm_step(with_two_bools(s, out, x, y), name) == Ok::<AsmRun, Seq<char>>(
            with_value(s, out, AsmV::Bool(x && y)),
        ),
        BinaryOp::Or => asm_step(with_two_bools(s, out, x, y), name) == Ok::<AsmRun, Seq<char>>(
            with_value(s, out, AsmV::Bool(x || y)),
        ),
    }
}

/// Whether compiled code ends with an operation that means `op`; a failed
/// compilation has nothing to check.
pub open spec fn ends_meaning(
    r: Outcome,
    op: BinaryOp,
    l: Expr,
    rt: Expr,
    s: Seq<AsmV>,
    out: Seq<Seq<char>>,
    a: i64,
    b: i64,
    x: bool,
    y: bool,
) -> bool {
    match r {
        Err(_) => true,
        Ok(st) => st.code.len() > 0 && means(
            op,
            is_string_operand(st.syms, l) && is_string_operand(st.syms, rt),
            st.code.last().0.spec_mnemonic(),
            s,
            out,
            a,
            b,
            x,
            y,
        ),
    }
}

/// The code of `l op r` ends with the operation that does what `op` means:
/// run on integers `a` and `b` (booleans `x` and `y` for `and` and `or`) it
/// pushes the truth of `a < b`, `a <= b`, `a > b`, `a >= b`, `a == b` or
/// `a != b`, the sum, difference, product or quotient when it fits, or
/// `x && y` and `x || y`; string equality compiles to `str_eq` and `str_ne`.
pub proof fn lemma_binary_code_means(
    st: GenState,
    op: BinaryOp,
    l: Expr,
    r: Expr,
    s: Seq<AsmV>,
    out: Seq<Seq<char>>,
    a: i64,
    b: i64,
    x: bool,
    y: bool,
)
    ensures
        ends_meaning(
            spec_emit_expr(st, (Expr::Binary { op, left: Box::new(l), right: Box::new(r) })),
            op,
            l,
            r,
            s,
            out,
            a,
            b,
            x,
            y,
        ),
{
    let e = Expr::Binary { op, left: Box::new(l), right: Box::new(r) };
    if let Ok(s1) = spec_emit_expr(st, l) {
        if let Ok(s2) = spec_emit_expr(s1, r) {
            let strings = is_string_operand(s2.syms, l) && is_string_operand(s2.syms, r);
            let code = binary_opcode(op, strings);
            let fin = with_instr(s2, plain_model(code));
            assert(spec_emit_expr(st, e) == Ok::<GenState, Seq<char>>(fin));
            assert(fin.code.last() == plain_model(code));
            lemma_opcode_names(op, strings);
            lemma_int_ops_mean(s, out, a, b);
            lemma_logic_ops_mean(s, out, a, b, x, y);
        }
    }
}

/// The name of the operation each binary operator compiles to.
proof fn lemma_opcode_names(op: BinaryOp, strings: bool)
    ensures
        binary_opcode(op, strings).spec_mnemonic() == (match op {
            BinaryOp::Add => "add"@,
            BinaryOp::Sub => "sub"@,
            BinaryOp::Mul => "mul"@,
            BinaryOp::Div => "div"@,
            BinaryOp::Eq => if strings {
                "str_eq"@
            } else {
                "eq"@
            },
            BinaryOp::Ne => if strings {
                "str_ne"@
            } else {
                "ne"@
            },
            BinaryOp::Lt => "lt"@,
            BinaryOp::Le => "le"@,
            BinaryOp::Gt => "gt"@,
            BinaryOp::Ge => "ge"@,
            BinaryOp::And => "and"@,
            BinaryOp::Or => "or"@,
        }),
{
}

} // verus!
