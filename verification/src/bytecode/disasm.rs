use vstd::prelude::*;

use crate::text::{
    decimal, push_char, push_decimal, push_decimal_pad4, push_signed_decimal, push_str,
    signed_decimal, zero_pad4,
};

use super::instr::{code_model, functions_model, Bytecode, Function, FunctionModel, Instr, InstrModel, OpCode};

verus! {

/// The text of one instruction in a listing: its mnemonic and, where it has
/// one, its operand.
pub open spec fn spec_format_instr(m: InstrModel) -> Seq<char> {
    let op = m.0;
    let name = op.spec_mnemonic();
    if op == OpCode::ConstInt {
        name + " "@ + signed_decimal(m.1 as int)
    } else if op == OpCode::ConstBool {
        name + " "@ + (if m.2 {
            "true"@
        } else {
            "false"@
        })
    } else if op == OpCode::ConstStr {
        name + " \""@ + m.3 + "\""@
    } else if op.spec_has_operand() {
        name + " "@ + decimal(m.4 as nat)
    } else {
        name
    }
}

/// The lines of a code listing: each instruction after its index, padded to
/// four digits.
pub open spec fn spec_code_lines(code: Seq<InstrModel>) -> Seq<char>
    decreases code.len(),
{
    if code.len() == 0 {
        Seq::empty()
    } else {
        spec_code_lines(code.drop_last()) + zero_pad4(decimal((code.len() - 1) as nat)) + "  "@
            + spec_format_instr(code.last()) + "\n"@
    }
}

/// The listing of the function at index `i`.
pub open spec fn spec_function_text(i: nat, f: FunctionModel) -> Seq<char> {
    "\nfn #"@ + decimal(i) + " "@ + f.0 + " (params: "@ + decimal(f.1 as nat) + ", locals: "@
        + decimal(f.2 as nat) + ")\n"@ + spec_code_lines(f.3)
}

/// The listings of a sequence of functions, numbered from zero.
pub open spec fn spec_functions_text(fs: Seq<FunctionModel>) -> Seq<char>
    decreases fs.len(),
{
    if fs.len() == 0 {
        Seq::empty()
    } else {
        spec_functions_text(fs.drop_last()) + spec_function_text(
            (fs.len() - 1) as nat,
            fs.last(),
        )
    }
}

/// The listing of a whole bytecode unit.
pub open spec fn spec_disassemble(b: (Seq<char>, Seq<FunctionModel>, u32)) -> Seq<char> {
    "bytecode: "@ + b.0 + "\n"@ + "entry: "@ + decimal(b.2 as nat) + "\n"@ + "functions: "@
        + decimal(b.1.len()) + "\n"@ + spec_functions_text(b.1)
}

/// Appends the text of one instruction.
pub fn format_instr(out: &mut String, instr: &Instr)
    ensures
        final(out)@ == old(out)@ + spec_format_instr(instr.model()),
{
    push_str(out, instr.opcode().mnemonic());
    match instr {
        Instr::ConstInt(v) => {
            push_str(out, " ");
            push_signed_decimal(out, *v);
        },
        Instr::ConstBool(b) => {
            push_str(out, " ");
            if *b {
                push_str(out, "true");
            } else {
                push_str(out, "false");
            }
        },
        Instr::ConstStr(s) => {
            push_str(out, " \"");
            push_str(out, s.as_str());
            push_str(out, "\"");
        },
        Instr::Load(x) | Instr::Store(x) | Instr::Jump(x) | Instr::JumpIfFalse(x) | Instr::ReadInt(
            x,
        ) | Instr::ReadBool(x) | Instr::ReadStr(x) | Instr::Call(x) | Instr::AllocArray(x) => {
            push_str(out, " ");
            push_decimal(out, *x as u64);
        },
        _ => {},
    }
    assert(out@ =~= old(out)@ + spec_format_instr(instr.model()));
}

/// Appends the listing of one function, numbered `index`.
fn write_function_listing(out: &mut String, index: usize, func: &Function)
    ensures
        final(out)@ == old(out)@ + spec_function_text(index as nat, func.model()),
{
    push_str(out, "\nfn #");
    push_decimal(out, index as u64);
    push_str(out, " ");
    push_str(out, func.name.as_str());
    push_str(out, " (params: ");
    push_decimal(out, func.param_count as u64);
    push_str(out, ", locals: ");
    push_decimal(out, func.locals as u64);
    push_str(out, ")\n");
    let ghost fhead = out@;
    let mut ip: usize = 0;
    while ip < func.code.len()
        invariant
            0 <= ip <= func.code@.len(),
            out@ == fhead + spec_code_lines(code_model(func.code@.take(ip as int))),
        decreases func.code@.len() - ip,
    {
        push_decimal_pad4(out, ip as u64);
        push_str(out, "  ");
        format_instr(out, &func.code[ip]);
        push_str(out, "\n");
        proof {
            let s = code_model(func.code@.take(ip + 1));
            assert(s.drop_last() =~= code_model(func.code@.take(ip as int)));
            assert(s.last() == func.code@[ip as int].model());
            assert(out@ =~= fhead + spec_code_lines(s));
        }
        ip = ip + 1;
    }
    assert(func.code@.take(func.code@.len() as int) =~= func.code@);
    assert(out@ =~= old(out)@ + spec_function_text(index as nat, func.model()));
}

/// A readable listing of a bytecode unit: its name, entry and function count,
/// then each function with its numbered instructions.
pub fn disassemble(bc: &Bytecode) -> (out: String)
    ensures
        out@ == spec_disassemble(bc.model()),
{
    let mut out = String::new();
    push_str(&mut out, "bytecode: ");
    push_str(&mut out, bc.name.as_str());
    push_str(&mut out, "\n");
    push_str(&mut out, "entry: ");
    push_decimal(&mut out, bc.entry as u64);
    push_str(&mut out, "\n");
    push_str(&mut out, "functions: ");
    push_decimal(&mut out, bc.functions.len() as u64);
    push_str(&mut out, "\n");
    let ghost head = out@;
    let mut i: usize = 0;
    while i < bc.functions.len()
        invariant
            0 <= i <= bc.functions@.len(),
            out@ == head + spec_functions_text(functions_model(bc.functions@.take(i as int))),
        decreases bc.functions@.len() - i,
    {
        let func = &bc.functions[i];
        write_function_listing(&mut out, i, func);
        proof {
            let s = functions_model(bc.functions@.take(i + 1));
            assert(s.drop_last() =~= functions_model(bc.functions@.take(i as int)));
            assert(s.last() == func.model());
            assert(out@ =~= head + spec_functions_text(s));
        }
        i = i + 1;
    }
    assert(bc.functions@.take(bc.functions@.len() as int) =~= bc.functions@);
    out
}

} // verus!
