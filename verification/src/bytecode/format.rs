use vstd::bytes::*;
use vstd::prelude::*;
use vstd::utf8::*;

use crate::error::CompileError;

use super::instr::{
    code_model, functions_model, plain_model, Bytecode, BytecodeModel, Function, FunctionModel, Instr,
    InstrModel, OpCode,
};

verus! {

broadcast use vstd::utf8::group_utf8_lib;

/// The message of every read that runs past the end of the data.
pub open spec fn end_of_data_message() -> Seq<char> {
    "unexpected end of bytecode"@
}

/// The message of a string whose bytes are not UTF-8.
pub open spec fn bad_string_message() -> Seq<char> {
    "invalid bytecode string"@
}

/// The encoding of a string: its byte length as a little-endian `u32`, then
/// its UTF-8 bytes.
pub open spec fn spec_str_bytes(s: Seq<char>) -> Seq<u8> {
    spec_u32_to_le_bytes(encode_utf8(s).len() as u32) + encode_utf8(s)
}

/// Reading a little-endian `u32` at `pos`: the value and the next position.
pub open spec fn spec_read_u32(buf: Seq<u8>, pos: int) -> Result<(u32, int), Seq<char>> {
    if pos + 4 > buf.len() {
        Err(end_of_data_message())
    } else {
        Ok((spec_u32_from_le_bytes(buf.subrange(pos, pos + 4)), pos + 4))
    }
}

/// Reading a little-endian `i64` at `pos`.
pub open spec fn spec_read_i64(buf: Seq<u8>, pos: int) -> Result<(i64, int), Seq<char>> {
    if pos + 8 > buf.len() {
        Err(end_of_data_message())
    } else {
        Ok((spec_u64_from_le_bytes(buf.subrange(pos, pos + 8)) as i64, pos + 8))
    }
}

/// Reading a length-prefixed UTF-8 string at `pos`.
pub open spec fn spec_read_str(buf: Seq<u8>, pos: int) -> Result<(Seq<char>, int), Seq<char>> {
    match spec_read_u32(buf, pos) {
        Err(e) => Err(e),
        Ok((len, p)) => {
            if p + len > buf.len() {
                Err(end_of_data_message())
            } else if !valid_utf8(buf.subrange(p, p + len)) {
                Err(bad_string_message())
            } else {
                Ok((decode_utf8(buf.subrange(p, p + len)), p + len))
            }
        },
    }
}

/// Appends `v` as four little-endian bytes.
pub fn write_u32(buf: &mut Vec<u8>, v: u32)
    ensures
        final(buf)@ == old(buf)@ + spec_u32_to_le_bytes(v),
{
    let b = u32_to_le_bytes(v);
    buf.push(b[0]);
    buf.push(b[1]);
    buf.push(b[2]);
    buf.push(b[3]);
    assert(buf@ =~= old(buf)@ + spec_u32_to_le_bytes(v));
}

/// Appends `v` as eight little-endian bytes (two's complement).
pub fn write_i64(buf: &mut Vec<u8>, v: i64)
    ensures
        final(buf)@ == old(buf)@ + spec_u64_to_le_bytes(v as u64),
{
    let b = u64_to_le_bytes(v as u64);
    let mut i: usize = 0;
    while i < 8
        invariant
            0 <= i <= 8,
            b@ == spec_u64_to_le_bytes(v as u64),
            b@.len() == 8,
            buf@ == old(buf)@ + b@.take(i as int),
        decreases 8 - i,
    {
        buf.push(b[i]);
        i = i + 1;
        assert(buf@ =~= old(buf)@ + b@.take(i as int));
    }
    assert(b@.take(8) =~= b@);
}

/// Appends a byte sequence.
fn push_bytes(buf: &mut Vec<u8>, bytes: &[u8])
    ensures
        final(buf)@ == old(buf)@ + bytes@,
{
    let mut i: usize = 0;
    while i < bytes.len()
        invariant
            0 <= i <= bytes@.len(),
            buf@ == old(buf)@ + bytes@.take(i as int),
        decreases bytes@.len() - i,
    {
        buf.push(bytes[i]);
        i = i + 1;
        assert(buf@ =~= old(buf)@ + bytes@.take(i as int));
    }
    assert(bytes@.take(bytes@.len() as int) =~= bytes@);
}

/// Appends a string: its UTF-8 length as a `u32` (truncated to 32 bits), then
/// its bytes.
pub fn write_str(buf: &mut Vec<u8>, s: &str)
    ensures
        final(buf)@ == old(buf)@ + spec_u32_to_le_bytes(encode_utf8(s@).len() as u32)
            + encode_utf8(s@),
{
    let bytes = s.as_bytes();
    write_u32(buf, bytes.len() as u32);
    push_bytes(buf, bytes);
}

/// Reads one byte at the cursor.
pub fn read_u8(buf: &[u8], cursor: &mut usize) -> (r: Result<u8, CompileError>)
    requires
        *old(cursor) <= buf@.len(),
    ensures
        match r {
            Ok(v) => *old(cursor) < buf@.len() && v == buf@[*old(cursor) as int] && *final(cursor) == *old(cursor) + 1,
            Err(e) => *old(cursor) >= buf@.len() && e.message@ == end_of_data_message() && *final(cursor) == *old(cursor),
        },
{
    if *cursor >= buf.len() {
        return Err(CompileError::simple("unexpected end of bytecode"));
    }
    let v = buf[*cursor];
    *cursor = *cursor + 1;
    Ok(v)
}

/// Reads a little-endian `u32` at the cursor.
pub fn read_u32(buf: &[u8], cursor: &mut usize) -> (r: Result<u32, CompileError>)
    requires
        *old(cursor) <= buf@.len(),
    ensures
        *final(cursor) <= buf@.len(),
        match (r, spec_read_u32(buf@, *old(cursor) as int)) {
            (Ok(v), Ok((w, p))) => v == w && *final(cursor) == p,
            (Err(e), Err(m)) => e.message@ == m && *final(cursor) == *old(cursor),
            _ => false,
        },
{
    if buf.len() - *cursor < 4 {
        return Err(CompileError::simple("unexpected end of bytecode"));
    }
    let v = u32_from_le_bytes(&buf[*cursor..*cursor + 4]);
    *cursor = *cursor + 4;
    Ok(v)
}

/// Reads a little-endian `i64` at the cursor.
pub fn read_i64(buf: &[u8], cursor: &mut usize) -> (r: Result<i64, CompileError>)
    requires
        *old(cursor) <= buf@.len(),
    ensures
        *final(cursor) <= buf@.len(),
        match (r, spec_read_i64(buf@, *old(cursor) as int)) {
            (Ok(v), Ok((w, p))) => v == w && *final(cursor) == p,
            (Err(e), Err(m)) => e.message@ == m && *final(cursor) == *old(cursor),
            _ => false,
        },
{
    if buf.len() - *cursor < 8 {
        return Err(CompileError::simple("unexpected end of bytecode"));
    }
    let v = u64_from_le_bytes(&buf[*cursor..*cursor + 8]);
    *cursor = *cursor + 8;
    Ok(v as i64)
}

/// The string that some bytes encode in UTF-8, if they are valid UTF-8.
///
/// Trusted wrapper around `std::str::from_utf8`, which is documented to
/// succeed exactly on valid UTF-8 and then to view the same bytes as text.
#[verifier::external_body]
fn str_from_utf8(b: &[u8]) -> (r: Option<&str>)
    ensures
        r is Some <==> valid_utf8(b@),
        r matches Some(s) ==> encode_utf8(s@) == b@,
{
    std::str::from_utf8(b).ok()
}

/// Reads a length-prefixed UTF-8 string at the cursor.
pub fn read_str(buf: &[u8], cursor: &mut usize) -> (r: Result<String, CompileError>)
    requires
        *old(cursor) <= buf@.len(),
    ensures
        *final(cursor) <= buf@.len(),
        match (r, spec_read_str(buf@, *old(cursor) as int)) {
            (Ok(v), Ok((w, p))) => v@ == w && *final(cursor) == p,
            (Err(e), Err(m)) => e.message@ == m,
            _ => false,
        },
{
    let len = read_u32(buf, cursor)?;
    let len = len as usize;
    if len > buf.len() - *cursor {
        return Err(CompileError::simple("unexpected end of bytecode"));
    }
    let bytes = &buf[*cursor..*cursor + len];
    match str_from_utf8(bytes) {
        None => Err(CompileError::simple("invalid bytecode string")),
        Some(s) => {
            proof {
                encode_utf8_decode_utf8(s@);
            }
            *cursor = *cursor + len;
            Ok(s.to_string())
        },
    }
}

/// Reading back a written `u32` gives the same value.
pub proof fn lemma_u32_roundtrip(prefix: Seq<u8>, v: u32, rest: Seq<u8>)
    ensures
        spec_read_u32(prefix + spec_u32_to_le_bytes(v) + rest, prefix.len() as int) == Ok::<
            (u32, int),
            Seq<char>,
        >((v, prefix.len() + 4 as int)),
{
    lemma_auto_spec_u32_to_from_le_bytes();
    let buf = prefix + spec_u32_to_le_bytes(v) + rest;
    assert(buf.subrange(prefix.len() as int, prefix.len() + 4 as int) =~= spec_u32_to_le_bytes(v));
}

/// Reading back a written `i64` gives the same value.
pub proof fn lemma_i64_roundtrip(prefix: Seq<u8>, v: i64, rest: Seq<u8>)
    ensures
        spec_read_i64(prefix + spec_u64_to_le_bytes(v as u64) + rest, prefix.len() as int)
            == Ok::<(i64, int), Seq<char>>((v, prefix.len() + 8 as int)),
{
    lemma_auto_spec_u64_to_from_le_bytes();
    let buf = prefix + spec_u64_to_le_bytes(v as u64) + rest;
    assert(buf.subrange(prefix.len() as int, prefix.len() + 8 as int) =~= spec_u64_to_le_bytes(
        v as u64,
    ));
    assert(((v as u64) as i64) == v) by (bit_vector);
}

/// Reading back a written string gives the same text, as long as its UTF-8
/// length fits in 32 bits.
pub proof fn lemma_str_roundtrip(prefix: Seq<u8>, s: Seq<char>, rest: Seq<u8>)
    requires
        encode_utf8(s).len() <= u32::MAX,
    ensures
        spec_read_str(prefix + spec_str_bytes(s) + rest, prefix.len() as int) == Ok::<
            (Seq<char>, int),
            Seq<char>,
        >((s, (prefix.len() + spec_str_bytes(s).len()) as int)),
{
    let e = encode_utf8(s);
    let n = e.len() as u32;
    let buf = prefix + spec_str_bytes(s) + rest;
    assert(buf == prefix + spec_u32_to_le_bytes(n) + (e + rest));
    lemma_u32_roundtrip(prefix, n, e + rest);
    lemma_auto_spec_u32_to_from_le_bytes();
    let p: int = prefix.len() as int + 4;
    assert(buf.subrange(p, p + n as int) =~= e);
    encode_utf8_valid_utf8(s);
    encode_utf8_decode_utf8(s);
}


/// The message of a byte that stands for no operation.
pub open spec fn unknown_opcode_message() -> Seq<char> {
    "unknown bytecode opcode"@
}

/// Whether an instruction model has the operand fields its operation uses and
/// leaves the others at zero, false or empty.
pub open spec fn wf_model(m: InstrModel) -> bool {
    let (op, v, b, s, x) = m;
    if op == OpCode::ConstInt {
        !b && s == Seq::<char>::empty() && x == 0
    } else if op == OpCode::ConstBool {
        v == 0 && s == Seq::<char>::empty() && x == 0
    } else if op == OpCode::ConstStr {
        v == 0 && !b && x == 0 && encode_utf8(s).len() <= u32::MAX
    } else if op.spec_has_operand() {
        v == 0 && !b && s == Seq::<char>::empty()
    } else {
        m == plain_model(op)
    }
}

/// The bytes that follow the operation byte of an instruction.
pub open spec fn spec_operand_bytes(m: InstrModel) -> Seq<u8> {
    let op = m.0;
    if op == OpCode::ConstInt {
        spec_u64_to_le_bytes(m.1 as u64)
    } else if op == OpCode::ConstBool {
        seq![if m.2 { 1u8 } else { 0u8 }]
    } else if op == OpCode::ConstStr {
        spec_str_bytes(m.3)
    } else if op.spec_has_operand() {
        spec_u32_to_le_bytes(m.4)
    } else {
        Seq::empty()
    }
}

/// The encoding of one instruction: its operation byte, then its operand.
pub open spec fn spec_encode_instr(m: InstrModel) -> Seq<u8> {
    seq![m.0.spec_code()] + spec_operand_bytes(m)
}

/// The encoding of a sequence of instructions, one after the other.
pub open spec fn spec_encode_code(s: Seq<InstrModel>) -> Seq<u8>
    decreases s.len(),
{
    if s.len() == 0 {
        Seq::empty()
    } else {
        spec_encode_code(s.drop_last()) + spec_encode_instr(s.last())
    }
}

/// Decoding one instruction at `pos`: its model and the next position.
pub open spec fn spec_decode_instr(buf: Seq<u8>, pos: int) -> Result<(InstrModel, int), Seq<char>> {
    if pos >= buf.len() {
        Err(end_of_data_message())
    } else {
        match OpCode::spec_from_code(buf[pos]) {
            None => Err(unknown_opcode_message()),
            Some(op) => {
                let p = pos + 1;
                if op == OpCode::ConstInt {
                    match spec_read_i64(buf, p) {
                        Ok((v, q)) => Ok(((op, v, false, Seq::<char>::empty(), 0u32), q)),
                        Err(e) => Err(e),
                    }
                } else if op == OpCode::ConstBool {
                    if p >= buf.len() {
                        Err(end_of_data_message())
                    } else {
                        Ok(((op, 0i64, buf[p] != 0, Seq::<char>::empty(), 0u32), p + 1))
                    }
                } else if op == OpCode::ConstStr {
                    match spec_read_str(buf, p) {
                        Ok((t, q)) => Ok(((op, 0i64, false, t, 0u32), q)),
                        Err(e) => Err(e),
                    }
                } else if op.spec_has_operand() {
                    match spec_read_u32(buf, p) {
                        Ok((x, q)) => Ok(((op, 0i64, false, Seq::<char>::empty(), x), q)),
                        Err(e) => Err(e),
                    }
                } else {
                    Ok((plain_model(op), p))
                }
            },
        }
    }
}

/// Decoding `n` instructions one after the other from `pos`.
pub open spec fn spec_decode_code(buf: Seq<u8>, pos: int, n: nat) -> Result<
    (Seq<InstrModel>, int),
    Seq<char>,
>
    decreases n,
{
    if n == 0 {
        Ok((Seq::empty(), pos))
    } else {
        match spec_decode_code(buf, pos, (n - 1) as nat) {
            Ok((s, p)) => match spec_decode_instr(buf, p) {
                Ok((m, q)) => Ok((s.push(m), q)),
                Err(e) => Err(e),
            },
            Err(e) => Err(e),
        }
    }
}

/// Every operation byte decodes back to its operation.
pub proof fn lemma_opcode_roundtrip(op: OpCode)
    ensures
        OpCode::spec_from_code(op.spec_code()) == Some(op),
{
}

/// Appends the encoding of one instruction.
pub fn encode_instr(buf: &mut Vec<u8>, instr: &Instr)
    ensures
        final(buf)@ == old(buf)@ + spec_encode_instr(instr.model()),
{
    buf.push(instr.opcode().code());
    let ghost mid = buf@;
    match instr {
        Instr::ConstInt(v) => write_i64(buf, *v),
        Instr::ConstBool(v) => buf.push(if *v { 1u8 } else { 0u8 }),
        Instr::ConstStr(s) => write_str(buf, s.as_str()),
        Instr::Load(x) => write_u32(buf, *x),
        Instr::Store(x) => write_u32(buf, *x),
        Instr::Jump(x) => write_u32(buf, *x),
        Instr::JumpIfFalse(x) => write_u32(buf, *x),
        Instr::ReadInt(x) => write_u32(buf, *x),
        Instr::ReadBool(x) => write_u32(buf, *x),
        Instr::ReadStr(x) => write_u32(buf, *x),
        Instr::Call(x) => write_u32(buf, *x),
        Instr::AllocArray(x) => write_u32(buf, *x),
        _ => {},
    }
    assert(buf@ =~= old(buf)@ + spec_encode_instr(instr.model()));
}


/// Decodes one instruction at the cursor.
pub fn decode_instr(buf: &[u8], cursor: &mut usize) -> (r: Result<Instr, CompileError>)
    requires
        *old(cursor) <= buf@.len(),
    ensures
        *final(cursor) <= buf@.len(),
        match (r, spec_decode_instr(buf@, *old(cursor) as int)) {
            (Ok(i), Ok((m, p))) => i.model() == m && *final(cursor) == p,
            (Err(e), Err(m)) => e.message@ == m,
            _ => false,
        },
{
    let code = read_u8(buf, cursor)?;
    let op = match OpCode::from_code(code) {
        Some(op) => op,
        None => {
            return Err(CompileError::simple("unknown bytecode opcode"));
        },
    };
    match op {
        OpCode::ConstInt => Ok(Instr::ConstInt(read_i64(buf, cursor)?)),
        OpCode::ConstBool => {
            let b = read_u8(buf, cursor)?;
            Ok(Instr::ConstBool(b != 0))
        },
        OpCode::ConstStr => Ok(Instr::ConstStr(read_str(buf, cursor)?)),
        OpCode::Load => Ok(Instr::Load(read_u32(buf, cursor)?)),
        OpCode::Store => Ok(Instr::Store(read_u32(buf, cursor)?)),
        OpCode::Jump => Ok(Instr::Jump(read_u32(buf, cursor)?)),
        OpCode::JumpIfFalse => Ok(Instr::JumpIfFalse(read_u32(buf, cursor)?)),
        OpCode::ReadInt => Ok(Instr::ReadInt(read_u32(buf, cursor)?)),
        OpCode::ReadBool => Ok(Instr::ReadBool(read_u32(buf, cursor)?)),
        OpCode::ReadStr => Ok(Instr::ReadStr(read_u32(buf, cursor)?)),
        OpCode::Call => Ok(Instr::Call(read_u32(buf, cursor)?)),
        OpCode::AllocArray => Ok(Instr::AllocArray(read_u32(buf, cursor)?)),
        _ => Ok(Instr::from_plain(op)),
    }
}

/// Decoding an encoded instruction gives it back.
pub proof fn lemma_instr_roundtrip(prefix: Seq<u8>, m: InstrModel, rest: Seq<u8>)
    requires
        wf_model(m),
    ensures
        spec_decode_instr(prefix + spec_encode_instr(m) + rest, prefix.len() as int) == Ok::<
            (InstrModel, int),
            Seq<char>,
        >((m, (prefix.len() + spec_encode_instr(m).len()) as int)),
{
    let op = m.0;
    lemma_opcode_roundtrip(op);
    let buf = prefix + spec_encode_instr(m) + rest;
    let p = prefix + seq![op.spec_code()];
    assert(buf =~= p + spec_operand_bytes(m) + rest);
    assert(buf[prefix.len() as int] == op.spec_code());
    let q: int = prefix.len() as int + 1;
    if op == OpCode::ConstInt {
        lemma_i64_roundtrip(p, m.1, rest);
        lemma_auto_spec_u64_to_from_le_bytes();
        assert(spec_u64_to_le_bytes(m.1 as u64).len() == 8);
        assert(m == (op, m.1, false, Seq::<char>::empty(), 0u32));
        assert(spec_read_i64(buf, q) == Ok::<(i64, int), Seq<char>>((m.1, q + 8)));
        assert(spec_decode_instr(buf, prefix.len() as int) == Ok::<(InstrModel, int), Seq<char>>((m, (prefix.len() + spec_encode_instr(m).len()) as int)));
    } else if op == OpCode::ConstBool {
        assert(buf[q] == (if m.2 { 1u8 } else { 0u8 }));
        assert(spec_decode_instr(buf, prefix.len() as int) == Ok::<(InstrModel, int), Seq<char>>((m, (prefix.len() + spec_encode_instr(m).len()) as int)));
    } else if op == OpCode::ConstStr {
        lemma_str_roundtrip(p, m.3, rest);
        assert(spec_decode_instr(buf, prefix.len() as int) == Ok::<(InstrModel, int), Seq<char>>((m, (prefix.len() + spec_encode_instr(m).len()) as int)));
    } else if op.spec_has_operand() {
        lemma_u32_roundtrip(p, m.4, rest);
        lemma_auto_spec_u32_to_from_le_bytes();
        assert(spec_u32_to_le_bytes(m.4).len() == 4);
        assert(m == (op, 0i64, false, Seq::<char>::empty(), m.4));
        assert(spec_decode_instr(buf, prefix.len() as int) == Ok::<(InstrModel, int), Seq<char>>((m, (prefix.len() + spec_encode_instr(m).len()) as int)));
    } else {
        assert(spec_operand_bytes(m) =~= Seq::<u8>::empty());
        assert(spec_decode_instr(buf, prefix.len() as int) == Ok::<(InstrModel, int), Seq<char>>((m, (prefix.len() + spec_encode_instr(m).len()) as int)));
    }
}


/// Decoding the encoding of a sequence of instructions gives it back.
pub proof fn lemma_code_roundtrip(prefix: Seq<u8>, s: Seq<InstrModel>, rest: Seq<u8>)
    requires
        forall|i: int| 0 <= i < s.len() ==> wf_model(#[trigger] s[i]),
    ensures
        spec_decode_code(prefix + spec_encode_code(s) + rest, prefix.len() as int, s.len())
            == Ok::<(Seq<InstrModel>, int), Seq<char>>(
            (s, (prefix.len() + spec_encode_code(s).len()) as int),
        ),
    decreases s.len(),
{
    if s.len() == 0 {
        assert(spec_encode_code(s) =~= Seq::<u8>::empty());
        assert(s =~= Seq::<InstrModel>::empty());
    } else {
        let init = s.drop_last();
        let last = s.last();
        let tail = spec_encode_instr(last) + rest;
        assert(prefix + spec_encode_code(s) + rest =~= prefix + spec_encode_code(init) + tail);
        lemma_code_roundtrip(prefix, init, tail);
        assert(wf_model(s[s.len() - 1]));
        lemma_instr_roundtrip(prefix + spec_encode_code(init), last, rest);
        assert(prefix + spec_encode_code(init) + spec_encode_instr(last) + rest
            =~= prefix + spec_encode_code(s) + rest);
        assert(init.push(last) =~= s);
    }
}

/// Appends the encodings of the instructions of `code`, in order.
fn encode_code(buf: &mut Vec<u8>, code: &Vec<Instr>)
    ensures
        final(buf)@ == old(buf)@ + spec_encode_code(code_model(code@)),
{
    let mut i: usize = 0;
    while i < code.len()
        invariant
            0 <= i <= code@.len(),
            buf@ == old(buf)@ + spec_encode_code(code_model(code@.take(i as int))),
        decreases code@.len() - i,
    {
        let ghost before = buf@;
        encode_instr(buf, &code[i]);
        proof {
            let s = code_model(code@.take(i + 1));
            assert(s.drop_last() =~= code_model(code@.take(i as int)));
            assert(s.last() == code@[i as int].model());
        }
        i = i + 1;
    }
    assert(code@.take(code@.len() as int) =~= code@);
}

/// Once decoding `i` instructions fails, decoding more fails the same way.
proof fn lemma_decode_code_err(buf: Seq<u8>, pos: int, i: nat, n: nat)
    requires
        i <= n,
        spec_decode_code(buf, pos, i) is Err,
    ensures
        spec_decode_code(buf, pos, n) == spec_decode_code(buf, pos, i),
    decreases n - i,
{
    if i < n {
        lemma_decode_code_err(buf, pos, i, (n - 1) as nat);
    }
}

/// Decodes `n` instructions from the cursor.
pub fn read_code(buf: &[u8], cursor: &mut usize, n: u32) -> (r: Result<Vec<Instr>, CompileError>)
    requires
        *old(cursor) <= buf@.len(),
    ensures
        *final(cursor) <= buf@.len(),
        match (r, spec_decode_code(buf@, *old(cursor) as int, n as nat)) {
            (Ok(v), Ok((s, p))) => code_model(v@) == s && *final(cursor) == p,
            (Err(e), Err(m)) => e.message@ == m,
            _ => false,
        },
{
    let ghost start = *cursor as int;
    let mut code: Vec<Instr> = Vec::new();
    assert(code_model(code@) =~= Seq::<InstrModel>::empty());
    let mut i: u32 = 0;
    while i < n
        invariant
            0 <= i <= n,
            start == *old(cursor) as int,
            *cursor <= buf@.len(),
            spec_decode_code(buf@, start, i as nat) == Ok::<(Seq<InstrModel>, int), Seq<char>>(
                (code_model(code@), *cursor as int),
            ),
        decreases n - i,
    {
        let ghost pre = *cursor as int;
        let instr = match decode_instr(buf, cursor) {
            Ok(instr) => instr,
            Err(e) => {
                proof {
                    let d = spec_decode_instr(buf@, pre);
                    assert(d is Err);
                    assert(spec_decode_code(buf@, start, (i + 1) as nat) == Err::<
                        (Seq<InstrModel>, int),
                        Seq<char>,
                    >(d->Err_0));
                    lemma_decode_code_err(buf@, start, (i + 1) as nat, n as nat);
                }
                return Err(e);
            },
        };
        let ghost old_code = code@;
        code.push(instr);
        proof {
            assert(code_model(code@) =~= code_model(old_code).push(instr.model()));
        }
        i = i + 1;
    }
    Ok(code)
}

/// The encoding of a function: name, parameter count, local count, number of
/// instructions, then the instructions.
pub open spec fn spec_encode_function(f: FunctionModel) -> Seq<u8> {
    spec_str_bytes(f.0) + spec_u32_to_le_bytes(f.1) + spec_u32_to_le_bytes(f.2)
        + spec_u32_to_le_bytes(f.3.len() as u32) + spec_encode_code(f.3)
}

/// Decoding one function at `pos`.
pub open spec fn spec_decode_function(buf: Seq<u8>, pos: int) -> Result<(FunctionModel, int), Seq<char>> {
    match spec_read_str(buf, pos) {
        Err(e) => Err(e),
        Ok((name, p1)) => match spec_read_u32(buf, p1) {
            Err(e) => Err(e),
            Ok((params, p2)) => match spec_read_u32(buf, p2) {
                Err(e) => Err(e),
                Ok((locals, p3)) => match spec_read_u32(buf, p3) {
                    Err(e) => Err(e),
                    Ok((count, p4)) => match spec_decode_code(buf, p4, count as nat) {
                        Err(e) => Err(e),
                        Ok((code, p5)) => Ok(((name, params, locals, code), p5)),
                    },
                },
            },
        },
    }
}

/// Whether a function model can be encoded and decoded back: its name and its
/// number of instructions fit the 32-bit length fields, and every instruction
/// model is well formed.
pub open spec fn wf_function(f: FunctionModel) -> bool {
    &&& encode_utf8(f.0).len() <= u32::MAX
    &&& f.3.len() <= u32::MAX
    &&& forall|i: int| 0 <= i < f.3.len() ==> wf_model(#[trigger] f.3[i])
}

/// Appends the encoding of a function.
pub fn write_function(buf: &mut Vec<u8>, func: &Function)
    ensures
        final(buf)@ == old(buf)@ + spec_encode_function(func.model()),
{
    write_str(buf, func.name.as_str());
    write_u32(buf, func.param_count);
    write_u32(buf, func.locals);
    write_u32(buf, func.code.len() as u32);
    encode_code(buf, &func.code);
    assert(buf@ =~= old(buf)@ + spec_encode_function(func.model()));
}

/// Decodes one function at the cursor.
pub fn read_function(buf: &[u8], cursor: &mut usize) -> (r: Result<Function, CompileError>)
    requires
        *old(cursor) <= buf@.len(),
    ensures
        *final(cursor) <= buf@.len(),
        match (r, spec_decode_function(buf@, *old(cursor) as int)) {
            (Ok(f), Ok((m, p))) => f.model() == m && *final(cursor) == p,
            (Err(e), Err(m)) => e.message@ == m,
            _ => false,
        },
{
    let name = read_str(buf, cursor)?;
    let param_count = read_u32(buf, cursor)?;
    let locals = read_u32(buf, cursor)?;
    let count = read_u32(buf, cursor)?;
    let code = read_code(buf, cursor, count)?;
    Ok(Function { name, param_count, locals, code })
}

/// Decoding an encoded function gives it back.
pub proof fn lemma_function_roundtrip(prefix: Seq<u8>, f: FunctionModel, rest: Seq<u8>)
    requires
        wf_function(f),
    ensures
        spec_decode_function(prefix + spec_encode_function(f) + rest, prefix.len() as int) == Ok::<
            (FunctionModel, int),
            Seq<char>,
        >((f, (prefix.len() + spec_encode_function(f).len()) as int)),
{
    lemma_auto_spec_u32_to_from_le_bytes();
    let buf = prefix + spec_encode_function(f) + rest;
    let a = spec_str_bytes(f.0);
    let b1 = spec_u32_to_le_bytes(f.1);
    let b2 = spec_u32_to_le_bytes(f.2);
    let b3 = spec_u32_to_le_bytes(f.3.len() as u32);
    let c = spec_encode_code(f.3);
    assert(buf =~= prefix + a + (b1 + b2 + b3 + c + rest));
    lemma_str_roundtrip(prefix, f.0, b1 + b2 + b3 + c + rest);
    assert(buf =~= (prefix + a) + b1 + (b2 + b3 + c + rest));
    lemma_u32_roundtrip(prefix + a, f.1, b2 + b3 + c + rest);
    assert(buf =~= (prefix + a + b1) + b2 + (b3 + c + rest));
    lemma_u32_roundtrip(prefix + a + b1, f.2, b3 + c + rest);
    assert(buf =~= (prefix + a + b1 + b2) + b3 + (c + rest));
    lemma_u32_roundtrip(prefix + a + b1 + b2, f.3.len() as u32, c + rest);
    assert(buf =~= (prefix + a + b1 + b2 + b3) + c + rest);
    lemma_code_roundtrip(prefix + a + b1 + b2 + b3, f.3, rest);
}


/// The encoding of a sequence of functions, one after the other.
pub open spec fn spec_encode_functions(fs: Seq<FunctionModel>) -> Seq<u8>
    decreases fs.len(),
{
    if fs.len() == 0 {
        Seq::empty()
    } else {
        spec_encode_functions(fs.drop_last()) + spec_encode_function(fs.last())
    }
}

/// Decoding `n` functions one after the other from `pos`.
pub open spec fn spec_decode_functions(buf: Seq<u8>, pos: int, n: nat) -> Result<
    (Seq<FunctionModel>, int),
    Seq<char>,
>
    decreases n,
{
    if n == 0 {
        Ok((Seq::empty(), pos))
    } else {
        match spec_decode_functions(buf, pos, (n - 1) as nat) {
            Ok((s, p)) => match spec_decode_function(buf, p) {
                Ok((f, q)) => Ok((s.push(f), q)),
                Err(e) => Err(e),
            },
            Err(e) => Err(e),
        }
    }
}

/// The four bytes that open every bytecode file: `CERB`.
pub open spec fn magic_bytes() -> Seq<u8> {
    seq![67u8, 69u8, 82u8, 66u8]
}

/// The version of the bytecode format that this library writes and reads.
pub open spec fn format_version() -> u8 {
    2u8
}

/// The encoding of a whole bytecode unit: magic, version, function count,
/// entry, name, then the functions.
pub open spec fn spec_encode_bytecode(b: BytecodeModel) -> Seq<u8> {
    magic_bytes() + seq![format_version()] + spec_u32_to_le_bytes(b.1.len() as u32)
        + spec_u32_to_le_bytes(b.2) + spec_str_bytes(b.0) + spec_encode_functions(b.1)
}

/// Decoding a whole bytecode unit from the start of `buf`.
pub open spec fn spec_decode_bytecode(buf: Seq<u8>) -> Result<BytecodeModel, Seq<char>> {
    if buf.len() < 5 || buf.subrange(0, 4) != magic_bytes() {
        Err("invalid bytecode header"@)
    } else if buf[4] != format_version() {
        Err("unsupported bytecode version"@)
    } else {
        match spec_read_u32(buf, 5) {
            Err(e) => Err(e),
            Ok((count, p1)) => match spec_read_u32(buf, p1) {
                Err(e) => Err(e),
                Ok((entry, p2)) => match spec_read_str(buf, p2) {
                    Err(e) => Err(e),
                    Ok((name, p3)) => match spec_decode_functions(buf, p3, count as nat) {
                        Err(e) => Err(e),
                        Ok((fs, _)) => Ok((name, fs, entry)),
                    },
                },
            },
        }
    }
}

/// Whether a bytecode model can be encoded and decoded back.
pub open spec fn wf_bytecode(b: BytecodeModel) -> bool {
    &&& encode_utf8(b.0).len() <= u32::MAX
    &&& b.1.len() <= u32::MAX
    &&& forall|i: int| 0 <= i < b.1.len() ==> wf_function(#[trigger] b.1[i])
}

/// Decoding the encoding of a sequence of functions gives it back.
pub proof fn lemma_functions_roundtrip(prefix: Seq<u8>, fs: Seq<FunctionModel>, rest: Seq<u8>)
    requires
        forall|i: int| 0 <= i < fs.len() ==> wf_function(#[trigger] fs[i]),
    ensures
        spec_decode_functions(prefix + spec_encode_functions(fs) + rest, prefix.len() as int, fs.len())
            == Ok::<(Seq<FunctionModel>, int), Seq<char>>(
            (fs, (prefix.len() + spec_encode_functions(fs).len()) as int),
        ),
    decreases fs.len(),
{
    if fs.len() == 0 {
        assert(spec_encode_functions(fs) =~= Seq::<u8>::empty());
        assert(fs =~= Seq::<FunctionModel>::empty());
    } else {
        let init = fs.drop_last();
        let last = fs.last();
        let tail = spec_encode_function(last) + rest;
        let buf = prefix + spec_encode_functions(fs) + rest;
        let pre2 = prefix + spec_encode_functions(init);
        assert(buf =~= prefix + spec_encode_functions(init) + tail);
        assert(buf =~= pre2 + spec_encode_function(last) + rest);
        assert forall|i: int| 0 <= i < init.len() implies wf_function(#[trigger] init[i]) by {
            assert(init[i] == fs[i]);
        }
        lemma_functions_roundtrip(prefix, init, tail);
        assert(spec_decode_functions(buf, prefix.len() as int, init.len()) == Ok::<
            (Seq<FunctionModel>, int),
            Seq<char>,
        >((init, pre2.len() as int)));
        assert(wf_function(fs[fs.len() - 1]));
        lemma_function_roundtrip(pre2, last, rest);
        assert(spec_decode_function(buf, pre2.len() as int) == Ok::<(FunctionModel, int), Seq<char>>(
            (last, (pre2.len() + spec_encode_function(last).len()) as int),
        ));
        assert(init.push(last) =~= fs);
    }
}

/// Decoding encoded bytecode gives back the same bytecode: every name,
/// count, entry and instruction, as long as the names and counts fit the
/// 32-bit length fields of the format.
pub proof fn lemma_bytecode_roundtrip(b: BytecodeModel)
    requires
        wf_bytecode(b),
    ensures
        spec_decode_bytecode(spec_encode_bytecode(b)) == Ok::<BytecodeModel, Seq<char>>(b),
{
    lemma_auto_spec_u32_to_from_le_bytes();
    let buf = spec_encode_bytecode(b);
    let h = magic_bytes() + seq![format_version()];
    let c = spec_u32_to_le_bytes(b.1.len() as u32);
    let e = spec_u32_to_le_bytes(b.2);
    let n = spec_str_bytes(b.0);
    let f = spec_encode_functions(b.1);
    assert(buf.subrange(0, 4) =~= magic_bytes());
    assert(buf =~= h + c + (e + n + f));
    lemma_u32_roundtrip(h, b.1.len() as u32, e + n + f);
    assert(buf =~= (h + c) + e + (n + f));
    lemma_u32_roundtrip(h + c, b.2, n + f);
    assert(buf =~= (h + c + e) + n + f);
    lemma_str_roundtrip(h + c + e, b.0, f);
    assert(buf =~= (h + c + e + n) + f + Seq::<u8>::empty());
    lemma_functions_roundtrip(h + c + e + n, b.1, Seq::<u8>::empty());
}

/// Once decoding `i` functions fails, decoding more fails the same way.
proof fn lemma_decode_functions_err(buf: Seq<u8>, pos: int, i: nat, n: nat)
    requires
        i <= n,
        spec_decode_functions(buf, pos, i) is Err,
    ensures
        spec_decode_functions(buf, pos, n) == spec_decode_functions(buf, pos, i),
    decreases n - i,
{
    if i < n {
        lemma_decode_functions_err(buf, pos, i, (n - 1) as nat);
    }
}

/// The bytes of a whole bytecode unit, as written to a bytecode file.
pub fn encode_bytecode(bc: &Bytecode) -> (buf: Vec<u8>)
    ensures
        buf@ == spec_encode_bytecode(bc.model()),
{
    let mut buf: Vec<u8> = Vec::new();
    buf.push(67u8);
    buf.push(69u8);
    buf.push(82u8);
    buf.push(66u8);
    buf.push(2u8);
    write_u32(&mut buf, bc.functions.len() as u32);
    write_u32(&mut buf, bc.entry);
    write_str(&mut buf, bc.name.as_str());
    let ghost head = buf@;
    let mut i: usize = 0;
    while i < bc.functions.len()
        invariant
            0 <= i <= bc.functions@.len(),
            buf@ == head + spec_encode_functions(functions_model(bc.functions@.take(i as int))),
        decreases bc.functions@.len() - i,
    {
        write_function(&mut buf, &bc.functions[i]);
        proof {
            let s = functions_model(bc.functions@.take(i + 1));
            assert(s.drop_last() =~= functions_model(bc.functions@.take(i as int)));
            assert(s.last() == bc.functions@[i as int].model());
        }
        i = i + 1;
    }
    assert(bc.functions@.take(bc.functions@.len() as int) =~= bc.functions@);
    assert(buf@ =~= spec_encode_bytecode(bc.model()));
    buf
}

/// Decodes a whole bytecode unit from the bytes of a bytecode file.
pub fn decode_bytecode(buf: &[u8]) -> (r: Result<Bytecode, CompileError>)
    ensures
        match (r, spec_decode_bytecode(buf@)) {
            (Ok(bc), Ok(m)) => bc.model() == m,
            (Err(e), Err(m)) => e.message@ == m,
            _ => false,
        },
{
    if buf.len() < 5 || !(buf[0] == 67u8 && buf[1] == 69u8 && buf[2] == 82u8 && buf[3] == 66u8) {
        proof {
            if buf@.len() >= 5 {
                assert(buf@.subrange(0, 4) != magic_bytes()) by {
                    if buf@.subrange(0, 4) == magic_bytes() {
                        assert(buf@.subrange(0, 4)[0] == buf@[0]);
                        assert(buf@.subrange(0, 4)[1] == buf@[1]);
                        assert(buf@.subrange(0, 4)[2] == buf@[2]);
                        assert(buf@.subrange(0, 4)[3] == buf@[3]);
                    }
                }
            }
        }
        return Err(CompileError::simple("invalid bytecode header"));
    }
    assert(buf@.subrange(0, 4) =~= magic_bytes());
    if buf[4] != 2u8 {
        return Err(CompileError::simple("unsupported bytecode version"));
    }
    let mut cursor: usize = 5;
    let func_count = read_u32(buf, &mut cursor)?;
    let entry = read_u32(buf, &mut cursor)?;
    let name = read_str(buf, &mut cursor)?;
    let ghost start = cursor as int;
    let mut functions: Vec<Function> = Vec::new();
    assert(functions_model(functions@) =~= Seq::<FunctionModel>::empty());
    let mut i: u32 = 0;
    while i < func_count
        invariant
            0 <= i <= func_count,
            cursor <= buf@.len(),
            spec_decode_bytecode(buf@) == (match spec_decode_functions(
                buf@,
                start,
                func_count as nat,
            ) {
                Err(e) => Err(e),
                Ok((fs, _)) => Ok((name@, fs, entry)),
            }),
            spec_decode_functions(buf@, start, i as nat) == Ok::<
                (Seq<FunctionModel>, int),
                Seq<char>,
            >((functions_model(functions@), cursor as int)),
        decreases func_count - i,
    {
        let ghost pre = cursor as int;
        let func = match read_function(buf, &mut cursor) {
            Ok(f) => f,
            Err(e) => {
                proof {
                    let d = spec_decode_function(buf@, pre);
                    assert(spec_decode_functions(buf@, start, (i + 1) as nat) == Err::<
                        (Seq<FunctionModel>, int),
                        Seq<char>,
                    >(d->Err_0));
                    lemma_decode_functions_err(buf@, start, (i + 1) as nat, func_count as nat);
                }
                return Err(e);
            },
        };
        let ghost old_fs = functions@;
        functions.push(func);
        proof {
            assert(functions_model(functions@) =~= functions_model(old_fs).push(func.model()));
        }
        i = i + 1;
    }
    Ok(Bytecode { name, functions, entry })
}

} // verus!
