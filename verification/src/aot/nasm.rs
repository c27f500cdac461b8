use vstd::prelude::*;
use vstd::string::StringSliceAdditionalSpecFns;

use crate::chars::texts;
use crate::text::{decimal, owned, push_char, push_decimal, push_str};

verus! {

/// Bytes as a comma-separated list of decimal numbers.
pub open spec fn decimals_joined(bs: Seq<u8>) -> Seq<char>
    decreases bs.len(),
{
    if bs.len() <= 1 {
        if bs.len() == 0 {
            Seq::empty()
        } else {
            decimal(bs[0] as nat)
        }
    } else {
        decimals_joined(bs.drop_last()) + ","@ + decimal(bs.last() as nat)
    }
}

/// The operand of a `db` directive for some bytes: the bytes in decimal,
/// separated by commas, or `0` for none.
pub open spec fn db_operand(bs: Seq<u8>) -> Seq<char> {
    if bs.len() == 0 {
        "0"@
    } else {
        decimals_joined(bs)
    }
}

/// Lines joined with newlines between them.
pub open spec fn joined_lines(ls: Seq<Seq<char>>) -> Seq<char>
    decreases ls.len(),
{
    if ls.len() <= 1 {
        if ls.len() == 0 {
            Seq::empty()
        } else {
            ls[0]
        }
    } else {
        joined_lines(ls.drop_last()) + "\n"@ + ls.last()
    }
}

/// The bytes a Linux program writes for some lines: the lines joined with
/// newlines, in UTF-8, and a final newline when there is anything.
pub open spec fn linux_payload(ls: Seq<Seq<char>>) -> Seq<u8> {
    let b = vstd::utf8::encode_utf8(joined_lines(ls));
    if b.len() > 0 {
        b.push(10)
    } else {
        b
    }
}

/// NASM source of a Linux x86-64 program that writes the lines to standard
/// output with one `write` system call and exits with status 0.
pub open spec fn linux_source(ls: Seq<Seq<char>>) -> Seq<char> {
    let p = linux_payload(ls);
    "default rel\nglobal _start\n\nsection .text\n_start:\n"@ + (if p.len() > 0 {
        "    mov rax, 1\n    mov rdi, 1\n    lea rsi, [rel msg]\n    mov rdx, msg_len\n    syscall\n"@
    } else {
        Seq::empty()
    }) + "    mov rax, 60\n    xor rdi, rdi\n    syscall\n"@ + (if p.len() > 0 {
        "\nsection .rodata\nmsg: db "@ + db_operand(p) + "\n"@ + "msg_len equ $ - msg\n"@
    } else {
        Seq::empty()
    })
}

/// The calls that print the first `k` messages.
pub open spec fn win_calls(k: nat) -> Seq<char>
    decreases k,
{
    if k == 0 {
        Seq::empty()
    } else {
        win_calls((k - 1) as nat) + "    lea rcx, [rel msg"@ + decimal((k - 1) as nat) + "]\n"@
            + "    call puts\n"@
    }
}

/// The data of the first `k` messages: each line in UTF-8 with a final zero
/// byte.
pub open spec fn win_data(ls: Seq<Seq<char>>, k: nat) -> Seq<char>
    decreases k,
{
    if k == 0 || k > ls.len() {
        Seq::empty()
    } else {
        win_data(ls, (k - 1) as nat) + "msg"@ + decimal((k - 1) as nat) + ": db "@ + db_operand(
            vstd::utf8::encode_utf8(ls[k - 1]).push(0),
        ) + "\n"@
    }
}

/// NASM source of a Windows x86-64 program that prints each line with
/// `puts` and returns 0.
pub open spec fn win64_source(ls: Seq<Seq<char>>) -> Seq<char> {
    "default rel\nextern puts\nglobal main\n\nsection .text\nmain:\n    sub rsp, 40\n"@ + win_calls(
        ls.len(),
    ) + "    xor eax, eax\n    add rsp, 40\n    ret\n"@ + (if ls.len() > 0 {
        "\nsection .rdata\n"@ + win_data(ls, ls.len())
    } else {
        Seq::empty()
    })
}

/// Bytes as the operand of a NASM `db` directive.
pub fn bytes_to_nasm_db(bytes: &[u8]) -> (s: String)
    ensures
        s@ == db_operand(bytes@),
{
    if bytes.len() == 0 {
        return owned("0");
    }
    let mut out = String::new();
    push_decimal(&mut out, bytes[0] as u64);
    let mut i: usize = 1;
    assert(bytes@.take(1).drop_last() =~= Seq::<u8>::empty());
    while i < bytes.len()
        invariant
            1 <= i <= bytes@.len(),
            out@ == decimals_joined(bytes@.take(i as int)),
        decreases bytes@.len() - i,
    {
        push_str(&mut out, ",");
        push_decimal(&mut out, bytes[i] as u64);
        assert(bytes@.take(i + 1).drop_last() =~= bytes@.take(i as int));
        i = i + 1;
    }
    assert(bytes@.take(bytes@.len() as int) =~= bytes@);
    out
}

/// The lines joined with newlines between them.
fn join_lines(lines: &Vec<String>) -> (s: String)
    ensures
        s@ == joined_lines(texts(lines@)),
{
    let mut out = String::new();
    let mut i: usize = 0;
    assert(texts(lines@.take(0)) =~= Seq::<Seq<char>>::empty());
    while i < lines.len()
        invariant
            0 <= i <= lines@.len(),
            out@ == joined_lines(texts(lines@.take(i as int))),
        decreases lines@.len() - i,
    {
        if i > 0 {
            push_str(&mut out, "\n");
        }
        push_str(&mut out, lines[i].as_str());
        assert(texts(lines@.take(i + 1)).drop_last() =~= texts(lines@.take(i as int)));
        assert(texts(lines@.take(i + 1)).last() == lines@[i as int]@);
        if i == 0 {
            assert(texts(lines@.take(1))[0] == lines@[0]@);
            assert(out@ =~= lines@[0]@);
        }
        i = i + 1;
    }
    assert(lines@.take(lines@.len() as int) =~= lines@);
    out
}

/// NASM source of a Linux program that prints the lines (see
/// `linux_source`).
pub fn generate_nasm_linux_source(lines: &Vec<String>) -> (s: String)
    ensures
        s@ == linux_source(texts(lines@)),
{
    let joined = join_lines(lines);
    let raw = joined.as_str().as_bytes();
    let mut payload: Vec<u8> = Vec::new();
    let mut i: usize = 0;
    while i < raw.len()
        invariant
            0 <= i <= raw@.len(),
            payload@ == raw@.take(i as int),
        decreases raw@.len() - i,
    {
        payload.push(raw[i]);
        i = i + 1;
        assert(payload@ =~= raw@.take(i as int));
    }
    assert(raw@.take(raw@.len() as int) =~= raw@);
    if payload.len() > 0 {
        payload.push(10);
    }
    let mut out = owned("default rel\nglobal _start\n\nsection .text\n_start:\n");
    if payload.len() > 0 {
        push_str(
            &mut out,
            "    mov rax, 1\n    mov rdi, 1\n    lea rsi, [rel msg]\n    mov rdx, msg_len\n    syscall\n",
        );
    }
    push_str(&mut out, "    mov rax, 60\n    xor rdi, rdi\n    syscall\n");
    if payload.len() > 0 {
        push_str(&mut out, "\nsection .rodata\nmsg: db ");
        push_str(&mut out, bytes_to_nasm_db(payload.as_slice()).as_str());
        push_str(&mut out, "\n");
        push_str(&mut out, "msg_len equ $ - msg\n");
    }
    assert(out@ =~= linux_source(texts(lines@)));
    out
}

/// NASM source of a Windows program that prints the lines (see
/// `win64_source`).
pub fn generate_nasm_win64_source(lines: &Vec<String>) -> (s: String)
    ensures
        s@ == win64_source(texts(lines@)),
{
    let ghost ls = texts(lines@);
    let mut out = owned("default rel\nextern puts\nglobal main\n\nsection .text\nmain:\n    sub rsp, 40\n");
    let ghost head = out@;
    let mut idx: usize = 0;
    while idx < lines.len()
        invariant
            0 <= idx <= lines@.len(),
            out@ == head + win_calls(idx as nat),
        decreases lines@.len() - idx,
    {
        push_str(&mut out, "    lea rcx, [rel msg");
        push_decimal(&mut out, idx as u64);
        push_str(&mut out, "]\n");
        push_str(&mut out, "    call puts\n");
        idx = idx + 1;
        assert(out@ =~= head + win_calls(idx as nat));
    }
    push_str(&mut out, "    xor eax, eax\n    add rsp, 40\n    ret\n");
    let ghost mid = out@;
    if lines.len() > 0 {
        push_str(&mut out, "\nsection .rdata\n");
        let ghost start = out@;
        let mut k: usize = 0;
        while k < lines.len()
            invariant
                0 <= k <= lines@.len(),
                ls == texts(lines@),
                out@ == start + win_data(ls, k as nat),
            decreases lines@.len() - k,
        {
            let line_bytes = lines[k].as_str().as_bytes();
            let mut bytes: Vec<u8> = Vec::new();
            let mut j: usize = 0;
            while j < line_bytes.len()
                invariant
                    0 <= j <= line_bytes@.len(),
                    bytes@ == line_bytes@.take(j as int),
                decreases line_bytes@.len() - j,
            {
                bytes.push(line_bytes[j]);
                j = j + 1;
                assert(bytes@ =~= line_bytes@.take(j as int));
            }
            assert(line_bytes@.take(line_bytes@.len() as int) =~= line_bytes@);
            bytes.push(0);
            assert(ls[k as int] == lines@[k as int]@);
            push_str(&mut out, "msg");
            push_decimal(&mut out, k as u64);
            push_str(&mut out, ": db ");
            push_str(&mut out, bytes_to_nasm_db(bytes.as_slice()).as_str());
            push_str(&mut out, "\n");
            k = k + 1;
            assert(out@ =~= start + win_data(ls, k as nat));
        }
    }
    assert(out@ =~= win64_source(ls));
    out
}

} // verus!
