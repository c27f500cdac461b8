use vstd::prelude::*;
use vstd::string::StringSliceAdditionalSpecFns;

use crate::aot::script::first_space;
use crate::ast::{Block, Decl, Program, ProgramV};
use crate::bytecode::Bytecode;
use crate::chars::{
    is_space_char, lower, lowered, pieces, split_pieces, texts, trim, trim_range, trimmed,
};
use crate::codegen::{spec_emit_program, Codegen, GenState};
use crate::error::{lines_of, source_lines, CompileError};
use crate::parser::grammar::{nth_token, p_program, PErr};
use crate::parser::Parser;
use crate::text::{chars_of, owned, push_str, str_eq};
use crate::typecheck::{builtin_env, spec_check_block, TypeChecker};

verus! {

/// Whether a word, in lower case, is a directive or an operation of the
/// stack-machine text format.
pub open spec fn is_vm_word(w: Seq<char>) -> bool {
    w == "@cerberus_vm"@ || w == "@entry"@ || w == "@limit_steps"@ || w == "@limit_stack"@ || w == "@limit_call"@ || w == "label"@ || w == "halt"@ || w == "nop"@ || w == "locals"@ || w == "const_int"@ || w == "const_bool"@ || w == "const_str"@ || w == "load"@ || w == "store"@ || w == "add"@ || w == "sub"@ || w == "mul"@ || w == "div"@ || w == "eq"@ || w == "ne"@ || w == "lt"@ || w == "le"@ || w == "gt"@ || w == "ge"@ || w == "and"@ || w == "or"@ || w == "not"@ || w == "neg"@ || w == "jump"@ || w == "jump_if_false"@ || w == "call"@ || w == "ret"@ || w == "ret_val"@ || w == "println"@ || w == "readfile"@ || w == "writefile"@ || w == "vec_new"@ || w == "vec_len"@ || w == "vec_get"@ || w == "vec_set"@ || w == "vec_push"@ || w == "vec_remove"@ || w == "vec_last"@ || w == "vec_pop"@ || w == "map_new"@ || w == "map_len"@ || w == "map_set"@ || w == "map_get"@ || w == "map_has"@ || w == "map_remove"@ || w == "limit_steps"@ || w == "limit_stack"@ || w == "limit_call"@
}

/// A text without all of its trailing `;`.
pub open spec fn strip_semis(s: Seq<char>) -> Seq<char>
    decreases s.len(),
{
    if s.len() > 0 && s.last() == ';' {
        strip_semis(s.drop_last())
    } else {
        s
    }
}

/// The first word of a text that does not start with white space.
pub open spec fn first_word(s: Seq<char>) -> Seq<char> {
    match first_space(s, 0) {
        Some(i) => s.take(i as int),
        None => s,
    }
}

/// The word that decides what a line is, in lower case: `None` for a blank
/// line or a comment line.
pub open spec fn line_word(line: Seq<char>) -> Option<Seq<char>> {
    let t = trim(line);
    if t.len() == 0 || t[0] == '#' {
        None
    } else {
        let nc = trim(pieces(t, '#')[0]);
        if nc.len() == 0 {
            None
        } else {
            Some(lower(strip_semis(first_word(nc))))
        }
    }
}

/// Whether the first line with a word, from line `i` on, starts with a word
/// of the stack-machine text format.
pub open spec fn vm_text_from(ls: Seq<Seq<char>>, i: nat) -> bool
    decreases ls.len() - i,
{
    if i >= ls.len() {
        false
    } else {
        match line_word(ls[i as int]) {
            None => vm_text_from(ls, i + 1),
            Some(w) => is_vm_word(w),
        }
    }
}

/// Whether a source text is written in the stack-machine text format: its
/// first line that is neither blank nor a comment starts with one of that
/// format's words.
pub open spec fn spec_is_vm_text(source: Seq<char>) -> bool {
    vm_text_from(source_lines(source), 0)
}

/// Whether a word is one of the stack-machine text format.
fn is_vm_token(w: &str) -> (r: bool)
    ensures
        r == is_vm_word(w@),
{
    str_eq(w, "@cerberus_vm") || str_eq(w, "@entry") || str_eq(w, "@limit_steps") || str_eq(w, "@limit_stack") || str_eq(w, "@limit_call") || str_eq(w, "label") || str_eq(w, "halt") || str_eq(w, "nop") || str_eq(w, "locals") || str_eq(w, "const_int") || str_eq(w, "const_bool") || str_eq(w, "const_str") || str_eq(w, "load") || str_eq(w, "store") || str_eq(w, "add") || str_eq(w, "sub") || str_eq(w, "mul") || str_eq(w, "div") || str_eq(w, "eq") || str_eq(w, "ne") || str_eq(w, "lt") || str_eq(w, "le") || str_eq(w, "gt") || str_eq(w, "ge") || str_eq(w, "and") || str_eq(w, "or") || str_eq(w, "not") || str_eq(w, "neg") || str_eq(w, "jump") || str_eq(w, "jump_if_false") || str_eq(w, "call") || str_eq(w, "ret") || str_eq(w, "ret_val") || str_eq(w, "println") || str_eq(w, "readfile") || str_eq(w, "writefile") || str_eq(w, "vec_new") || str_eq(w, "vec_len") || str_eq(w, "vec_get") || str_eq(w, "vec_set") || str_eq(w, "vec_push") || str_eq(w, "vec_remove") || str_eq(w, "vec_last") || str_eq(w, "vec_pop") || str_eq(w, "map_new") || str_eq(w, "map_len") || str_eq(w, "map_set") || str_eq(w, "map_get") || str_eq(w, "map_has") || str_eq(w, "map_remove") || str_eq(w, "limit_steps") || str_eq(w, "limit_stack") || str_eq(w, "limit_call")
}

/// The word that decides what a line is (see `line_word`).
fn line_token(line: &str) -> (r: Option<String>)
    ensures
        match (r, line_word(line@)) {
            (Some(a), Some(b)) => a@ == b,
            (None, None) => true,
            _ => false,
        },
{
    let v = chars_of(line);
    let (lo, hi) = trim_range(&v, 0, v.len());
    assert(v@.subrange(0, v@.len() as int) =~= line@);
    let ghost t = v@.subrange(lo as int, hi as int);
    if lo == hi || v[lo] == '#' {
        return None;
    }
    let parts = split_pieces(&v, lo, hi, '#');
    proof {
        crate::chars::lemma_pieces_nonempty(t, '#');
    }
    assert(texts(parts@)[0] == parts@[0]@);
    let nc = trimmed(parts[0].as_str());
    let w = chars_of(nc.as_str());
    let n = w.len();
    if n == 0 {
        return None;
    }
    let mut k: usize = 0;
    while k < n && !is_space_char(w[k])
        invariant
            0 <= k <= n == w@.len(),
            w@ == nc@,
            first_space(nc@, 0) == first_space(nc@, k as nat),
        decreases n - k,
    {
        k = k + 1;
    }
    assert(first_word(nc@) =~= w@.subrange(0, k as int));
    let mut e = k;
    while e > 0 && w[e - 1] == ';'
        invariant
            0 <= e <= k <= n == w@.len(),
            strip_semis(first_word(nc@)) == strip_semis(w@.subrange(0, e as int)),
        decreases e,
    {
        assert(w@.subrange(0, e as int).drop_last() =~= w@.subrange(0, e - 1));
        e = e - 1;
    }
    Some(lowered(&w, 0, e))
}

/// Whether a source text is written in the stack-machine text format (see
/// `spec_is_vm_text`).
pub fn is_vm_text_script(source: &str) -> (r: bool)
    ensures
        r == spec_is_vm_text(source@),
{
    let lines = lines_of(source);
    let ghost ls = texts(lines@);
    let mut i: usize = 0;
    while i < lines.len()
        invariant
            0 <= i <= lines@.len(),
            ls == texts(lines@),
            ls == source_lines(source@),
            vm_text_from(ls, 0) == vm_text_from(ls, i as nat),
        decreases lines@.len() - i,
    {
        assert(ls[i as int] == lines@[i as int]@);
        match line_token(lines[i].as_str()) {
            Some(w) => return is_vm_token(w.as_str()),
            None => {},
        }
        i = i + 1;
    }
    false
}

/// What parsing a whole source gives: its program, or the first error, from
/// reading the first two tokens on.
pub open spec fn spec_parse_source(b: Seq<u8>) -> Result<ProgramV, PErr> {
    match (nth_token(b, 0), nth_token(b, 1)) {
        (Err((m, sp)), _) => Err((m, Some(sp))),
        (Ok(_), Err((m, sp))) => Err((m, Some(sp))),
        _ => match p_program(b, 0) {
            Err(e) => Err(e),
            Ok((p, _)) => Ok(p),
        },
    }
}

/// Parses a whole source into a program.
pub fn parse_source(source: &str) -> (r: Result<Program, CompileError>)
    requires
        source.spec_bytes().len() < usize::MAX,
    ensures
        match (r, spec_parse_source(source.spec_bytes())) {
            (Ok(p), Ok(v)) => p.view() == v,
            (Err(e), Err(err)) => e.message@ == err.0 && e.span == err.1,
            _ => false,
        },
{
    let mut p = match Parser::new(source) {
        Ok(p) => p,
        Err(e) => return Err(e),
    };
    p.parse_program()
}

/// The declarations of used modules put before a program's own.
pub fn prepend_declarations(program: &mut Program, decls: Vec<Decl>)
    ensures
        final(program).block.declarations@ == decls@ + old(program).block.declarations@,
        final(program).block.statements == old(program).block.statements,
        final(program).name == old(program).name,
        final(program).uses == old(program).uses,
{
    let mut merged = decls;
    let mut own: Vec<Decl> = Vec::new();
    std::mem::swap(&mut own, &mut program.block.declarations);
    merged.append(&mut own);
    program.block.declarations = merged;
}

/// Whether a used module's main block has nothing but empty statements.
pub open spec fn only_declarations(program: Program) -> bool {
    forall|i: int|
        0 <= i < program.block.statements@.len() ==> #[trigger] program.block.statements@[i] is Empty
}

/// Refuses a used module named `name` whose main block holds a statement.
pub fn check_module_body(program: &Program, name: &str) -> (r: Result<(), CompileError>)
    ensures
        r is Ok <==> only_declarations(*program),
        r matches Err(e) ==> e.message@ == "module '"@ + name@ + "' must not contain statements"@
            && e.span.is_none(),
{
    let mut i: usize = 0;
    while i < program.block.statements.len()
        invariant
            0 <= i <= program.block.statements@.len(),
            forall|j: int| 0 <= j < i ==> #[trigger] program.block.statements@[j] is Empty,
        decreases program.block.statements@.len() - i,
    {
        match &program.block.statements[i] {
            crate::ast::Stmt::Empty => {},
            _ => {
                return Err(
                    CompileError::new_simple(
                        crate::error::message3("module '", name, "' must not contain statements"),
                    ),
                );
            },
        }
        i = i + 1;
    }
    Ok(())
}

/// The generator state before anything is compiled.
pub open spec fn fresh_state() -> GenState {
    GenState { syms: Seq::empty(), code: Seq::empty(), funcs: Seq::empty() }
}

/// Compiles a parsed program into a bytecode unit named after the program
/// and the module: the program is type checked first unless `skip_typecheck`
/// is set, then its code is generated.
pub fn compile_program(program: &Program, module_name: &str, skip_typecheck: bool) -> (r: Result<
    Bytecode,
    CompileError,
>)
    ensures
        match r {
            Ok(bc) => {
                &&& (skip_typecheck || spec_check_block(builtin_env(), program.block) is Ok)
                &&& spec_emit_program(fresh_state(), program.block) matches Ok((st, entry))
                    && bc.model() == (program.name@ + "::"@ + module_name@, st.funcs, entry)
            },
            Err(e) => {
                ||| (!skip_typecheck && spec_check_block(builtin_env(), program.block) == Err::<
                    (),
                    Seq<char>,
                >(e.message@))
                ||| ((skip_typecheck || spec_check_block(builtin_env(), program.block) is Ok)
                    && spec_emit_program(fresh_state(), program.block) == Err::<
                    (GenState, u32),
                    Seq<char>,
                >(e.message@))
            },
        },
{
    if !skip_typecheck {
        let mut checker = TypeChecker::new();
        match checker.check_program(program) {
            Err(e) => return Err(e),
            Ok(_) => {},
        }
    }
    let mut codegen = Codegen::new(program.name.as_str(), module_name);
    assert(codegen.state().syms =~= Seq::empty());
    assert(codegen.state().code =~= Seq::empty());
    assert(codegen.state().funcs =~= Seq::empty());
    codegen.emit_program(program)
}

/// The path segments of candidate places, as texts.
pub open spec fn path_texts(r: Seq<Vec<String>>) -> Seq<Seq<Seq<char>>> {
    r.map_values(|p: Vec<String>| texts(p@))
}

/// Adds the candidate `dirs/name+ext`.
fn push_candidate(r: &mut Vec<Vec<String>>, dirs: &[&str], name: &str, ext: &str)
    ensures
        path_texts(final(r)@) == path_texts(old(r)@).push(
            dirs@.map_values(|d: &str| d@).push(name@ + ext@),
        ),
{
    let mut p: Vec<String> = Vec::new();
    let mut i: usize = 0;
    while i < dirs.len()
        invariant
            0 <= i <= dirs@.len(),
            texts(p@) == dirs@.take(i as int).map_values(|d: &str| d@),
        decreases dirs@.len() - i,
    {
        let ghost before = texts(p@);
        let d = owned(dirs[i]);
        assert(d@ == dirs@[i as int]@);
        p.push(d);
        assert(texts(p@) =~= before.push(d@));
        assert(dirs@.take(i + 1).map_values(|d: &str| d@) =~= dirs@.take(i as int).map_values(
            |d: &str| d@,
        ).push(dirs@[i as int]@));
        i = i + 1;
    }
    assert(dirs@.take(dirs@.len() as int) =~= dirs@);
    let mut file = owned(name);
    push_str(&mut file, ext);
    let ghost before = texts(p@);
    p.push(file);
    assert(texts(p@) =~= before.push(name@ + ext@));
    let ghost prev = path_texts(r@);
    r.push(p);
    assert(path_texts(r@) =~= prev.push(texts(p@)));
}

/// The places where a module is looked for next to the file that uses it, or next to its directory: directories, then the file name.
pub open spec fn local_candidates(name: Seq<char>) -> Seq<Seq<Seq<char>>> {
    seq![
        seq![name + ".cer"@],
        seq![name + ".cerberus"@],
        seq!["runtime"@, name + ".cer"@],
        seq!["runtime"@, name + ".cerberus"@],
        seq!["vm"@, name + ".cer"@],
        seq!["vm"@, name + ".cerberus"@],
        seq!["vm"@, "runtime"@, name + ".cer"@],
        seq!["vm"@, "runtime"@, name + ".cerberus"@],
        seq!["lexer"@, name + ".cer"@],
        seq!["parser"@, name + ".cer"@],
        seq!["codegen"@, name + ".cer"@],
        seq!["typecheck"@, name + ".cer"@],
        seq!["bytecode"@, name + ".cer"@],
        seq!["bytecode"@, "format"@, name + ".cer"@],
        seq!["bytecode"@, "disasm"@, name + ".cer"@],
        seq!["lexer"@, "scanner"@, name + ".cer"@],
        seq!["codegen"@, "expr"@, name + ".cer"@],
        seq!["codegen"@, "stmt"@, name + ".cer"@],
        seq!["codegen"@, "expr"@, "builtins"@, name + ".cer"@],
        seq!["codegen"@, "stmt"@, "builtins"@, name + ".cer"@],
        seq!["typecheck"@, "builtins"@, name + ".cer"@],
    ]
}

/// The places where a module is looked for in the standard library directory.
pub open spec fn stdlib_candidates(name: Seq<char>) -> Seq<Seq<Seq<char>>> {
    seq![
        seq![name + ".cer"@],
        seq![name + ".cerberus"@],
        seq!["lexer"@, name + ".cer"@],
        seq!["lexer"@, "scanner"@, name + ".cer"@],
        seq!["parser"@, name + ".cer"@],
        seq!["codegen"@, name + ".cer"@],
        seq!["codegen"@, "expr"@, name + ".cer"@],
        seq!["codegen"@, "stmt"@, name + ".cer"@],
        seq!["codegen"@, "expr"@, "builtins"@, name + ".cer"@],
        seq!["codegen"@, "stmt"@, "builtins"@, name + ".cer"@],
        seq!["typecheck"@, name + ".cer"@],
        seq!["typecheck"@, "builtins"@, name + ".cer"@],
        seq!["bytecode"@, name + ".cer"@],
        seq!["bytecode"@, "format"@, name + ".cer"@],
        seq!["bytecode"@, "disasm"@, name + ".cer"@],
        seq!["runtime"@, name + ".cer"@],
        seq!["runtime"@, name + ".cerberus"@],
        seq!["vm"@, name + ".cer"@],
        seq!["vm"@, name + ".cerberus"@],
        seq!["vm"@, "runtime"@, name + ".cer"@],
        seq!["vm"@, "runtime"@, name + ".cerberus"@],
        seq!["runtime"@, "vm"@, name + ".cer"@],
        seq!["runtime"@, "vm"@, name + ".cerberus"@],
        seq!["runtime"@, "vm"@, "runtime"@, name + ".cer"@],
        seq!["runtime"@, "vm"@, "runtime"@, name + ".cerberus"@],
    ]
}

/// The places where a module is looked for next to the file that uses it (see `local_candidates`).
pub fn local_module_candidates(name: &str) -> (r: Vec<Vec<String>>)
    ensures
        path_texts(r@) == local_candidates(name@),
{
    let mut r: Vec<Vec<String>> = Vec::new();
    push_candidate(&mut r, &[], name, ".cer");
    push_candidate(&mut r, &[], name, ".cerberus");
    push_candidate(&mut r, &["runtime"], name, ".cer");
    push_candidate(&mut r, &["runtime"], name, ".cerberus");
    push_candidate(&mut r, &["vm"], name, ".cer");
    push_candidate(&mut r, &["vm"], name, ".cerberus");
    push_candidate(&mut r, &["vm", "runtime"], name, ".cer");
    push_candidate(&mut r, &["vm", "runtime"], name, ".cerberus");
    push_candidate(&mut r, &["lexer"], name, ".cer");
    push_candidate(&mut r, &["parser"], name, ".cer");
    push_candidate(&mut r, &["codegen"], name, ".cer");
    push_candidate(&mut r, &["typecheck"], name, ".cer");
    push_candidate(&mut r, &["bytecode"], name, ".cer");
    push_candidate(&mut r, &["bytecode", "format"], name, ".cer");
    push_candidate(&mut r, &["bytecode", "disasm"], name, ".cer");
    push_candidate(&mut r, &["lexer", "scanner"], name, ".cer");
    push_candidate(&mut r, &["codegen", "expr"], name, ".cer");
    push_candidate(&mut r, &["codegen", "stmt"], name, ".cer");
    push_candidate(&mut r, &["codegen", "expr", "builtins"], name, ".cer");
    push_candidate(&mut r, &["codegen", "stmt", "builtins"], name, ".cer");
    push_candidate(&mut r, &["typecheck", "builtins"], name, ".cer");
    assert(path_texts(r@) =~~= local_candidates(name@));
    r
}

/// The places where a module is looked for in the standard library (see `stdlib_candidates`).
pub fn stdlib_module_candidates(name: &str) -> (r: Vec<Vec<String>>)
    ensures
        path_texts(r@) == stdlib_candidates(name@),
{
    let mut r: Vec<Vec<String>> = Vec::new();
    push_candidate(&mut r, &[], name, ".cer");
    push_candidate(&mut r, &[], name, ".cerberus");
    push_candidate(&mut r, &["lexer"], name, ".cer");
    push_candidate(&mut r, &["lexer", "scanner"], name, ".cer");
    push_candidate(&mut r, &["parser"], name, ".cer");
    push_candidate(&mut r, &["codegen"], name, ".cer");
    push_candidate(&mut r, &["codegen", "expr"], name, ".cer");
    push_candidate(&mut r, &["codegen", "stmt"], name, ".cer");
    push_candidate(&mut r, &["codegen", "expr", "builtins"], name, ".cer");
    push_candidate(&mut r, &["codegen", "stmt", "builtins"], name, ".cer");
    push_candidate(&mut r, &["typecheck"], name, ".cer");
    push_candidate(&mut r, &["typecheck", "builtins"], name, ".cer");
    push_candidate(&mut r, &["bytecode"], name, ".cer");
    push_candidate(&mut r, &["bytecode", "format"], name, ".cer");
    push_candidate(&mut r, &["bytecode", "disasm"], name, ".cer");
    push_candidate(&mut r, &["runtime"], name, ".cer");
    push_candidate(&mut r, &["runtime"], name, ".cerberus");
    push_candidate(&mut r, &["vm"], name, ".cer");
    push_candidate(&mut r, &["vm"], name, ".cerberus");
    push_candidate(&mut r, &["vm", "runtime"], name, ".cer");
    push_candidate(&mut r, &["vm", "runtime"], name, ".cerberus");
    push_candidate(&mut r, &["runtime", "vm"], name, ".cer");
    push_candidate(&mut r, &["runtime", "vm"], name, ".cerberus");
    push_candidate(&mut r, &["runtime", "vm", "runtime"], name, ".cer");
    push_candidate(&mut r, &["runtime", "vm", "runtime"], name, ".cerberus");
    assert(path_texts(r@) =~~= stdlib_candidates(name@));
    r
}

} // verus!
