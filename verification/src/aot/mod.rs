pub mod fold;
pub mod nasm;
pub mod package;
pub mod script;

use vstd::prelude::*;

use crate::chars::{
    find_from, find_text, has_prefix, has_prefix_at, lower, lowered, pieces, split_pieces,
    starts_with, text_of, texts, trim, trim_range, trim_start, trim_start_at, trimmed,
};
use crate::text::{chars_of, i64_text, owned, push_char, push_str, str_eq};

use self::package::{
    apply_field, assemble, check_header, default_header, features_supported, header_tokens,
    integrity_error, is_int_token, read_fields, settings_error, spec_resolve, toolchain_checksum,
    value_after, HeaderV,
};

verus! {

/// How a script is compiled ahead of time: try assembly first, assembly
/// only, or through generated Rust.
#[derive(Debug, Clone, Copy, PartialEq, Eq, Structural)]
pub enum AotBackend {
    Auto,
    Asm,
    Rust,
}

/// The name of a backend.
pub open spec fn backend_name(b: AotBackend) -> Seq<char> {
    match b {
        AotBackend::Auto => "auto"@,
        AotBackend::Asm => "asm"@,
        AotBackend::Rust => "rust"@,
    }
}

/// The backend a name stands for, trimmed and in any letter case.
pub open spec fn backend_of(raw: Seq<char>) -> Option<AotBackend> {
    let t = lower(trim(raw));
    if t == "auto"@ {
        Some(AotBackend::Auto)
    } else if t == "asm"@ {
        Some(AotBackend::Asm)
    } else if t == "rust"@ {
        Some(AotBackend::Rust)
    } else {
        None
    }
}

impl AotBackend {
    /// The backend a name stands for, ignoring surrounding white space and
    /// letter case.
    pub fn parse(raw: &str) -> (r: Option<AotBackend>)
        ensures
            r == backend_of(raw@),
    {
        let t = trimmed(raw);
        let v = chars_of(t.as_str());
        let l = lowered(&v, 0, v.len());
        assert(v@.subrange(0, v@.len() as int) =~= v@);
        let s = l.as_str();
        if str_eq(s, "auto") {
            Some(AotBackend::Auto)
        } else if str_eq(s, "asm") {
            Some(AotBackend::Asm)
        } else if str_eq(s, "rust") {
            Some(AotBackend::Rust)
        } else {
            None
        }
    }

    /// The name of this backend.
    pub fn as_str(self) -> (s: &'static str)
        ensures
            s@ == backend_name(self),
    {
        match self {
            AotBackend::Auto => "auto",
            AotBackend::Asm => "asm",
            AotBackend::Rust => "rust",
        }
    }
}

/// Every backend's name reads back as that backend.
pub proof fn lemma_backend_roundtrip(b: AotBackend)
    ensures
        backend_of(backend_name(b)) == Some(b),
{
    reveal_strlit("auto");
    reveal_strlit("asm");
    reveal_strlit("rust");
    let n = backend_name(b);
    assert(!crate::chars::is_space(n[0]));
    assert(trim_start(n) == n);
    assert(!crate::chars::is_space(n.last()));
    assert(crate::chars::trim_end(n) == n);
    assert(lower(n) =~= n);
}

/// An error of ahead-of-time compilation.
#[derive(Debug, Clone)]
pub struct AotError {
    pub message: String,
}

/// The fields of a package header being read.
pub struct Header {
    pub vm: i64,
    pub abi: i64,
    pub features: String,
    pub artifact: String,
    pub checksum: Option<String>,
    pub toolchain: Option<String>,
    pub entry: Option<String>,
    pub limit_steps: Option<String>,
    pub limit_stack: Option<String>,
    pub limit_call: Option<String>,
}

/// The text of an optional string.
pub open spec fn opt_text(o: Option<String>) -> Option<Seq<char>> {
    match o {
        Some(s) => Some(s@),
        None => None,
    }
}

impl Header {
    /// The content of this header.
    pub open spec fn view(&self) -> HeaderV {
        HeaderV {
            vm: self.vm,
            abi: self.abi,
            features: self.features@,
            artifact: self.artifact@,
            checksum: opt_text(self.checksum),
            toolchain: opt_text(self.toolchain),
            entry: opt_text(self.entry),
            limit_steps: opt_text(self.limit_steps),
            limit_stack: opt_text(self.limit_stack),
            limit_call: opt_text(self.limit_call),
        }
    }
}

/// An error with a message.
fn aot_error(message: String) -> (e: AotError)
    ensures
        e.message@ == message@,
{
    AotError { message }
}

/// The same script, for a script; the script a package stands for, for a
/// package.
pub fn normalize_vm_script_or_package(raw: &str) -> (r: Result<String, AotError>)
    ensures
        match (r, spec_resolve(raw@)) {
            (Ok(s), Ok(t)) => s@ == t,
            (Err(e), Err(m)) => e.message@ == m,
            _ => false,
        },
{
    resolve_vm_script_or_package(raw)
}

/// The script that a native build of `raw` compiles: the resolved script,
/// refused when nothing but white space is left of it.
pub open spec fn spec_native_script(raw: Seq<char>) -> Result<Seq<char>, Seq<char>> {
    match spec_resolve(raw) {
        Err(m) => Err(m),
        Ok(s) => if trim(s).len() == 0 {
            Err("aot: input script is empty"@)
        } else {
            Ok(s)
        },
    }
}

/// The script that a native build of the text `raw` (a script or a package)
/// compiles, or the error that stops the build before any tool runs.
pub fn prepare_native_script(raw: &str) -> (r: Result<String, AotError>)
    ensures
        match (r, spec_native_script(raw@)) {
            (Ok(s), Ok(t)) => s@ == t,
            (Err(e), Err(m)) => e.message@ == m,
            _ => false,
        },
{
    let script = match normalize_vm_script_or_package(raw) {
        Ok(s) => s,
        Err(e) => return Err(e),
    };
    let v = chars_of(script.as_str());
    let n = v.len();
    let (lo, hi) = trim_range(&v, 0, n);
    assert(v@.subrange(0, n as int) =~= script@);
    if lo == hi {
        return Err(aot_error(owned("aot: input script is empty")));
    }
    Ok(script)
}

/// Reads one `key=value` token of a package header into `h`.
fn read_field(h: &mut Header, tok: &str) -> (r: Result<(), AotError>)
    ensures
        match (r, apply_field(old(h).view(), tok@)) {
            (Ok(_), Ok(v)) => final(h).view() == v,
            (Err(e), Err(m)) => e.message@ == m,
            _ => false,
        },
{
    let v = chars_of(tok);
    let n = v.len();
    assert(v@.subrange(0, n as int) =~= v@);
    if has_prefix(&v, &chars_of("vm=")) || has_prefix(&v, &chars_of("abi=")) {
        let is_vm = has_prefix(&v, &chars_of("vm="));
        let skip: usize = if is_vm {
            3
        } else {
            4
        };
        proof {
            reveal_strlit("vm=");
            reveal_strlit("abi=");
        }
        let (lo, hi) = trim_range(&v, skip, n);
        assert(v@.subrange(skip as int, n as int) =~= tok@.skip(skip as int));
        let num = if is_int_range_of(&v, lo, hi) {
            parse_int_of(&v, lo, hi)
        } else {
            None
        };
        match num {
            Some(x) => {
                if is_vm {
                    h.vm = x;
                } else {
                    h.abi = x;
                }
                return Ok(());
            },
            None => {
                let m = if is_vm {
                    "aot: vm must be integer"
                } else {
                    "aot: abi must be integer"
                };
                return Err(aot_error(owned(m)));
            },
        }
    }
    proof {
        reveal_strlit("features=");
        reveal_strlit("artifact=");
        reveal_strlit("toolchain=");
        reveal_strlit("checksum=");
        reveal_strlit("entry=");
        reveal_strlit("limit_steps=");
        reveal_strlit("limit_stack=");
        reveal_strlit("limit_call=");
    }
    if has_prefix(&v, &chars_of("features=")) {
        let (lo, hi) = trim_range(&v, 9, n);
        assert(v@.subrange(9, n as int) =~= tok@.skip(9));
        let t = text_of(&v, lo, hi);
        if lo == hi {
            let mut m = owned("aot: unsupported features ");
            push_str(&mut m, t.as_str());
            return Err(aot_error(m));
        }
        h.features = t;
        return Ok(());
    }
    if has_prefix(&v, &chars_of("artifact=")) {
        let (lo, hi) = trim_range(&v, 9, n);
        assert(v@.subrange(9, n as int) =~= tok@.skip(9));
        h.artifact = text_of(&v, lo, hi);
        return Ok(());
    }
    if has_prefix(&v, &chars_of("toolchain=")) {
        let (lo, hi) = trim_range(&v, 10, n);
        assert(v@.subrange(10, n as int) =~= tok@.skip(10));
        h.toolchain = Some(text_of(&v, lo, hi));
        return Ok(());
    }
    if has_prefix(&v, &chars_of("checksum=")) {
        let (lo, hi) = trim_range(&v, 9, n);
        assert(v@.subrange(9, n as int) =~= tok@.skip(9));
        h.checksum = Some(text_of(&v, lo, hi));
        return Ok(());
    }
    if has_prefix(&v, &chars_of("entry=")) {
        let (lo, hi) = trim_range(&v, 6, n);
        assert(v@.subrange(6, n as int) =~= tok@.skip(6));
        if lo < hi {
            h.entry = Some(text_of(&v, lo, hi));
        }
        return Ok(());
    }
    if has_prefix(&v, &chars_of("limit_steps=")) {
        let (lo, hi) = trim_range(&v, 12, n);
        assert(v@.subrange(12, n as int) =~= tok@.skip(12));
        if lo < hi {
            h.limit_steps = Some(text_of(&v, lo, hi));
        }
        return Ok(());
    }
    if has_prefix(&v, &chars_of("limit_stack=")) {
        let (lo, hi) = trim_range(&v, 12, n);
        assert(v@.subrange(12, n as int) =~= tok@.skip(12));
        if lo < hi {
            h.limit_stack = Some(text_of(&v, lo, hi));
        }
        return Ok(());
    }
    if has_prefix(&v, &chars_of("limit_call=")) {
        let (lo, hi) = trim_range(&v, 11, n);
        assert(v@.subrange(11, n as int) =~= tok@.skip(11));
        if lo < hi {
            h.limit_call = Some(text_of(&v, lo, hi));
        }
        return Ok(());
    }
    let mut m = owned("aot: unknown package header field '");
    push_str(&mut m, tok);
    push_str(&mut m, "'");
    Err(aot_error(m))
}

/// Whether `v[a..b]`, once trimmed, is a decimal integer.
fn is_int_range_of(v: &Vec<char>, a: usize, b: usize) -> (r: bool)
    requires
        a <= b <= v@.len(),
    ensures
        r == package::is_int_text(v@.subrange(a as int, b as int)),
{
    let t = text_of(v, a, b);
    is_int_token(t.as_str())
}

/// The value of `v[a..b]` as `i64` parsing reads it.
fn parse_int_of(v: &Vec<char>, a: usize, b: usize) -> (r: Option<i64>)
    requires
        a <= b <= v@.len(),
    ensures
        r == package::parse_int_text(v@.subrange(a as int, b as int)),
{
    package::parse_int_range(v, a, b)
}

/// Appends `"{directive} {value};"` for a value that is set.
fn push_directive(script: &mut String, directive: &str, value: &Option<String>)
    ensures
        final(script)@ == old(script)@ + match opt_text(*value) {
            Some(v) => directive@ + " "@ + v + ";"@,
            None => Seq::empty(),
        },
{
    proof {
        reveal_strlit(" ");
        reveal_strlit(";");
    }
    match value {
        Some(v) => {
            push_str(script, directive);
            push_char(script, ' ');
            push_str(script, v.as_str());
            push_char(script, ';');
        },
        None => {
            assert(old(script)@ + Seq::<char>::empty() =~= old(script)@);
        },
    }
}

/// The first unsupported setting of a header.
fn check_settings(h: &Header) -> (r: Result<(), AotError>)
    ensures
        match (r, settings_error(h.view())) {
            (Ok(_), None) => true,
            (Err(e), Some(m)) => e.message@ == m,
            _ => false,
        },
{
    if h.vm != 1 {
        let mut m = owned("aot: unsupported vm version ");
        push_str(&mut m, i64_text(h.vm).as_str());
        return Err(aot_error(m));
    }
    if h.abi != 1 {
        let mut m = owned("aot: unsupported abi version ");
        push_str(&mut m, i64_text(h.abi).as_str());
        return Err(aot_error(m));
    }
    if !features_supported(h.features.as_str()) {
        let mut m = owned("aot: unsupported features ");
        push_str(&mut m, h.features.as_str());
        return Err(aot_error(m));
    }
    if !str_eq(h.artifact.as_str(), "vm_package") {
        let mut m = owned("aot: unsupported artifact ");
        push_str(&mut m, h.artifact.as_str());
        return Err(aot_error(m));
    }
    if let Some(name) = &h.toolchain {
        if trimmed(name.as_str()).as_str().unicode_len() == 0 {
            return Err(aot_error(owned("aot: toolchain must not be empty")));
        }
    }
    Ok(())
}

/// The first problem with the checksum or the limits of a header.
fn check_integrity(h: &Header, payload: &str) -> (r: Result<(), AotError>)
    ensures
        match (r, integrity_error(h.view(), payload@)) {
            (Ok(_), None) => true,
            (Err(e), Some(m)) => e.message@ == m,
            _ => false,
        },
{
    if let Some(sum) = &h.checksum {
        let t = trimmed(sum.as_str());
        if !is_int_token(t.as_str()) {
            return Err(aot_error(owned("aot: checksum must be integer")));
        }
        let got = toolchain_checksum(payload);
        if !str_eq(got.as_str(), t.as_str()) {
            return Err(aot_error(owned("aot: checksum mismatch")));
        }
    }
    if let Some(x) = &h.limit_steps {
        if !is_int_token(x.as_str()) {
            return Err(aot_error(owned("aot: limit_steps must be integer")));
        }
    }
    if let Some(x) = &h.limit_stack {
        if !is_int_token(x.as_str()) {
            return Err(aot_error(owned("aot: limit_stack must be integer")));
        }
    }
    if let Some(x) = &h.limit_call {
        if !is_int_token(x.as_str()) {
            return Err(aot_error(owned("aot: limit_call must be integer")));
        }
    }
    Ok(())
}

/// The script a package stands for: its settings as directives, then its
/// payload.
fn build_script(h: &Header, payload: &str) -> (s: String)
    ensures
        s@ == assemble(h.view(), payload@),
{
    let mut script = owned("@cerberus_vm 1;");
    push_directive(&mut script, "@entry", &h.entry);
    push_directive(&mut script, "@limit_steps", &h.limit_steps);
    push_directive(&mut script, "@limit_stack", &h.limit_stack);
    push_directive(&mut script, "@limit_call", &h.limit_call);
    push_str(&mut script, payload);
    proof {
        reveal_strlit("@entry ");
        reveal_strlit("@entry");
        reveal_strlit("@limit_steps ");
        reveal_strlit("@limit_steps");
        reveal_strlit("@limit_stack ");
        reveal_strlit("@limit_stack");
        reveal_strlit("@limit_call ");
        reveal_strlit("@limit_call");
        reveal_strlit(" ");
        assert(script@ =~= assemble(h.view(), payload@));
    }
    script
}

/// Checks a package header against the payload `v[p..]` and gives the
/// script the package stands for.
fn finish_package(h: &Header, v: &Vec<char>, p: usize) -> (r: Result<String, AotError>)
    requires
        p <= v@.len(),
    ensures
        match (r, check_header(h.view(), v@.subrange(p as int, v@.len() as int))) {
            (Ok(s), Ok(t)) => s@ == t,
            (Err(e), Err(m)) => e.message@ == m,
            _ => false,
        },
{
    let n = v.len();
    let (lo, hi) = trim_range(v, p, n);
    if lo == hi {
        return Err(aot_error(owned("aot: package payload is empty")));
    }
    match check_settings(h) {
        Err(e) => return Err(e),
        Ok(_) => {},
    }
    let payload = text_of(v, p, n);
    match check_integrity(h, payload.as_str()) {
        Err(e) => return Err(e),
        Ok(_) => {},
    }
    Ok(build_script(h, payload.as_str()))
}

/// The script of a text that may be a package (see `spec_resolve`).
pub fn resolve_vm_script_or_package(raw: &str) -> (r: Result<String, AotError>)
    ensures
        match (r, spec_resolve(raw@)) {
            (Ok(s), Ok(t)) => s@ == t,
            (Err(e), Err(m)) => e.message@ == m,
            _ => false,
        },
{
    let v = chars_of(raw);
    let n = v.len();
    assert(v@.subrange(0, n as int) =~= raw@);
    let a = trim_start_at(&v, 0, n);
    if !has_prefix_at(&v, a, n, &chars_of("cerberus_toolchain_v1")) {
        return Ok(owned(raw));
    }
    let m = match find_text(&v, &chars_of("::code::"), 0) {
        Some(m) => m,
        None => return Err(aot_error(owned("aot: invalid package, missing ::code:: marker"))),
    };
    proof {
        reveal_strlit("::code::");
        crate::chars::lemma_find_from(raw@, "::code::"@, 0);
    }
    assert(raw@.take(m as int) =~= v@.subrange(0, m as int));
    assert(raw@.skip((m + 8) as int) =~= v@.subrange(m + 8, n as int));
    let parts = split_pieces(&v, 0, m, ';');
    let ghost ps = texts(parts@);
    let mut toks: Vec<String> = Vec::new();
    let mut i: usize = 0;
    while i < parts.len()
        invariant
            0 <= i <= parts@.len(),
            ps == texts(parts@),
            texts(toks@) == header_tokens(ps, i as nat),
        decreases parts@.len() - i,
    {
        let t = trimmed(parts[i].as_str());
        let ghost before = texts(toks@);
        if t.as_str().unicode_len() > 0 {
            toks.push(t);
            assert(texts(toks@) =~= before.push(t@));
        }
        i = i + 1;
    }
    if toks.len() < 2 {
        return Err(aot_error(owned("aot: invalid package header")));
    }
    assert(texts(toks@)[0] == toks@[0]@);
    assert(texts(toks@)[1] == toks@[1]@);
    if !str_eq(toks[0].as_str(), "cerberus_toolchain_v1") {
        return Err(aot_error(owned("aot: invalid package magic")));
    }
    if !str_eq(toks[1].as_str(), "vm_text_script") {
        let mut msg = owned("aot: unsupported package format '");
        push_str(&mut msg, toks[1].as_str());
        push_str(&mut msg, "'");
        return Err(aot_error(msg));
    }
    let mut h = Header {
        vm: 1,
        abi: 1,
        features: owned("core,io,collections,fs,time,strings"),
        artifact: owned("vm_package"),
        checksum: None,
        toolchain: None,
        entry: None,
        limit_steps: None,
        limit_stack: None,
        limit_call: None,
    };
    let ghost tv = texts(toks@);
    let ghost payload = raw@.skip((m + 8) as int);
    assert(spec_resolve(raw@) == match read_fields(tv, tv.len()) {
        Err(e) => Err(e),
        Ok(h) => check_header(h, payload),
    });
    let mut k: usize = 2;
    while k < toks.len()
        invariant
            2 <= k <= toks@.len(),
            tv == texts(toks@),
            spec_resolve(raw@) == match read_fields(tv, tv.len()) {
                Err(e) => Err(e),
                Ok(h) => check_header(h, payload),
            },
            read_fields(tv, k as nat) == Ok::<HeaderV, Seq<char>>(h.view()),
        decreases toks@.len() - k,
    {
        assert(tv[k as int] == toks@[k as int]@);
        match read_field(&mut h, toks[k].as_str()) {
            Err(e) => {
                proof {
                    lemma_read_fields_err(tv, (k + 1) as nat, toks@.len() as nat);
                }
                return Err(e);
            },
            Ok(_) => {},
        }
        k = k + 1;
    }
    finish_package(&h, &v, m + 8)
}

/// Once reading `i` fields fails, reading more fails the same way.
proof fn lemma_read_fields_err(toks: Seq<Seq<char>>, i: nat, n: nat)
    requires
        2 < i <= n <= toks.len(),
        read_fields(toks, i) is Err,
    ensures
        read_fields(toks, n) == read_fields(toks, i),
    decreases n - i,
{
    if i < n {
        lemma_read_fields_err(toks, i, (n - 1) as nat);
    }
}

} // verus!
