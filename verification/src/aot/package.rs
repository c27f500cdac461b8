use vstd::prelude::*;

use crate::chars::{
    find_from, has_prefix, is_digit_char, is_space_char, lemma_pieces_nonempty, pieces,
    split_pieces, starts_with, text_of, texts, trim, trim_range, trim_start, trimmed, find_text,
};
use crate::text::{chars_of, i64_text, parse_i64, push_char, push_str, signed_decimal, spec_parse_i64};

verus! {

/// A package header: the versions, features and artifact kind it names, and
/// the optional fields it sets.
pub struct HeaderV {
    pub vm: i64,
    pub abi: i64,
    pub features: Seq<char>,
    pub artifact: Seq<char>,
    pub checksum: Option<Seq<char>>,
    pub toolchain: Option<Seq<char>>,
    pub entry: Option<Seq<char>>,
    pub limit_steps: Option<Seq<char>>,
    pub limit_stack: Option<Seq<char>>,
    pub limit_call: Option<Seq<char>>,
}

/// The header fields before any `key=value` token is read.
pub open spec fn default_header() -> HeaderV {
    HeaderV {
        vm: 1,
        abi: 1,
        features: "core,io,collections,fs,time,strings"@,
        artifact: "vm_package"@,
        checksum: None,
        toolchain: None,
        entry: None,
        limit_steps: None,
        limit_stack: None,
        limit_call: None,
    }
}

/// Whether a text, once trimmed, is a decimal integer: digits, with an
/// optional leading `-`.
pub open spec fn is_int_text(s: Seq<char>) -> bool {
    let t = trim(s);
    t.len() > 0 && if t[0] == '-' {
        t.len() > 1 && forall|i: int| 1 <= i < t.len() ==> is_digit_char(#[trigger] t[i])
    } else {
        forall|i: int| 0 <= i < t.len() ==> is_digit_char(#[trigger] t[i])
    }
}

/// The byte of an ASCII character; zero, which no number contains, for any
/// other.
pub open spec fn ascii_byte(c: char) -> u8 {
    if (c as u32) < 128 {
        c as u8
    } else {
        0
    }
}

/// The value of a text as `i64` parsing reads it.
pub open spec fn parse_int_text(s: Seq<char>) -> Option<i64> {
    spec_parse_i64(s.map_values(|c: char| ascii_byte(c)))
}

/// Whether a name is one of the features a package may ask for.
pub open spec fn is_feature(s: Seq<char>) -> bool {
    s == "core"@ || s == "io"@ || s == "collections"@ || s == "fs"@ || s == "time"@ || s
        == "strings"@
}

/// Whether a feature list is supported: not empty, and every item between
/// commas, trimmed, is a known feature.
pub open spec fn features_ok(spec: Seq<char>) -> bool {
    let s = trim(spec);
    let ps = pieces(s, ',');
    s.len() > 0 && forall|i: int| 0 <= i < ps.len() ==> trim(#[trigger] ps[i]).len() > 0 && is_feature(
        trim(ps[i]),
    )
}

/// The place of a punctuation character in the checksum alphabet.
pub open spec fn punct_index(c: char) -> Option<int> {
    if c == ' ' {
        Some(0)
    } else if c == '_' {
        Some(1)
    } else if c == '@' {
        Some(2)
    } else if c == '#' {
        Some(3)
    } else if c == '-' {
        Some(4)
    } else if c == '+' {
        Some(5)
    } else if c == '*' {
        Some(6)
    } else if c == '/' {
        Some(7)
    } else if c == '=' {
        Some(8)
    } else if c == '<' {
        Some(9)
    } else if c == '>' {
        Some(10)
    } else if c == '(' {
        Some(11)
    } else if c == ')' {
        Some(12)
    } else if c == '[' {
        Some(13)
    } else if c == ']' {
        Some(14)
    } else if c == ':' {
        Some(15)
    } else if c == ',' {
        Some(16)
    } else if c == '.' {
        Some(17)
    } else if c == '?' {
        Some(18)
    } else if c == '!' {
        Some(19)
    } else if c == '"' {
        Some(20)
    } else if c == '$' {
        Some(21)
    } else if c == '%' {
        Some(22)
    } else if c == '&' {
        Some(23)
    } else if c == '|' {
        Some(24)
    } else if c == '\\' {
        Some(25)
    } else if c == '{' {
        Some(26)
    } else if c == '}' {
        Some(27)
    } else if c == '~' {
        Some(28)
    } else if c == ';' {
        Some(29)
    } else if c == '\'' {
        Some(30)
    } else {
        None
    }
}

/// The value of a character in the checksum: digits count from 1, lower-case
/// letters from 11, upper-case letters from 37, the punctuation alphabet from
/// 79, anything else 251.
pub open spec fn char_value(c: char) -> int {
    if '0' <= c && c <= '9' {
        (c as int) - 48 + 1
    } else if 'a' <= c && c <= 'z' {
        (c as int) - 97 + 11
    } else if 'A' <= c && c <= 'Z' {
        (c as int) - 65 + 37
    } else {
        match punct_index(c) {
            Some(i) => i + 79,
            None => 251,
        }
    }
}

/// The two running sums of the checksum after a text, modulo 32003; the
/// first starts at 1, the second at 0.
pub open spec fn checksum_sums(s: Seq<char>) -> (int, int)
    decreases s.len(),
{
    if s.len() == 0 {
        (1, 0)
    } else {
        let (a, b) = checksum_sums(s.drop_last());
        let a2 = (a + char_value(s.last())) % 32003;
        (a2, (b + a2) % 32003)
    }
}

/// The checksum of a text in decimal: the second sum times 32003 plus the
/// first.
pub open spec fn checksum_text(s: Seq<char>) -> Seq<char> {
    let (a, b) = checksum_sums(s);
    signed_decimal(b * 32003 + a)
}

/// The non-empty trimmed pieces among the first `k` pieces.
pub open spec fn header_tokens(ps: Seq<Seq<char>>, k: nat) -> Seq<Seq<char>>
    decreases k,
{
    if k == 0 || k > ps.len() {
        Seq::empty()
    } else {
        let t = trim(ps[k - 1]);
        let r = header_tokens(ps, (k - 1) as nat);
        if t.len() > 0 {
            r.push(t)
        } else {
            r
        }
    }
}

/// The trimmed text after a prefix.
pub open spec fn value_after(tok: Seq<char>, n: nat) -> Seq<char> {
    trim(tok.skip(n as int))
}

/// Reads one `key=value` token of a package header.
pub open spec fn apply_field(h: HeaderV, tok: Seq<char>) -> Result<HeaderV, Seq<char>> {
    if starts_with(tok, "vm="@) {
        let t = value_after(tok, 3);
        if !is_int_text(t) {
            Err("aot: vm must be integer"@)
        } else {
            match parse_int_text(t) {
                None => Err("aot: vm must be integer"@),
                Some(v) => Ok(HeaderV { vm: v, ..h }),
            }
        }
    } else if starts_with(tok, "abi="@) {
        let t = value_after(tok, 4);
        if !is_int_text(t) {
            Err("aot: abi must be integer"@)
        } else {
            match parse_int_text(t) {
                None => Err("aot: abi must be integer"@),
                Some(v) => Ok(HeaderV { abi: v, ..h }),
            }
        }
    } else if starts_with(tok, "features="@) {
        let t = value_after(tok, 9);
        if t.len() == 0 {
            Err("aot: unsupported features "@ + t)
        } else {
            Ok(HeaderV { features: t, ..h })
        }
    } else if starts_with(tok, "artifact="@) {
        Ok(HeaderV { artifact: value_after(tok, 9), ..h })
    } else if starts_with(tok, "toolchain="@) {
        Ok(HeaderV { toolchain: Some(value_after(tok, 10)), ..h })
    } else if starts_with(tok, "checksum="@) {
        Ok(HeaderV { checksum: Some(value_after(tok, 9)), ..h })
    } else if starts_with(tok, "entry="@) {
        let t = value_after(tok, 6);
        if t.len() > 0 {
            Ok(HeaderV { entry: Some(t), ..h })
        } else {
            Ok(h)
        }
    } else if starts_with(tok, "limit_steps="@) {
        let t = value_after(tok, 12);
        if t.len() > 0 {
            Ok(HeaderV { limit_steps: Some(t), ..h })
        } else {
            Ok(h)
        }
    } else if starts_with(tok, "limit_stack="@) {
        let t = value_after(tok, 12);
        if t.len() > 0 {
            Ok(HeaderV { limit_stack: Some(t), ..h })
        } else {
            Ok(h)
        }
    } else if starts_with(tok, "limit_call="@) {
        let t = value_after(tok, 11);
        if t.len() > 0 {
            Ok(HeaderV { limit_call: Some(t), ..h })
        } else {
            Ok(h)
        }
    } else {
        Err("aot: unknown package header field '"@ + tok + "'"@)
    }
}

/// Reads the header tokens from the third up to (not including) token `k`.
pub open spec fn read_fields(toks: Seq<Seq<char>>, k: nat) -> Result<HeaderV, Seq<char>>
    decreases k,
{
    if k <= 2 || k > toks.len() {
        Ok(default_header())
    } else {
        match read_fields(toks, (k - 1) as nat) {
            Err(e) => Err(e),
            Ok(h) => apply_field(h, toks[k - 1]),
        }
    }
}

/// The script a valid package stands for: its settings as directives, then
/// its payload.
pub open spec fn assemble(h: HeaderV, payload: Seq<char>) -> Seq<char> {
    "@cerberus_vm 1;"@ + (match h.entry {
        Some(v) => "@entry "@ + v + ";"@,
        None => Seq::empty(),
    }) + (match h.limit_steps {
        Some(v) => "@limit_steps "@ + v + ";"@,
        None => Seq::empty(),
    }) + (match h.limit_stack {
        Some(v) => "@limit_stack "@ + v + ";"@,
        None => Seq::empty(),
    }) + (match h.limit_call {
        Some(v) => "@limit_call "@ + v + ";"@,
        None => Seq::empty(),
    }) + payload
}

/// The first setting of a header that is not supported, as an error
/// message.
pub open spec fn settings_error(h: HeaderV) -> Option<Seq<char>> {
    if h.vm != 1 {
        Some("aot: unsupported vm version "@ + signed_decimal(h.vm as int))
    } else if h.abi != 1 {
        Some("aot: unsupported abi version "@ + signed_decimal(h.abi as int))
    } else if !features_ok(h.features) {
        Some("aot: unsupported features "@ + h.features)
    } else if h.artifact != "vm_package"@ {
        Some("aot: unsupported artifact "@ + h.artifact)
    } else if h.toolchain matches Some(n) && trim(n).len() == 0 {
        Some("aot: toolchain must not be empty"@)
    } else {
        None
    }
}

/// The first problem with the checksum or the limits of a header, as an
/// error message.
pub open spec fn integrity_error(h: HeaderV, payload: Seq<char>) -> Option<Seq<char>> {
    if h.checksum matches Some(sum) && !is_int_text(trim(sum)) {
        Some("aot: checksum must be integer"@)
    } else if h.checksum matches Some(sum) && checksum_text(payload) != trim(sum) {
        Some("aot: checksum mismatch"@)
    } else if h.limit_steps matches Some(v) && !is_int_text(v) {
        Some("aot: limit_steps must be integer"@)
    } else if h.limit_stack matches Some(v) && !is_int_text(v) {
        Some("aot: limit_stack must be integer"@)
    } else if h.limit_call matches Some(v) && !is_int_text(v) {
        Some("aot: limit_call must be integer"@)
    } else {
        None
    }
}

/// Checks a header read from a package against its payload: the payload
/// must not be blank, the settings supported and the checksum and limits
/// well formed.
pub open spec fn check_header(h: HeaderV, payload: Seq<char>) -> Result<Seq<char>, Seq<char>> {
    if trim(payload).len() == 0 {
        Err("aot: package payload is empty"@)
    } else {
        match settings_error(h) {
            Some(m) => Err(m),
            None => match integrity_error(h, payload) {
                Some(m) => Err(m),
                None => Ok(assemble(h, payload)),
            },
        }
    }
}

/// The script of a text that may be a package: a text that does not start
/// (after white space) with the package magic is a script as it is; a
/// package is `header::code::payload`, its header a `;`-separated list of
/// the magic, the format `vm_text_script` and `key=value` fields, checked
/// and turned into directives before the payload.
pub open spec fn spec_resolve(raw: Seq<char>) -> Result<Seq<char>, Seq<char>> {
    if !starts_with(trim_start(raw), "cerberus_toolchain_v1"@) {
        Ok(raw)
    } else {
        match find_from(raw, "::code::"@, 0) {
            None => Err("aot: invalid package, missing ::code:: marker"@),
            Some(m) => {
                let header = raw.take(m as int);
                let payload = raw.skip((m + 8) as int);
                let ps = pieces(header, ';');
                let toks = header_tokens(ps, ps.len());
                if toks.len() < 2 {
                    Err("aot: invalid package header"@)
                } else if toks[0] != "cerberus_toolchain_v1"@ {
                    Err("aot: invalid package magic"@)
                } else if toks[1] != "vm_text_script"@ {
                    Err("aot: unsupported package format '"@ + toks[1] + "'"@)
                } else {
                    match read_fields(toks, toks.len()) {
                        Err(e) => Err(e),
                        Ok(h) => check_header(h, payload),
                    }
                }
            },
        }
    }
}

/// A package that resolves gives a script that starts with the
/// `@cerberus_vm 1;` directive and ends with the package's payload, all the
/// text after its first `::code::` marker, unchanged.
pub proof fn lemma_package_keeps_payload(raw: Seq<char>)
    requires
        starts_with(trim_start(raw), "cerberus_toolchain_v1"@),
        spec_resolve(raw) is Ok,
    ensures
        find_from(raw, "::code::"@, 0) matches Some(m) && ({
            let s = spec_resolve(raw)->Ok_0;
            let payload = raw.skip((m + 8) as int);
            &&& s.len() >= 15 + payload.len()
            &&& s.take(15) == "@cerberus_vm 1;"@
            &&& s.skip(s.len() - payload.len()) == payload
        }),
{
    reveal_strlit("@cerberus_vm 1;");
    let m = find_from(raw, "::code::"@, 0)->Some_0;
    let header = raw.take(m as int);
    let payload = raw.skip((m + 8) as int);
    let ps = pieces(header, ';');
    let toks = header_tokens(ps, ps.len());
    let h = read_fields(toks, toks.len())->Ok_0;
    let head: Seq<char> = "@cerberus_vm 1;"@;
    let mid = (match h.entry {
        Some(v) => "@entry "@ + v + ";"@,
        None => Seq::empty(),
    }) + (match h.limit_steps {
        Some(v) => "@limit_steps "@ + v + ";"@,
        None => Seq::empty(),
    }) + (match h.limit_stack {
        Some(v) => "@limit_stack "@ + v + ";"@,
        None => Seq::empty(),
    }) + (match h.limit_call {
        Some(v) => "@limit_call "@ + v + ";"@,
        None => Seq::empty(),
    });
    let s = spec_resolve(raw)->Ok_0;
    assert(s == assemble(h, payload));
    assert(assemble(h, payload) =~= head + mid + payload);
    assert(s.take(15) =~= head);
    assert(s.skip(s.len() - payload.len()) =~= payload);
}

/// Whether a text, once trimmed, is a decimal integer.
pub fn is_int_token(s: &str) -> (r: bool)
    ensures
        r == is_int_text(s@),
{
    let v = chars_of(s);
    assert(v@.subrange(0, v@.len() as int) =~= s@);
    is_int_range(&v, 0, v.len())
}

/// Whether `v[a..b]`, once trimmed, is a decimal integer.
fn is_int_range(v: &Vec<char>, a: usize, b: usize) -> (r: bool)
    requires
        a <= b <= v@.len(),
    ensures
        r == is_int_text(v@.subrange(a as int, b as int)),
{
    let (lo, hi) = trim_range(v, a, b);
    let ghost t = v@.subrange(lo as int, hi as int);
    if lo == hi {
        return false;
    }
    let mut i = lo;
    if v[lo] == '-' {
        if hi - lo == 1 {
            return false;
        }
        i = lo + 1;
    }
    let first = i;
    while i < hi
        invariant
            lo <= first <= i <= hi <= v@.len(),
            t == v@.subrange(lo as int, hi as int),
            t == trim(v@.subrange(a as int, b as int)),
            t.len() > 0,
            first == lo || first == lo + 1,
            (first == lo + 1) == (t[0] == '-'),
            first == lo + 1 ==> t.len() > 1,
            forall|j: int| first - lo <= j < i - lo ==> is_digit_char(#[trigger] t[j]),
        decreases hi - i,
    {
        if !('0' <= v[i] && v[i] <= '9') {
            assert(!is_digit_char(t[i - lo]));
            return false;
        }
        i = i + 1;
    }
    true
}

/// The value of `v[a..b]` as `i64` parsing reads it.
pub fn parse_int_range(v: &Vec<char>, a: usize, b: usize) -> (r: Option<i64>)
    requires
        a <= b <= v@.len(),
    ensures
        r == parse_int_text(v@.subrange(a as int, b as int)),
{
    let mut bytes: Vec<u8> = Vec::new();
    let mut i = a;
    while i < b
        invariant
            a <= i <= b <= v@.len(),
            bytes@ == v@.subrange(a as int, i as int).map_values(|c: char| ascii_byte(c)),
        decreases b - i,
    {
        let c = v[i];
        let x = c as u32;
        let byte: u8 = if x < 128 {
            c as u8
        } else {
            0
        };
        bytes.push(byte);
        i = i + 1;
        assert(bytes@ =~= v@.subrange(a as int, i as int).map_values(|c: char| ascii_byte(c)));
    }
    let r = parse_i64(bytes.as_slice(), 0, bytes.len());
    assert(bytes@.subrange(0, bytes@.len() as int) =~= bytes@);
    r
}

/// Whether a feature list is supported.
pub fn features_supported(spec: &str) -> (r: bool)
    ensures
        r == features_ok(spec@),
{
    let v = chars_of(spec);
    let (lo, hi) = trim_range(&v, 0, v.len());
    assert(v@.subrange(0, v@.len() as int) =~= v@);
    if lo == hi {
        return false;
    }
    let ghost s = v@.subrange(lo as int, hi as int);
    let items = split_pieces(&v, lo, hi, ',');
    let mut i: usize = 0;
    while i < items.len()
        invariant
            0 <= i <= items@.len(),
            texts(items@) == pieces(s, ','),
            s == trim(spec@),
            forall|j: int| 0 <= j < i ==> trim(#[trigger] pieces(s, ',')[j]).len() > 0 && is_feature(
                trim(pieces(s, ',')[j]),
            ),
        decreases items@.len() - i,
    {
        let item = trimmed(items[i].as_str());
        assert(texts(items@)[i as int] == items@[i as int]@);
        let n = item.as_str();
        let ok = crate::text::str_eq(n, "core") || crate::text::str_eq(n, "io") || crate::text::str_eq(
            n,
            "collections",
        ) || crate::text::str_eq(n, "fs") || crate::text::str_eq(n, "time") || crate::text::str_eq(
            n,
            "strings",
        );
        if n.unicode_len() == 0 || !ok {
            return false;
        }
        i = i + 1;
    }
    true
}

/// The place of a punctuation character in the checksum alphabet.
fn punct_place(c: char) -> (r: Option<i64>)
    ensures
        match (r, punct_index(c)) {
            (Some(a), Some(b)) => a == b,
            (None, None) => true,
            _ => false,
        },
{
    match c {
        ' ' => Some(0),
        '_' => Some(1),
        '@' => Some(2),
        '#' => Some(3),
        '-' => Some(4),
        '+' => Some(5),
        '*' => Some(6),
        '/' => Some(7),
        '=' => Some(8),
        '<' => Some(9),
        '>' => Some(10),
        '(' => Some(11),
        ')' => Some(12),
        '[' => Some(13),
        ']' => Some(14),
        ':' => Some(15),
        ',' => Some(16),
        '.' => Some(17),
        '?' => Some(18),
        '!' => Some(19),
        '"' => Some(20),
        '$' => Some(21),
        '%' => Some(22),
        '&' => Some(23),
        '|' => Some(24),
        '\\' => Some(25),
        '{' => Some(26),
        '}' => Some(27),
        '~' => Some(28),
        ';' => Some(29),
        '\'' => Some(30),
        _ => None,
    }
}

/// The value of a character in the checksum.
pub fn toolchain_char_value(ch: char) -> (r: i64)
    ensures
        r == char_value(ch),
        1 <= r <= 251,
{
    if '0' <= ch && ch <= '9' {
        return (ch as u32 - 48 + 1) as i64;
    }
    if 'a' <= ch && ch <= 'z' {
        return (ch as u32 - 97 + 11) as i64;
    }
    if 'A' <= ch && ch <= 'Z' {
        return (ch as u32 - 65 + 37) as i64;
    }
    match punct_place(ch) {
        Some(i) => i + 79,
        None => 251,
    }
}

/// The checksum of a text, in decimal.
pub fn toolchain_checksum(text: &str) -> (r: String)
    ensures
        r@ == checksum_text(text@),
{
    let v = chars_of(text);
    let mut sum1: i64 = 1;
    let mut sum2: i64 = 0;
    let modv: i64 = 32003;
    let mut i: usize = 0;
    assert(v@.take(0) =~= Seq::<char>::empty());
    while i < v.len()
        invariant
            0 <= i <= v@.len(),
            modv == 32003,
            0 <= sum1 < 32003,
            0 <= sum2 < 32003,
            checksum_sums(v@.take(i as int)) == (sum1 as int, sum2 as int),
        decreases v@.len() - i,
    {
        let val = toolchain_char_value(v[i]);
        let ghost a0 = sum1 as int;
        sum1 = sum1 + val;
        while sum1 >= modv
            invariant
                modv == 32003,
                0 <= sum1 < 32003 + 252,
                sum1 % 32003 == (a0 + char_value(v@[i as int])) % 32003,
            decreases sum1,
        {
            sum1 = sum1 - modv;
        }
        let ghost b0 = sum2 as int;
        sum2 = sum2 + sum1;
        while sum2 >= modv
            invariant
                modv == 32003,
                0 <= sum2 < 2 * 32003,
                0 <= sum1 < 32003,
                sum2 % 32003 == (b0 + sum1) % 32003,
            decreases sum2,
        {
            sum2 = sum2 - modv;
        }
        assert(v@.take(i + 1).drop_last() =~= v@.take(i as int));
        i = i + 1;
    }
    assert(v@.take(v@.len() as int) =~= v@);
    i64_text(sum2 * modv + sum1)
}

} // verus!
