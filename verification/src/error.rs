use vstd::prelude::*;

use crate::chars::{pieces, split_pieces, texts};
use crate::text::{chars_of, decimal, push_char, push_decimal, push_str};

verus! {

/// A position in the source text: 1-based line and column, and a length.
#[derive(Debug, Clone, Copy)]
pub struct Span {
    pub line: usize,
    pub col: usize,
    pub len: usize,
}

/// A compile error: a message and, where known, the place in the source.
#[derive(Debug, Clone)]
pub struct CompileError {
    pub message: String,
    pub span: Option<Span>,
}

impl CompileError {
    /// An error at a known place in the source.
    pub fn new(message: String, span: Span) -> (e: CompileError)
        ensures
            e.message@ == message@,
            e.span == Some(span),
    {
        CompileError { message, span: Some(span) }
    }

    /// An error with no place in the source.
    pub fn new_simple(message: String) -> (e: CompileError)
        ensures
            e.message@ == message@,
            e.span.is_none(),
    {
        CompileError { message, span: None }
    }

    /// An error with no place in the source, from a message text.
    pub fn simple(message: &str) -> (e: CompileError)
        ensures
            e.message@ == message@,
            e.span.is_none(),
    {
        CompileError { message: message.to_string(), span: None }
    }
}

/// Whether an outcome agrees with its specification: the same value, or an
/// error with the specified message and no place in the source.
pub open spec fn agrees<T>(r: Result<T, CompileError>, s: Result<T, Seq<char>>) -> bool {
    match (r, s) {
        (Ok(a), Ok(b)) => a == b,
        (Err(e), Err(m)) => e.message@ == m && e.span.is_none(),
        _ => false,
    }
}

/// A message made of three parts.
pub fn message3(a: &str, b: &str, c: &str) -> (m: String)
    ensures
        m@ == a@ + b@ + c@,
{
    let mut m = a.to_string();
    m.append(b);
    m.append(c);
    m
}

/// A line without the carriage return of a `\r\n` ending.
pub open spec fn strip_cr(p: Seq<char>) -> Seq<char> {
    if p.len() > 0 && p.last() == '\r' {
        p.drop_last()
    } else {
        p
    }
}

/// The lines of a text as `str::lines` gives them: split at newlines, a
/// carriage return before a newline dropped, and no empty last line after a
/// final newline.
pub open spec fn source_lines(s: Seq<char>) -> Seq<Seq<char>> {
    let ps = pieces(s, '\n');
    let body = ps.take(ps.len() - 1).map_values(|p: Seq<char>| strip_cr(p));
    if ps.last().len() == 0 {
        body
    } else {
        body.push(ps.last())
    }
}

/// Line `i` of a text, counting from 0, or nothing past the last line.
pub open spec fn line_at(s: Seq<char>, i: int) -> Seq<char> {
    if 0 <= i < source_lines(s).len() {
        source_lines(s)[i]
    } else {
        Seq::empty()
    }
}

/// The report of an error: `error: message`, and for an error with a place,
/// the line and column, the source line and carets under the span (at least
/// one).
pub open spec fn rendered(e: CompileError, source: Seq<char>) -> Seq<char> {
    match e.span {
        None => "error: "@ + e.message@,
        Some(sp) => {
            let text = line_at(source, if sp.line >= 1 { sp.line - 1 } else { 0 });
            let spaces = if sp.col >= 1 { sp.col - 1 } else { 0 };
            let carets = if sp.len >= 1 { sp.len as int } else { 1 };
            "error: "@ + e.message@ + "\n --> "@ + decimal(sp.line as nat) + ":"@ + decimal(
                sp.col as nat,
            ) + "\n  |\n"@ + decimal(sp.line as nat) + " | "@ + text + "\n  | "@ + Seq::new(
                spaces as nat,
                |i: int| ' ',
            ) + Seq::new(carets as nat, |i: int| '^')
        },
    }
}

impl CompileError {
    /// The one-line text of this error, `error: ` and its message, whatever
    /// its place.
    pub fn display(&self) -> (r: String)
        ensures
            r@ == "error: "@ + self.message@,
    {
        let mut out = "error: ".to_string();
        push_str(&mut out, self.message.as_str());
        out
    }

    /// The report of this error against the source it was found in.
    pub fn render(&self, source: &str) -> (r: String)
        ensures
            r@ == rendered(*self, source@),
    {
        let mut out = "error: ".to_string();
        push_str(&mut out, self.message.as_str());
        let sp = match self.span {
            None => return out,
            Some(sp) => sp,
        };
        let text = line_text(source, if sp.line >= 1 { sp.line - 1 } else { 0 });
        push_str(&mut out, "\n --> ");
        push_decimal(&mut out, sp.line as u64);
        push_str(&mut out, ":");
        push_decimal(&mut out, sp.col as u64);
        push_str(&mut out, "\n  |\n");
        push_decimal(&mut out, sp.line as u64);
        push_str(&mut out, " | ");
        push_str(&mut out, text.as_str());
        push_str(&mut out, "\n  | ");
        let ghost head = out@;
        let spaces = if sp.col >= 1 { sp.col - 1 } else { 0 };
        let mut i: usize = 0;
        while i < spaces
            invariant
                0 <= i <= spaces,
                out@ == head + Seq::new(i as nat, |j: int| ' '),
            decreases spaces - i,
        {
            push_char(&mut out, ' ');
            i = i + 1;
            assert(out@ =~= head + Seq::new(i as nat, |j: int| ' '));
        }
        let ghost mid = out@;
        let carets = if sp.len >= 1 { sp.len } else { 1 };
        let mut i: usize = 0;
        while i < carets
            invariant
                0 <= i <= carets,
                out@ == mid + Seq::new(i as nat, |j: int| '^'),
            decreases carets - i,
        {
            push_char(&mut out, '^');
            i = i + 1;
            assert(out@ =~= mid + Seq::new(i as nat, |j: int| '^'));
        }
        assert(out@ =~= rendered(*self, source@));
        out
    }
}

/// Line `i` of a text, counting from 0, or an empty text past the last line.
pub fn line_text(source: &str, i: usize) -> (r: String)
    ensures
        r@ == line_at(source@, i as int),
{
    let v = chars_of(source);
    let parts = split_pieces(&v, 0, v.len(), '\n');
    assert(v@.subrange(0, v@.len() as int) =~= source@);
    let ghost ps = pieces(source@, '\n');
    proof {
        crate::chars::lemma_pieces_nonempty(source@, '\n');
    }
    let n = parts.len();
    assert(texts(parts@)[n - 1] == parts@[n - 1]@);
    let last_empty = parts[n - 1].as_str().unicode_len() == 0;
    let count = if last_empty { n - 1 } else { n };
    if i >= count {
        return String::new();
    }
    assert(texts(parts@)[i as int] == parts@[i as int]@);
    if i + 1 == n {
        return parts[i].clone();
    }
    let p = chars_of(parts[i].as_str());
    let len = p.len();
    let end = if len > 0 && p[len - 1] == '\r' { len - 1 } else { len };
    let mut r = String::new();
    let mut k: usize = 0;
    while k < end
        invariant
            0 <= k <= end <= p@.len(),
            r@ == p@.take(k as int),
        decreases end - k,
    {
        push_char(&mut r, p[k]);
        k = k + 1;
        assert(r@ =~= p@.take(k as int));
    }
    assert(r@ =~= strip_cr(parts@[i as int]@));
    r
}

/// The lines of a text as `str::lines` gives them.
pub fn lines_of(source: &str) -> (r: Vec<String>)
    ensures
        texts(r@) == source_lines(source@),
{
    let v = chars_of(source);
    let parts = split_pieces(&v, 0, v.len(), '\n');
    assert(v@.subrange(0, v@.len() as int) =~= source@);
    let ghost ps = pieces(source@, '\n');
    proof {
        crate::chars::lemma_pieces_nonempty(source@, '\n');
    }
    let n = parts.len();
    let mut out: Vec<String> = Vec::new();
    let mut i: usize = 0;
    while i + 1 < n
        invariant
            0 <= i < n == parts@.len(),
            ps == texts(parts@),
            texts(out@) == ps.take(i as int).map_values(|p: Seq<char>| strip_cr(p)),
        decreases n - i,
    {
        let p = chars_of(parts[i].as_str());
        let len = p.len();
        let end = if len > 0 && p[len - 1] == '\r' { len - 1 } else { len };
        let mut r = String::new();
        let mut k: usize = 0;
        while k < end
            invariant
                0 <= k <= end <= p@.len(),
                r@ == p@.take(k as int),
            decreases end - k,
        {
            push_char(&mut r, p[k]);
            k = k + 1;
            assert(r@ =~= p@.take(k as int));
        }
        assert(ps[i as int] == parts@[i as int]@);
        assert(r@ =~= strip_cr(ps[i as int]));
        let ghost before = texts(out@);
        out.push(r);
        assert(texts(out@) =~= before.push(r@));
        assert(ps.take(i + 1).map_values(|p: Seq<char>| strip_cr(p)) =~= ps.take(i as int).map_values(
            |p: Seq<char>| strip_cr(p),
        ).push(strip_cr(ps[i as int])));
        i = i + 1;
    }
    assert(ps[n - 1] == parts@[n - 1]@);
    if parts[n - 1].as_str().unicode_len() > 0 {
        let ghost before = texts(out@);
        out.push(parts[n - 1].clone());
        assert(texts(out@) =~= before.push(ps[n - 1]));
    }
    out
}

} // verus!
