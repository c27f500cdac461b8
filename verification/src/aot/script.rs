use vstd::prelude::*;

use crate::chars::{
    is_space, is_space_char, lower, lowered, text_of, texts, trim, trim_range, trimmed,
};
use crate::text::{chars_of, owned, push_char};

verus! {

/// Where a scan of script text stands: the text kept, whether it is inside
/// a quoted string (and which quote opened it), whether the previous
/// character was a backslash inside a string, and whether a comment has
/// ended the line.
pub struct Scan {
    pub out: Seq<char>,
    pub in_str: bool,
    pub quote: char,
    pub esc: bool,
    pub done: bool,
}

/// The scan before any character.
pub open spec fn scan_start() -> Scan {
    Scan { out: Seq::empty(), in_str: false, quote: '\0', esc: false, done: false }
}

/// One more character of a line whose `#` comment is being cut off: text in
/// quotes is kept as it is (a backslash keeps the character after it), and
/// a `#` outside quotes ends the line.
pub open spec fn comment_step(st: Scan, ch: char) -> Scan {
    if st.done {
        st
    } else if st.esc {
        Scan { out: st.out.push(ch), esc: false, ..st }
    } else if st.in_str {
        if ch == '\\' {
            Scan { out: st.out.push(ch), esc: true, ..st }
        } else if ch == st.quote {
            Scan { out: st.out.push(ch), in_str: false, quote: '\0', ..st }
        } else {
            Scan { out: st.out.push(ch), ..st }
        }
    } else if ch == '\'' || ch == '"' {
        Scan { out: st.out.push(ch), in_str: true, quote: ch, ..st }
    } else if ch == '#' {
        Scan { done: true, ..st }
    } else {
        Scan { out: st.out.push(ch), ..st }
    }
}

/// The scan after a line.
pub open spec fn comment_scan(s: Seq<char>) -> Scan
    decreases s.len(),
{
    if s.len() == 0 {
        scan_start()
    } else {
        comment_step(comment_scan(s.drop_last()), s.last())
    }
}

/// A line without its `#` comment, trimmed.
pub open spec fn strip_comment(line: Seq<char>) -> Seq<char> {
    trim(comment_scan(line).out)
}

/// Where a split of script text into lines stands: the lines so far, the
/// current line, and the string state as in `Scan`.
pub struct Lines {
    pub done: Seq<Seq<char>>,
    pub cur: Seq<char>,
    pub in_str: bool,
    pub quote: char,
    pub esc: bool,
}

/// The lines with one more line added, when it is not blank once trimmed
/// and cut at its comment.
pub open spec fn add_line(done: Seq<Seq<char>>, cur: Seq<char>) -> Seq<Seq<char>> {
    let line = strip_comment(trim(cur));
    if line.len() > 0 {
        done.push(line)
    } else {
        done
    }
}

/// One more character of script text: `;`, newlines and carriage returns
/// outside quotes end a line.
pub open spec fn lines_step(st: Lines, ch: char) -> Lines {
    if st.esc {
        Lines { cur: st.cur.push(ch), esc: false, ..st }
    } else if st.in_str {
        if ch == '\\' {
            Lines { cur: st.cur.push(ch), esc: true, ..st }
        } else if ch == st.quote {
            Lines { cur: st.cur.push(ch), in_str: false, quote: '\0', ..st }
        } else {
            Lines { cur: st.cur.push(ch), ..st }
        }
    } else if ch == '\'' || ch == '"' {
        Lines { cur: st.cur.push(ch), in_str: true, quote: ch, ..st }
    } else if ch == ';' || ch == '\n' || ch == '\r' {
        Lines { done: add_line(st.done, st.cur), cur: Seq::empty(), ..st }
    } else {
        Lines { cur: st.cur.push(ch), ..st }
    }
}

/// The split after some script text.
pub open spec fn lines_scan(s: Seq<char>) -> Lines
    decreases s.len(),
{
    if s.len() == 0 {
        Lines { done: Seq::empty(), cur: Seq::empty(), in_str: false, quote: '\0', esc: false }
    } else {
        lines_step(lines_scan(s.drop_last()), s.last())
    }
}

/// The lines of a script: split at `;` and line ends outside quotes, each
/// trimmed and cut at its comment, blank ones left out.
pub open spec fn script_lines(s: Seq<char>) -> Seq<Seq<char>> {
    let st = lines_scan(s);
    add_line(st.done, st.cur)
}

/// No line of a script is blank: every line kept has at least one character.
pub proof fn lemma_script_lines_nonblank(s: Seq<char>)
    ensures
        forall|i: int| 0 <= i < script_lines(s).len() ==> #[trigger] script_lines(s)[i].len() > 0,
{
    let st = lines_scan(s);
    lemma_lines_scan_nonblank(s);
    lemma_add_line_nonblank(st.done, st.cur);
}

/// The lines a scan has finished are not blank.
proof fn lemma_lines_scan_nonblank(s: Seq<char>)
    ensures
        forall|i: int| 0 <= i < lines_scan(s).done.len() ==> #[trigger] lines_scan(s).done[i].len() > 0,
    decreases s.len(),
{
    if s.len() > 0 {
        let prev = lines_scan(s.drop_last());
        lemma_lines_scan_nonblank(s.drop_last());
        lemma_add_line_nonblank(prev.done, prev.cur);
        assert(lines_scan(s) == lines_step(prev, s.last()));
    }
}

/// Adding a line keeps the lines not blank.
proof fn lemma_add_line_nonblank(done: Seq<Seq<char>>, cur: Seq<char>)
    requires
        forall|i: int| 0 <= i < done.len() ==> #[trigger] done[i].len() > 0,
    ensures
        forall|i: int| 0 <= i < add_line(done, cur).len() ==> #[trigger] add_line(done, cur)[i].len() > 0,
{
    let line = strip_comment(trim(cur));
    if line.len() > 0 {
        assert forall|i: int| 0 <= i < done.push(line).len() implies #[trigger] done.push(line)[i].len() > 0 by {
            if i < done.len() {
                assert(done.push(line)[i] == done[i]);
            }
        }
    }
}

/// The first place of white space in a text.
pub open spec fn first_space(s: Seq<char>, i: nat) -> Option<nat>
    decreases s.len() - i,
{
    if i >= s.len() {
        None
    } else if is_space(s[i as int]) {
        Some(i)
    } else {
        first_space(s, i + 1)
    }
}

/// The operation of a script line, in lower case, and its argument text.
pub open spec fn op_arg(line: Seq<char>) -> (Seq<char>, Seq<char>) {
    let s = trim(line);
    if s.len() == 0 {
        (Seq::empty(), Seq::empty())
    } else {
        match first_space(s, 0) {
            Some(i) => (lower(trim(s.take(i as int))), trim(s.skip(i as int))),
            None => (lower(s), Seq::empty()),
        }
    }
}

/// A word of lower-case ASCII letters and `_`, with no white space.
pub open spec fn plain_word(w: Seq<char>) -> bool {
    &&& w.len() > 0
    &&& forall|i: int| 0 <= i < w.len() ==> ('a' <= #[trigger] w[i] <= 'z' || w[i] == '_')
}

/// A line that is one plain word is that operation, with no argument.
pub proof fn lemma_op_arg_word(w: Seq<char>)
    requires
        plain_word(w),
    ensures
        op_arg(w) == (w, Seq::<char>::empty()),
{
    assert(!is_space(w[0]));
    assert(crate::chars::trim_start(w) == w);
    assert(!is_space(w.last()));
    assert(crate::chars::trim_end(w) == w);
    lemma_first_space_none(w, 0);
    assert(lower(w) =~= w);
}

/// A text with no white space from `i` on has no first space there.
proof fn lemma_first_space_none(w: Seq<char>, i: nat)
    requires
        forall|j: int| 0 <= j < w.len() ==> ('a' <= #[trigger] w[j] <= 'z' || w[j] == '_'),
    ensures
        first_space(w, i) is None,
    decreases w.len() - i,
{
    if i < w.len() {
        assert(!is_space(w[i as int]));
        lemma_first_space_none(w, i + 1);
    }
}

/// A text with each `''` read as one `'`, from the left.
pub open spec fn collapse_quotes(s: Seq<char>) -> Seq<char>
    decreases s.len(),
{
    if s.len() >= 2 && s[0] == '\'' && s[1] == '\'' {
        seq!['\''] + collapse_quotes(s.skip(2))
    } else if s.len() > 0 {
        seq![s[0]] + collapse_quotes(s.skip(1))
    } else {
        Seq::empty()
    }
}

/// The character that a backslash escape stands for.
pub open spec fn escaped(c: char) -> char {
    if c == 'n' {
        '\n'
    } else if c == 'r' {
        '\r'
    } else if c == 't' {
        '\t'
    } else {
        c
    }
}

/// The text inside double quotes with its backslash escapes read; a
/// backslash at the end stands for itself.
pub open spec fn decode_escapes(s: Seq<char>) -> Seq<char>
    decreases s.len(),
{
    if s.len() == 0 {
        Seq::empty()
    } else if s[0] != '\\' {
        seq![s[0]] + decode_escapes(s.skip(1))
    } else if s.len() == 1 {
        seq!['\\']
    } else {
        seq![escaped(s[1])] + decode_escapes(s.skip(2))
    }
}

/// The text of a string argument: in single quotes with `''` for a quote,
/// in double quotes with backslash escapes, or else the trimmed text itself.
pub open spec fn string_literal(raw: Seq<char>) -> Seq<char> {
    let s = trim(raw);
    if s.len() >= 2 && s[0] == '\'' && s.last() == '\'' {
        collapse_quotes(s.subrange(1, s.len() - 1))
    } else if s.len() >= 2 && s[0] == '"' && s.last() == '"' {
        decode_escapes(s.subrange(1, s.len() - 1))
    } else {
        s
    }
}

/// A line without its `#` comment, trimmed.
pub fn strip_vm_inline_comment(line: &str) -> (r: String)
    ensures
        r@ == strip_comment(line@),
{
    let v = chars_of(line);
    let mut out = String::new();
    let mut in_str = false;
    let mut quote = '\0';
    let mut esc = false;
    let mut i: usize = 0;
    assert(v@.take(0) =~= Seq::<char>::empty());
    while i < v.len()
        invariant
            0 <= i <= v@.len(),
            v@ == line@,
            comment_scan(v@.take(i as int)) == (Scan {
                out: out@,
                in_str,
                quote,
                esc,
                done: false,
            }),
        decreases v@.len() - i,
    {
        let ch = v[i];
        assert(v@.take(i + 1).drop_last() =~= v@.take(i as int));
        if esc {
            push_char(&mut out, ch);
            esc = false;
        } else if in_str {
            push_char(&mut out, ch);
            if ch == '\\' {
                esc = true;
            } else if ch == quote {
                in_str = false;
                quote = '\0';
            }
        } else if ch == '\'' || ch == '"' {
            in_str = true;
            quote = ch;
            push_char(&mut out, ch);
        } else if ch == '#' {
            proof {
                lemma_comment_done(v@, i + 1);
            }
            return trimmed(out.as_str());
        } else {
            push_char(&mut out, ch);
        }
        i = i + 1;
    }
    assert(v@.take(v@.len() as int) =~= v@);
    trimmed(out.as_str())
}

/// Once a comment has ended the line, the rest of it changes nothing.
proof fn lemma_comment_done(s: Seq<char>, i: int)
    requires
        0 <= i <= s.len(),
        comment_scan(s.take(i)).done,
    ensures
        comment_scan(s) == comment_scan(s.take(i)),
    decreases s.len() - i,
{
    if i < s.len() {
        assert(s.take(i + 1).drop_last() =~= s.take(i));
        lemma_comment_done(s, i + 1);
    } else {
        assert(s.take(i) =~= s);
    }
}

/// Adds a line to the lines when it is not blank once trimmed and cut at
/// its comment.
fn push_line(out: &mut Vec<String>, cur: &str)
    ensures
        texts(final(out)@) == add_line(texts(old(out)@), cur@),
{
    let t = trimmed(cur);
    let line = strip_vm_inline_comment(t.as_str());
    if line.as_str().unicode_len() > 0 {
        let ghost before = texts(out@);
        out.push(line);
        assert(texts(out@) =~= before.push(line@));
    }
}

/// The lines of a script (see `script_lines`).
pub fn split_vm_lines(src: &str) -> (r: Vec<String>)
    ensures
        texts(r@) == script_lines(src@),
{
    let v = chars_of(src);
    let mut out: Vec<String> = Vec::new();
    let mut cur = String::new();
    let mut in_str = false;
    let mut quote = '\0';
    let mut esc = false;
    let mut i: usize = 0;
    assert(v@.take(0) =~= Seq::<char>::empty());
    assert(texts(out@) =~= Seq::<Seq<char>>::empty());
    while i < v.len()
        invariant
            0 <= i <= v@.len(),
            v@ == src@,
            lines_scan(v@.take(i as int)) == (Lines {
                done: texts(out@),
                cur: cur@,
                in_str,
                quote,
                esc,
            }),
        decreases v@.len() - i,
    {
        let ch = v[i];
        assert(v@.take(i + 1).drop_last() =~= v@.take(i as int));
        if esc {
            push_char(&mut cur, ch);
            esc = false;
        } else if in_str {
            push_char(&mut cur, ch);
            if ch == '\\' {
                esc = true;
            } else if ch == quote {
                in_str = false;
                quote = '\0';
            }
        } else if ch == '\'' || ch == '"' {
            in_str = true;
            quote = ch;
            push_char(&mut cur, ch);
        } else if ch == ';' || ch == '\n' || ch == '\r' {
            push_line(&mut out, cur.as_str());
            cur = String::new();
            assert(cur@ =~= Seq::<char>::empty());
        } else {
            push_char(&mut cur, ch);
        }
        i = i + 1;
    }
    assert(v@.take(v@.len() as int) =~= v@);
    push_line(&mut out, cur.as_str());
    out
}

/// The operation of a line, in lower case, and its argument.
pub fn parse_vm_op_arg(line: &str) -> (r: (String, String))
    ensures
        (r.0@, r.1@) == op_arg(line@),
{
    let v = chars_of(line);
    let (lo, hi) = trim_range(&v, 0, v.len());
    assert(v@.subrange(0, v@.len() as int) =~= line@);
    let ghost s = v@.subrange(lo as int, hi as int);
    if lo == hi {
        return (String::new(), String::new());
    }
    let mut k = lo;
    while k < hi && !is_space_char(v[k])
        invariant
            lo <= k <= hi <= v@.len(),
            s == v@.subrange(lo as int, hi as int),
            first_space(s, 0) == first_space(s, (k - lo) as nat),
        decreases hi - k,
    {
        k = k + 1;
    }
    if k < hi {
        let op = {
            let (a, b) = trim_range(&v, lo, k);
            assert(v@.subrange(lo as int, k as int) =~= s.take(k - lo));
            lowered(&v, a, b)
        };
        let (a, b) = trim_range(&v, k, hi);
        assert(v@.subrange(k as int, hi as int) =~= s.skip(k - lo));
        (op, text_of(&v, a, b))
    } else {
        (lowered(&v, lo, hi), String::new())
    }
}

/// The text of a string argument (see `string_literal`).
pub fn parse_vm_string_literal(raw: &str) -> (r: String)
    ensures
        r@ == string_literal(raw@),
{
    let v = chars_of(raw);
    let (lo, hi) = trim_range(&v, 0, v.len());
    assert(v@.subrange(0, v@.len() as int) =~= raw@);
    let ghost s = v@.subrange(lo as int, hi as int);
    if hi - lo >= 2 && v[lo] == '\'' && v[hi - 1] == '\'' {
        assert(v@.subrange(lo + 1, hi - 1) =~= s.subrange(1, s.len() - 1));
        return collapse_range(&v, lo + 1, hi - 1);
    }
    if hi - lo >= 2 && v[lo] == '"' && v[hi - 1] == '"' {
        let inner = text_of(&v, lo + 1, hi - 1);
        assert(v@.subrange(lo + 1, hi - 1) =~= s.subrange(1, s.len() - 1));
        return decode_double_quoted(inner.as_str());
    }
    text_of(&v, lo, hi)
}

/// The text of `v[a..b]` with each `''` read as one `'`.
fn collapse_range(v: &Vec<char>, a: usize, b: usize) -> (r: String)
    requires
        a <= b <= v@.len(),
    ensures
        r@ == collapse_quotes(v@.subrange(a as int, b as int)),
{
    let mut out = String::new();
    let mut i = a;
    while i < b
        invariant
            a <= i <= b <= v@.len(),
            collapse_quotes(v@.subrange(a as int, b as int)) == out@ + collapse_quotes(
                v@.subrange(i as int, b as int),
            ),
        decreases b - i,
    {
        let ghost rest = v@.subrange(i as int, b as int);
        let ghost before = out@;
        if v[i] == '\'' && i + 1 < b && v[i + 1] == '\'' {
            push_char(&mut out, '\'');
            assert(rest.skip(2) =~= v@.subrange(i + 2, b as int));
            assert(before + (seq!['\''] + collapse_quotes(rest.skip(2))) =~= out@ + collapse_quotes(
                rest.skip(2),
            ));
            i = i + 2;
        } else {
            push_char(&mut out, v[i]);
            assert(rest.skip(1) =~= v@.subrange(i + 1, b as int));
            assert(before + (seq![rest[0]] + collapse_quotes(rest.skip(1))) =~= out@
                + collapse_quotes(rest.skip(1)));
            i = i + 1;
        }
    }
    assert(out@ + collapse_quotes(v@.subrange(b as int, b as int)) =~= out@);
    out
}

/// The text inside double quotes with its backslash escapes read.
pub fn decode_double_quoted(inner: &str) -> (r: String)
    ensures
        r@ == decode_escapes(inner@),
{
    let v = chars_of(inner);
    let n = v.len();
    let mut out = String::new();
    let mut i: usize = 0;
    assert(v@.subrange(0, n as int) =~= inner@);
    while i < n
        invariant
            0 <= i <= n == v@.len(),
            decode_escapes(v@) == out@ + decode_escapes(v@.subrange(i as int, n as int)),
        decreases n - i,
    {
        let ghost rest = v@.subrange(i as int, n as int);
        let ghost before = out@;
        let ch = v[i];
        if ch != '\\' {
            push_char(&mut out, ch);
            assert(rest.skip(1) =~= v@.subrange(i + 1, n as int));
            assert(before + (seq![ch] + decode_escapes(rest.skip(1))) =~= out@ + decode_escapes(
                rest.skip(1),
            ));
            i = i + 1;
        } else if i + 1 == n {
            push_char(&mut out, '\\');
            assert(v@.subrange(n as int, n as int) =~= Seq::<char>::empty());
            assert(before + seq!['\\'] =~= out@ + decode_escapes(v@.subrange(n as int, n as int)));
            i = i + 1;
        } else {
            let next = v[i + 1];
            let c = if next == 'n' {
                '\n'
            } else if next == 'r' {
                '\r'
            } else if next == 't' {
                '\t'
            } else {
                next
            };
            push_char(&mut out, c);
            assert(rest.skip(2) =~= v@.subrange(i + 2, n as int));
            assert(before + (seq![c] + decode_escapes(rest.skip(2))) =~= out@ + decode_escapes(
                rest.skip(2),
            ));
            i = i + 2;
        }
    }
    assert(out@ + decode_escapes(v@.subrange(n as int, n as int)) =~= out@);
    out
}

} // verus!
