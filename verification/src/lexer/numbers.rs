use vstd::prelude::*;

use crate::error::{CompileError, Span};
use crate::text::{parse_i64, spec_parse_i64};
use vstd::string::StringSliceAdditionalSpecFns;
use vstd::utf8::{
    encode_utf8_valid_utf8, is_char_boundary, is_char_boundary_iff_not_is_continuation_byte,
    is_char_boundary_start_end_of_seq, valid_utf8, valid_utf8_split,
};

verus! {

/// In valid UTF-8, the place after a run of ASCII bytes that starts at a
/// character boundary is a character boundary too.
pub proof fn lemma_ascii_run_boundary(b: Seq<u8>, start: int, end: int)
    requires
        valid_utf8(b),
        0 <= start <= end <= b.len(),
        is_char_boundary(b, start),
        forall|i: int| start <= i < end ==> #[trigger] b[i] < 128,
    ensures
        is_char_boundary(b, end),
    decreases end - start,
{
    if start < end {
        valid_utf8_split(b, start);
        let t = b.subrange(start, b.len() as int);
        assert(t[0] == b[start]);
        assert(t.subrange(1, t.len() as int) =~= b.subrange(start + 1, b.len() as int));
        if start + 1 == b.len() {
            is_char_boundary_start_end_of_seq(b);
            assert(is_char_boundary(b, start + 1));
        } else {
            let u = b.subrange(start + 1, b.len() as int);
            assert(u[0] == b[start + 1]);
            assert(valid_utf8(t));
            assert(vstd::utf8::length_of_first_scalar(t) == 1);
            assert(vstd::utf8::pop_first_scalar(t) =~= u);
            assert(valid_utf8(u));
            assert(vstd::utf8::valid_first_scalar(u));
            assert(!vstd::utf8::is_continuation_byte(b[start + 1]));
            is_char_boundary_iff_not_is_continuation_byte(b, start + 1);
        }
        lemma_ascii_run_boundary(b, start + 1, end);
    }
}

/// The value of the integer literal at bytes `start..end` of the source; a
/// value that does not fit in an `i64` is an error spanning the literal.
pub fn parse_int_lit(src: &str, start: usize, end: usize, line: usize, col: usize) -> (r: Result<
    i64,
    CompileError,
>)
    requires
        start <= end <= src.spec_bytes().len(),
        is_char_boundary(src.spec_bytes(), start as int),
        is_char_boundary(src.spec_bytes(), end as int),
    ensures
        match (r, spec_parse_i64(src.spec_bytes().subrange(start as int, end as int))) {
            (Ok(v), Some(w)) => v == w,
            (Err(e), None) => {
                &&& e.message@ == "integer literal is out of range"@
                &&& e.span == Some(Span { line, col, len: (end - start) as usize })
            },
            _ => false,
        },
{
    match parse_i64(src.as_bytes(), start, end) {
        Some(v) => Ok(v),
        None => Err(
            CompileError::new(
                "integer literal is out of range".to_string(),
                Span { line, col, len: end - start },
            ),
        ),
    }
}

} // verus!
