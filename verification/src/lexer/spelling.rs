use vstd::prelude::*;

use super::token::{keyword_tag, TokenTag};
use super::{double_punct, single_punct, skip_trivia, spec_next_token, Pos};

verus! {

/// How a token of this tag is written in the source: the characters of a
/// punctuation token, or its keyword in lower case. Empty for the tags of
/// literals, identifiers and the end of input.
pub open spec fn spelling(t: TokenTag) -> Seq<char> {
    match t {
        TokenTag::Semi => seq![';'],
        TokenTag::Assign => seq![':', '='],
        TokenTag::Colon => seq![':'],
        TokenTag::Comma => seq![','],
        TokenTag::Dot => seq!['.'],
        TokenTag::Plus => seq!['+'],
        TokenTag::Minus => seq!['-'],
        TokenTag::Star => seq!['*'],
        TokenTag::Slash => seq!['/'],
        TokenTag::LParen => seq!['('],
        TokenTag::RParen => seq![')'],
        TokenTag::LBracket => seq!['['],
        TokenTag::RBracket => seq![']'],
        TokenTag::Eq => seq!['='],
        TokenTag::Le => seq!['<', '='],
        TokenTag::Ne => seq!['<', '>'],
        TokenTag::Lt => seq!['<'],
        TokenTag::Ge => seq!['>', '='],
        TokenTag::Gt => seq!['>'],
        TokenTag::Program => seq!['p', 'r', 'o', 'g', 'r', 'a', 'm'],
        TokenTag::Uses => seq!['u', 's', 'e', 's'],
        TokenTag::Var => seq!['v', 'a', 'r'],
        TokenTag::Procedure => seq!['p', 'r', 'o', 'c', 'e', 'd', 'u', 'r', 'e'],
        TokenTag::Function => seq!['f', 'u', 'n', 'c', 't', 'i', 'o', 'n'],
        TokenTag::Begin => seq!['b', 'e', 'g', 'i', 'n'],
        TokenTag::End => seq!['e', 'n', 'd'],
        TokenTag::Array => seq!['a', 'r', 'r', 'a', 'y'],
        TokenTag::Of => seq!['o', 'f'],
        TokenTag::Integer => seq!['i', 'n', 't', 'e', 'g', 'e', 'r'],
        TokenTag::Boolean => seq!['b', 'o', 'o', 'l', 'e', 'a', 'n'],
        TokenTag::String => seq!['s', 't', 'r', 'i', 'n', 'g'],
        TokenTag::Option => seq!['o', 'p', 't', 'i', 'o', 'n'],
        TokenTag::Result => seq!['r', 'e', 's', 'u', 'l', 't'],
        TokenTag::Vector => seq!['v', 'e', 'c', 't', 'o', 'r'],
        TokenTag::List => seq!['l', 'i', 's', 't'],
        TokenTag::Stack => seq!['s', 't', 'a', 'c', 'k'],
        TokenTag::KwMap => seq!['m', 'a', 'p'],
        TokenTag::KwSet => seq!['s', 'e', 't'],
        TokenTag::Writeln => seq!['w', 'r', 'i', 't', 'e', 'l', 'n'],
        TokenTag::Readln => seq!['r', 'e', 'a', 'd', 'l', 'n'],
        TokenTag::Return => seq!['r', 'e', 't', 'u', 'r', 'n'],
        TokenTag::If => seq!['i', 'f'],
        TokenTag::Then => seq!['t', 'h', 'e', 'n'],
        TokenTag::Else => seq!['e', 'l', 's', 'e'],
        TokenTag::While => seq!['w', 'h', 'i', 'l', 'e'],
        TokenTag::Do => seq!['d', 'o'],
        TokenTag::Or => seq!['o', 'r'],
        TokenTag::And => seq!['a', 'n', 'd'],
        TokenTag::Not => seq!['n', 'o', 't'],
        TokenTag::True => seq!['t', 'r', 'u', 'e'],
        TokenTag::False => seq!['f', 'a', 'l', 's', 'e'],
        _ => Seq::empty(),
    }
}

/// Whether a tag is one of punctuation.
pub open spec fn is_punct(t: TokenTag) -> bool {
    match t {
        TokenTag::Semi | TokenTag::Assign | TokenTag::Colon | TokenTag::Comma | TokenTag::Dot
        | TokenTag::Plus | TokenTag::Minus | TokenTag::Star | TokenTag::Slash | TokenTag::LParen
        | TokenTag::RParen | TokenTag::LBracket | TokenTag::RBracket | TokenTag::Eq | TokenTag::Le
        | TokenTag::Ne | TokenTag::Lt | TokenTag::Ge | TokenTag::Gt => true,
        _ => false,
    }
}

/// The source bytes `i..j` read as characters.
pub open spec fn source_chars(b: Seq<u8>, i: nat, j: nat) -> Seq<char> {
    b.subrange(i as int, j as int).map_values(|c: u8| c as char)
}

/// A byte that is a token by itself lexes to the token that it spells, so
/// two different such bytes never give the same token.
pub proof fn lemma_single_punct_spelling(c: u8, d: u8)
    ensures
        single_punct(c) is Some ==> is_punct(single_punct(c).unwrap()) && spelling(
            single_punct(c).unwrap(),
        ) == seq![c as char],
        single_punct(c) is Some && single_punct(c) == single_punct(d) ==> c == d,
{
    if single_punct(c) is Some {
        assert(spelling(single_punct(c).unwrap()) =~= seq![c as char]);
        if single_punct(c) == single_punct(d) {
            assert(spelling(single_punct(d).unwrap()) =~= seq![d as char]);
            assert(seq![c as char][0] == seq![d as char][0]);
        }
    }
}

/// A token that starts with `:`, `<` or `>` is the punctuation that its
/// bytes spell: one byte or the two that follow.
pub proof fn lemma_double_punct_spelling(b: Seq<u8>, i: nat)
    requires
        i < b.len(),
    ensures
        double_punct(b, i) matches Some((t, n)) ==> {
            &&& i + n <= b.len()
            &&& is_punct(t)
            &&& spelling(t) == source_chars(b, i, i + n)
        },
{
    if let Some((t, n)) = double_punct(b, i) {
        if n == 2 {
            assert(source_chars(b, i, i + n) =~= seq![b[i as int] as char, b[i + 1int] as char]);
        } else {
            assert(source_chars(b, i, i + n) =~= seq![b[i as int] as char]);
        }
        assert(spelling(t) =~= source_chars(b, i, i + n));
    }
}

/// A punctuation token that the scanner reads covers exactly the source
/// bytes that spell it: its span is as long as its spelling, and the bytes
/// just read are that spelling.
pub proof fn lemma_next_token_spelling(b: Seq<u8>, p: Pos)
    requires
        spec_next_token(b, p) is Ok,
        is_punct(spec_next_token(b, p)->Ok_0.0.0.0),
    ensures
        ({
            let (tok, q) = spec_next_token(b, p)->Ok_0;
            let n = spelling(tok.0.0).len();
            &&& tok.1.len == n
            &&& n <= q.idx <= b.len()
            &&& source_chars(b, (q.idx - n) as nat, q.idx) == spelling(tok.0.0)
        }),
{
    let t = skip_trivia(b, p)->Ok_0;
    let c = b[t.idx as int];
    lemma_single_punct_spelling(c, c);
    if single_punct(c) is Some {
        assert(source_chars(b, t.idx, t.idx + 1) =~= seq![c as char]);
    } else {
        lemma_double_punct_spelling(b, t.idx);
    }
}

/// A word is read as a keyword only where it spells that keyword, so two
/// different words never give the same keyword.
pub proof fn lemma_keyword_spelling(w: Seq<char>)
    ensures
        keyword_tag(w) is Some ==> !is_punct(keyword_tag(w).unwrap()) && spelling(
            keyword_tag(w).unwrap(),
        ) == w,
{
    reveal_strlit("program");
    reveal_strlit("uses");
    reveal_strlit("var");
    reveal_strlit("procedure");
    reveal_strlit("function");
    reveal_strlit("begin");
    reveal_strlit("end");
    reveal_strlit("array");
    reveal_strlit("of");
    reveal_strlit("integer");
    reveal_strlit("boolean");
    reveal_strlit("string");
    reveal_strlit("option");
    reveal_strlit("result");
    reveal_strlit("vector");
    reveal_strlit("list");
    reveal_strlit("stack");
    reveal_strlit("map");
    reveal_strlit("set");
    reveal_strlit("writeln");
    reveal_strlit("readln");
    reveal_strlit("return");
    reveal_strlit("if");
    reveal_strlit("then");
    reveal_strlit("else");
    reveal_strlit("while");
    reveal_strlit("do");
    reveal_strlit("or");
    reveal_strlit("and");
    reveal_strlit("not");
    reveal_strlit("true");
    reveal_strlit("false");
    if keyword_tag(w) is Some {
        assert(spelling(keyword_tag(w).unwrap()) =~= w);
    }
}

} // verus!
