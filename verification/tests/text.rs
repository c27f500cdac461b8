use cerberus::bytecode::format::{read_str, write_str};
use cerberus::chars::{find_text, is_space_char, lower_char, split_pieces, trim_range, trimmed};
use cerberus::text::{i64_text, parse_i64, push_char, push_decimal_pad4, str_eq, u64_text};

#[test]
fn push_char_appends() {
    let mut s = String::from("ab");
    push_char(&mut s, 'é');
    assert_eq!(s, "abé");
}

#[test]
fn decimal_texts() {
    assert_eq!(u64_text(0), "0");
    assert_eq!(u64_text(18446744073709551615), "18446744073709551615");
    assert_eq!(i64_text(-9223372036854775808), "-9223372036854775808");
    assert_eq!(i64_text(42), "42");
    let mut s = String::new();
    push_decimal_pad4(&mut s, 7);
    push_decimal_pad4(&mut s, 12345);
    assert_eq!(s, "000712345");
}

#[test]
fn integer_parsing_follows_std() {
    let b = b" +17 -0 9223372036854775807 -9223372036854775808 9223372036854775808 - 1x";
    assert_eq!(parse_i64(b, 1, 4), Some(17));
    assert_eq!(parse_i64(b, 5, 7), Some(0));
    assert_eq!(parse_i64(b, 8, 27), Some(i64::MAX));
    assert_eq!(parse_i64(b, 28, 48), Some(i64::MIN));
    assert_eq!(parse_i64(b, 49, 68), None);
    assert_eq!(parse_i64(b, 69, 70), None);
    assert_eq!(parse_i64(b, 71, 73), None);
    assert_eq!(parse_i64(b, 0, 0), None);
}

#[test]
fn string_compare() {
    assert!(str_eq("abc", "abc"));
    assert!(!str_eq("abc", "abd"));
    assert!(!str_eq("ab", "abc"));
}

#[test]
fn white_space_and_case() {
    assert!(is_space_char(' '));
    assert!(is_space_char('\u{3000}'));
    assert!(!is_space_char('x'));
    assert_eq!(lower_char('Q'), 'q');
    assert_eq!(lower_char('É'), 'É');
    assert_eq!(trimmed("\t a b \n"), "a b");
    let v: Vec<char> = "  xy ".chars().collect();
    assert_eq!(trim_range(&v, 0, v.len()), (2, 4));
}

#[test]
fn searching_and_splitting() {
    let v: Vec<char> = "a::b::c".chars().collect();
    let pat: Vec<char> = "::".chars().collect();
    assert_eq!(find_text(&v, &pat, 0), Some(1));
    assert_eq!(find_text(&v, &pat, 2), Some(4));
    assert_eq!(find_text(&v, &pat, 5), None);
    let parts = split_pieces(&v, 0, v.len(), ':');
    assert_eq!(parts, vec!["a", "", "b", "", "c"]);
}

#[test]
fn strings_round_trip_through_bytes() {
    let mut buf = Vec::new();
    write_str(&mut buf, "héllo");
    assert_eq!(buf[0..4], [6, 0, 0, 0]);
    let mut cursor = 0usize;
    assert_eq!(read_str(&buf, &mut cursor).unwrap(), "héllo");
    assert_eq!(cursor, 10);
}
