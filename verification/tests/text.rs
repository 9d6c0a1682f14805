use builder_codegen::naming::is_rust_keyword;
use builder_codegen::text::{
    chars_of, contains, count_char, ends_with, find_char, find_char_from, is_whitespace,
    matches_at, push_decimal, replace, str_eq, trim_end,
};

#[test]
fn str_eq_compares_by_content() {
    assert!(str_eq("", ""));
    assert!(str_eq("Vec", "Vec"));
    assert!(!str_eq("Vec", "Vek"));
    assert!(!str_eq("Vec", "Vec<"));
    assert!(str_eq("h\u{e9}llo", "h\u{e9}llo"));
    assert!(!str_eq("h\u{e9}llo", "hello"));
}

#[test]
fn chars_of_gives_each_character() {
    assert_eq!(chars_of(""), Vec::<char>::new());
    assert_eq!(chars_of("a\u{e9}b"), vec!['a', '\u{e9}', 'b']);
}

#[test]
fn find_char_gives_first_index_or_length() {
    let v = chars_of("a<b<c");
    assert_eq!(find_char(&v, '<'), 1);
    assert_eq!(find_char(&v, 'c'), 4);
    assert_eq!(find_char(&v, '>'), 5);
    assert_eq!(find_char_from(&v, 2, '<'), 3);
    assert_eq!(find_char_from(&v, 4, '<'), 5);
    assert_eq!(find_char_from(&v, 5, 'a'), 5);
}

#[test]
fn matches_at_checks_bounds_and_content() {
    let v = chars_of("xxVec");
    let p = chars_of("Vec");
    assert!(matches_at(&v, 2, &p));
    assert!(!matches_at(&v, 1, &p));
    assert!(!matches_at(&v, 3, &p));
    assert!(!matches_at(&v, 9, &p));
    assert!(matches_at(&v, 5, &chars_of("")));
}

#[test]
fn contains_finds_a_pattern_anywhere() {
    assert!(contains("crate::pet::Pet", "::"));
    assert!(!contains("String", "::"));
    assert!(contains("Vec<String>", "Vec"));
    assert!(contains("aVec", "Vec"));
    assert!(!contains("Ve", "Vec"));
    assert!(contains("", ""));
    assert!(contains("abc", ""));
}

#[test]
fn ends_with_looks_at_the_tail_only() {
    assert!(ends_with("crate::util::Delimited", "Delimited"));
    assert!(!ends_with("Delimited<i32>", "Delimited"));
    assert!(ends_with("Vec", "Vec"));
    assert!(!ends_with("ec", "Vec"));
    assert!(ends_with("abc", ""));
}

#[test]
fn replace_takes_occurrences_from_the_left() {
    assert_eq!(replace("Vec<Vec<String>>", "Vec", "D"), "D<D<String>>");
    assert_eq!(replace("String", "Vec", "D"), "String");
    assert_eq!(replace("aaa", "aa", "b"), "ba");
    assert_eq!(replace("VecVec", "Vec", "Vec2"), "Vec2Vec2");
    assert_eq!(replace("Ve", "Vec", "D"), "Ve");
    assert_eq!(replace("", "Vec", "D"), "");
}

#[test]
fn replace_with_an_empty_pattern_changes_nothing() {
    assert_eq!(replace("abc", "", "x"), "abc");
}

#[test]
fn replace_agrees_with_std_on_nonempty_patterns() {
    let texts = ["", "Vec", "Vec<Vec<i32>>", "xVecVecx", "VeVecc", "aaaa", "abab"];
    let patterns = ["Vec", "a", "aa", "ab", "ba", "VecVec"];
    for t in texts.iter() {
        for p in patterns.iter() {
            assert_eq!(replace(t, p, "<>"), t.replace(p, "<>"));
        }
    }
}

#[test]
fn count_char_counts_every_occurrence() {
    assert_eq!(count_char(&chars_of("a<b<c>>"), '>'), 2);
    assert_eq!(count_char(&chars_of("abc"), '>'), 0);
    assert_eq!(count_char(&chars_of(""), '>'), 0);
}

#[test]
fn push_decimal_writes_without_leading_zeros() {
    let mut s = String::from("n");
    push_decimal(&mut s, 0);
    assert_eq!(s, "n0");
    let mut s = String::new();
    push_decimal(&mut s, 7);
    assert_eq!(s, "7");
    let mut s = String::new();
    push_decimal(&mut s, 10);
    assert_eq!(s, "10");
    let mut s = String::new();
    push_decimal(&mut s, 1234567890);
    assert_eq!(s, "1234567890");
    let mut s = String::new();
    push_decimal(&mut s, usize::MAX);
    assert_eq!(s, usize::MAX.to_string());
}

#[test]
fn is_whitespace_agrees_with_std_on_every_character() {
    let mut u: u32 = 0;
    while u <= 0x10FFFF {
        if let Some(c) = char::from_u32(u) {
            assert_eq!(is_whitespace(c), c.is_whitespace(), "U+{:04X}", u);
        }
        u += 1;
    }
}

#[test]
fn trim_end_removes_trailing_white_space_only() {
    assert_eq!(trim_end("  a b  \t"), "  a b");
    assert_eq!(trim_end("abc"), "abc");
    assert_eq!(trim_end("   "), "");
    assert_eq!(trim_end(""), "");
    assert_eq!(trim_end("a\u{3000}\u{a0}\r\n"), "a");
    assert_eq!(trim_end("a\u{200b}"), "a\u{200b}");
}

#[test]
fn is_rust_keyword_knows_the_reserved_words() {
    assert!(is_rust_keyword("type"));
    assert!(is_rust_keyword("as"));
    assert!(is_rust_keyword("try"));
    assert!(is_rust_keyword("Self"));
    assert!(is_rust_keyword("extern"));
    assert!(!is_rust_keyword("Type"));
    assert!(!is_rust_keyword("name"));
    assert!(!is_rust_keyword(""));
}
