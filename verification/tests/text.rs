use codex_usage_proxy::text::{
    append_chars, chars_of, collapse_chars, contains_text, copy_text, is_whitespace, join_two,
    lower_char, lower_chars, same_ignoring_ascii_case, same_text, slice_of, stands_at, string_of,
    trim_chars, trim_end_chars, trim_str, CharClass,
};

#[test]
fn white_space_is_that_of_the_standard_library() {
    for n in 0..=0x10ffff_u32 {
        if let Some(c) = char::from_u32(n) {
            assert_eq!(is_whitespace(c), c.is_whitespace(), "{:x}", n);
        }
    }
}

#[test]
fn lower_case_is_that_of_the_standard_library() {
    for n in 0..=0x10ffff_u32 {
        if let Some(c) = char::from_u32(n) {
            assert_eq!(lower_char(c), c.to_ascii_lowercase(), "{:x}", n);
        }
    }
    assert_eq!(string_of(&lower_chars(&chars_of("ÄBC xyZ 9"))), "Äbc xyz 9");
}

#[test]
fn characters_make_the_string_they_came_from() {
    for text in ["", "a", "grüße", "日本語", "a\u{1F600}b", " \t\n"] {
        assert_eq!(chars_of(text), text.chars().collect::<Vec<char>>());
        assert_eq!(string_of(&chars_of(text)), text);
    }
}

#[test]
fn trimming_is_that_of_the_standard_library() {
    for text in ["", " ", "a", " a ", "\u{3000}a b\u{2028}", "\t\r\n x", "x \u{85}", "\u{200b}x"] {
        assert_eq!(trim_str(text), text.trim());
        let ended = trim_end_chars(&chars_of(text), CharClass::WhiteSpace);
        assert_eq!(string_of(&ended), text.trim_end());
    }
    for text in ["", "*", "**a*b**", "_*a*_", "a"] {
        let trimmed = trim_chars(&chars_of(text), CharClass::Only('*'));
        assert_eq!(string_of(&trimmed), text.trim_matches('*'));
    }
}

#[test]
fn words_are_those_of_the_standard_library() {
    for text in ["", "  ", "a", " a  b ", "a\u{2003}b\nc\t\td", "one two"] {
        let expected = text.split_whitespace().collect::<Vec<&str>>().join(" ");
        assert_eq!(string_of(&collapse_chars(&chars_of(text))), expected);
    }
}

#[test]
fn search_is_that_of_the_standard_library() {
    let texts = ["", "a", "ab", "aab", "abab", "xaaby"];
    let parts = ["", "a", "b", "ab", "aab", "abc"];
    for text in texts {
        for part in parts {
            assert_eq!(contains_text(&chars_of(text), part), text.contains(part));
            let starts = stands_at(&chars_of(text), &chars_of(part), 0);
            assert_eq!(starts, text.starts_with(part));
        }
    }
    assert!(stands_at(&chars_of("abcb"), &chars_of("cb"), 2));
    assert!(!stands_at(&chars_of("abcb"), &chars_of("cb"), 3));
    assert!(!stands_at(&chars_of("abcb"), &chars_of("cb"), 9));
}

#[test]
fn texts_are_compared() {
    assert!(same_text("", ""));
    assert!(same_text("grün", "grün"));
    assert!(!same_text("a", "ab"));
    assert!(!same_text("a", "b"));
    assert!(same_ignoring_ascii_case("UsEr", "user"));
    assert!(!same_ignoring_ascii_case("ÄSER", "äser"));
    assert!(!same_ignoring_ascii_case("user", "users"));
}

#[test]
fn texts_are_put_together() {
    assert_eq!(join_two("ab", "cd"), "abcd");
    assert_eq!(join_two("", ""), "");
    let mut chars = chars_of("x");
    append_chars(&mut chars, &chars_of("yz"));
    assert_eq!(string_of(&chars), "xyz");
    assert_eq!(string_of(&slice_of(&chars, 1, 3)), "yz");
    assert_eq!(copy_text(&Some("t".to_string())), Some("t".to_string()));
    assert_eq!(copy_text(&None), None);
}
