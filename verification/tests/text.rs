use tds::text::{
    begins_with, chars_of, contains_text, finishes_with, first_white, fitting_prefix, is_blank, is_white,
    joined, len_of, lines_of, lowered, parse_number, push_decimal, push_signed, same, string_of, trim_slashes, trim_text,
};

fn samples() -> Vec<&'static str> {
    vec![
        "",
        " ",
        "\n",
        "\r\n",
        "a",
        "a\nb",
        "a\r\nb\r\n",
        "a\r",
        "a\r\r\n",
        "\n\na",
        "  padded\t",
        "\u{2003}wide\u{3000}",
        "grüße\nüber\u{85}alles ",
        "日本\n語",
        "🦀",
    ]
}

#[test]
fn white_space_is_what_the_standard_library_calls_it() {
    for n in 0..=0x10ffffu32 {
        if let Some(c) = char::from_u32(n) {
            assert_eq!(is_white(c), c.is_whitespace(), "{n:x}");
        }
    }
}

#[test]
fn trimming_and_lines_agree_with_the_standard_library() {
    for s in samples() {
        assert_eq!(trim_text(s), s.trim());
        assert_eq!(is_blank(s), s.trim().is_empty());
        let chars = chars_of(s);
        let lines: Vec<String> = lines_of(&chars).into_iter().map(string_of).collect();
        assert_eq!(lines, s.lines().map(str::to_string).collect::<Vec<_>>());
        assert_eq!(string_of(&chars), s);
        assert_eq!(len_of(s), s.len());
    }
}

#[test]
fn slashes_are_trimmed_at_the_end_only() {
    assert_eq!(trim_slashes("https://a.test//"), "https://a.test");
    assert_eq!(trim_slashes("/a/b"), "/a/b");
    assert_eq!(trim_slashes("///"), "");
}

#[test]
fn only_ascii_letters_are_lowered() {
    let chars = chars_of("API.GitHub.ÄÖ[Z]");
    assert_eq!(string_of(&lowered(&chars)), "api.github.ÄÖ[z]");
}

#[test]
fn prefixes_and_suffixes() {
    let s = chars_of("!tool now");
    assert!(begins_with(&s, &chars_of("!tool ")));
    assert!(!begins_with(&s, &chars_of("!tool now and then")));
    assert!(finishes_with(&s, &chars_of("now")));
    assert!(!finishes_with(&s, &chars_of("not")));
    assert_eq!(first_white(&s), 5);
    assert_eq!(first_white(&chars_of("now")), 3);
}

#[test]
fn texts_are_compared_and_found() {
    assert!(same("now", "now"));
    assert!(!same("now", "nov"));
    assert!(!same("now", "no"));
    let list = vec!["a".to_string(), "b".to_string()];
    assert!(contains_text(&list, "b"));
    assert!(!contains_text(&list, "c"));
    assert_eq!(joined(&list, " | "), "a | b");
    assert_eq!(joined(&Vec::new(), " | "), "");
}

#[test]
fn numbers_are_written_in_decimal() {
    for n in [0u128, 7, 10, 99, 100, 4096, u64::MAX as u128, u128::MAX] {
        let mut out = "n".to_string();
        push_decimal(&mut out, n);
        assert_eq!(out, format!("n{n}"));
    }
    for n in [0i32, 5, -1, i32::MAX, i32::MIN] {
        let mut out = "v".to_string();
        push_signed(&mut out, n);
        assert_eq!(out, format!("v{n}"));
    }
}

#[test]
fn numbers_are_read_as_the_standard_library_reads_them() {
    for s in [
        "0",
        "7",
        "+7",
        "-7",
        "",
        "+",
        "007",
        " 7",
        "7 ",
        "18446744073709551615",
        "18446744073709551616",
        "99999999999999999999999",
        "12a",
        "٣",
    ] {
        assert_eq!(parse_number(s), s.parse::<u64>().ok(), "{s:?}");
    }
}

#[test]
fn a_prefix_never_splits_a_character() {
    assert_eq!(fitting_prefix("héllo", 0), "");
    assert_eq!(fitting_prefix("héllo", 1), "h");
    assert_eq!(fitting_prefix("héllo", 2), "h");
    assert_eq!(fitting_prefix("héllo", 3), "hé");
    assert_eq!(fitting_prefix("héllo", 6), "héllo");
    assert_eq!(fitting_prefix("héllo", 60), "héllo");
    assert_eq!(fitting_prefix("🦀🦀", 7), "🦀");
}
