use cedilla::text::{
    append, append_str, byte_slice, ends_with, eq_ignore_ascii_case, find, head_to, is_whitespace,
    join, lines, matches_at, slice, starts_with, tail_from, take_up_to, to_ascii_lower, to_chars,
    to_decimal, to_string, trim, trim_end, trim_end_index, trim_end_run_index, trim_start,
    trim_start_index, trim_start_matches,
};

fn chars(text: &str) -> Vec<char> {
    text.chars().collect()
}

fn string(chars: Vec<char>) -> String {
    chars.into_iter().collect()
}

#[test]
fn strings_and_characters_convert_both_ways() {
    assert_eq!(to_chars("héllo"), vec!['h', 'é', 'l', 'l', 'o']);
    assert_eq!(to_string(&vec!['h', 'é', 'y']), "héy");
    assert_eq!(to_chars(""), Vec::<char>::new());
    assert_eq!(to_string(&Vec::new()), "");
}

#[test]
fn white_space_is_what_std_says() {
    for code in 0..=0x3100u32 {
        if let Some(c) = char::from_u32(code) {
            assert_eq!(is_whitespace(c), c.is_whitespace(), "U+{:04X}", code);
        }
    }
    assert!(!is_whitespace('\u{FEFF}'));
    assert!(!is_whitespace('\u{10FFFF}'));
}

#[test]
fn trimming_is_what_std_does() {
    for text in ["", " ", "a", "  a b \t\n", "\u{a0}x\u{3000}", "\n\n", "a  ", "  a"] {
        assert_eq!(string(trim(&chars(text))), text.trim(), "{:?}", text);
        assert_eq!(string(trim_start(&chars(text))), text.trim_start(), "{:?}", text);
        assert_eq!(string(trim_end(&chars(text))), text.trim_end(), "{:?}", text);
    }
    assert_eq!(trim_start_index(&chars("  a ")), 2);
    assert_eq!(trim_end_index(&chars("  a  b"), 5), 3);
    assert_eq!(trim_end_run_index(&chars("a||b||"), 6, '|'), 4);
    assert_eq!(trim_end_run_index(&chars("a||b||"), 3, '|'), 1);
    assert_eq!(trim_end_run_index(&chars("|||"), 3, '|'), 0);
}

#[test]
fn searching_is_what_std_does() {
    let cases = [("abcabc", "bc"), ("abc", ""), ("", ""), ("", "a"), ("aaa", "aa"), ("abc", "abcd"), ("xéy", "y")];
    for (text, pattern) in cases {
        let expected = text.find(pattern).map(|at| text[..at].chars().count());
        assert_eq!(find(&chars(text), &chars(pattern)), expected, "{:?} in {:?}", pattern, text);
        assert_eq!(starts_with(&chars(text), &chars(pattern)), text.starts_with(pattern));
        assert_eq!(ends_with(&chars(text), &chars(pattern)), text.ends_with(pattern));
    }
    assert!(matches_at(&chars("abc"), &chars("bc"), 1));
    assert!(!matches_at(&chars("abc"), &chars("bc"), 2));
    assert!(matches_at(&chars("abc"), &chars(""), 3));
    assert!(!matches_at(&chars("abc"), &chars(""), 4));
}

#[test]
fn leading_patterns_are_taken_off_as_std_does() {
    for (text, pattern) in [("- - a", "- "), ("aaa", "a"), ("abab", "ab"), ("abc", "x"), ("abc", "")] {
        assert_eq!(
            string(trim_start_matches(&chars(text), &chars(pattern))),
            text.trim_start_matches(pattern),
            "{:?} off {:?}",
            pattern,
            text
        );
    }
}

#[test]
fn lines_are_what_std_says() {
    for text in ["", "a", "a\n", "a\nb", "a\r\nb\r\n", "\n", "\n\n", "a\r", "a\r\n", "\r\n\r", "a\n\nb\n", "\ra\n"] {
        let expected: Vec<String> = text.lines().map(String::from).collect();
        let found: Vec<String> = lines(&chars(text)).into_iter().map(string).collect();
        assert_eq!(found, expected, "{:?}", text);
    }
}

#[test]
fn joining_is_what_std_does() {
    let parts = vec![chars("a"), chars(""), chars("bc")];
    assert_eq!(string(join(&parts, &chars(", "))), "a, , bc");
    assert_eq!(string(join(&vec![chars("only")], &chars("\n"))), "only");
    assert_eq!(string(join(&Vec::new(), &chars("\n"))), "");
}

#[test]
fn numbers_in_decimal() {
    for n in [0u128, 1, 9, 10, 11, 99, 100, 12345, u64::MAX as u128, u128::MAX] {
        assert_eq!(string(to_decimal(n)), n.to_string());
    }
}

#[test]
fn text_up_to_a_character() {
    assert_eq!(string(take_up_to(&chars("rust,ignore"), ',')), "rust");
    assert_eq!(string(take_up_to(&chars("rust"), ',')), "rust");
    assert_eq!(string(take_up_to(&chars(",rust"), ',')), "");
    assert_eq!(string(take_up_to(&chars(""), ',')), "");
}

#[test]
fn slices_and_additions() {
    assert_eq!(string(slice(&chars("héllo"), 1, 3)), "él");
    assert_eq!(string(slice(&chars("héllo"), 2, 2)), "");
    let mut text = chars("ab");
    append(&mut text, &chars("cd"));
    append_str(&mut text, "é");
    assert_eq!(string(text), "abcdé");
}

#[test]
fn bytes_are_cut_between_characters_only() {
    let text = "aé—z";
    assert_eq!(tail_from(text, 0), text);
    assert_eq!(tail_from(text, 1), "é—z");
    assert_eq!(tail_from(text, 2), "");
    assert_eq!(tail_from(text, 3), "—z");
    assert_eq!(tail_from(text, 7), "");
    assert_eq!(tail_from(text, 8), "");
    assert_eq!(head_to(text, 3), "aé");
    assert_eq!(head_to(text, 2), text);
    assert_eq!(head_to(text, 7), text);
    assert_eq!(head_to(text, 9), text);
    assert_eq!(byte_slice(text, 1, 6), "é—");
    assert_eq!(byte_slice(text, 1, 1), "");
    assert_eq!(byte_slice(text, 3, 1), "—z");
    assert_eq!(byte_slice(text, 2, 6), "");
    assert_eq!(byte_slice(text, 1, 5), "é—z");
}

#[test]
fn case_of_ascii_letters_is_ignored() {
    assert_eq!(to_ascii_lower('A'), 'a' as u32);
    assert_eq!(to_ascii_lower('z'), 'z' as u32);
    assert_eq!(to_ascii_lower('É'), 'É' as u32);
    assert_eq!(to_ascii_lower('['), '[' as u32);
    assert_eq!(to_ascii_lower('@'), '@' as u32);
    for (a, b) in [("svg", "SVG"), ("Svg", "sVG"), ("svg", "svgz"), ("é", "É"), ("", "")] {
        assert_eq!(eq_ignore_ascii_case(&chars(a), &chars(b)), a.eq_ignore_ascii_case(b));
    }
}
