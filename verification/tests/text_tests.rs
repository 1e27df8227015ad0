use geschichte::text::{
    char_index_of_byte, chars_of, contains_at, decimal, find_char, find_text, line_bounds,
    parse_decimal, rfind_char, same_text, split_bounds, starts_with, starts_with_at, string_of,
    substring, trim_bounds,
};

fn chars(s: &str) -> Vec<char> {
    s.chars().collect()
}

fn pieces(text: &str, bounds: &[(usize, usize)]) -> Vec<String> {
    let all = chars(text);
    bounds.iter().map(|&(a, b)| all[a..b].iter().collect()).collect()
}

#[test]
fn strings_and_characters_convert_both_ways() {
    assert_eq!(chars_of("añ∂"), vec!['a', 'ñ', '∂']);
    assert!(chars_of("").is_empty());
    assert_eq!(string_of(&chars("añ∂")), "añ∂");
    assert_eq!(substring(&chars("hello"), 1, 3), "el");
    assert_eq!(substring(&chars("hello"), 3, 99), "lo");
    assert_eq!(substring(&chars("hello"), 3, 3), "");
    assert_eq!(substring(&chars("hello"), 4, 2), "");
    assert_eq!(substring(&chars("hello"), 9, 12), "");
    assert!(same_text("añ", "añ"));
    assert!(!same_text("añ", "an"));
    assert!(!same_text("a", "ab"));
    assert!(same_text("", ""));
}

#[test]
fn lines_are_split_like_text_lines() {
    for text in ["", "\n", "a", "a\n", "a\nb", "a\r\nb\r\n", "a\rb\n", "\r", "\r\n", "a\n\n\nb\n\n", "x\r", "\n\r\n\r"] {
        let expected: Vec<String> = text.lines().map(|l| l.to_string()).collect();
        assert_eq!(pieces(text, &line_bounds(&chars(text))), expected, "{:?}", text);
    }
}

#[test]
fn text_is_split_at_every_separator() {
    for text in ["", ",", "a", "a,b", ",a,,b,", "a\0b"] {
        for separator in [',', '\0'] {
            let expected: Vec<String> = text.split(separator).map(|l| l.to_string()).collect();
            let all = chars(text);
            assert_eq!(pieces(text, &split_bounds(&all, 0, all.len(), separator)), expected);
        }
    }
    let all = chars("a,b,c,d");
    assert_eq!(split_bounds(&all, 2, 5, ','), vec![(2, 3), (4, 5)]);
    assert_eq!(split_bounds(&all, 3, 3, ','), vec![(3, 3)]);
}

#[test]
fn prefixes_and_occurrences_are_found() {
    let text = chars("diff --git a b");
    assert!(starts_with(&text, "diff --git"));
    assert!(starts_with(&text, ""));
    assert!(!starts_with(&text, "diff --git a b c"));
    assert!(!starts_with(&text, "Diff"));
    assert!(starts_with_at(&text, 5, "--git"));
    assert!(!starts_with_at(&text, 6, "--git"));
    assert!(starts_with_at(&text, text.len(), ""));
    assert_eq!(find_char(&text, 0, text.len(), '-'), 5);
    assert_eq!(find_char(&text, 6, text.len(), '-'), 0);
    assert_eq!(find_char(&text, 7, text.len(), '-'), 7);
    assert_eq!(rfind_char(&text, 0, text.len(), '-'), Some(6));
    assert_eq!(rfind_char(&text, 0, 6, '-'), Some(5));
    assert_eq!(rfind_char(&text, 0, 5, '-'), None);
    assert_eq!(find_text(&text, 0, text.len(), " a"), Some(10));
    assert_eq!(find_text(&text, 0, text.len(), ""), Some(0));
    assert_eq!(find_text(&text, 11, text.len(), " a"), None);
    assert_eq!(find_text(&text, 2, 9, "ff"), Some(0));
    assert!(contains_at(&text, 0, text.len(), "git"));
    assert!(!contains_at(&text, 0, 9, "git"));
    assert!(contains_at(&text, 0, 0, ""));
}

#[test]
fn white_space_is_trimmed_at_both_ends() {
    for text in ["", " ", " a ", "a", "\t\n a b \u{a0}\u{3000}", "\u{2003}x", "a \u{200b} "] {
        let all = chars(text);
        let (a, b) = trim_bounds(&all, 0, all.len());
        let got: String = all[a..b].iter().collect();
        assert_eq!(got, text.trim(), "{:?}", text);
    }
    let all = chars("ab  cd  ef");
    assert_eq!(trim_bounds(&all, 2, 8), (4, 6));
}

#[test]
fn decimal_numbers_are_read_and_written() {
    let read = |s: &str, max: u64| {
        let all = chars(s);
        parse_decimal(&all, 0, all.len(), max)
    };
    assert_eq!(read("0", 9), Some(0));
    assert_eq!(read("007", 9), Some(7));
    assert_eq!(read("+12", 99), Some(12));
    assert_eq!(read("", 99), None);
    assert_eq!(read("+", 99), None);
    assert_eq!(read("-1", 99), None);
    assert_eq!(read("++1", 99), None);
    assert_eq!(read("1+", 99), None);
    assert_eq!(read("1 ", 99), None);
    assert_eq!(read("١", 99), None);
    assert_eq!(read("99", 99), Some(99));
    assert_eq!(read("100", 99), None);
    assert_eq!(read("100x", 99), None);
    assert_eq!(read("18446744073709551615", u64::MAX), Some(u64::MAX));
    assert_eq!(read("18446744073709551616", u64::MAX), None);
    assert_eq!(read("99999999999999999999999999", u64::MAX), None);
    assert_eq!(read("4294967295", u32::MAX as u64), "4294967295".parse::<u32>().ok().map(u64::from));
    assert_eq!(read("4294967296", u32::MAX as u64), None);
    let all = chars("ab123cd");
    assert_eq!(parse_decimal(&all, 2, 5, 1000), Some(123));
    assert_eq!(parse_decimal(&all, 2, 2, 1000), None);
    for n in [0u64, 7, 10, 99, 100, 12345, u64::MAX] {
        assert_eq!(decimal(n), n.to_string());
    }
}

#[test]
fn byte_offsets_become_character_positions() {
    let text = "aé∂😀b";
    let all = chars(text);
    let expected = [0, 1, 1, 2, 2, 2, 3, 3, 3, 3, 4, 5, 5, 5];
    for (offset, position) in expected.iter().enumerate() {
        assert_eq!(char_index_of_byte(&all, offset), *position, "offset {}", offset);
    }
    for (position, (offset, _)) in text.char_indices().enumerate() {
        assert_eq!(char_index_of_byte(&all, offset), position);
    }
    assert_eq!(char_index_of_byte(&all, usize::MAX), 5);
    assert_eq!(char_index_of_byte(&Vec::new(), 3), 0);
}

#[test]
fn white_space_is_the_listed_characters() {
    let listed = |c: char| {
        let code = c as u32;
        (0x0009..=0x000D).contains(&code)
            || code == 0x0020
            || code == 0x0085
            || code == 0x00A0
            || code == 0x1680
            || (0x2000..=0x200A).contains(&code)
            || code == 0x2028
            || code == 0x2029
            || code == 0x202F
            || code == 0x205F
            || code == 0x3000
    };
    for code in 0..=0x10FFFFu32 {
        if let Some(c) = char::from_u32(code) {
            assert_eq!(c.is_whitespace(), listed(c), "U+{:04X}", code);
            // Trimming a single character leaves it or nothing.
            let text = vec![c];
            let (from, to) = geschichte::text::trim_bounds(&text, 0, 1);
            assert_eq!(to - from, if listed(c) { 0 } else { 1 }, "U+{:04X}", code);
        }
    }
}

#[test]
fn control_characters_are_the_listed_ones() {
    for code in 0..=0x10FFFFu32 {
        if let Some(c) = char::from_u32(code) {
            let listed = code <= 0x1F || (0x7F..=0x9F).contains(&code);
            assert_eq!(c.is_control(), listed, "U+{:04X}", code);
            assert_eq!(
                geschichte::ui::file_picker::is_query_char(c),
                !(listed || c == '['),
                "U+{:04X}",
                code
            );
        }
    }
}
