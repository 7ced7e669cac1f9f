use usage_limit_wait::text::{contains_control_code, count_lines, is_blank, utf8_len};

fn white_space(c: char) -> bool {
    let code = c as u32;
    matches!(code, 0x09..=0x0d | 0x20 | 0x85 | 0xa0 | 0x1680 | 0x2000..=0x200a)
        || matches!(code, 0x2028 | 0x2029 | 0x202f | 0x205f | 0x3000)
}

#[test]
fn every_character_is_classified_as_stated() {
    for c in '\0'..=char::MAX {
        let text = c.to_string();
        assert_eq!(is_blank(&text), white_space(c));
        let code = c as u32;
        assert_eq!(contains_control_code(&text), code <= 0x1f || (0x7f <= code && code <= 0x9f));
    }
}

#[test]
fn blank_text_is_what_trimming_empties() {
    for text in ["", " ", "\t\n", "\u{3000}\u{a0}", "a", " a ", "\u{200b}", " \u{feff}"] {
        assert_eq!(is_blank(text), text.trim().is_empty());
    }
}

#[test]
fn lines_are_counted_as_they_are_split() {
    for text in ["", "\n", "a", "a\n", "a\nb", "a\r\nb\r\n", "a\rb", "\n\n", "\n\na", "\r\n", "\r"] {
        assert_eq!(count_lines(text), text.lines().count());
    }
    assert_eq!(count_lines("a\nb\nc"), 3);
    assert_eq!(count_lines("a\nb\nc\n"), 3);
}

#[test]
fn length_is_counted_in_bytes() {
    assert_eq!(utf8_len(""), 0);
    assert_eq!(utf8_len("abc"), 3);
    assert_eq!(utf8_len("\u{e9}\u{4e2d}\u{1f600}"), 9);
}
