use noisy_shuttle::text::{
    chars_of, decimal, is_whitespace, parse_number, split_ranges, trim,
};

#[test]
fn decimal_forms_are_the_usual_ones() {
    for n in [0, 1, 9, 10, 99, 100, 255, 65_536, u64::MAX - 1, u64::MAX] {
        assert_eq!(decimal(n), n.to_string());
    }
}

#[test]
fn white_space_is_what_unicode_says() {
    for c in '\0'..=char::MAX {
        assert_eq!(is_whitespace(c), c.is_whitespace());
    }
}

#[test]
fn trimming_removes_white_space_at_both_ends() {
    for text in ["", " ", "a", "  a b\t\n", "\u{3000}x\u{a0}", "a ", " a"] {
        let chars = chars_of(text);
        let trimmed: String = trim(&chars).iter().collect();
        assert_eq!(trimmed, text.trim());
    }
}

#[test]
fn numbers_are_read_as_written() {
    let texts = [
        "", "+", "-1", "0", "7", "+7", "++7", "007", "42", "65535", "65536", "4x", " 4", "1_0", "٣",
        "99999999999999999999999",
    ];
    for text in texts {
        let chars = chars_of(text);
        assert_eq!(
            parse_number(&chars, u16::MAX as u64),
            text.parse::<u16>().ok().map(u64::from),
            "{text}"
        );
        assert_eq!(parse_number(&chars, u64::MAX), text.parse::<u64>().ok(), "{text}");
    }
    for n in [0, 9, 10, u64::MAX] {
        let chars = chars_of(&decimal(n));
        assert_eq!(parse_number(&chars, u64::MAX), Some(n));
    }
    let chars = chars_of(&decimal(u64::MAX));
    assert_eq!(parse_number(&chars, u64::MAX - 1), None);
}

#[test]
fn texts_are_split_at_every_separator() {
    for text in ["", ",", "a", "a,b", ",a,,b,", "äö,ü"] {
        let chars = chars_of(text);
        let parts: Vec<String> = split_ranges(&chars, ',')
            .into_iter()
            .map(|(start, end)| chars[start..end].iter().collect())
            .collect();
        let expected: Vec<&str> = text.split(',').collect();
        assert_eq!(parts, expected);
    }
}
