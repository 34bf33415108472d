use hologram_live::text::{
    decimal_text, is_blank, is_white_space, joined, lines_of, padded_decimal_text, same,
    strip_prefix, trimmed, trimmed_end, trimmed_end_matches,
};

const SAMPLES: [&str; 14] = [
    "",
    " ",
    "a",
    " a b ",
    "\t\u{3000}x\u{2028}\u{a0}",
    "one\ntwo",
    "one\r\ntwo\r\n",
    "\n\n",
    "\r",
    "a\rb\n",
    "a\r\r\nb",
    "tail\r",
    "h\u{e9}\n\u{1f600}",
    "slashes///",
];

#[test]
fn white_space_is_that_of_unicode() {
    for c in '\0'..=char::MAX {
        assert_eq!(is_white_space(c), c.is_whitespace(), "{c:?}");
    }
}

#[test]
fn text_is_cut_as_std_cuts_it() {
    for s in SAMPLES {
        assert_eq!(trimmed(s), s.trim());
        assert_eq!(trimmed_end(s), s.trim_end());
        assert_eq!(trimmed_end_matches(s, '/'), s.trim_end_matches('/'));
        assert_eq!(is_blank(s), s.trim().is_empty());
        assert_eq!(lines_of(s), s.lines().collect::<Vec<_>>());
        assert_eq!(strip_prefix(s, "one"), s.strip_prefix("one"));
    }
}

#[test]
fn text_is_put_together_as_std_puts_it() {
    let parts: Vec<String> = SAMPLES.iter().map(|s| (*s).to_owned()).collect();
    assert_eq!(joined(&parts, "\n"), parts.join("\n"));
    assert_eq!(joined(&Vec::new(), "\n"), "");
    assert_eq!(hologram_live::text::concat("a\u{e9}", "b"), "a\u{e9}b");
    assert!(same("a", "a") && !same("a", "b"));
}

#[test]
fn numerals_are_decimal() {
    for n in [0, 7, 10, 1234567890, u64::MAX] {
        assert_eq!(decimal_text(n), n.to_string());
        assert_eq!(padded_decimal_text(n, 4), format!("{n:04}"));
    }
}
