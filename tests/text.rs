use rustic::text::{decimal, skip_leading_space, space, trim_spaces};

#[test]
fn decimal_matches_to_string() {
    for n in [0u64, 7, 10, 99, 100, 12345, u64::MAX] {
        assert_eq!(decimal(n), n.to_string());
    }
}

#[test]
fn trimming() {
    assert_eq!(trim_spaces("  a b \n"), "a b");
    assert_eq!(trim_spaces(""), "");
    assert_eq!(trim_spaces(" \t "), "");
    assert_eq!(skip_leading_space("ab  cd", 2), "cd");
}

#[test]
fn white_space_set() {
    for c in ['\u{0}', 'a', '\u{9}', ' ', '\u{85}', '\u{a0}', '\u{2000}', '\u{200b}', '\u{3000}', '\u{feff}'] {
        assert_eq!(space(c), c.is_whitespace());
    }
}
