use friday::text::{is_white_space_char, join2, join3, trim};

#[test]
fn trim_removes_white_space_at_both_ends() {
    assert_eq!(trim("  hello world \r\n"), "hello world");
    assert_eq!(trim("\u{3000}\u{a0}x\u{2029}"), "x");
}

#[test]
fn trim_keeps_inner_white_space_and_empty_input() {
    assert_eq!(trim("a  b"), "a  b");
    assert_eq!(trim(""), "");
    assert_eq!(trim(" \t\n "), "");
}

#[test]
fn trim_agrees_with_std() {
    for s in ["  x ", "\u{85}y\u{1680}", "z", "\u{200b}a\u{200b}", " \u{202f} "] {
        assert_eq!(trim(s), s.trim());
    }
}

#[test]
fn white_space_table_agrees_with_std() {
    for v in 0u32..0x3100 {
        if let Some(c) = char::from_u32(v) {
            assert_eq!(is_white_space_char(c), c.is_whitespace(), "{:x}", v);
        }
    }
}

#[test]
fn joins_concatenate() {
    assert_eq!(join2("ab", "cd"), "abcd");
    assert_eq!(join3("a", "", "c"), "ac");
}
