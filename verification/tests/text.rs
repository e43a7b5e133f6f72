use emscripten::text::{
    c_string_bytes, c_string_text, is_nul_free, join, push_decimal, remove_nul,
};

#[test]
fn nul_characters_are_removed() {
    assert_eq!(remove_nul("a\0b\0\0c"), "abc");
    assert_eq!(remove_nul("\0"), "");
    assert_eq!(remove_nul(""), "");
    assert_eq!(remove_nul("unchanged \u{e9}\u{1F600}"), "unchanged \u{e9}\u{1F600}");
}

#[test]
fn nul_characters_are_found() {
    assert!(is_nul_free(""));
    assert!(is_nul_free("a\u{100}b"));
    assert!(!is_nul_free("a\0b"));
    assert!(!is_nul_free("ab\0"));
}

#[test]
fn a_c_string_ends_at_the_first_nul() {
    assert_eq!(c_string_bytes(b"abc\0def\0"), b"abc".to_vec());
    assert_eq!(c_string_bytes(b"\0abc"), Vec::<u8>::new());
    assert_eq!(c_string_text(b"abc\0\xff"), "abc");
}

#[test]
fn ill_formed_c_strings_are_replaced() {
    assert_eq!(c_string_text(b"a\xffb\0"), "a\u{FFFD}b");
    assert_eq!(c_string_text("h\u{e9}\0".as_bytes()), "h\u{e9}");
}

#[test]
fn a_text_without_nul_is_read_back() {
    let text = "wss://example.org/\u{4e2d}";
    let mut memory = text.as_bytes().to_vec();
    memory.push(0);
    memory.extend_from_slice(b"left over\0");
    assert_eq!(c_string_text(&memory), text);
}

#[test]
fn joining() {
    assert_eq!(join(&[], ","), "");
    assert_eq!(join(&["a"], ","), "a");
    assert_eq!(join(&["a", "b", "c"], ","), "a,b,c");
    assert_eq!(join(&["", ""], ", "), ", ");
}

#[test]
fn decimal_numerals() {
    for n in [0u16, 7, 9, 10, 99, 100, 404, 1006, 65535] {
        let mut text = "n=".to_owned();
        push_decimal(&mut text, n);
        assert_eq!(text, format!("n={}", n));
    }
}
