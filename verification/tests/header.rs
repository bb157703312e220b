use user_auth::auth::header::{strip_scheme, white_space};

#[test]
fn strip_scheme_leaves_a_bare_token() {
    assert_eq!(strip_scheme("abc.def.ghi"), "abc.def.ghi");
    assert_eq!(strip_scheme(""), "");
}

#[test]
fn strip_scheme_removes_the_scheme_word() {
    assert_eq!(strip_scheme("Bearer abc"), "abc");
    assert_eq!(strip_scheme("Bearerabc"), "abc");
    assert_eq!(strip_scheme("Bearer"), "");
    assert_eq!(strip_scheme("BearerBearerBearer x"), "x");
    assert_eq!(strip_scheme("Bearer Bearer x"), "Bearer x");
}

#[test]
fn strip_scheme_is_case_sensitive_and_anchored() {
    assert_eq!(strip_scheme("bearer abc"), "bearer abc");
    assert_eq!(strip_scheme(" Bearer abc"), "Bearer abc");
    assert_eq!(strip_scheme("Beare abc"), "Beare abc");
    assert_eq!(strip_scheme("xBearer"), "xBearer");
}

#[test]
fn strip_scheme_trims_white_space_at_both_ends() {
    assert_eq!(strip_scheme("  abc  "), "abc");
    assert_eq!(strip_scheme("\t\n abc \r\n"), "abc");
    assert_eq!(strip_scheme("a b"), "a b");
    assert_eq!(strip_scheme("   "), "");
    assert_eq!(strip_scheme("Bearer \u{a0}\u{3000}t\u{2003}x\u{2028}"), "t\u{2003}x");
    assert_eq!(strip_scheme("\u{e9}t\u{e9} "), "\u{e9}t\u{e9}");
}

#[test]
fn strip_scheme_agrees_with_std() {
    for text in [
        "", "Bearer", "Bearer ", " Bearer", "BearerBearer", "Bearer tok", "tok Bearer",
        "BearerBeare", "\u{85}x\u{85}", "\u{200b}x", "\u{1680}x\u{205f}", "Bear er",
    ] {
        assert_eq!(strip_scheme(text), text.trim_start_matches("Bearer").trim(), "{:?}", text);
    }
}

#[test]
fn white_space_agrees_with_std() {
    for code in 0u32..0x3100 {
        if let Some(c) = char::from_u32(code) {
            assert_eq!(white_space(c), c.is_whitespace(), "{:x}", code);
        }
    }
    assert!(!white_space('\u{1F600}'));
}
