use gx_datalinker::text::{decimal_i64, decimal_u64, trim, trim_start_matches};

#[test]
fn trim_removes_unicode_white_space() {
    assert_eq!(trim("  abc \n"), "abc");
    assert_eq!(trim("\u{3000}\u{a0}x y\u{2029}"), "x y");
    assert_eq!(trim(" \t "), "");
    assert_eq!(trim(""), "");
}

#[test]
fn decimal_renders_integers() {
    assert_eq!(decimal_i64(0), "0");
    assert_eq!(decimal_i64(-120), "-120");
    assert_eq!(decimal_i64(i64::MIN), "-9223372036854775808");
    assert_eq!(decimal_u64(u64::MAX), "18446744073709551615");
}

#[test]
fn trim_start_matches_strips_every_copy() {
    assert_eq!(trim_start_matches("Bearer Bearer abc", "Bearer "), "abc");
    assert_eq!(trim_start_matches("xBearer ", "Bearer "), "xBearer ");
    assert_eq!(trim_start_matches("abc", ""), "abc");
    assert_eq!(trim_start_matches("", ""), "");
}

#[test]
fn trimming_twice_changes_nothing() {
    for s in ["  a b  ", "\u{2003}x\u{85}", "", "   ", "plain"] {
        let once = trim(s);
        assert_eq!(trim(&once), once);
    }
}
