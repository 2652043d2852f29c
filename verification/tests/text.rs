use product_service::text::{blank, trim};

#[test]
fn spaces_only_is_blank() {
    assert!(blank("   "));
    assert!(blank(""));
    assert!(blank("\t\n\u{3000}\u{2003}"));
    assert!(!blank(" a "));
}

#[test]
fn trim_removes_unicode_whitespace() {
    assert_eq!(trim("\u{3000} x y \u{85}"), "x y");
    assert_eq!(trim("abc"), "abc");
    assert_eq!(trim("    "), "");
}
