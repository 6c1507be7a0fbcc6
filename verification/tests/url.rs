use cx_browser::url::{is_blocked_url, is_unsafe_scheme, scheme_text, starts_with};

#[test]
fn starts_with_compares_characters() {
    assert!(starts_with("javascript:alert(1)", "javascript:"));
    assert!(starts_with("data:", "data:"));
    assert!(starts_with("abc", ""));
    assert!(!starts_with("dat", "data:"));
    assert!(!starts_with("xdata:", "data:"));
    assert!(starts_with("ünï", "ün"));
}

#[test]
fn unsafe_scheme_on_lowercase_text() {
    assert!(is_unsafe_scheme("javascript:void(0)"));
    assert!(is_unsafe_scheme("data:text/html,hi"));
    assert!(!is_unsafe_scheme("https://example.com"));
    assert!(!is_unsafe_scheme("JAVASCRIPT:void(0)"));
}

#[test]
fn blocked_urls_ignore_case() {
    assert!(is_blocked_url("javascript:alert(1)"));
    assert!(is_blocked_url("JavaScript:alert(1)"));
    assert!(is_blocked_url("DATA:text/html,<h1>x</h1>"));
    assert!(is_blocked_url("data:"));
}

#[test]
fn other_urls_are_allowed() {
    assert!(!is_blocked_url("https://example.com"));
    assert!(!is_blocked_url("http://data.example.com/"));
    assert!(!is_blocked_url("javascript"));
    assert!(!is_blocked_url(""));
    // Dotted capital I lowercases to "i" and a combining dot, so the prefix breaks.
    assert!(!is_blocked_url("JAVASCR\u{130}PT:alert(1)"));
}

#[test]
fn scheme_text_strips_blanks_and_removes_tabs() {
    assert_eq!(scheme_text("  javascript:x"), "javascript:x");
    assert_eq!(scheme_text("\u{1}\u{1f} java\tscr\nipt\r:x"), "javascript:x");
    assert_eq!(scheme_text("https://a b/"), "https://a b/");
    assert_eq!(scheme_text("a\u{1}b"), "a\u{1}b");
    assert_eq!(scheme_text(" \t\n"), "");
    assert_eq!(scheme_text(""), "");
}

#[test]
fn leading_blanks_do_not_hide_unsafe_schemes() {
    assert!(is_blocked_url(" javascript:alert(1)"));
    assert!(is_blocked_url("\u{0}\u{1f}  data:text/html,x"));
    assert!(is_blocked_url("\tJaVa\nScRiPt\r:alert(1)"));
    assert!(is_blocked_url("d\ta\nt\ra:,x"));
}

#[test]
fn blanks_inside_other_urls_do_not_block() {
    assert!(!is_blocked_url(" https://example.com/javascript:"));
    assert!(!is_blocked_url("java script:alert(1)"));
    assert!(!is_blocked_url("\u{a0}javascript:alert(1)"));
}
