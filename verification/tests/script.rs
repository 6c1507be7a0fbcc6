use cx_browser::script::{escape_js_string, status_script, theme_script, url_script};

/// Reads a single-quoted script literal body back the way a script engine does
/// for the escapes `\\` and `\'`.
fn read_back(t: &str) -> String {
    let mut out = String::new();
    let mut chars = t.chars();
    while let Some(c) = chars.next() {
        if c == '\\' {
            out.push(chars.next().expect("dangling backslash"));
        } else {
            assert!(c != '\'', "unescaped quote");
            out.push(c);
        }
    }
    out
}

#[test]
fn escape_doubles_backslashes_and_escapes_quotes() {
    assert_eq!(escape_js_string(r"a\b'c"), r"a\\b\'c");
    assert_eq!(escape_js_string(""), "");
    assert_eq!(escape_js_string("plain"), "plain");
    assert_eq!(escape_js_string(r"\'"), r"\\\'");
}

#[test]
fn escape_keeps_other_characters() {
    assert_eq!(escape_js_string("é \"x\" ✓"), "é \"x\" ✓");
    assert_eq!(escape_js_string("a\nb"), "a\nb");
}

#[test]
fn escape_matches_chained_replace() {
    for s in ["it's", r"C:\path\to'file", r"\\''\\", "nothing", "'", "\\"] {
        assert_eq!(escape_js_string(s), s.replace('\\', "\\\\").replace('\'', "\\'"));
    }
}

#[test]
fn escape_reads_back_to_input() {
    for s in ["it's", r"C:\path\to'file", r"\\''\\", "https://example.com/?q=a'b", "\\"] {
        assert_eq!(read_back(&escape_js_string(s)), s);
    }
}

#[test]
fn url_script_calls_update_url() {
    assert_eq!(url_script("https://example.com/"), "window.updateUrl('https://example.com/')");
    assert_eq!(url_script("https://x.com/it's"), r"window.updateUrl('https://x.com/it\'s')");
}

#[test]
fn status_script_calls_update_status() {
    assert_eq!(status_script("Ready"), "window.updateStatus('Ready')");
    assert_eq!(status_script(r"a\b"), r"window.updateStatus('a\\b')");
}

#[test]
fn theme_script_names_the_theme() {
    assert_eq!(theme_script(true), "window.setTheme(true)");
    assert_eq!(theme_script(false), "window.setTheme(false)");
    assert_eq!(theme_script(true), format!("window.setTheme({})", true));
}
