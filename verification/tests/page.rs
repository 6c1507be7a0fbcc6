use cx_browser::page::{display_title, new_tab_page_html};

fn expected_page(bg: &str, text: &str, sub: &str, logo: &str) -> String {
    format!(
        r#"<!DOCTYPE html>
<html><head><meta charset="utf-8"><style>
body {{
    margin: 0;
    display: flex;
    flex-direction: column;
    align-items: center;
    justify-content: center;
    height: 100vh;
    background: {bg};
    color: {text};
    font-family: -apple-system, BlinkMacSystemFont, 'Segoe UI', sans-serif;
}}
h1 {{ font-size: 48px; font-weight: 300; margin: 0; }}
p {{ color: {sub}; font-size: 14px; margin-top: 8px; }}
.logo {{ width: 96px; height: 96px; margin-bottom: 16px; }}
</style></head><body>
<img class="logo" src="{logo}" alt="CX Browser">
<h1>CX Browser</h1>
<p>Start typing in the address bar to search or enter a URL</p>
</body></html>"#
    )
}

#[test]
fn dark_new_tab_page() {
    assert_eq!(new_tab_page_html(true), expected_page("#0F1923", "#D4DDE8", "#7A8FA6", "images/CATX_Dark_Mode.png"));
}

#[test]
fn light_new_tab_page() {
    assert_eq!(new_tab_page_html(false), expected_page("#F5F5F7", "#1E1E2E", "#5C5C72", "images/CATX_Light_Mode.png"));
}

#[test]
fn pages_differ_by_theme() {
    assert_ne!(new_tab_page_html(true), new_tab_page_html(false));
}

#[test]
fn title_without_page_title() {
    assert_eq!(display_title(""), "CX Browser");
}

#[test]
fn title_with_page_title() {
    assert_eq!(display_title("Example Domain"), "Example Domain — CX Browser");
    assert_eq!(display_title(" "), "  — CX Browser");
}

#[test]
fn pages_differ_only_in_colors_and_logo() {
    let recoloured = new_tab_page_html(true)
        .replace("#0F1923", "#F5F5F7")
        .replace("#D4DDE8", "#1E1E2E")
        .replace("#7A8FA6", "#5C5C72")
        .replace("images/CATX_Dark_Mode.png", "images/CATX_Light_Mode.png");
    assert_eq!(recoloured, new_tab_page_html(false));
}

#[test]
fn page_shows_theme_logo() {
    let dark = new_tab_page_html(true);
    let light = new_tab_page_html(false);
    assert!(dark.contains("<img class=\"logo\" src=\"images/CATX_Dark_Mode.png\""));
    assert!(!dark.contains("CATX_Light_Mode"));
    assert!(light.contains("<img class=\"logo\" src=\"images/CATX_Light_Mode.png\""));
    assert!(!light.contains("CATX_Dark_Mode"));
}
