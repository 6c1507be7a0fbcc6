use vstd::prelude::*;
use vstd::string::StringExecFns;

verus! {

/// Background colour of the dark ("Slate Lake") theme.
pub const DARK_BACKGROUND: &'static str = "#0F1923";
/// Text colour of the dark theme.
pub const DARK_TEXT: &'static str = "#D4DDE8";
/// Secondary text colour of the dark theme.
pub const DARK_SUBTEXT: &'static str = "#7A8FA6";
/// Background colour of the light ("Marble") theme.
pub const LIGHT_BACKGROUND: &'static str = "#F5F5F7";
/// Text colour of the light theme.
pub const LIGHT_TEXT: &'static str = "#1E1E2E";
/// Secondary text colour of the light theme.
pub const LIGHT_SUBTEXT: &'static str = "#5C5C72";

/// The new-tab page up to the background colour.
pub const PAGE_HEAD: &'static str = "<!DOCTYPE html>\n<html><head><meta charset=\"utf-8\"><style>\nbody {\n    margin: 0;\n    display: flex;\n    flex-direction: column;\n    align-items: center;\n    justify-content: center;\n    height: 100vh;\n    background: ";
/// The new-tab page between the background and the text colour.
pub const PAGE_AFTER_BACKGROUND: &'static str = ";\n    color: ";
/// The new-tab page between the text and the secondary text colour.
pub const PAGE_AFTER_TEXT: &'static str = ";\n    font-family: -apple-system, BlinkMacSystemFont, 'Segoe UI', sans-serif;\n}\nh1 { font-size: 48px; font-weight: 300; margin: 0; }\np { color: ";
/// The new-tab page between the secondary text colour and the logo's path.
pub const PAGE_AFTER_SUBTEXT: &'static str = "; font-size: 14px; margin-top: 8px; }\n.logo { width: 96px; height: 96px; margin-bottom: 16px; }\n</style></head><body>\n<img class=\"logo\" src=\"";
/// The new-tab page after the logo's path.
pub const PAGE_TAIL: &'static str = "\" alt=\"CX Browser\">\n<h1>CX Browser</h1>\n<p>Start typing in the address bar to search or enter a URL</p>\n</body></html>";

/// The logo shown in the dark theme: a light mark, visible on dark backgrounds.
pub const DARK_LOGO: &'static str = "images/CATX_Dark_Mode.png";
/// The logo shown in the light theme: a black mark, visible on light backgrounds.
pub const LIGHT_LOGO: &'static str = "images/CATX_Light_Mode.png";

/// The logo of a theme.
pub open spec fn theme_logo(dark: bool) -> Seq<char> {
    if dark {
        DARK_LOGO@
    } else {
        LIGHT_LOGO@
    }
}

/// Background, text and secondary text colour of a theme.
pub open spec fn theme_colors(dark: bool) -> (Seq<char>, Seq<char>, Seq<char>) {
    if dark {
        (DARK_BACKGROUND@, DARK_TEXT@, DARK_SUBTEXT@)
    } else {
        (LIGHT_BACKGROUND@, LIGHT_TEXT@, LIGHT_SUBTEXT@)
    }
}

/// The HTML of the new-tab page with background `bg`, text colour `text`,
/// secondary text colour `sub` and the logo at path `logo`.
pub open spec fn page_with_theme(bg: Seq<char>, text: Seq<char>, sub: Seq<char>, logo: Seq<char>) -> Seq<char> {
    PAGE_HEAD@ + bg + PAGE_AFTER_BACKGROUND@ + text + PAGE_AFTER_TEXT@ + sub + PAGE_AFTER_SUBTEXT@
        + logo + PAGE_TAIL@
}

/// The HTML of the new-tab page in the dark or the light theme.
pub open spec fn new_tab_page_spec(dark: bool) -> Seq<char> {
    let (bg, text, sub) = theme_colors(dark);
    page_with_theme(bg, text, sub, theme_logo(dark))
}

/// Builds the new-tab page for the dark (`true`) or light (`false`) theme.
pub fn new_tab_page_html(dark: bool) -> (html: String)
    ensures
        html@ == new_tab_page_spec(dark),
{
    let (bg, text, sub, logo) = if dark {
        (DARK_BACKGROUND, DARK_TEXT, DARK_SUBTEXT, DARK_LOGO)
    } else {
        (LIGHT_BACKGROUND, LIGHT_TEXT, LIGHT_SUBTEXT, LIGHT_LOGO)
    };
    let mut html = String::from_str(PAGE_HEAD);
    html.append(bg);
    html.append(PAGE_AFTER_BACKGROUND);
    html.append(text);
    html.append(PAGE_AFTER_TEXT);
    html.append(sub);
    html.append(PAGE_AFTER_SUBTEXT);
    html.append(logo);
    html.append(PAGE_TAIL);
    html
}

/// The window title when the page has none.
pub const APP_TITLE: &'static str = "CX Browser";

/// What follows a page's title in the window title.
pub const TITLE_SUFFIX: &'static str = " — CX Browser";

/// The window title shown for a page titled `title`.
pub open spec fn display_title_spec(title: Seq<char>) -> Seq<char> {
    if title.len() == 0 {
        APP_TITLE@
    } else {
        title + TITLE_SUFFIX@
    }
}

/// Builds the window title for a page titled `title`: the application's name
/// alone when the page has no title, else the page title followed by it.
pub fn display_title(title: &str) -> (res: String)
    ensures
        res@ == display_title_spec(title@),
{
    if title.is_empty() {
        String::from_str(APP_TITLE)
    } else {
        let mut res = String::from_str(title);
        res.append(TITLE_SUFFIX);
        res
    }
}

/// The dark and the light new-tab pages differ: the page follows the theme.
pub proof fn lemma_page_follows_theme()
    ensures
        new_tab_page_spec(true) != new_tab_page_spec(false),
{
    reveal_strlit("#0F1923");
    reveal_strlit("#F5F5F7");
    let k: nat = PAGE_HEAD@.len() + 1;
    assert(new_tab_page_spec(true)[k as int] == '0');
    assert(new_tab_page_spec(false)[k as int] == 'F');
}

/// The dark and the light new-tab pages are one page that differs only in its
/// three colours (background, text and secondary text) and its logo.
pub proof fn lemma_pages_differ_only_in_theme()
    ensures
        new_tab_page_spec(true) == page_with_theme(DARK_BACKGROUND@, DARK_TEXT@, DARK_SUBTEXT@, DARK_LOGO@),
        new_tab_page_spec(false) == page_with_theme(LIGHT_BACKGROUND@, LIGHT_TEXT@, LIGHT_SUBTEXT@, LIGHT_LOGO@),
{
}

/// The new-tab page shows the theme's logo: the logo's path stands in the page,
/// as the source of the page's image.
pub proof fn lemma_page_shows_theme_logo(dark: bool)
    ensures
        ({
            let (bg, text, sub) = theme_colors(dark);
            let page = new_tab_page_spec(dark);
            let start = PAGE_HEAD@.len() + bg.len() + PAGE_AFTER_BACKGROUND@.len() + text.len()
                + PAGE_AFTER_TEXT@.len() + sub.len() + PAGE_AFTER_SUBTEXT@.len();
            &&& page.subrange((start - PAGE_AFTER_SUBTEXT@.len()) as int, start as int) == PAGE_AFTER_SUBTEXT@
            &&& page.subrange(start as int, (start + theme_logo(dark).len()) as int) == theme_logo(dark)
            &&& page.subrange((start + theme_logo(dark).len()) as int, page.len() as int) == PAGE_TAIL@
        }),
{
    let (bg, text, sub) = theme_colors(dark);
    let page = new_tab_page_spec(dark);
    let logo = theme_logo(dark);
    let before = PAGE_HEAD@ + bg + PAGE_AFTER_BACKGROUND@ + text + PAGE_AFTER_TEXT@ + sub;
    assert(page =~= before + PAGE_AFTER_SUBTEXT@ + logo + PAGE_TAIL@);
    let start = before.len() + PAGE_AFTER_SUBTEXT@.len();
    assert(page.subrange(before.len() as int, start as int) =~= PAGE_AFTER_SUBTEXT@);
    assert(page.subrange(start as int, (start + logo.len()) as int) =~= logo);
    assert(page.subrange((start + logo.len()) as int, page.len() as int) =~= PAGE_TAIL@);
}

/// The window title is never empty, and a page's title always leads it.
pub proof fn lemma_display_title_never_empty(title: Seq<char>)
    ensures
        display_title_spec(title).len() > 0,
        display_title_spec(title).take(title.len() as int) == title,
{
    reveal_strlit("CX Browser");
    if title.len() > 0 {
        assert(display_title_spec(title).take(title.len() as int) =~= title);
    } else {
        assert(APP_TITLE@.take(0) =~= title);
    }
}

} // verus!
