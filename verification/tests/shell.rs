use cx_browser::layout::{Rect, Size};
use cx_browser::page::new_tab_page_html;
use cx_browser::shell::{
    handle_ui_message, navigation_completed, navigation_starting, update_ui_status, update_ui_url,
    update_window_title, window_proc, Command, ShellState, UiMessage, WindowMessage,
};

fn ready_state() -> ShellState {
    let mut s = ShellState::new(Size { cx: 1280, cy: 800 });
    s.ui_view_created();
    s.content_view_created();
    s
}

fn nav(url: &str) -> UiMessage {
    UiMessage::Navigate { url: url.to_string() }
}

#[test]
fn new_state_is_dark_without_views() {
    let s = ShellState::new(Size { cx: 10, cy: 20 });
    assert!(s.dark_mode);
    assert!(!s.has_ui_view);
    assert!(!s.has_content_view);
    assert!(s.attached);
    assert_eq!(s.size, Size { cx: 10, cy: 20 });
}

#[test]
fn navigate_to_allowed_url() {
    let mut s = ready_state();
    let before = s;
    let cmds = handle_ui_message(&mut s, nav("https://example.com/"));
    assert_eq!(cmds, vec![Command::Navigate("https://example.com/".to_string())]);
    assert_eq!(s, before);
}

#[test]
fn navigate_to_javascript_is_blocked() {
    let mut s = ready_state();
    let cmds = handle_ui_message(&mut s, nav("JavaScript:alert(document.cookie)"));
    assert_eq!(
        cmds,
        vec![Command::RunUiScript("window.updateStatus('Blocked: unsafe URL scheme')".to_string())]
    );
}

#[test]
fn navigate_to_data_is_blocked() {
    let mut s = ready_state();
    let cmds = handle_ui_message(&mut s, nav("data:text/html,<script>x</script>"));
    assert!(cmds.iter().all(|c| !matches!(c, Command::Navigate(_))));
    assert_eq!(cmds.len(), 1);
}

#[test]
fn navigate_to_blank_prefixed_javascript_is_blocked() {
    let mut s = ready_state();
    let cmds = handle_ui_message(&mut s, nav(" \tjavascript:alert(1)"));
    assert_eq!(
        cmds,
        vec![Command::RunUiScript("window.updateStatus('Blocked: unsafe URL scheme')".to_string())]
    );
}

#[test]
fn blocked_without_shell_view_says_nothing() {
    let mut s = ShellState::new(Size { cx: 1, cy: 1 });
    s.content_view_created();
    assert_eq!(handle_ui_message(&mut s, nav("javascript:1")), vec![]);
}

#[test]
fn messages_without_page_view_do_nothing() {
    let mut s = ShellState::new(Size { cx: 1, cy: 1 });
    s.ui_view_created();
    for m in [nav("https://a.b/"), UiMessage::Back, UiMessage::Forward, UiMessage::Reload, UiMessage::Home] {
        assert_eq!(handle_ui_message(&mut s, m), vec![]);
    }
}

#[test]
fn history_and_reload() {
    let mut s = ready_state();
    assert_eq!(handle_ui_message(&mut s, UiMessage::Back), vec![Command::GoBack]);
    assert_eq!(handle_ui_message(&mut s, UiMessage::Forward), vec![Command::GoForward]);
    assert_eq!(handle_ui_message(&mut s, UiMessage::Reload), vec![Command::Reload]);
}

#[test]
fn home_shows_page_in_current_theme() {
    let mut s = ready_state();
    assert_eq!(handle_ui_message(&mut s, UiMessage::Home), vec![Command::ShowHtml(new_tab_page_html(true))]);
    handle_ui_message(&mut s, UiMessage::ToggleTheme);
    assert_eq!(handle_ui_message(&mut s, UiMessage::Home), vec![Command::ShowHtml(new_tab_page_html(false))]);
}

#[test]
fn toggle_theme_twice_restores_state() {
    let mut s = ready_state();
    let before = s;
    let first = handle_ui_message(&mut s, UiMessage::ToggleTheme);
    assert!(!s.dark_mode);
    assert_eq!(first, vec![Command::RunUiScript("window.setTheme(false)".to_string())]);
    let second = handle_ui_message(&mut s, UiMessage::ToggleTheme);
    assert_eq!(second, vec![Command::RunUiScript("window.setTheme(true)".to_string())]);
    assert_eq!(s, before);
}

#[test]
fn toggle_theme_without_shell_view_still_flips() {
    let mut s = ShellState::new(Size { cx: 1, cy: 1 });
    assert_eq!(handle_ui_message(&mut s, UiMessage::ToggleTheme), vec![]);
    assert!(!s.dark_mode);
}

#[test]
fn status_and_url_scripts_need_shell_view() {
    let s = ShellState::new(Size { cx: 1, cy: 1 });
    assert_eq!(update_ui_status(&s, "Ready"), vec![]);
    assert_eq!(update_ui_url(&s, "https://a/"), vec![]);
    let s = ready_state();
    assert_eq!(update_ui_url(&s, "https://a/'b"), vec![Command::RunUiScript(r"window.updateUrl('https://a/\'b')".to_string())]);
}

#[test]
fn navigation_starting_shows_url_and_loading() {
    let s = ready_state();
    assert_eq!(
        navigation_starting(&s, "https://example.com/"),
        vec![
            Command::RunUiScript("window.updateUrl('https://example.com/')".to_string()),
            Command::RunUiScript("window.updateStatus('Loading https://example.com/...')".to_string()),
        ]
    );
}

#[test]
fn navigation_completed_says_ready() {
    let s = ready_state();
    assert_eq!(navigation_completed(&s), vec![Command::RunUiScript("window.updateStatus('Ready')".to_string())]);
}

#[test]
fn window_title_follows_page() {
    assert_eq!(update_window_title(""), Command::SetWindowTitle("CX Browser".to_string()));
    assert_eq!(update_window_title("News"), Command::SetWindowTitle("News — CX Browser".to_string()));
}

#[test]
fn resize_moves_both_views() {
    let mut s = ready_state();
    let size = Size { cx: 800, cy: 600 };
    let cmds = window_proc(&mut s, WindowMessage::Resized(size));
    assert_eq!(
        cmds,
        vec![
            Command::SetUiBounds(Rect { left: 0, top: 0, right: 800, bottom: 80 }),
            Command::SetContentBounds(Rect { left: 0, top: 80, right: 800, bottom: 600 }),
        ]
    );
    assert_eq!(s.size, size);
}

#[test]
fn resize_before_views_only_records_size() {
    let mut s = ShellState::new(Size { cx: 1, cy: 1 });
    assert_eq!(window_proc(&mut s, WindowMessage::Resized(Size { cx: 5, cy: 6 })), vec![]);
    assert_eq!(s.size, Size { cx: 5, cy: 6 });
}

#[test]
fn close_destroys_window() {
    let mut s = ready_state();
    assert_eq!(window_proc(&mut s, WindowMessage::Close), vec![Command::DestroyWindow]);
    assert_eq!(window_proc(&mut s, WindowMessage::Other), vec![Command::DefaultProc]);
}

#[test]
fn destroy_closes_views_and_quits() {
    let mut s = ready_state();
    let cmds = window_proc(&mut s, WindowMessage::Destroy);
    assert_eq!(cmds, vec![Command::CloseContentView, Command::CloseUiView, Command::PostQuit]);
    assert!(!s.has_ui_view && !s.has_content_view && !s.attached);
    assert_eq!(window_proc(&mut s, WindowMessage::Resized(Size { cx: 9, cy: 9 })), vec![]);
    assert_eq!(s.size, Size { cx: 1280, cy: 800 });
    assert_eq!(window_proc(&mut s, WindowMessage::Destroy), vec![Command::PostQuit]);
    assert_eq!(handle_ui_message(&mut s, UiMessage::Home), vec![]);
    assert_eq!(navigation_starting(&s, "https://x/"), vec![]);
}
