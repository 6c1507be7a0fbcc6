//! What the browser promises, stated over all inputs in terms of the texts and
//! commands it produces.
use vstd::prelude::*;

use crate::layout::{content_bounds_spec, ui_bounds_spec, Size};
use crate::page::{display_title_spec, new_tab_page_spec, page_with_theme};
use crate::script::{
    is_line_break, js_literal_value, lemma_call_script_carries_argument, status_script_spec,
    theme_script_spec, url_script_spec, CALL_CLOSE, UPDATE_STATUS_OPEN, UPDATE_URL_OPEN,
};
use crate::layout::Rect;
use crate::shell::{
    ui_status_commands, ui_url_commands,
    navigation_completed_commands, navigation_starting_commands, ui_message_commands,
    ui_message_state, window_message_commands, window_message_state, CommandView, ShellState,
    UiMessage, WindowMessage,
};
use crate::url::{is_blocked_url_spec, 
    is_c0_or_space, is_tab_or_newline, scheme_text_spec, starts_with_spec, unsafe_scheme_spec,
    remove_tabs_newlines, strip_leading_c0,
};

verus! {

/// Whether `s` holds no line break.
pub open spec fn no_line_breaks(s: Seq<char>) -> bool {
    forall|i: int| 0 <= i < s.len() ==> !is_line_break(#[trigger] s[i])
}

/// Whether `script` is a call of the shell function that `open` opens (its name
/// and an opening `('`), whose one single-quoted string argument a script engine
/// reads as `value`, closed by `')`.
pub open spec fn calls_with(script: Seq<char>, open: Seq<char>, value: Seq<char>) -> bool {
    &&& open.len() + 2 <= script.len()
    &&& script.take(open.len() as int) == open
    &&& script.skip(script.len() - 2) == seq!['\'', ')']
    &&& js_literal_value(script.subrange(open.len() as int, script.len() - 2)) == Some(value)
}

proof fn lemma_call_close()
    ensures
        CALL_CLOSE@ == seq!['\'', ')'],
{
    reveal_strlit("')");
    assert(CALL_CLOSE@ =~= seq!['\'', ')']);
}

/// The address-bar script is a call of `window.updateUrl` whose argument is
/// read back as the whole URL, for every URL without line breaks.
pub proof fn lemma_url_script_shows_whole_url(url: Seq<char>)
    requires
        no_line_breaks(url),
    ensures
        calls_with(url_script_spec(url), "window.updateUrl('"@, url),
{
    lemma_call_close();
    lemma_call_script_carries_argument(UPDATE_URL_OPEN@, url);
}

/// The status-bar script is a call of `window.updateStatus` whose argument is
/// read back as the whole message, for every message without line breaks.
pub proof fn lemma_status_script_shows_whole_status(status: Seq<char>)
    requires
        no_line_breaks(status),
    ensures
        calls_with(status_script_spec(status), "window.updateStatus('"@, status),
{
    lemma_call_close();
    lemma_call_script_carries_argument(UPDATE_STATUS_OPEN@, status);
}

/// The theme script names the theme now in force: `window.setTheme(true)` for
/// dark, `window.setTheme(false)` for light.
pub proof fn lemma_theme_script_names_theme(dark: bool)
    ensures
        theme_script_spec(dark) == (if dark {
            "window.setTheme(true)"@
        } else {
            "window.setTheme(false)"@
        }),
{
}

/// Exactly two schemes are refused: a lowercased scheme text is unsafe when,
/// and only when, it starts with `javascript:` or with `data:`.
pub proof fn lemma_only_javascript_and_data_refused(lowered: Seq<char>)
    ensures
        unsafe_scheme_spec(lowered) == (starts_with_spec(
            lowered,
            seq!['j', 'a', 'v', 'a', 's', 'c', 'r', 'i', 'p', 't', ':'],
        ) || starts_with_spec(lowered, seq!['d', 'a', 't', 'a', ':'])),
{
    reveal_strlit("javascript:");
    reveal_strlit("data:");
    assert("javascript:"@ =~= seq!['j', 'a', 'v', 'a', 's', 'c', 'r', 'i', 'p', 't', ':']);
    assert("data:"@ =~= seq!['d', 'a', 't', 'a', ':']);
}

/// `s` starts with `p` exactly when `s` is `p` followed by more text.
pub proof fn lemma_starts_with_is_prefix(s: Seq<char>, p: Seq<char>)
    ensures
        starts_with_spec(s, p) == (exists|rest: Seq<char>| s == p + rest),
{
    if starts_with_spec(s, p) {
        let rest = s.skip(p.len() as int);
        assert(s =~= p + rest);
    }
    if exists|rest: Seq<char>| s == p + rest {
        let rest = choose|rest: Seq<char>| s == p + rest;
        assert(s.take(p.len() as int) =~= p);
    }
}

/// A URL that does not start with a C0 control or a space and holds no tab or
/// newline is read for its scheme as it stands.
pub proof fn lemma_plain_url_read_as_is(url: Seq<char>)
    requires
        url.len() > 0 ==> !is_c0_or_space(url[0]),
        forall|i: int| 0 <= i < url.len() ==> !is_tab_or_newline(#[trigger] url[i]),
    ensures
        scheme_text_spec(url) == url,
    decreases url.len(),
{
    lemma_remove_plain(url);
}

proof fn lemma_remove_plain(s: Seq<char>)
    requires
        forall|i: int| 0 <= i < s.len() ==> !is_tab_or_newline(#[trigger] s[i]),
    ensures
        remove_tabs_newlines(s) == s,
    decreases s.len(),
{
    if s.len() > 0 {
        let d = s.drop_last();
        assert forall|i: int| 0 <= i < d.len() implies !is_tab_or_newline(#[trigger] d[i]) by {
            assert(d[i] == s[i]);
        }
        lemma_remove_plain(d);
        assert(!is_tab_or_newline(s[s.len() - 1]));
        assert(d.push(s.last()) =~= s);
    }
}

/// Whether `cmd` runs in the shell a call of the function that `open` opens,
/// whose argument is read as `value`.
pub open spec fn runs_call(cmd: CommandView, open: Seq<char>, value: Seq<char>) -> bool {
    match cmd {
        CommandView::RunUiScript(script) => calls_with(script, open, value),
        _ => false,
    }
}

/// Whether `cmds` shows `status` in the status bar: one call of
/// `window.updateStatus` with that text when the shell view exists, nothing else.
pub open spec fn shows_status(state: ShellState, cmds: Seq<CommandView>, status: Seq<char>) -> bool {
    if state.has_ui_view {
        cmds.len() == 1 && runs_call(cmds[0], "window.updateStatus('"@, status)
    } else {
        cmds.len() == 0
    }
}

proof fn lemma_literal_no_line_breaks(s: Seq<char>)
    requires
        forall|i: int| 0 <= i < s.len() ==> (#[trigger] s[i] as u32) >= 32,
    ensures
        no_line_breaks(s),
{
    assert forall|i: int| 0 <= i < s.len() implies !is_line_break(#[trigger] s[i]) by {
        assert((s[i] as u32) >= 32);
    }
}

/// Back, forward and reload go to the page view's history or reload it,
/// whatever the theme and the size, once the page view exists; before, they do
/// nothing. None of them changes the state.
pub proof fn lemma_history_requests(state: ShellState)
    ensures
        ui_message_state(state, UiMessage::Back) == state,
        ui_message_state(state, UiMessage::Forward) == state,
        ui_message_state(state, UiMessage::Reload) == state,
        state.has_content_view ==> ui_message_commands(state, UiMessage::Back) == seq![CommandView::GoBack],
        state.has_content_view ==> ui_message_commands(state, UiMessage::Forward) == seq![CommandView::GoForward],
        state.has_content_view ==> ui_message_commands(state, UiMessage::Reload) == seq![CommandView::Reload],
        !state.has_content_view ==> ui_message_commands(state, UiMessage::Back).len() == 0,
        !state.has_content_view ==> ui_message_commands(state, UiMessage::Forward).len() == 0,
        !state.has_content_view ==> ui_message_commands(state, UiMessage::Reload).len() == 0,
{
}

/// Switching the theme flips it and changes nothing else; the shell, if it
/// exists, is told the new theme by name.
pub proof fn lemma_toggle_theme_flips(state: ShellState)
    ensures
        ui_message_state(state, UiMessage::ToggleTheme) == (ShellState { dark_mode: !state.dark_mode, ..state }),
        state.has_ui_view ==> ui_message_commands(state, UiMessage::ToggleTheme) == seq![
            CommandView::RunUiScript(if state.dark_mode { "window.setTheme(false)"@ } else { "window.setTheme(true)"@ }),
        ],
        !state.has_ui_view ==> ui_message_commands(state, UiMessage::ToggleTheme).len() == 0,
{
}

/// A navigation request leaves the state alone. Once the page view exists, a
/// refused URL is answered with the status `Blocked: unsafe URL scheme` and
/// nothing else, and any other URL is loaded exactly as given; before, nothing
/// happens.
pub proof fn lemma_navigate_request(state: ShellState, url: String)
    ensures
        ui_message_state(state, UiMessage::Navigate { url }) == state,
        !state.has_content_view ==> ui_message_commands(state, UiMessage::Navigate { url }).len() == 0,
        state.has_content_view && !is_blocked_url_spec(url@) ==> ui_message_commands(
            state,
            UiMessage::Navigate { url },
        ) == seq![CommandView::Navigate(url@)],
        state.has_content_view && is_blocked_url_spec(url@) ==> shows_status(
            state,
            ui_message_commands(state, UiMessage::Navigate { url }),
            "Blocked: unsafe URL scheme"@,
        ),
{
    if state.has_content_view && is_blocked_url_spec(url@) && state.has_ui_view {
        reveal_strlit("Blocked: unsafe URL scheme");
        lemma_literal_no_line_breaks("Blocked: unsafe URL scheme"@);
        lemma_status_script_shows_whole_status("Blocked: unsafe URL scheme"@);
    }
}

/// The new-tab request shows, once the page view exists, the new-tab page of
/// the theme in force, and changes nothing.
pub proof fn lemma_home_request(state: ShellState)
    ensures
        ui_message_state(state, UiMessage::Home) == state,
        state.has_content_view ==> ui_message_commands(state, UiMessage::Home) == seq![
            CommandView::ShowHtml(new_tab_page_spec(state.dark_mode)),
        ],
        !state.has_content_view ==> ui_message_commands(state, UiMessage::Home).len() == 0,
{
}

/// The new-tab page of each theme: its colours and its logo.
pub proof fn lemma_new_tab_pages()
    ensures
        new_tab_page_spec(true) == page_with_theme("#0F1923"@, "#D4DDE8"@, "#7A8FA6"@, "images/CATX_Dark_Mode.png"@),
        new_tab_page_spec(false) == page_with_theme("#F5F5F7"@, "#1E1E2E"@, "#5C5C72"@, "images/CATX_Light_Mode.png"@),
{
}

/// When a page starts loading, the shell (if it exists) shows its whole URL in
/// the address bar, then `Loading <url>...` in the status bar, and nothing else.
pub proof fn lemma_navigation_starting_shows_url(state: ShellState, uri: Seq<char>)
    requires
        no_line_breaks(uri),
    ensures
        ({
            let cmds = navigation_starting_commands(state, uri);
            &&& state.has_ui_view ==> cmds.len() == 2
                && runs_call(cmds[0], "window.updateUrl('"@, uri)
                && runs_call(cmds[1], "window.updateStatus('"@, "Loading "@ + uri + "..."@)
            &&& !state.has_ui_view ==> cmds.len() == 0
        }),
{
    let cmds = navigation_starting_commands(state, uri);
    if state.has_ui_view {
        reveal_strlit("Loading ");
        reveal_strlit("...");
        let status = "Loading "@ + uri + "..."@;
        assert forall|i: int| 0 <= i < status.len() implies !is_line_break(#[trigger] status[i]) by {
            if i < 8 {
            } else if i < 8 + uri.len() {
                assert(status[i] == uri[i - 8]);
            } else {
            }
        }
        lemma_url_script_shows_whole_url(uri);
        lemma_status_script_shows_whole_status(status);
        assert(cmds[1] == CommandView::RunUiScript(status_script_spec(status)));
    } else {
        assert(cmds =~= Seq::<CommandView>::empty());
    }
}

/// When a page has loaded, the shell (if it exists) shows `Ready`.
pub proof fn lemma_navigation_completed_says_ready(state: ShellState)
    ensures
        shows_status(state, navigation_completed_commands(state), "Ready"@),
{
    reveal_strlit("Ready");
    lemma_literal_no_line_breaks("Ready"@);
    lemma_status_script_shows_whole_status("Ready"@);
}

/// The window title: the page title followed by ` — CX Browser`, or
/// `CX Browser` alone for a page without a title.
pub proof fn lemma_window_title(title: Seq<char>)
    ensures
        title.len() == 0 ==> display_title_spec(title) == "CX Browser"@,
        title.len() > 0 ==> display_title_spec(title) == title + " — CX Browser"@,
{
}

/// A close request always destroys the window, whatever the state, and changes
/// nothing; any message the browser does not handle goes to the default procedure.
pub proof fn lemma_close_and_other_messages(state: ShellState)
    ensures
        window_message_commands(state, WindowMessage::Close) == seq![CommandView::DestroyWindow],
        window_message_state(state, WindowMessage::Close) == state,
        window_message_commands(state, WindowMessage::Other) == seq![CommandView::DefaultProc],
        window_message_state(state, WindowMessage::Other) == state,
{
}

/// Destroying an attached window closes the page view and then the shell view
/// (each if it exists) and ends the message loop; afterwards no view is left
/// and the theme and size are kept. Destroying it again only ends the loop.
pub proof fn lemma_destroy_closes_views(state: ShellState)
    ensures
        state.attached && state.has_ui_view && state.has_content_view ==> window_message_commands(
            state,
            WindowMessage::Destroy,
        ) == seq![CommandView::CloseContentView, CommandView::CloseUiView, CommandView::PostQuit],
        state.attached && !state.has_ui_view && !state.has_content_view ==> window_message_commands(
            state,
            WindowMessage::Destroy,
        ) == seq![CommandView::PostQuit],
        !state.attached ==> window_message_commands(state, WindowMessage::Destroy) == seq![CommandView::PostQuit],
        ({
            let after = window_message_state(state, WindowMessage::Destroy);
            &&& state.attached ==> !after.has_ui_view && !after.has_content_view && !after.attached
            &&& after.dark_mode == state.dark_mode
            &&& after.size == state.size
        }),
{
    assert(window_message_commands(state, WindowMessage::Destroy).last() == CommandView::PostQuit);
    if state.attached && state.has_ui_view && state.has_content_view {
        assert(window_message_commands(state, WindowMessage::Destroy) =~= seq![
            CommandView::CloseContentView,
            CommandView::CloseUiView,
            CommandView::PostQuit,
        ]);
    } else {
        assert(!state.attached || (!state.has_ui_view && !state.has_content_view) ==> window_message_commands(
            state,
            WindowMessage::Destroy,
        ) =~= seq![CommandView::PostQuit]);
    }
}

/// A resize of an attached window records the new size and moves each existing
/// view: the shell to the top 80 pixels across the whole width, the page to the
/// rest of the client area; the theme is kept.
pub proof fn lemma_resize_moves_views(state: ShellState, size: Size)
    requires
        state.attached,
    ensures
        window_message_state(state, WindowMessage::Resized(size)) == (ShellState { size, ..state }),
        state.has_ui_view && state.has_content_view ==> window_message_commands(
            state,
            WindowMessage::Resized(size),
        ) == seq![
            CommandView::SetUiBounds(Rect { left: 0, top: 0, right: size.cx, bottom: 80 }),
            CommandView::SetContentBounds(Rect { left: 0, top: 80, right: size.cx, bottom: size.cy }),
        ],
        state.has_ui_view && !state.has_content_view ==> window_message_commands(
            state,
            WindowMessage::Resized(size),
        ) == seq![CommandView::SetUiBounds(Rect { left: 0, top: 0, right: size.cx, bottom: 80 })],
        !state.has_ui_view && state.has_content_view ==> window_message_commands(
            state,
            WindowMessage::Resized(size),
        ) == seq![
            CommandView::SetContentBounds(Rect { left: 0, top: 80, right: size.cx, bottom: size.cy }),
        ],
        !state.has_ui_view && !state.has_content_view ==> window_message_commands(
            state,
            WindowMessage::Resized(size),
        ).len() == 0,
{
    if state.has_ui_view && !state.has_content_view {
        assert(window_message_commands(state, WindowMessage::Resized(size)) =~= seq![
            CommandView::SetUiBounds(Rect { left: 0, top: 0, right: size.cx, bottom: 80 }),
        ]);
    }
    if !state.has_ui_view && state.has_content_view {
        assert(window_message_commands(state, WindowMessage::Resized(size)) =~= seq![
            CommandView::SetContentBounds(Rect { left: 0, top: 80, right: size.cx, bottom: size.cy }),
        ]);
    }
    if !state.has_ui_view && !state.has_content_view {
        assert(window_message_commands(state, WindowMessage::Resized(size)) =~= Seq::<CommandView>::empty());
    }
    if state.has_ui_view && state.has_content_view {
        assert(window_message_commands(state, WindowMessage::Resized(size)) =~= seq![
            CommandView::SetUiBounds(Rect { left: 0, top: 0, right: size.cx, bottom: 80 }),
            CommandView::SetContentBounds(Rect { left: 0, top: 80, right: size.cx, bottom: size.cy }),
        ]);
    }
}

/// Once the window is no longer attached, a resize does nothing.
pub proof fn lemma_resize_detached(state: ShellState, size: Size)
    requires
        !state.attached,
    ensures
        window_message_state(state, WindowMessage::Resized(size)) == state,
        window_message_commands(state, WindowMessage::Resized(size)).len() == 0,
{
}

/// Destroying an attached window with one view closes that view only, then
/// ends the message loop.
pub proof fn lemma_destroy_closes_existing_view(state: ShellState)
    requires
        state.attached,
    ensures
        state.has_ui_view && !state.has_content_view ==> window_message_commands(
            state,
            WindowMessage::Destroy,
        ) == seq![CommandView::CloseUiView, CommandView::PostQuit],
        !state.has_ui_view && state.has_content_view ==> window_message_commands(
            state,
            WindowMessage::Destroy,
        ) == seq![CommandView::CloseContentView, CommandView::PostQuit],
{
    if state.has_ui_view && !state.has_content_view {
        assert(window_message_commands(state, WindowMessage::Destroy) =~= seq![
            CommandView::CloseUiView,
            CommandView::PostQuit,
        ]);
    }
    if !state.has_ui_view && state.has_content_view {
        assert(window_message_commands(state, WindowMessage::Destroy) =~= seq![
            CommandView::CloseContentView,
            CommandView::PostQuit,
        ]);
    }
}

/// Showing a URL in the address bar, or a message in the status bar, is one
/// call of `window.updateUrl` or `window.updateStatus` with the whole text when
/// the shell view exists, and nothing otherwise.
pub proof fn lemma_address_and_status_updates(state: ShellState, text: Seq<char>)
    requires
        no_line_breaks(text),
    ensures
        shows_status(state, ui_status_commands(state, text), text),
        state.has_ui_view ==> ui_url_commands(state, text).len() == 1 && runs_call(
            ui_url_commands(state, text)[0],
            "window.updateUrl('"@,
            text,
        ),
        !state.has_ui_view ==> ui_url_commands(state, text).len() == 0,
{
    lemma_url_script_shows_whole_url(text);
    lemma_status_script_shows_whole_status(text);
}

/// The two views' bounds: the shell takes the top 80 pixels across the whole
/// width, the page everything below.
pub proof fn lemma_bounds(size: Size)
    ensures
        ui_bounds_spec(size) == (Rect { left: 0, top: 0, right: size.cx, bottom: 80 }),
        content_bounds_spec(size) == (Rect { left: 0, top: 80, right: size.cx, bottom: size.cy }),
{
}

/// A new window starts in the dark theme with no view, attached, at its size.
pub proof fn lemma_initial_state(size: Size)
    ensures
        ShellState::initial(size).dark_mode,
        !ShellState::initial(size).has_ui_view,
        !ShellState::initial(size).has_content_view,
        ShellState::initial(size).attached,
        ShellState::initial(size).size == size,
{
}

} // verus!
