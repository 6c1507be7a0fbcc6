use vstd::prelude::*;
use vstd::string::StringExecFns;

use crate::layout::{content_bounds, content_bounds_spec, ui_bounds, ui_bounds_spec, Rect, Size};
use crate::page::{display_title, display_title_spec, new_tab_page_html, new_tab_page_spec};
use crate::script::{status_script, status_script_spec, theme_script, theme_script_spec, url_script, url_script_spec};
use crate::url::{is_blocked_url, is_blocked_url_spec};

verus! {

/// A request from the shell's script to the browser.
#[derive(Clone, Debug, PartialEq, Eq)]
pub enum UiMessage {
    /// Load `url` in the page view.
    Navigate { url: String },
    /// Go back in the page view's history.
    Back,
    /// Go forward in the page view's history.
    Forward,
    /// Reload the page view.
    Reload,
    /// Show the new-tab page in the page view.
    Home,
    /// Switch between the dark and the light theme.
    ToggleTheme,
}

/// A window message that the browser acts on.
#[derive(Clone, Copy, Debug, PartialEq, Eq)]
pub enum WindowMessage {
    /// The client area now has this size.
    Resized(Size),
    /// The user asked to close the window.
    Close,
    /// The window is being destroyed.
    Destroy,
    /// Any other message, left to the default window procedure.
    Other,
}

/// One thing for the host to do with the window, the two views or the process.
#[derive(Clone, Debug, PartialEq, Eq)]
pub enum Command {
    /// Load a URL in the page view.
    Navigate(String),
    /// Go back in the page view.
    GoBack,
    /// Go forward in the page view.
    GoForward,
    /// Reload the page view.
    Reload,
    /// Show this HTML in the page view.
    ShowHtml(String),
    /// Run this script in the shell view.
    RunUiScript(String),
    /// Set the window's title.
    SetWindowTitle(String),
    /// Move the shell view to these bounds.
    SetUiBounds(Rect),
    /// Move the page view to these bounds.
    SetContentBounds(Rect),
    /// Close the page view's controller.
    CloseContentView,
    /// Close the shell view's controller.
    CloseUiView,
    /// Destroy the window.
    DestroyWindow,
    /// End the message loop.
    PostQuit,
    /// Hand the message to the default window procedure.
    DefaultProc,
}

/// `Command` with its texts as sequences of characters.
pub enum CommandView {
    Navigate(Seq<char>),
    GoBack,
    GoForward,
    Reload,
    ShowHtml(Seq<char>),
    RunUiScript(Seq<char>),
    SetWindowTitle(Seq<char>),
    SetUiBounds(Rect),
    SetContentBounds(Rect),
    CloseContentView,
    CloseUiView,
    DestroyWindow,
    PostQuit,
    DefaultProc,
}

impl View for Command {
    type V = CommandView;

    open spec fn view(&self) -> CommandView {
        match self {
            Command::Navigate(u) => CommandView::Navigate(u@),
            Command::GoBack => CommandView::GoBack,
            Command::GoForward => CommandView::GoForward,
            Command::Reload => CommandView::Reload,
            Command::ShowHtml(h) => CommandView::ShowHtml(h@),
            Command::RunUiScript(s) => CommandView::RunUiScript(s@),
            Command::SetWindowTitle(t) => CommandView::SetWindowTitle(t@),
            Command::SetUiBounds(r) => CommandView::SetUiBounds(*r),
            Command::SetContentBounds(r) => CommandView::SetContentBounds(*r),
            Command::CloseContentView => CommandView::CloseContentView,
            Command::CloseUiView => CommandView::CloseUiView,
            Command::DestroyWindow => CommandView::DestroyWindow,
            Command::PostQuit => CommandView::PostQuit,
            Command::DefaultProc => CommandView::DefaultProc,
        }
    }
}

/// The commands of a list, each by its view.
pub open spec fn commands_view(cmds: Seq<Command>) -> Seq<CommandView> {
    cmds.map_values(|c: Command| c@)
}

/// What the browser knows of itself between events.
#[derive(Clone, Copy, Debug, PartialEq, Eq)]
pub struct ShellState {
    /// Whether the dark theme is on.
    pub dark_mode: bool,
    /// Whether the shell view exists.
    pub has_ui_view: bool,
    /// Whether the page view exists.
    pub has_content_view: bool,
    /// The last known size of the client area.
    pub size: Size,
    /// Whether the window procedure still reaches the state (until the window is destroyed).
    pub attached: bool,
}

impl ShellState {
    /// The state of a freshly opened window of `size`: dark theme, no views yet.
    pub open spec fn initial(size: Size) -> ShellState {
        ShellState { dark_mode: true, has_ui_view: false, has_content_view: false, size, attached: true }
    }

    /// The state of a freshly opened window of `size`: the dark theme is on and
    /// neither view exists yet.
    pub fn new(size: Size) -> (s: ShellState)
        ensures
            s == ShellState::initial(size),
    {
        ShellState { dark_mode: true, has_ui_view: false, has_content_view: false, size, attached: true }
    }

    /// Records that the shell view exists.
    pub fn ui_view_created(&mut self)
        ensures
            *final(self) == (ShellState { has_ui_view: true, ..*old(self) }),
    {
        self.has_ui_view = true;
    }

    /// Records that the page view exists.
    pub fn content_view_created(&mut self)
        ensures
            *final(self) == (ShellState { has_content_view: true, ..*old(self) }),
    {
        self.has_content_view = true;
    }
}

/// The status shown when a navigation is refused.
pub const BLOCKED_STATUS: &'static str = "Blocked: unsafe URL scheme";
/// The status shown when a page has finished loading.
pub const READY_STATUS: &'static str = "Ready";
/// The status shown while a page loads starts with this.
pub const LOADING_PREFIX: &'static str = "Loading ";
/// The status shown while a page loads ends with this.
pub const LOADING_SUFFIX: &'static str = "...";

/// The scripts that show `status` in the status bar: one if the shell view exists.
pub open spec fn ui_status_commands(state: ShellState, status: Seq<char>) -> Seq<CommandView> {
    if state.has_ui_view {
        seq![CommandView::RunUiScript(status_script_spec(status))]
    } else {
        Seq::empty()
    }
}

/// The scripts that show `url` in the address bar: one if the shell view exists.
pub open spec fn ui_url_commands(state: ShellState, url: Seq<char>) -> Seq<CommandView> {
    if state.has_ui_view {
        seq![CommandView::RunUiScript(url_script_spec(url))]
    } else {
        Seq::empty()
    }
}

/// The state after the browser handles `msg`: only `ToggleTheme` changes it,
/// and only the theme.
pub open spec fn ui_message_state(state: ShellState, msg: UiMessage) -> ShellState {
    match msg {
        UiMessage::ToggleTheme => ShellState { dark_mode: !state.dark_mode, ..state },
        _ => state,
    }
}

/// The commands the browser issues for `msg`.
pub open spec fn ui_message_commands(state: ShellState, msg: UiMessage) -> Seq<CommandView> {
    match msg {
        UiMessage::Navigate { url } => {
            if !state.has_content_view {
                Seq::empty()
            } else if is_blocked_url_spec(url@) {
                ui_status_commands(state, BLOCKED_STATUS@)
            } else {
                seq![CommandView::Navigate(url@)]
            }
        },
        UiMessage::Back => if state.has_content_view {
            seq![CommandView::GoBack]
        } else {
            Seq::empty()
        },
        UiMessage::Forward => if state.has_content_view {
            seq![CommandView::GoForward]
        } else {
            Seq::empty()
        },
        UiMessage::Reload => if state.has_content_view {
            seq![CommandView::Reload]
        } else {
            Seq::empty()
        },
        UiMessage::Home => if state.has_content_view {
            seq![CommandView::ShowHtml(new_tab_page_spec(state.dark_mode))]
        } else {
            Seq::empty()
        },
        UiMessage::ToggleTheme => if state.has_ui_view {
            seq![CommandView::RunUiScript(theme_script_spec(!state.dark_mode))]
        } else {
            Seq::empty()
        },
    }
}

/// Builds the command that shows `status` in the status bar, if the shell view exists.
pub fn update_ui_status(state: &ShellState, status: &str) -> (cmds: Vec<Command>)
    ensures
        commands_view(cmds@) == ui_status_commands(*state, status@),
{
    let mut cmds = Vec::new();
    if state.has_ui_view {
        cmds.push(Command::RunUiScript(status_script(status)));
    }
    proof {
        assert(commands_view(cmds@) =~= ui_status_commands(*state, status@));
    }
    cmds
}

/// Builds the command that shows `url` in the address bar, if the shell view exists.
pub fn update_ui_url(state: &ShellState, url: &str) -> (cmds: Vec<Command>)
    ensures
        commands_view(cmds@) == ui_url_commands(*state, url@),
{
    let mut cmds = Vec::new();
    if state.has_ui_view {
        cmds.push(Command::RunUiScript(url_script(url)));
    }
    proof {
        assert(commands_view(cmds@) =~= ui_url_commands(*state, url@));
    }
    cmds
}

/// Handles a request from the shell: navigates, moves through the history,
/// reloads or shows the new-tab page in the page view (when it exists), refuses
/// `javascript:` and `data:` URLs with a status message, and switches the theme.
pub fn handle_ui_message(state: &mut ShellState, msg: UiMessage) -> (cmds: Vec<Command>)
    ensures
        *final(state) == ui_message_state(*old(state), msg),
        commands_view(cmds@) == ui_message_commands(*old(state), msg),
{
    let ghost msg0 = msg;
    let mut cmds: Vec<Command> = Vec::new();
    match msg {
        UiMessage::Navigate { url } => {
            if state.has_content_view {
                if is_blocked_url(url.as_str()) {
                    cmds = update_ui_status(state, BLOCKED_STATUS);
                } else {
                    cmds.push(Command::Navigate(url));
                }
            }
        },
        UiMessage::Back => {
            if state.has_content_view {
                cmds.push(Command::GoBack);
            }
        },
        UiMessage::Forward => {
            if state.has_content_view {
                cmds.push(Command::GoForward);
            }
        },
        UiMessage::Reload => {
            if state.has_content_view {
                cmds.push(Command::Reload);
            }
        },
        UiMessage::Home => {
            if state.has_content_view {
                cmds.push(Command::ShowHtml(new_tab_page_html(state.dark_mode)));
            }
        },
        UiMessage::ToggleTheme => {
            state.dark_mode = !state.dark_mode;
            if state.has_ui_view {
                cmds.push(Command::RunUiScript(theme_script(state.dark_mode)));
            }
        },
    }
    proof {
        assert(commands_view(cmds@) =~= ui_message_commands(*old(state), msg0));
    }
    cmds
}

/// The status shown while `uri` loads.
pub open spec fn loading_status_spec(uri: Seq<char>) -> Seq<char> {
    LOADING_PREFIX@ + uri + LOADING_SUFFIX@
}

/// The commands issued when the page view starts loading `uri`: show it in the
/// address bar, and a loading message in the status bar.
pub open spec fn navigation_starting_commands(state: ShellState, uri: Seq<char>) -> Seq<CommandView> {
    ui_url_commands(state, uri) + ui_status_commands(state, loading_status_spec(uri))
}

/// Handles the page view starting to load `uri`.
pub fn navigation_starting(state: &ShellState, uri: &str) -> (cmds: Vec<Command>)
    ensures
        commands_view(cmds@) == navigation_starting_commands(*state, uri@),
{
    let mut cmds = update_ui_url(state, uri);
    let mut status = String::from_str(LOADING_PREFIX);
    status.append(uri);
    status.append(LOADING_SUFFIX);
    let mut more = update_ui_status(state, status.as_str());
    let ghost first = cmds@;
    let ghost second = more@;
    cmds.append(&mut more);
    proof {
        assert(cmds@ =~= first + second);
        assert(commands_view(cmds@) =~= commands_view(first) + commands_view(second));
    }
    cmds
}

/// The commands issued when the page view finishes a load: the status bar says
/// it is ready.
pub open spec fn navigation_completed_commands(state: ShellState) -> Seq<CommandView> {
    ui_status_commands(state, READY_STATUS@)
}

/// Handles the page view finishing a load: the status bar says it is ready.
pub fn navigation_completed(state: &ShellState) -> (cmds: Vec<Command>)
    ensures
        commands_view(cmds@) == navigation_completed_commands(*state),
{
    update_ui_status(state, READY_STATUS)
}

/// Handles a change of the page's title: the window's title follows it.
pub fn update_window_title(title: &str) -> (cmd: Command)
    ensures
        cmd@ == CommandView::SetWindowTitle(display_title_spec(title@)),
{
    Command::SetWindowTitle(display_title(title))
}

/// The state after the window procedure handles `msg`.
pub open spec fn window_message_state(state: ShellState, msg: WindowMessage) -> ShellState {
    match msg {
        WindowMessage::Resized(size) => if state.attached {
            ShellState { size, ..state }
        } else {
            state
        },
        WindowMessage::Destroy => if state.attached {
            ShellState { has_ui_view: false, has_content_view: false, attached: false, ..state }
        } else {
            state
        },
        _ => state,
    }
}

/// The commands the window procedure issues for `msg`.
pub open spec fn window_message_commands(state: ShellState, msg: WindowMessage) -> Seq<CommandView> {
    match msg {
        WindowMessage::Resized(size) => if state.attached {
            (if state.has_ui_view {
                seq![CommandView::SetUiBounds(ui_bounds_spec(size))]
            } else {
                Seq::empty()
            }) + (if state.has_content_view {
                seq![CommandView::SetContentBounds(content_bounds_spec(size))]
            } else {
                Seq::empty()
            })
        } else {
            Seq::empty()
        },
        WindowMessage::Close => seq![CommandView::DestroyWindow],
        WindowMessage::Destroy => (if state.attached {
            (if state.has_content_view {
                seq![CommandView::CloseContentView]
            } else {
                Seq::empty()
            }) + (if state.has_ui_view {
                seq![CommandView::CloseUiView]
            } else {
                Seq::empty()
            })
        } else {
            Seq::empty()
        }) + seq![CommandView::PostQuit],
        WindowMessage::Other => seq![CommandView::DefaultProc],
    }
}

/// The window procedure: on a resize the views follow the client area; a close
/// request destroys the window; on destruction the views are closed and
/// released and the message loop ends; anything else goes to the default
/// procedure.
pub fn window_proc(state: &mut ShellState, msg: WindowMessage) -> (cmds: Vec<Command>)
    ensures
        *final(state) == window_message_state(*old(state), msg),
        commands_view(cmds@) == window_message_commands(*old(state), msg),
{
    let mut cmds: Vec<Command> = Vec::new();
    match msg {
        WindowMessage::Resized(size) => {
            if state.attached {
                state.size = size;
                if state.has_ui_view {
                    cmds.push(Command::SetUiBounds(ui_bounds(size)));
                }
                if state.has_content_view {
                    cmds.push(Command::SetContentBounds(content_bounds(size)));
                }
            }
        },
        WindowMessage::Close => {
            cmds.push(Command::DestroyWindow);
        },
        WindowMessage::Destroy => {
            if state.attached {
                if state.has_content_view {
                    cmds.push(Command::CloseContentView);
                }
                if state.has_ui_view {
                    cmds.push(Command::CloseUiView);
                }
                state.has_ui_view = false;
                state.has_content_view = false;
                state.attached = false;
            }
            cmds.push(Command::PostQuit);
        },
        WindowMessage::Other => {
            cmds.push(Command::DefaultProc);
        },
    }
    proof {
        assert(commands_view(cmds@) =~= window_message_commands(*old(state), msg));
    }
    cmds
}

/// Switching the theme twice gives back the state one started from.
pub proof fn lemma_toggle_theme_twice(state: ShellState)
    ensures
        ui_message_state(ui_message_state(state, UiMessage::ToggleTheme), UiMessage::ToggleTheme)
            == state,
{
}

/// Requests from the shell never create, remove or move a view, nor detach the
/// state from the window; only `ToggleTheme` changes anything, and it flips the theme.
pub proof fn lemma_ui_messages_keep_views(state: ShellState, msg: UiMessage)
    ensures
        ({
            let next = ui_message_state(state, msg);
            &&& next.has_ui_view == state.has_ui_view
            &&& next.has_content_view == state.has_content_view
            &&& next.size == state.size
            &&& next.attached == state.attached
            &&& next.dark_mode == (if msg is ToggleTheme { !state.dark_mode } else { state.dark_mode })
        }),
{
}

/// A URL that, once its tabs and newlines are removed and its leading C0
/// controls and spaces stripped, starts in any case with `javascript:` or
/// `data:` is never navigated to: the page view is left alone and at most a status message is
/// shown.
pub proof fn lemma_blocked_url_never_navigates(state: ShellState, url: String)
    requires
        is_blocked_url_spec(url@),
    ensures
        ({
            let cmds = ui_message_commands(state, UiMessage::Navigate { url });
            &&& forall|i: int| 0 <= i < cmds.len() ==> !(#[trigger] cmds[i] is Navigate)
            &&& state.has_content_view ==> cmds == ui_status_commands(state, BLOCKED_STATUS@)
        }),
{
}

/// Any other URL is loaded, exactly as given, once the page view exists.
pub proof fn lemma_allowed_url_navigates(state: ShellState, url: String)
    requires
        !is_blocked_url_spec(url@),
        state.has_content_view,
    ensures
        ui_message_commands(state, UiMessage::Navigate { url }) == seq![CommandView::Navigate(url@)],
{
}

/// After the theme is switched, the new-tab page is shown in the other theme,
/// and the shell is told to use the theme now in force.
pub proof fn lemma_home_follows_theme(state: ShellState)
    requires
        state.has_content_view,
        state.has_ui_view,
    ensures
        ({
            let next = ui_message_state(state, UiMessage::ToggleTheme);
            &&& ui_message_commands(state, UiMessage::ToggleTheme)
                == seq![CommandView::RunUiScript(theme_script_spec(next.dark_mode))]
            &&& ui_message_commands(next, UiMessage::Home)
                == seq![CommandView::ShowHtml(new_tab_page_spec(!state.dark_mode))]
        }),
{
}

/// Once the window is destroyed, no view is left: further requests from the
/// shell, navigation events and resizes issue no command, and a second
/// destruction only ends the message loop again. (A state that the window
/// procedure no longer reaches has no views, as destruction leaves it.)
pub proof fn lemma_destroy_is_final(state: ShellState, msg: UiMessage, size: Size, text: Seq<char>)
    requires
        state.attached || (!state.has_ui_view && !state.has_content_view),
    ensures
        ({
            let after = window_message_state(state, WindowMessage::Destroy);
            &&& !after.has_ui_view && !after.has_content_view && !after.attached
            &&& ui_message_commands(after, msg).len() == 0
            &&& ui_status_commands(after, text).len() == 0
            &&& navigation_starting_commands(after, text).len() == 0
            &&& window_message_commands(after, WindowMessage::Resized(size)).len() == 0
            &&& window_message_state(after, WindowMessage::Resized(size)) == after
            &&& window_message_commands(after, WindowMessage::Destroy) == seq![CommandView::PostQuit]
        }),
{
    let after = window_message_state(state, WindowMessage::Destroy);
    assert(window_message_commands(after, WindowMessage::Resized(size)) =~= Seq::<CommandView>::empty());
    assert(window_message_commands(after, WindowMessage::Destroy) =~= seq![CommandView::PostQuit]);
    assert(ui_url_commands(after, text) =~= Seq::<CommandView>::empty());
    assert(ui_status_commands(after, loading_status_spec(text)) =~= Seq::<CommandView>::empty());
    assert(navigation_starting_commands(after, text) =~= Seq::<CommandView>::empty());
}

/// A resize while the views exist moves both to bounds that tile the new
/// client area, the shell view first.
pub proof fn lemma_resize_tiles_views(state: ShellState, size: Size)
    requires
        state.attached,
        state.has_ui_view,
        state.has_content_view,
    ensures
        window_message_commands(state, WindowMessage::Resized(size)) == seq![
            CommandView::SetUiBounds(ui_bounds_spec(size)),
            CommandView::SetContentBounds(content_bounds_spec(size)),
        ],
        window_message_state(state, WindowMessage::Resized(size)).size == size,
{
    assert(window_message_commands(state, WindowMessage::Resized(size)) =~= seq![
        CommandView::SetUiBounds(ui_bounds_spec(size)),
        CommandView::SetContentBounds(content_bounds_spec(size)),
    ]);
}

} // verus!
