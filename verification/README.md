# cx_browser

The decision logic of a small WebView2-based browser shell, verified with Verus.

- `src/layout.rs`: client-area size and the bounds of the shell view (top strip) and the page view (the rest).
- `src/script.rs`: escaping of text for single-quoted script strings, and the scripts sent to the shell (`updateUrl`, `updateStatus`, `setTheme`), with proofs that escaping loses nothing and yields one literal.
- `src/url.rs`: refusal of `javascript:` and `data:` URLs whatever leading blanks, tabs or newlines they carry; letter case is folded with std's `str::to_lowercase`, whose result the library only names, except on ASCII text, where it is stated (A–Z to a–z).
- `src/page.rs`: the new-tab page (colours and logo) in the dark and light theme, and the window title.
- `src/shell.rs`: the browser's state and its handlers for shell requests, navigation events and window messages; each returns the commands for the host to carry out.
- `app/main.rs`: the Windows host: window, WebView2 views, JSON decoding of shell messages, and the execution of the commands.
