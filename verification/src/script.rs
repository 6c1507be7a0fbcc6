use vstd::prelude::*;
use vstd::string::StringExecFns;

verus! {

broadcast use vstd::string::group_string_axioms;

/// The characters that stand for `c` inside a single-quoted script string:
/// a backslash and a quote are each preceded by a backslash, every other
/// character stands for itself.
pub open spec fn escape_char_spec(c: char) -> Seq<char> {
    if c == '\\' {
        seq!['\\', '\\']
    } else if c == '\'' {
        seq!['\\', '\'']
    } else {
        seq![c]
    }
}

/// `s` with each character replaced by `escape_char_spec` of it.
pub open spec fn escape_spec(s: Seq<char>) -> Seq<char>
    decreases s.len(),
{
    if s.len() == 0 {
        Seq::<char>::empty()
    } else {
        escape_spec(s.drop_last()) + escape_char_spec(s.last())
    }
}

/// Appends `c` to `s` with std's `String::push`, which adds the character at the end.
#[verifier::external_body]
pub(crate) fn push_char(s: &mut String, c: char)
    ensures
        final(s)@ == old(s)@.push(c),
{
    s.push(c);
}

/// Escapes `s` for use inside a single-quoted script string literal:
/// every `\` becomes `\\` and every `'` becomes `\'`.
pub fn escape_js_string(s: &str) -> (res: String)
    ensures
        res@ == escape_spec(s@),
{
    let mut res = String::new();
    for c in it: s.chars()
        invariant
            it.seq() == s@,
            res@ == escape_spec(s@.take(it.index())),
    {
        proof {
            assert(s@.take(it.index() + 1).drop_last() =~= s@.take(it.index()));
        }
        if c == '\\' {
            push_char(&mut res, '\\');
            push_char(&mut res, '\\');
        } else if c == '\'' {
            push_char(&mut res, '\\');
            push_char(&mut res, '\'');
        } else {
            push_char(&mut res, c);
        }
        assert(res@ =~= escape_spec(s@.take(it.index() + 1)));
    }
    assert(s@.take(s@.len() as int) =~= s@);
    res
}


/// The text of a single-quoted literal body read back: `\` followed by another
/// character stands for that character, every other character for itself.
pub open spec fn unescape_spec(t: Seq<char>) -> Seq<char>
    decreases t.len(),
{
    if t.len() == 0 {
        Seq::<char>::empty()
    } else if t[0] == '\\' && t.len() >= 2 {
        seq![t[1]] + unescape_spec(t.skip(2))
    } else {
        seq![t[0]] + unescape_spec(t.skip(1))
    }
}

/// Whether `c` ends a line, which a single-quoted script string may not hold unescaped.
pub open spec fn is_line_break(c: char) -> bool {
    c == '\n' || c == '\r'
}

/// How a script engine reads `t` placed between an opening and a closing `'`:
/// `Some(v)` when `t` is made only of characters other than `'`, `\` and line
/// breaks, and of the escapes `\\` and `\'`, so that the literal ends exactly at
/// the closing quote and its value is `v`; `None` otherwise.
pub open spec fn js_literal_value(t: Seq<char>) -> Option<Seq<char>>
    decreases t.len(),
{
    if t.len() == 0 {
        Some(Seq::<char>::empty())
    } else if t[0] == '\\' {
        if t.len() >= 2 && (t[1] == '\\' || t[1] == '\'') {
            match js_literal_value(t.skip(2)) {
                Some(v) => Some(seq![t[1]] + v),
                None => None,
            }
        } else {
            None
        }
    } else if t[0] == '\'' || is_line_break(t[0]) {
        None
    } else {
        match js_literal_value(t.skip(1)) {
            Some(v) => Some(seq![t[0]] + v),
            None => None,
        }
    }
}

/// Escaping distributes over concatenation.
pub proof fn lemma_escape_concat(a: Seq<char>, b: Seq<char>)
    ensures
        escape_spec(a + b) == escape_spec(a) + escape_spec(b),
    decreases b.len(),
{
    if b.len() == 0 {
        assert(a + b =~= a);
        assert(escape_spec(a) + escape_spec(b) =~= escape_spec(a));
    } else {
        lemma_escape_concat(a, b.drop_last());
        assert((a + b).drop_last() =~= a + b.drop_last());
        assert((a + b).last() == b.last());
        assert(escape_spec(a) + escape_spec(b) =~= escape_spec(a) + escape_spec(b.drop_last())
            + escape_char_spec(b.last()));
    }
}

/// Escaping a non-empty text starts with the escape of its first character.
proof fn lemma_escape_first(s: Seq<char>)
    requires
        s.len() > 0,
    ensures
        escape_spec(s) == escape_char_spec(s[0]) + escape_spec(s.skip(1)),
{
    assert(s =~= seq![s[0]] + s.skip(1));
    lemma_escape_concat(seq![s[0]], s.skip(1));
    let one = seq![s[0]];
    assert(one.drop_last() =~= Seq::<char>::empty());
    assert(escape_spec(one.drop_last()) == Seq::<char>::empty());
    assert(escape_spec(one) =~= escape_char_spec(s[0]));
}

/// Reading back an escaped text gives the text: escaping loses nothing.
pub proof fn lemma_unescape_escape(s: Seq<char>)
    ensures
        unescape_spec(escape_spec(s)) == s,
    decreases s.len(),
{
    if s.len() == 0 {
        assert(escape_spec(s) =~= Seq::<char>::empty());
    } else {
        lemma_escape_first(s);
        lemma_unescape_escape(s.skip(1));
        let e = escape_char_spec(s[0]);
        let rest = escape_spec(s.skip(1));
        let t = e + rest;
        if s[0] == '\\' || s[0] == '\'' {
            assert(t.skip(2) =~= rest);
        } else {
            assert(t.skip(1) =~= rest);
        }
        assert(s =~= seq![s[0]] + s.skip(1));
    }
}

/// Two texts with the same escape are the same text.
pub proof fn lemma_escape_injective(a: Seq<char>, b: Seq<char>)
    requires
        escape_spec(a) == escape_spec(b),
    ensures
        a == b,
{
    lemma_unescape_escape(a);
    lemma_unescape_escape(b);
}

/// A text without line breaks, once escaped, is read by a script engine as one
/// single-quoted literal whose value is the text itself.
pub proof fn lemma_escape_is_literal(s: Seq<char>)
    requires
        forall|i: int| 0 <= i < s.len() ==> !is_line_break(#[trigger] s[i]),
    ensures
        js_literal_value(escape_spec(s)) == Some(s),
    decreases s.len(),
{
    if s.len() == 0 {
        assert(escape_spec(s) =~= Seq::<char>::empty());
    } else {
        lemma_escape_first(s);
        let tail = s.skip(1);
        assert forall|i: int| 0 <= i < tail.len() implies !is_line_break(#[trigger] tail[i]) by {
            assert(tail[i] == s[i + 1]);
        }
        lemma_escape_is_literal(tail);
        assert(!is_line_break(s[0]));
        let e = escape_char_spec(s[0]);
        let rest = escape_spec(tail);
        let t = e + rest;
        if s[0] == '\\' || s[0] == '\'' {
            assert(t.skip(2) =~= rest);
        } else {
            assert(t.skip(1) =~= rest);
        }
        assert(s =~= seq![s[0]] + tail);
    }
}


/// Opening of the script that shows a URL in the address bar.
pub const UPDATE_URL_OPEN: &'static str = "window.updateUrl('";
/// Opening of the script that shows a message in the status bar.
pub const UPDATE_STATUS_OPEN: &'static str = "window.updateStatus('";
/// Closing of both scripts: the end of the string literal and of the call.
pub const CALL_CLOSE: &'static str = "')";
/// The script that switches the shell to the dark theme.
pub const SET_THEME_DARK: &'static str = "window.setTheme(true)";
/// The script that switches the shell to the light theme.
pub const SET_THEME_LIGHT: &'static str = "window.setTheme(false)";

/// A call of the shell function that `open` names with `arg` as its one
/// single-quoted string argument.
pub open spec fn call_script_spec(open: Seq<char>, arg: Seq<char>) -> Seq<char> {
    open + escape_spec(arg) + CALL_CLOSE@
}

/// The script that shows `url` in the address bar.
pub open spec fn url_script_spec(url: Seq<char>) -> Seq<char> {
    call_script_spec(UPDATE_URL_OPEN@, url)
}

/// The script that shows `status` in the status bar.
pub open spec fn status_script_spec(status: Seq<char>) -> Seq<char> {
    call_script_spec(UPDATE_STATUS_OPEN@, status)
}

/// The script that switches the shell to the dark or the light theme.
pub open spec fn theme_script_spec(dark: bool) -> Seq<char> {
    if dark {
        SET_THEME_DARK@
    } else {
        SET_THEME_LIGHT@
    }
}

fn call_script(open: &str, arg: &str) -> (res: String)
    ensures
        res@ == call_script_spec(open@, arg@),
{
    let escaped = escape_js_string(arg);
    let mut res = String::from_str(open);
    res.append(escaped.as_str());
    res.append(CALL_CLOSE);
    res
}

/// Builds the script that shows `url` in the address bar.
pub fn url_script(url: &str) -> (res: String)
    ensures
        res@ == url_script_spec(url@),
{
    call_script(UPDATE_URL_OPEN, url)
}

/// Builds the script that shows `status` in the status bar.
pub fn status_script(status: &str) -> (res: String)
    ensures
        res@ == status_script_spec(status@),
{
    call_script(UPDATE_STATUS_OPEN, status)
}

/// Builds the script that switches the shell to the dark (`true`) or light theme.
pub fn theme_script(dark: bool) -> (res: String)
    ensures
        res@ == theme_script_spec(dark),
{
    if dark {
        String::from_str(SET_THEME_DARK)
    } else {
        String::from_str(SET_THEME_LIGHT)
    }
}

/// A call script built from a text without line breaks passes the shell exactly
/// that text: its argument lies between the call's opening and closing and is
/// read as one string literal whose value is the text.
pub proof fn lemma_call_script_carries_argument(open: Seq<char>, arg: Seq<char>)
    requires
        forall|i: int| 0 <= i < arg.len() ==> !is_line_break(#[trigger] arg[i]),
    ensures
        ({
            let script = call_script_spec(open, arg);
            let body = script.subrange(open.len() as int, script.len() - CALL_CLOSE@.len());
            &&& script.take(open.len() as int) == open
            &&& script.skip(script.len() - CALL_CLOSE@.len()) == CALL_CLOSE@
            &&& js_literal_value(body) == Some(arg)
        }),
{
    let script = call_script_spec(open, arg);
    let e = escape_spec(arg);
    assert(script.take(open.len() as int) =~= open);
    assert(script.skip(script.len() - CALL_CLOSE@.len()) =~= CALL_CLOSE@);
    assert(script.subrange(open.len() as int, script.len() - CALL_CLOSE@.len()) =~= e);
    lemma_escape_is_literal(arg);
}

} // verus!
