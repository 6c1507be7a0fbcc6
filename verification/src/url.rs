use vstd::prelude::*;
use vstd::string::StrSliceExecFns;

use crate::script::push_char;

verus! {

/// The lowercase form of `s` that std's `str::to_lowercase` returns
/// (Unicode's `Lowercase` mapping, which may change the length of the text).
pub uninterp spec fn lowercase_of(s: Seq<char>) -> Seq<char>;

/// Calls std's `str::to_lowercase`. Its documentation defines the result by the
/// Unicode `Lowercase` property of each character, which takes pages to state,
/// so the contract names it: the result is `lowercase_of` the argument. On text
/// made only of ASCII characters it also states what that mapping gives there:
/// the letters `A` to `Z` become `a` to `z` and every other character stays
/// (Unicode's lowercase mapping of the ASCII range, as in the documented
/// example `"HELLO".to_lowercase() == "hello"`).
#[verifier::external_body]
fn to_lowercase(s: &str) -> (res: String)
    ensures
        res@ == lowercase_of(s@),
        is_ascii_text(s@) ==> res@ == ascii_lowercase(s@),
{
    s.to_lowercase()
}

/// Whether `c` is an ASCII character.
pub open spec fn is_ascii_char(c: char) -> bool {
    (c as u32) < 128
}

/// Whether every character of `s` is ASCII.
pub open spec fn is_ascii_text(s: Seq<char>) -> bool {
    forall|i: int| 0 <= i < s.len() ==> is_ascii_char(#[trigger] s[i])
}

/// `c` with `A` to `Z` turned into `a` to `z`.
pub open spec fn ascii_lowercase_char(c: char) -> char {
    if 'A' <= c && c <= 'Z' {
        ((c as u32) + 32) as char
    } else {
        c
    }
}

/// `s` with `A` to `Z` turned into `a` to `z`.
pub open spec fn ascii_lowercase(s: Seq<char>) -> Seq<char> {
    s.map_values(|c: char| ascii_lowercase_char(c))
}

/// The scheme prefix of script URLs.
pub const JAVASCRIPT_SCHEME: &'static str = "javascript:";

/// The scheme prefix of inline-data URLs.
pub const DATA_SCHEME: &'static str = "data:";

/// Whether `prefix` is a prefix of `s`.
pub open spec fn starts_with_spec(s: Seq<char>, prefix: Seq<char>) -> bool {
    prefix.len() <= s.len() && s.take(prefix.len() as int) == prefix
}

/// Whether `s` starts with `prefix`, character by character.
pub fn starts_with(s: &str, prefix: &str) -> (res: bool)
    ensures
        res == starts_with_spec(s@, prefix@),
{
    let n: usize = prefix.unicode_len();
    let m: usize = s.unicode_len();
    if n > m {
        return false;
    }
    let mut i: usize = 0;
    while i < n
        invariant
            n == prefix@.len(),
            m == s@.len(),
            n <= m,
            i <= n,
            forall|j: int| 0 <= j < i ==> s@[j] == prefix@[j],
        decreases n - i,
    {
        if s.get_char(i) != prefix.get_char(i) {
            assert(s@.take(n as int)[i as int] != prefix@[i as int]);
            return false;
        }
        i = i + 1;
    }
    assert(s@.take(n as int) =~= prefix@);
    true
}

/// Whether an already lowercased URL names a scheme that the browser refuses
/// to navigate to: `javascript:` or `data:`.
pub open spec fn unsafe_scheme_spec(lowered: Seq<char>) -> bool {
    starts_with_spec(lowered, JAVASCRIPT_SCHEME@) || starts_with_spec(lowered, DATA_SCHEME@)
}

/// Decides, for a URL already in lowercase, whether its scheme is refused.
pub fn is_unsafe_scheme(lowered: &str) -> (res: bool)
    ensures
        res == unsafe_scheme_spec(lowered@),
{
    starts_with(lowered, JAVASCRIPT_SCHEME) || starts_with(lowered, DATA_SCHEME)
}

/// Whether `c` is a C0 control character or a space (U+0000 to U+0020), which
/// URL parsers drop from the start of a URL.
pub open spec fn is_c0_or_space(c: char) -> bool {
    c <= ' '
}

/// Whether `c` is an ASCII tab or newline, which URL parsers remove wherever it stands.
pub open spec fn is_tab_or_newline(c: char) -> bool {
    c == '\t' || c == '\n' || c == '\r'
}

/// `s` without its ASCII tabs and newlines.
pub open spec fn remove_tabs_newlines(s: Seq<char>) -> Seq<char>
    decreases s.len(),
{
    if s.len() == 0 {
        Seq::<char>::empty()
    } else if is_tab_or_newline(s.last()) {
        remove_tabs_newlines(s.drop_last())
    } else {
        remove_tabs_newlines(s.drop_last()).push(s.last())
    }
}

/// `s` without its leading C0 controls and spaces.
pub open spec fn strip_leading_c0(s: Seq<char>) -> Seq<char>
    decreases s.len(),
{
    if s.len() > 0 && is_c0_or_space(s[0]) {
        strip_leading_c0(s.skip(1))
    } else {
        s
    }
}

/// The text of `url` whose start a URL parser reads as the scheme: tabs and
/// newlines removed, then leading C0 controls and spaces stripped.
pub open spec fn scheme_text_spec(url: Seq<char>) -> Seq<char> {
    strip_leading_c0(remove_tabs_newlines(url))
}

/// Stripping the leading blanks of a concatenation: if the first part is all
/// blanks, the stripped second part; else the stripped first part, then the second.
proof fn lemma_strip_concat(x: Seq<char>, y: Seq<char>)
    ensures
        strip_leading_c0(x + y) == (if strip_leading_c0(x).len() == 0 {
            strip_leading_c0(y)
        } else {
            strip_leading_c0(x) + y
        }),
    decreases x.len(),
{
    if x.len() == 0 {
        assert(x + y =~= y);
    } else if is_c0_or_space(x[0]) {
        assert((x + y)[0] == x[0]);
        assert((x + y).skip(1) =~= x.skip(1) + y);
        lemma_strip_concat(x.skip(1), y);
    } else {
        assert((x + y)[0] == x[0]);
    }
}

/// Removes the ASCII tabs and newlines of `url` and strips its leading C0
/// controls and spaces, as a URL parser does before it reads the scheme.
pub fn scheme_text(url: &str) -> (res: String)
    ensures
        res@ == scheme_text_spec(url@),
{
    let mut res = String::new();
    let mut started = false;
    for c in it: url.chars()
        invariant
            it.seq() == url@,
            res@ == scheme_text_spec(url@.take(it.index())),
            started == (res@.len() > 0),
    {
        let ghost prefix = url@.take(it.index());
        let ghost next = url@.take(it.index() + 1);
        proof {
            assert(next.drop_last() =~= prefix);
            assert(next.last() == c);
        }
        if c == '\t' || c == '\n' || c == '\r' {
        } else if !started && c <= ' ' {
            proof {
                lemma_strip_concat(remove_tabs_newlines(prefix), seq![c]);
                assert(strip_leading_c0(seq![c]) =~= strip_leading_c0(seq![c].skip(1)));
                assert(seq![c].skip(1) =~= Seq::<char>::empty());
                assert(remove_tabs_newlines(next) =~= remove_tabs_newlines(prefix) + seq![c]);
            }
        } else {
            proof {
                lemma_strip_concat(remove_tabs_newlines(prefix), seq![c]);
                assert(remove_tabs_newlines(next) =~= remove_tabs_newlines(prefix) + seq![c]);
                if !started {
                    assert(!is_c0_or_space(seq![c][0]));
                    assert(strip_leading_c0(seq![c]) == seq![c]);
                }
            }
            push_char(&mut res, c);
            started = true;
        }
        assert(res@ =~= scheme_text_spec(url@.take(it.index() + 1)));
    }
    assert(url@.take(url@.len() as int) =~= url@);
    res
}

/// Whether the browser refuses to navigate to `url`: once tabs and newlines are
/// removed and leading C0 controls and spaces stripped, its lowercase form
/// starts with `javascript:` or `data:`.
pub open spec fn is_blocked_url_spec(url: Seq<char>) -> bool {
    unsafe_scheme_spec(lowercase_of(scheme_text_spec(url)))
}

/// Decides whether the browser refuses to navigate to `url`.
pub fn is_blocked_url(url: &str) -> (res: bool)
    ensures
        res == is_blocked_url_spec(url@),
        is_ascii_text(url@) ==> res == unsafe_scheme_spec(ascii_lowercase(scheme_text_spec(url@))),
{
    let cleaned = scheme_text(url);
    proof {
        if is_ascii_text(url@) {
            let p = |c: char| is_ascii_char(c);
            assert forall|i: int| 0 <= i < url@.len() implies #[trigger] p(url@[i]) by {
                assert(is_ascii_char(url@[i]));
            }
            lemma_scheme_text_keeps(url@, p);
            assert forall|i: int| 0 <= i < cleaned@.len() implies is_ascii_char(#[trigger] cleaned@[i]) by {
                assert(p(scheme_text_spec(url@)[i]));
            }
        }
    }
    let lowered = to_lowercase(cleaned.as_str());
    is_unsafe_scheme(lowered.as_str())
}

/// Removing tabs and newlines distributes over concatenation.
pub proof fn lemma_remove_tabs_newlines_concat(a: Seq<char>, b: Seq<char>)
    ensures
        remove_tabs_newlines(a + b) == remove_tabs_newlines(a) + remove_tabs_newlines(b),
    decreases b.len(),
{
    if b.len() == 0 {
        assert(a + b =~= a);
        assert(remove_tabs_newlines(b) =~= Seq::<char>::empty());
        assert(remove_tabs_newlines(a) + remove_tabs_newlines(b) =~= remove_tabs_newlines(a));
    } else {
        lemma_remove_tabs_newlines_concat(a, b.drop_last());
        assert((a + b).drop_last() =~= a + b.drop_last());
        assert((a + b).last() == b.last());
        if is_tab_or_newline(b.last()) {
        } else {
            assert(remove_tabs_newlines(a) + remove_tabs_newlines(b) =~= (remove_tabs_newlines(a)
                + remove_tabs_newlines(b.drop_last())).push(b.last()));
        }
    }
}

/// Removing tabs and newlines keeps only characters of the text: what holds of
/// every character before holds of every character after.
proof fn lemma_remove_keeps(s: Seq<char>, p: spec_fn(char) -> bool)
    requires
        forall|i: int| 0 <= i < s.len() ==> #[trigger] p(s[i]),
    ensures
        forall|i: int|
            0 <= i < remove_tabs_newlines(s).len() ==> #[trigger] p(remove_tabs_newlines(s)[i]),
    decreases s.len(),
{
    if s.len() > 0 {
        let d = s.drop_last();
        assert forall|i: int| 0 <= i < d.len() implies #[trigger] p(d[i]) by {
            assert(d[i] == s[i]);
        }
        lemma_remove_keeps(d, p);
        assert(p(s[s.len() - 1]));
        let r = remove_tabs_newlines(d);
        let full = remove_tabs_newlines(s);
        assert forall|i: int| 0 <= i < full.len() implies #[trigger] p(full[i]) by {
            if !is_tab_or_newline(s.last()) && i == r.len() {
                assert(full[i] == s.last());
            } else {
                assert(full[i] == r[i]);
            }
        }
    }
}

/// Stripping leading blanks keeps only characters of the text.
proof fn lemma_strip_keeps(s: Seq<char>, p: spec_fn(char) -> bool)
    requires
        forall|i: int| 0 <= i < s.len() ==> #[trigger] p(s[i]),
    ensures
        forall|i: int| 0 <= i < strip_leading_c0(s).len() ==> #[trigger] p(strip_leading_c0(s)[i]),
    decreases s.len(),
{
    if s.len() > 0 && is_c0_or_space(s[0]) {
        let t = s.skip(1);
        assert forall|i: int| 0 <= i < t.len() implies #[trigger] p(t[i]) by {
            assert(t[i] == s[i + 1]);
        }
        lemma_strip_keeps(t, p);
        assert(strip_leading_c0(s) == strip_leading_c0(t));
    } else {
        assert(strip_leading_c0(s) == s);
    }
}

/// The text read for the scheme keeps only characters of the URL.
pub proof fn lemma_scheme_text_keeps(url: Seq<char>, p: spec_fn(char) -> bool)
    requires
        forall|i: int| 0 <= i < url.len() ==> #[trigger] p(url[i]),
    ensures
        forall|i: int| 0 <= i < scheme_text_spec(url).len() ==> #[trigger] p(scheme_text_spec(url)[i]),
{
    lemma_remove_keeps(url, p);
    lemma_strip_keeps(remove_tabs_newlines(url), p);
}

/// Stripping text made only of C0 controls and spaces leaves nothing.
proof fn lemma_strip_blanks_empty(s: Seq<char>)
    requires
        forall|i: int| 0 <= i < s.len() ==> is_c0_or_space(#[trigger] s[i]),
    ensures
        strip_leading_c0(s).len() == 0,
    decreases s.len(),
{
    if s.len() > 0 {
        let t = s.skip(1);
        assert forall|i: int| 0 <= i < t.len() implies is_c0_or_space(#[trigger] t[i]) by {
            assert(t[i] == s[i + 1]);
        }
        lemma_strip_blanks_empty(t);
    }
}

/// Leading C0 controls and spaces, and tabs or newlines anywhere, do not change
/// which scheme a URL is read as: `blanks + url` is refused exactly when `url`
/// is, and so is `a + tab_or_newline + b` exactly when `a + b` is.
pub proof fn lemma_blanks_do_not_hide_scheme(blanks: Seq<char>, url: Seq<char>, a: Seq<char>, c: char, b: Seq<char>)
    requires
        forall|i: int| 0 <= i < blanks.len() ==> is_c0_or_space(#[trigger] blanks[i]),
        is_tab_or_newline(c),
    ensures
        scheme_text_spec(blanks + url) == scheme_text_spec(url),
        is_blocked_url_spec(blanks + url) == is_blocked_url_spec(url),
        scheme_text_spec(a + seq![c] + b) == scheme_text_spec(a + b),
        is_blocked_url_spec(a + seq![c] + b) == is_blocked_url_spec(a + b),
{
    lemma_remove_tabs_newlines_concat(blanks, url);
    let blank = |c: char| is_c0_or_space(c);
    assert forall|i: int| 0 <= i < blanks.len() implies #[trigger] blank(blanks[i]) by {
        assert(is_c0_or_space(blanks[i]));
    }
    lemma_remove_keeps(blanks, blank);
    assert forall|i: int| 0 <= i < remove_tabs_newlines(blanks).len() implies is_c0_or_space(
        #[trigger] remove_tabs_newlines(blanks)[i],
    ) by {
        assert(blank(remove_tabs_newlines(blanks)[i]));
    }
    lemma_strip_blanks_empty(remove_tabs_newlines(blanks));
    lemma_strip_concat(remove_tabs_newlines(blanks), remove_tabs_newlines(url));

    lemma_remove_tabs_newlines_concat(a + seq![c], b);
    lemma_remove_tabs_newlines_concat(a, seq![c]);
    lemma_remove_tabs_newlines_concat(a, b);
    assert(seq![c].drop_last() =~= Seq::<char>::empty());
    assert(remove_tabs_newlines(seq![c].drop_last()) =~= Seq::<char>::empty());
    assert(remove_tabs_newlines(seq![c]) =~= Seq::<char>::empty());
    assert(remove_tabs_newlines(a) + remove_tabs_newlines(seq![c]) =~= remove_tabs_newlines(a));
}

} // verus!
