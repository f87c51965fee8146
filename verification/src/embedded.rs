//! The embedded-state extractor: the JSON document that a page assigns to a
//! named variable in an inline script.

use vstd::prelude::*;

use crate::error::{ErrorView, ResolutionError};
use crate::json::{json_parse, Json};
use crate::text::{
    chars_of, contains, find, find_from, lemma_find_from, matches_at, prefix, replace_all,
    replaced, replaced_from, run_end, skip_run, slice_of, string_of, take_chars, trim, trimmed,
    CharClass,
};

verus! {

/// The marker that closes the value of an assignment in an inline script.
pub const SCRIPT_END: &'static str = "</script>";

/// How many characters of a text that is no JSON an error carries.
pub const SNIPPET_LENGTH: usize = 100;

/// Where the value of the assignment that begins at `i` begins: after the
/// name, `=` and the white space around it.
pub open spec fn value_start(html: Seq<char>, name: Seq<char>, i: int) -> Option<int> {
    if matches_at(html, name, i) {
        let a = run_end(html, CharClass::Space, i + name.len());
        if a < html.len() && html[a] == '=' {
            Some(run_end(html, CharClass::Space, a + 1))
        } else {
            None
        }
    } else {
        None
    }
}

/// Start and end of the value of the assignment that begins at `i`: the
/// value ends where `marker` first stands, and holds no line break.
pub open spec fn value_at(html: Seq<char>, name: Seq<char>, marker: Seq<char>, i: int) -> Option<
    (int, int),
> {
    match value_start(html, name, i) {
        Some(s) => match find_from(html, marker, s) {
            Some(m) => if run_end(html, CharClass::Except('\n'), s) >= m {
                Some((s, m))
            } else {
                None
            },
            None => None,
        },
        None => None,
    }
}

/// The value of the first assignment to `name` at or after position `i`
/// that has one.
pub open spec fn locate_from(html: Seq<char>, name: Seq<char>, marker: Seq<char>, i: int) -> Option<
    (int, int),
>
    decreases html.len() + 1 - i,
{
    if i < 0 || i > html.len() {
        None
    } else {
        match value_at(html, name, marker, i) {
            Some(found) => Some(found),
            None => locate_from(html, name, marker, i + 1),
        }
    }
}

/// The text that is read as JSON: the value of the first assignment to
/// `name`, without white space around it and with every `undefined`
/// replaced by `null`.
pub open spec fn embedded_text(html: Seq<char>, name: Seq<char>, marker: Seq<char>) -> Option<
    Seq<char>,
> {
    match locate_from(html, name, marker, 0) {
        Some((s, m)) => Some(
            replaced(trimmed(html.subrange(s, m), CharClass::Space), "undefined"@, "null"@),
        ),
        None => None,
    }
}

/// What the extractor gives: the document, `UpstreamFormatChanged` where the
/// page has no such assignment, `MalformedEmbeddedState` with the start of
/// the text where the text is no JSON.
pub open spec fn extracted(html: Seq<char>, name: Seq<char>, marker: Seq<char>) -> Result<
    Json,
    ErrorView,
> {
    match embedded_text(html, name, marker) {
        Some(t) => match json_parse(t) {
            Some(j) => Ok(j),
            None => Err(ErrorView::MalformedEmbeddedState(prefix(t, SNIPPET_LENGTH as int))),
        },
        None => Err(ErrorView::UpstreamFormatChanged),
    }
}

/// Where what is left of a text after the replacement begins with the
/// last `9 - t` characters of `undefined`, the text itself holds them
/// there.
proof fn lemma_replaced_prefix(s: Seq<char>, j: int, t: int)
    requires
        0 <= t <= 9,
        0 <= j <= s.len(),
        replaced_from(s, "undefined"@, "null"@, j).len() >= 9 - t,
        forall|x: int|
            0 <= x < 9 - t ==> #[trigger] replaced_from(s, "undefined"@, "null"@, j)[x]
                == "undefined"@[t + x],
    ensures
        j + (9 - t) <= s.len(),
        forall|y: int| j <= y < j + (9 - t) ==> #[trigger] s[y] == "undefined"@[t + (y - j)],
    decreases 9 - t,
{
    reveal_strlit("undefined");
    reveal_strlit("null");
    let r = replaced_from(s, "undefined"@, "null"@, j);
    if t < 9 {
        assert(j < s.len());
        assert(r[0] == "undefined"@[t + 0]);
        if matches_at(s, "undefined"@, j) {
            let rest = replaced_from(s, "undefined"@, "null"@, j + 9);
            assert(r == "null"@ + rest);
            assert(r[0] == 'n');
            assert(t == 1 || t == 6);
            assert(r[1] == 'u');
            assert(r[1] == "undefined"@[t + 1]);
            assert(false);
        } else {
            let rest = replaced_from(s, "undefined"@, "null"@, j + 1);
            assert(r == seq![s[j]] + rest);
            assert forall|x: int| 0 <= x < 9 - (t + 1) implies #[trigger] rest[x] == "undefined"@[t
                + 1 + x] by {
                assert(rest[x] == r[x + 1]);
            }
            lemma_replaced_prefix(s, j + 1, t + 1);
        }
    }
}

/// What is left of a text after the replacement holds no `undefined`.
proof fn lemma_replaced_holds_none(s: Seq<char>, i: int, k: int)
    requires
        0 <= i,
        0 <= k,
    ensures
        !matches_at(replaced_from(s, "undefined"@, "null"@, i), "undefined"@, k),
    decreases s.len() - i,
{
    reveal_strlit("undefined");
    reveal_strlit("null");
    let u = "undefined"@;
    let r = replaced_from(s, u, "null"@, i);
    if i < s.len() && matches_at(r, u, k) {
        assert forall|y: int| k <= y < k + 9 implies #[trigger] r[y] == u[y - k] by {
            assert(r.subrange(k, k + 9)[y - k] == r[y]);
        }
        if matches_at(s, u, i) {
            let rest = replaced_from(s, u, "null"@, i + 9);
            assert(r == "null"@ + rest);
            if k >= 4 {
                assert(rest.subrange(k - 4, k - 4 + 9) =~= r.subrange(k, k + 9));
                lemma_replaced_holds_none(s, i + 9, k - 4);
            } else if k == 3 {
                assert(r[3] == 'l');
                assert(r[3] == u[0]);
            } else {
                assert(r[2] == 'l');
                assert(r[2] == u[2 - k]);
            }
        } else {
            let rest = replaced_from(s, u, "null"@, i + 1);
            assert(r == seq![s[i]] + rest);
            if k >= 1 {
                assert(rest.subrange(k - 1, k - 1 + 9) =~= r.subrange(k, k + 9));
                lemma_replaced_holds_none(s, i + 1, k - 1);
            } else {
                lemma_replaced_prefix(s, i, 0);
                assert(s.subrange(i, i + 9) =~= u);
            }
        }
    }
}

/// After the replacement by `null` a text holds no `undefined`: none is
/// left and none has come about.
pub proof fn lemma_no_undefined_is_left(s: Seq<char>)
    ensures
        !contains(replaced(s, "undefined"@, "null"@), "undefined"@),
{
    let r = replaced(s, "undefined"@, "null"@);
    lemma_find_from(r, "undefined"@, 0);
    if let Some(k) = find_from(r, "undefined"@, 0) {
        lemma_replaced_holds_none(s, 0, k);
    }
}

/// The text that the extractor hands to the JSON reader holds no
/// `undefined`, whatever the page holds.
pub proof fn lemma_embedded_text_holds_no_undefined(
    html: Seq<char>,
    name: Seq<char>,
    marker: Seq<char>,
)
    ensures
        embedded_text(html, name, marker) matches Some(text) ==> !contains(text, "undefined"@),
{
    if let Some((s, m)) = locate_from(html, name, marker, 0) {
        lemma_no_undefined_is_left(trimmed(html.subrange(s, m), CharClass::Space));
    }
}

proof fn lemma_locate_skips(
    html: Seq<char>,
    name: Seq<char>,
    marker: Seq<char>,
    from: int,
    to: int,
)
    requires
        0 <= from <= to,
        forall|k: int| from <= k < to ==> !matches_at(html, name, k),
    ensures
        locate_from(html, name, marker, from) == locate_from(html, name, marker, to),
    decreases html.len() + 1 - from,
{
    if from < to && from <= html.len() {
        lemma_locate_skips(html, name, marker, from + 1, to);
    } else if from < to {
        assert(locate_from(html, name, marker, to) is None);
    }
}

/// Start and end of the value of the assignment that begins at `i`.
fn value_range(html: &[char], name: &[char], marker: &[char], i: usize) -> (r: Option<
    (usize, usize),
>)
    requires
        matches_at(html@, name@, i as int),
    ensures
        match r {
            Some((s, m)) => value_at(html@, name@, marker@, i as int) == Some((s as int, m as int))
                && s <= m <= html@.len(),
            None => value_at(html@, name@, marker@, i as int) is None,
        },
{
    let total = html.len();
    assert(i + name@.len() <= total);
    let a = skip_run(html, CharClass::Space, i + name.len());
    if a >= html.len() || html[a] != '=' {
        return None;
    }
    let s = skip_run(html, CharClass::Space, a + 1);
    match find(html, marker, s) {
        Some(m) => {
            proof {
                lemma_find_from(html@, marker@, s as int);
            }
            let line_end = skip_run(html, CharClass::Except('\n'), s);
            if line_end >= m {
                Some((s, m))
            } else {
                None
            }
        },
        None => None,
    }
}

/// The text that is read as JSON, taken from `html`.
pub fn embedded_chars(html: &[char], name: &[char], marker: &[char]) -> (r: Option<Vec<char>>)
    ensures
        match r {
            Some(t) => embedded_text(html@, name@, marker@) == Some(t@),
            None => embedded_text(html@, name@, marker@) is None,
        },
{
    let mut i: usize = 0;
    loop
        invariant
            i <= html@.len(),
            locate_from(html@, name@, marker@, 0) == locate_from(html@, name@, marker@, i as int),
        decreases html@.len() - i,
    {
        match find(html, name, i) {
            None => {
                proof {
                    lemma_find_from(html@, name@, i as int);
                    lemma_locate_skips(html@, name@, marker@, i as int, html@.len() as int + 1);
                }
                return None;
            },
            Some(p) => {
                proof {
                    lemma_find_from(html@, name@, i as int);
                    lemma_locate_skips(html@, name@, marker@, i as int, p as int);
                }
                match value_range(html, name, marker, p) {
                    Some((s, m)) => {
                        let value = slice_of(html, s, m);
                        let bare = trim(value.as_slice(), CharClass::Space);
                        let undefined = chars_of("undefined");
                        let null = chars_of("null");
                        return Some(
                            replace_all(bare.as_slice(), undefined.as_slice(), null.as_slice()),
                        );
                    },
                    None => {
                        if p >= html.len() {
                            assert(locate_from(html@, name@, marker@, p + 1) is None);
                            return None;
                        }
                        i = p + 1;
                    },
                }
            },
        }
    }
}

/// The JSON document that `html` assigns to `variable_name`, the value
/// closed by `marker`.
pub fn extract_with_marker(html: &str, variable_name: &str, marker: &str) -> (r: Result<
    Json,
    ResolutionError,
>)
    ensures
        match r {
            Ok(j) => extracted(html@, variable_name@, marker@) == Ok::<Json, ErrorView>(j),
            Err(e) => extracted(html@, variable_name@, marker@) == Err::<Json, ErrorView>(e@),
        },
{
    let page = chars_of(html);
    let name = chars_of(variable_name);
    let closing = chars_of(marker);
    match embedded_chars(page.as_slice(), name.as_slice(), closing.as_slice()) {
        Some(t) => {
            let text = string_of(t.as_slice());
            match Json::parse(text.as_str()) {
                Some(j) => Ok(j),
                None => {
                    let snippet = take_chars(t.as_slice(), SNIPPET_LENGTH);
                    Err(ResolutionError::MalformedEmbeddedState(string_of(snippet.as_slice())))
                },
            }
        },
        None => Err(ResolutionError::UpstreamFormatChanged),
    }
}

/// The text from the end of the first `opening` up to and including the
/// first character of the first `closing` after it.
pub open spec fn enclosed(html: Seq<char>, opening: Seq<char>, closing: Seq<char>) -> Option<
    Seq<char>,
> {
    match find_from(html, opening, 0) {
        Some(start) => match find_from(html, closing, start + opening.len()) {
            Some(end) => if closing.len() > 0 {
                Some(html.subrange(start + opening.len(), end + 1))
            } else {
                None
            },
            None => None,
        },
        None => None,
    }
}

/// The object literal that a page assigns after `opening`, where `closing`
/// begins with the brace that ends the literal.
pub fn enclosed_text(html: &str, opening: &str, closing: &str) -> (r: Option<String>)
    ensures
        crate::models::text_view(r) == enclosed(html@, opening@, closing@),
{
    let page = chars_of(html);
    let open = chars_of(opening);
    let close = chars_of(closing);
    let total = page.len();
    proof {
        lemma_find_from(page@, open@, 0);
    }
    let start = match find(page.as_slice(), open.as_slice(), 0) {
        Some(start) => start,
        None => {
            return None;
        },
    };
    assert(start + open@.len() <= total);
    let from = start + open.len();
    match find(page.as_slice(), close.as_slice(), from) {
        Some(end) => {
            proof {
                lemma_find_from(page@, close@, from as int);
            }
            if close.len() > 0 {
                assert(end + close@.len() <= total);
                let inner = slice_of(page.as_slice(), from, end + 1);
                Some(string_of(inner.as_slice()))
            } else {
                None
            }
        },
        None => None,
    }
}

/// The JSON document that `html` assigns to `variable_name` in an inline
/// script.
pub fn extract(html: &str, variable_name: &str) -> (r: Result<Json, ResolutionError>)
    ensures
        match r {
            Ok(j) => extracted(html@, variable_name@, SCRIPT_END@) == Ok::<Json, ErrorView>(j),
            Err(e) => extracted(html@, variable_name@, SCRIPT_END@) == Err::<Json, ErrorView>(e@),
        },
{
    extract_with_marker(html, variable_name, SCRIPT_END)
}

} // verus!
