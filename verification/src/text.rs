//! Text as sequences of characters: searching, replacing, splitting and
//! trimming, each with its meaning stated over `Seq<char>`.

use vstd::prelude::*;

verus! {

/// `String::push` of std appends one character to the string.
pub assume_specification[ String::push ](s: &mut String, c: char)
    ensures
        final(s)@ == old(s)@.push(c),
;

/// The characters of `s`, in order.
pub fn chars_of(s: &str) -> (v: Vec<char>)
    ensures
        v@ == s@,
{
    let mut v: Vec<char> = Vec::new();
    for c in it: s.chars()
        invariant
            it.seq() == s@,
            v@ == s@.take(it.index() as int),
    {
        v.push(c);
    }
    v
}

/// The string made of the characters of `v`, in order.
pub fn string_of(v: &[char]) -> (s: String)
    ensures
        s@ == v@,
{
    let mut s = String::new();
    let mut i: usize = 0;
    while i < v.len()
        invariant
            i <= v.len(),
            s@ == v@.take(i as int),
        decreases v.len() - i,
    {
        s.push(v[i]);
        i += 1;
    }
    s
}

/// A set of characters that scanning and trimming go by.
#[derive(Clone, Copy, Debug)]
pub enum CharClass {
    /// White space as Unicode defines it.
    Space,
    /// The one character given.
    Only(char),
    /// Every character but the one given.
    Except(char),
    /// The characters a link in share text may hold: ASCII letters and
    /// digits and `. - _ / ? = & %`.
    UrlSafe,
    /// Every character but `&` and white space.
    ParamValue,
    /// Every character but `&`, `"` and white space.
    QuotedParamValue,
    /// The ASCII digits.
    Digit,
}

/// Whether `c` is white space: the characters with the Unicode property
/// `White_Space`.
pub open spec fn is_space(c: char) -> bool {
    let n = c as u32;
    ||| 0x9 <= n <= 0xd
    ||| n == 0x20
    ||| n == 0x85
    ||| n == 0xa0
    ||| n == 0x1680
    ||| 0x2000 <= n <= 0x200a
    ||| n == 0x2028
    ||| n == 0x2029
    ||| n == 0x202f
    ||| n == 0x205f
    ||| n == 0x3000
}

/// Whether `c` may stand in a link taken from share text.
pub open spec fn is_url_safe(c: char) -> bool {
    ||| 'a' <= c <= 'z'
    ||| 'A' <= c <= 'Z'
    ||| '0' <= c <= '9'
    ||| c == '.'
    ||| c == '-'
    ||| c == '_'
    ||| c == '/'
    ||| c == '?'
    ||| c == '='
    ||| c == '&'
    ||| c == '%'
}

impl CharClass {
    /// Whether `c` belongs to the class.
    pub open spec fn holds(self, c: char) -> bool {
        match self {
            CharClass::Space => is_space(c),
            CharClass::Only(x) => c == x,
            CharClass::Except(x) => c != x,
            CharClass::UrlSafe => is_url_safe(c),
            CharClass::ParamValue => c != '&' && !is_space(c),
            CharClass::QuotedParamValue => c != '&' && c != '"' && !is_space(c),
            CharClass::Digit => '0' <= c <= '9',
        }
    }

    /// Whether `c` belongs to the class.
    pub fn test(&self, c: char) -> (b: bool)
        ensures
            b == self.holds(c),
    {
        match self {
            CharClass::Space => space(c),
            CharClass::Only(x) => c == *x,
            CharClass::Except(x) => c != *x,
            CharClass::UrlSafe => {
                ('a' <= c && c <= 'z') || ('A' <= c && c <= 'Z') || ('0' <= c && c <= '9') || c
                    == '.' || c == '-' || c == '_' || c == '/' || c == '?' || c == '=' || c == '&'
                    || c == '%'
            },
            CharClass::ParamValue => c != '&' && !space(c),
            CharClass::QuotedParamValue => c != '&' && c != '"' && !space(c),
            CharClass::Digit => '0' <= c && c <= '9',
        }
    }
}

/// Whether `c` is white space.
pub fn space(c: char) -> (b: bool)
    ensures
        b == is_space(c),
{
    let n = c as u32;
    (0x9 <= n && n <= 0xd) || n == 0x20 || n == 0x85 || n == 0xa0 || n == 0x1680 || (0x2000 <= n
        && n <= 0x200a) || n == 0x2028 || n == 0x2029 || n == 0x202f || n == 0x205f || n == 0x3000
}

/// Whether `pat` stands in `s` at position `i`.
pub open spec fn matches_at(s: Seq<char>, pat: Seq<char>, i: int) -> bool {
    &&& 0 <= i
    &&& i + pat.len() <= s.len()
    &&& s.subrange(i, i + pat.len()) =~= pat
}

/// The first position at or after `from` at which `pat` stands in `s`.
pub open spec fn find_from(s: Seq<char>, pat: Seq<char>, from: int) -> Option<int>
    decreases s.len() - from,
{
    if from < 0 || from + pat.len() > s.len() {
        None
    } else if matches_at(s, pat, from) {
        Some(from)
    } else {
        find_from(s, pat, from + 1)
    }
}

/// Whether `pat` stands anywhere in `s`.
pub open spec fn contains(s: Seq<char>, pat: Seq<char>) -> bool {
    find_from(s, pat, 0) is Some
}

/// Whether `s` begins with `pat`.
pub open spec fn starts_with(s: Seq<char>, pat: Seq<char>) -> bool {
    matches_at(s, pat, 0)
}

/// What `find_from` finds is an occurrence, and no occurrence lies between
/// `from` and it; where it finds none, there is none at or after `from`.
pub proof fn lemma_find_from(s: Seq<char>, pat: Seq<char>, from: int)
    requires
        0 <= from,
    ensures
        match find_from(s, pat, from) {
            Some(i) => from <= i && matches_at(s, pat, i) && forall|k: int|
                from <= k < i ==> !matches_at(s, pat, k),
            None => forall|k: int| from <= k ==> !matches_at(s, pat, k),
        },
    decreases s.len() - from,
{
    if from + pat.len() > s.len() {
    } else if matches_at(s, pat, from) {
    } else {
        lemma_find_from(s, pat, from + 1);
    }
}

/// Whether `pat` stands in `s` at position `i`.
pub fn occurs_at(s: &[char], pat: &[char], i: usize) -> (b: bool)
    ensures
        b == matches_at(s@, pat@, i as int),
{
    if i > s.len() || pat.len() > s.len() - i {
        return false;
    }
    let mut k: usize = 0;
    while k < pat.len()
        invariant
            k <= pat.len(),
            i + pat.len() <= s.len(),
            forall|j: int| 0 <= j < k ==> s@[i + j] == pat@[j],
        decreases pat.len() - k,
    {
        if s[i + k] != pat[k] {
            assert(s@.subrange(i as int, i + pat@.len())[k as int] == s@[i + k]);
            return false;
        }
        k += 1;
    }
    true
}

/// The first position at or after `from` at which `pat` stands in `s`.
pub fn find(s: &[char], pat: &[char], from: usize) -> (r: Option<usize>)
    ensures
        match r {
            Some(i) => find_from(s@, pat@, from as int) == Some(i as int),
            None => find_from(s@, pat@, from as int) is None,
        },
{
    if from > s.len() || pat.len() > s.len() - from {
        return None;
    }
    let last = s.len() - pat.len();
    let mut i: usize = from;
    while i <= last
        invariant
            from <= i <= last + 1,
            last == s.len() - pat.len(),
            find_from(s@, pat@, from as int) == find_from(s@, pat@, i as int),
        decreases last + 1 - i,
    {
        if occurs_at(s, pat, i) {
            return Some(i);
        }
        i += 1;
    }
    None
}

/// Whether `pat` stands anywhere in `s`.
pub fn has(s: &[char], pat: &[char]) -> (b: bool)
    ensures
        b == contains(s@, pat@),
{
    find(s, pat, 0).is_some()
}

/// Whether `s` begins with `pat`.
pub fn begins_with(s: &[char], pat: &[char]) -> (b: bool)
    ensures
        b == starts_with(s@, pat@),
{
    occurs_at(s, pat, 0)
}

/// Whether the two texts are the same.
pub fn same(s: &[char], t: &[char]) -> (b: bool)
    ensures
        b == (s@ == t@),
{
    if s.len() != t.len() {
        return false;
    }
    let b = occurs_at(s, t, 0);
    assert(s@.subrange(0, s@.len() as int) =~= s@);
    b
}

/// The characters of `s` from position `from` up to, not including, `to`.
pub fn slice_of(s: &[char], from: usize, to: usize) -> (r: Vec<char>)
    requires
        from <= to <= s@.len(),
    ensures
        r@ == s@.subrange(from as int, to as int),
{
    let mut r: Vec<char> = Vec::new();
    let mut i: usize = from;
    while i < to
        invariant
            from <= i <= to <= s@.len(),
            r@ == s@.subrange(from as int, i as int),
        decreases to - i,
    {
        r.push(s[i]);
        i += 1;
        assert(r@ =~= s@.subrange(from as int, i as int));
    }
    assert(r@ =~= s@.subrange(from as int, to as int));
    r
}

/// Appends the characters of `more` to `out`.
pub fn append(out: &mut Vec<char>, more: &[char])
    ensures
        final(out)@ == old(out)@ + more@,
{
    let mut i: usize = 0;
    while i < more.len()
        invariant
            i <= more.len(),
            out@ == old(out)@ + more@.take(i as int),
        decreases more.len() - i,
    {
        out.push(more[i]);
        i += 1;
        assert(out@ =~= old(out)@ + more@.take(i as int));
    }
    assert(more@.take(more@.len() as int) =~= more@);
}

/// `a` followed by `b`.
pub fn joined(a: &[char], b: &[char]) -> (r: Vec<char>)
    ensures
        r@ == a@ + b@,
{
    let mut r: Vec<char> = Vec::new();
    append(&mut r, a);
    append(&mut r, b);
    assert(r@ =~= a@ + b@);
    r
}

/// `s` from position `i` on with every occurrence of `from` replaced by
/// `to`, the occurrences taken from the left and not overlapping. An empty
/// `from` occurs nowhere.
pub open spec fn replaced_from(s: Seq<char>, from: Seq<char>, to: Seq<char>, i: int) -> Seq<char>
    decreases s.len() - i,
{
    if i < 0 || i >= s.len() {
        Seq::empty()
    } else if from.len() > 0 && matches_at(s, from, i) {
        to + replaced_from(s, from, to, i + from.len())
    } else {
        seq![s[i]] + replaced_from(s, from, to, i + 1)
    }
}

/// `s` with every occurrence of `from` replaced by `to`.
pub open spec fn replaced(s: Seq<char>, from: Seq<char>, to: Seq<char>) -> Seq<char> {
    replaced_from(s, from, to, 0)
}

/// `s` with every occurrence of `from` replaced by `to`.
pub fn replace_all(s: &[char], from: &[char], to: &[char]) -> (r: Vec<char>)
    ensures
        r@ == replaced(s@, from@, to@),
{
    let mut r: Vec<char> = Vec::new();
    let mut i: usize = 0;
    while i < s.len()
        invariant
            i <= s.len(),
            r@ + replaced_from(s@, from@, to@, i as int) == replaced(s@, from@, to@),
        decreases s.len() - i,
    {
        let ghost before = r@;
        if from.len() > 0 && occurs_at(s, from, i) {
            append(&mut r, to);
            assert((before + to@) + replaced_from(s@, from@, to@, i + from@.len()) =~= before + (
            to@ + replaced_from(s@, from@, to@, i + from@.len())));
            i += from.len();
        } else {
            r.push(s[i]);
            assert(before.push(s@[i as int]) + replaced_from(s@, from@, to@, i + 1) =~= before + (
            seq![s@[i as int]] + replaced_from(s@, from@, to@, i + 1)));
            i += 1;
        }
    }
    assert(r@ + Seq::<char>::empty() =~= r@);
    r
}

/// The end of the run of characters of `class` that begins at `i`: the
/// first position at or after `i` whose character is outside the class, or
/// the length of `s`.
pub open spec fn run_end(s: Seq<char>, class: CharClass, i: int) -> int
    decreases s.len() - i,
{
    if i < 0 || i >= s.len() {
        s.len() as int
    } else if class.holds(s[i]) {
        run_end(s, class, i + 1)
    } else {
        i
    }
}

/// The start of the run of characters of `class` that ends at `e` and does
/// not reach below `low`.
pub open spec fn run_start(s: Seq<char>, class: CharClass, low: int, e: int) -> int
    decreases e,
{
    if e <= low || e <= 0 || e > s.len() {
        e
    } else if class.holds(s[e - 1]) {
        run_start(s, class, low, e - 1)
    } else {
        e
    }
}

pub proof fn lemma_run_end(s: Seq<char>, class: CharClass, i: int)
    requires
        0 <= i <= s.len(),
    ensures
        i <= run_end(s, class, i) <= s.len(),
        forall|k: int| i <= k < run_end(s, class, i) ==> class.holds(#[trigger] s[k]),
        run_end(s, class, i) < s.len() ==> !class.holds(s[run_end(s, class, i)]),
    decreases s.len() - i,
{
    if i < s.len() && class.holds(s[i]) {
        lemma_run_end(s, class, i + 1);
    }
}

pub proof fn lemma_run_start(s: Seq<char>, class: CharClass, low: int, e: int)
    requires
        0 <= low <= e <= s.len(),
    ensures
        low <= run_start(s, class, low, e) <= e,
        forall|k: int| run_start(s, class, low, e) <= k < e ==> class.holds(#[trigger] s[k]),
        run_start(s, class, low, e) > low ==> !class.holds(s[run_start(s, class, low, e) - 1]),
    decreases e,
{
    if e > low && class.holds(s[e - 1]) {
        lemma_run_start(s, class, low, e - 1);
    }
}

/// The end of the run of characters of `class` that begins at `i`.
pub fn skip_run(s: &[char], class: CharClass, i: usize) -> (e: usize)
    requires
        i <= s@.len(),
    ensures
        e == run_end(s@, class, i as int),
        i <= e <= s@.len(),
{
    let mut e: usize = i;
    while e < s.len() && class.test(s[e])
        invariant
            i <= e <= s@.len(),
            run_end(s@, class, i as int) == run_end(s@, class, e as int),
        decreases s@.len() - e,
    {
        e += 1;
    }
    e
}

/// The start of the run of characters of `class` that ends at `e`, not
/// reaching below `low`.
pub fn skip_run_back(s: &[char], class: CharClass, low: usize, e: usize) -> (b: usize)
    requires
        low <= e <= s@.len(),
    ensures
        b == run_start(s@, class, low as int, e as int),
        low <= b <= e,
{
    let mut b: usize = e;
    while b > low && class.test(s[b - 1])
        invariant
            low <= b <= e <= s@.len(),
            run_start(s@, class, low as int, e as int) == run_start(s@, class, low as int, b as int),
        decreases b,
    {
        b -= 1;
    }
    b
}

/// `s` without the characters of `class` at its start and its end.
pub open spec fn trimmed(s: Seq<char>, class: CharClass) -> Seq<char> {
    let a = run_end(s, class, 0);
    let b = run_start(s, class, a, s.len() as int);
    s.subrange(a, b)
}

/// `s` without the characters of `class` at its end.
pub open spec fn trimmed_end(s: Seq<char>, class: CharClass) -> Seq<char> {
    s.subrange(0, run_start(s, class, 0, s.len() as int))
}

/// `s` without the characters of `class` at its start and its end.
pub fn trim(s: &[char], class: CharClass) -> (r: Vec<char>)
    ensures
        r@ == trimmed(s@, class),
{
    let a = skip_run(s, class, 0);
    let b = skip_run_back(s, class, a, s.len());
    slice_of(s, a, b)
}

/// `s` without the characters of `class` at its end.
pub fn trim_end(s: &[char], class: CharClass) -> (r: Vec<char>)
    ensures
        r@ == trimmed_end(s@, class),
{
    let b = skip_run_back(s, class, 0, s.len());
    slice_of(s, 0, b)
}

/// The pieces of `s` from position `start` on, cut at every `sep`.
pub open spec fn split_from(s: Seq<char>, sep: char, start: int) -> Seq<Seq<char>>
    decreases s.len() - start,
{
    if start < 0 || start > s.len() {
        Seq::empty()
    } else {
        let e = run_end(s, CharClass::Except(sep), start);
        if e >= s.len() || e < start {
            seq![s.subrange(start, s.len() as int)]
        } else {
            seq![s.subrange(start, e)] + split_from(s, sep, e + 1)
        }
    }
}

/// The pieces of `s` cut at every `sep`; there is always at least one, and
/// a piece may be empty.
pub open spec fn split(s: Seq<char>, sep: char) -> Seq<Seq<char>> {
    split_from(s, sep, 0)
}

/// The pieces of `s` cut at every `sep`.
pub fn split_at_char(s: &[char], sep: char) -> (pieces: Vec<Vec<char>>)
    ensures
        pieces@.len() == split(s@, sep).len(),
        forall|i: int| 0 <= i < pieces@.len() ==> (#[trigger] pieces@[i])@ == split(s@, sep)[i],
        pieces@.len() >= 1,
{
    let mut pieces: Vec<Vec<char>> = Vec::new();
    let mut start: usize = 0;
    let ghost mut done: Seq<Seq<char>> = Seq::empty();
    loop
        invariant
            start <= s@.len(),
            done.len() == pieces@.len(),
            forall|i: int| 0 <= i < pieces@.len() ==> (#[trigger] pieces@[i])@ == done[i],
            done + split_from(s@, sep, start as int) == split(s@, sep),
        decreases s@.len() - start,
    {
        let e = skip_run(s, CharClass::Except(sep), start);
        let piece = slice_of(s, start, e);
        pieces.push(piece);
        if e >= s.len() {
            proof {
                done = done.push(s@.subrange(start as int, s@.len() as int));
                assert(done =~= split(s@, sep));
            }
            return pieces;
        }
        proof {
            let rest = split_from(s@, sep, e + 1);
            assert(done.push(s@.subrange(start as int, e as int)) + rest =~= done + (
            seq![s@.subrange(start as int, e as int)] + rest));
            done = done.push(s@.subrange(start as int, e as int));
        }
        start = e + 1;
    }
}

/// The first `n` characters of `s`, or all of `s` where it is shorter.
pub open spec fn prefix(s: Seq<char>, n: int) -> Seq<char> {
    if n >= s.len() {
        s
    } else if n <= 0 {
        Seq::empty()
    } else {
        s.take(n)
    }
}

/// The first `n` characters of `s`, or all of `s` where it is shorter.
pub fn take_chars(s: &[char], n: usize) -> (r: Vec<char>)
    ensures
        r@ == prefix(s@, n as int),
{
    let end = if n >= s.len() {
        s.len()
    } else {
        n
    };
    let r = slice_of(s, 0, end);
    assert(s@.subrange(0, s@.len() as int) =~= s@);
    assert(s@.subrange(0, 0) =~= Seq::<char>::empty());
    r
}


/// The run of characters of `class` that follows `tag`, at the first
/// position at or after `i` where `tag` stands with such a run, not empty,
/// after it.
pub open spec fn tagged_run_from(s: Seq<char>, tag: Seq<char>, class: CharClass, i: int) -> Option<
    Seq<char>,
>
    decreases s.len() - i,
{
    if i < 0 || i >= s.len() {
        None
    } else if matches_at(s, tag, i) && run_end(s, class, i + tag.len()) > i + tag.len() {
        Some(s.subrange(i + tag.len(), run_end(s, class, i + tag.len())))
    } else {
        tagged_run_from(s, tag, class, i + 1)
    }
}

/// The run of characters of `class` that follows the first `tag` in `s`
/// that has one.
pub open spec fn tagged_run(s: Seq<char>, tag: Seq<char>, class: CharClass) -> Option<Seq<char>> {
    tagged_run_from(s, tag, class, 0)
}

/// The run of characters of `class` that follows the first `tag` in `s`
/// that has one.
pub fn find_tagged_run(s: &[char], tag: &[char], class: CharClass) -> (r: Option<Vec<char>>)
    ensures
        match r {
            Some(run) => tagged_run(s@, tag@, class) == Some(run@),
            None => tagged_run(s@, tag@, class) is None,
        },
{
    let mut i: usize = 0;
    while i < s.len()
        invariant
            i <= s@.len(),
            tagged_run(s@, tag@, class) == tagged_run_from(s@, tag@, class, i as int),
        decreases s@.len() - i,
    {
        if occurs_at(s, tag, i) {
            let start = i + tag.len();
            let e = skip_run(s, class, start);
            if e > start {
                return Some(slice_of(s, start, e));
            }
        }
        i += 1;
    }
    None
}

/// `s` from position `i` on without its tags: every stretch from a `<` to
/// the next `>` is left out; a `<` that no `>` follows stays.
pub open spec fn stripped_from(s: Seq<char>, i: int) -> Seq<char>
    decreases s.len() - i,
{
    if i < 0 || i >= s.len() {
        Seq::empty()
    } else if s[i] == '<' && i < run_end(s, CharClass::Except('>'), i + 1) < s.len() {
        stripped_from(s, run_end(s, CharClass::Except('>'), i + 1) + 1)
    } else {
        seq![s[i]] + stripped_from(s, i + 1)
    }
}

/// `s` without its tags.
pub open spec fn without_tags(s: Seq<char>) -> Seq<char> {
    stripped_from(s, 0)
}

/// `s` without its tags.
pub fn strip_tags(s: &[char]) -> (r: Vec<char>)
    ensures
        r@ == without_tags(s@),
{
    let mut r: Vec<char> = Vec::new();
    let mut i: usize = 0;
    while i < s.len()
        invariant
            i <= s@.len(),
            r@ + stripped_from(s@, i as int) == without_tags(s@),
        decreases s@.len() - i,
    {
        let ghost before = r@;
        let mut skipped = false;
        if s[i] == '<' {
            let e = skip_run(s, CharClass::Except('>'), i + 1);
            if e < s.len() {
                i = e + 1;
                skipped = true;
            }
        }
        if !skipped {
            r.push(s[i]);
            assert(before.push(s@[i as int]) + stripped_from(s@, i + 1) =~= before + (seq![
                s@[i as int],
            ] + stripped_from(s@, i + 1)));
            i += 1;
        }
    }
    assert(r@ + Seq::<char>::empty() =~= r@);
    r
}

/// `s` without `pat` at its start, where it begins with it.
pub open spec fn without_prefix(s: Seq<char>, pat: Seq<char>) -> Seq<char> {
    if starts_with(s, pat) {
        s.subrange(pat.len() as int, s.len() as int)
    } else {
        s
    }
}

/// `s` without `pat` at its start, where it begins with it.
pub fn strip_prefix(s: &[char], pat: &[char]) -> (r: Vec<char>)
    ensures
        r@ == without_prefix(s@, pat@),
{
    if begins_with(s, pat) {
        slice_of(s, pat.len(), s.len())
    } else {
        let r = slice_of(s, 0, s.len());
        assert(s@.subrange(0, s@.len() as int) =~= s@);
        r
    }
}

/// Whether `s` ends with `pat`.
pub open spec fn ends_with(s: Seq<char>, pat: Seq<char>) -> bool {
    matches_at(s, pat, s.len() - pat.len())
}

/// Whether `s` ends with `pat`.
pub fn finishes_with(s: &[char], pat: &[char]) -> (b: bool)
    ensures
        b == ends_with(s@, pat@),
{
    if pat.len() > s.len() {
        return false;
    }
    occurs_at(s, pat, s.len() - pat.len())
}

/// Whether every character of `s` belongs to `class`.
pub open spec fn all_of(s: Seq<char>, class: CharClass) -> bool {
    run_end(s, class, 0) >= s.len()
}

/// Whether every character of `s` belongs to `class`.
pub fn only(s: &[char], class: CharClass) -> (b: bool)
    ensures
        b == all_of(s@, class),
{
    skip_run(s, class, 0) >= s.len()
}

/// Whether `pat` stands anywhere in `s`.
pub fn str_contains(s: &str, pat: &str) -> (b: bool)
    ensures
        b == contains(s@, pat@),
{
    let text = chars_of(s);
    let wanted = chars_of(pat);
    has(text.as_slice(), wanted.as_slice())
}

/// Whether `s` begins with `pat`.
pub fn str_starts_with(s: &str, pat: &str) -> (b: bool)
    ensures
        b == starts_with(s@, pat@),
{
    let text = chars_of(s);
    let wanted = chars_of(pat);
    begins_with(text.as_slice(), wanted.as_slice())
}

/// `s` with every occurrence of `from` replaced by `to`.
pub fn str_replace(s: &str, from: &str, to: &str) -> (r: String)
    ensures
        r@ == replaced(s@, from@, to@),
{
    let text = chars_of(s);
    let old = chars_of(from);
    let new = chars_of(to);
    let out = replace_all(text.as_slice(), old.as_slice(), new.as_slice());
    string_of(out.as_slice())
}

/// Appends the characters of `s` to `out`.
pub fn append_str(out: &mut Vec<char>, s: &str)
    ensures
        final(out)@ == old(out)@ + s@,
{
    let more = chars_of(s);
    append(out, more.as_slice());
}

/// `a` followed by `b`.
pub fn str_concat(a: &str, b: &str) -> (r: String)
    ensures
        r@ == a@ + b@,
{
    let head = chars_of(a);
    let tail = chars_of(b);
    let out = joined(head.as_slice(), tail.as_slice());
    string_of(out.as_slice())
}

} // verus!
