//! Helpers shared by the platform adapters: the link in a share text, random
//! tokens and decimal numbers.

use rand::Rng;
use vstd::prelude::*;

use crate::text::{
    all_of, append, chars_of, matches_at, occurs_at, only, run_end, skip_run, slice_of, string_of,
    CharClass,
};

verus! {

/// The `User-Agent` that requests carry unless a platform asks for another.
pub const DEFAULT_USER_AGENT: &'static str =
    "Mozilla/5.0 (iPhone; CPU iPhone OS 16_0 like Mac OS X) AppleWebKit/605.1.15 (KHTML, like Gecko) Version/16.0 Mobile/15E148 Safari/604.1";

/// The characters that random tokens are drawn from.
pub const LETTERS: &'static str = "0123456789abcdefghijklmnopqrstuvwxyzABCDEFGHIJKLMNOPQRSTUVWXYZ";

/// Whether a text is a numeric content identifier: one or more decimal
/// digits and nothing else.
pub open spec fn is_numeric_id(id: Seq<char>) -> bool {
    id.len() > 0 && all_of(id, CharClass::Digit)
}

/// Whether `id` is a numeric content identifier.
pub fn numeric_id(id: &[char]) -> (b: bool)
    ensures
        b == is_numeric_id(id@),
{
    id.len() > 0 && only(id, CharClass::Digit)
}

/// The length of the scheme that stands in `s` at position `i`: 8 for
/// `https://`, 7 for `http://`.
pub open spec fn scheme_len_at(s: Seq<char>, i: int) -> Option<int> {
    if matches_at(s, "https://"@, i) {
        Some(8)
    } else if matches_at(s, "http://"@, i) {
        Some(7)
    } else {
        None
    }
}

/// The link that begins at position `i` of `s`: a scheme and the longest
/// run of link characters after it, which is not empty.
pub open spec fn url_at(s: Seq<char>, i: int) -> Option<Seq<char>> {
    match scheme_len_at(s, i) {
        Some(n) => {
            let e = run_end(s, CharClass::UrlSafe, i + n);
            if e > i + n {
                Some(s.subrange(i, e))
            } else {
                None
            }
        },
        None => None,
    }
}

/// The link that begins at the first position at or after `i` at which one
/// begins.
pub open spec fn first_url_from(s: Seq<char>, i: int) -> Option<Seq<char>>
    decreases s.len() - i,
{
    if i < 0 || i >= s.len() {
        None
    } else {
        match url_at(s, i) {
            Some(u) => Some(u),
            None => first_url_from(s, i + 1),
        }
    }
}

/// The first link in `s`.
pub open spec fn first_url(s: Seq<char>) -> Option<Seq<char>> {
    first_url_from(s, 0)
}

/// A link as share texts hold it: `http://` or `https://` and then one or
/// more link characters, nothing else.
pub open spec fn is_well_formed_url(u: Seq<char>) -> bool {
    match scheme_len_at(u, 0) {
        Some(n) => u.len() > n && forall|k: int| n <= k < u.len() ==> CharClass::UrlSafe.holds(#[trigger] u[k]),
        None => false,
    }
}

/// The first link in `chars`.
pub fn find_url(chars: &[char]) -> (r: Option<Vec<char>>)
    ensures
        match r {
            Some(u) => first_url(chars@) == Some(u@),
            None => first_url(chars@) is None,
        },
{
    let secure = chars_of("https://");
    let open = chars_of("http://");
    proof {
        reveal_strlit("https://");
        reveal_strlit("http://");
    }
    let mut i: usize = 0;
    while i < chars.len()
        invariant
            i <= chars@.len(),
            secure@ == "https://"@,
            open@ == "http://"@,
            secure@.len() == 8,
            open@.len() == 7,
            first_url(chars@) == first_url_from(chars@, i as int),
        decreases chars@.len() - i,
    {
        let n: usize = if occurs_at(chars, secure.as_slice(), i) {
            8
        } else if occurs_at(chars, open.as_slice(), i) {
            7
        } else {
            0
        };
        if n > 0 {
            let e = skip_run(chars, CharClass::UrlSafe, i + n);
            if e > i + n {
                return Some(slice_of(chars, i, e));
            }
        }
        i += 1;
    }
    None
}

/// The first link in a share text: `http://` or `https://` followed by link
/// characters, wherever in the text it stands.
pub fn regexp_match_url_from_string(share_msg: &str) -> (r: Option<String>)
    ensures
        match r {
            Some(u) => first_url(share_msg@) == Some(u@),
            None => first_url(share_msg@) is None,
        },
{
    let chars = chars_of(share_msg);
    match find_url(chars.as_slice()) {
        Some(u) => Some(string_of(u.as_slice())),
        None => None,
    }
}

/// The link to resolve: the first link in the share text, or the whole text
/// where it holds none.
pub open spec fn share_link(raw: Seq<char>) -> Seq<char> {
    match first_url(raw) {
        Some(u) => u,
        None => raw,
    }
}

/// The link to resolve: the first link in `raw`, or `raw` itself.
pub fn link_of(raw: &str) -> (r: String)
    ensures
        r@ == share_link(raw@),
{
    match regexp_match_url_from_string(raw) {
        Some(u) => u,
        None => raw.to_owned(),
    }
}

proof fn lemma_first_url_skips(s: Seq<char>, from: int, to: int)
    requires
        0 <= from <= to <= s.len(),
        forall|i: int| from <= i < to ==> url_at(s, i) is None,
    ensures
        first_url_from(s, from) == first_url_from(s, to),
    decreases to - from,
{
    if from < to {
        lemma_first_url_skips(s, from + 1, to);
    }
}

proof fn lemma_run_end_exact(s: Seq<char>, class: CharClass, i: int, e: int)
    requires
        0 <= i <= e <= s.len(),
        forall|k: int| i <= k < e ==> class.holds(#[trigger] s[k]),
        e == s.len() || !class.holds(s[e]),
    ensures
        run_end(s, class, i) == e,
    decreases e - i,
{
    if i < e {
        lemma_run_end_exact(s, class, i + 1, e);
    }
}

/// A share text that holds one well-formed link between two stretches of
/// prose gives exactly that link: where no link begins in the prose before
/// it, and the prose after it is empty or begins with a character that no
/// link holds.
pub proof fn lemma_single_url_is_extracted(before: Seq<char>, url: Seq<char>, after: Seq<char>)
    requires
        is_well_formed_url(url),
        forall|i: int| 0 <= i < before.len() ==> url_at(before + url + after, i) is None,
        after.len() == 0 || !CharClass::UrlSafe.holds(after[0]),
    ensures
        first_url(before + url + after) == Some(url),
{
    let s = before + url + after;
    let b = before.len() as int;
    let n = scheme_len_at(url, 0)->Some_0;
    reveal_strlit("https://");
    reveal_strlit("http://");
    lemma_first_url_skips(s, 0, b);
    assert(s.subrange(b, b + url.len()) =~= url);
    if n == 8 {
        assert(s.subrange(b, b + 8) =~= url.subrange(0, 8));
    } else {
        assert(s.subrange(b, b + 7) =~= url.subrange(0, 7));
        if matches_at(s, "https://"@, b) {
            assert(s.subrange(b, b + 8) =~= url.subrange(0, 8));
        }
    }
    assert(scheme_len_at(s, b) == Some(n));
    assert forall|k: int| b + n <= k < b + url.len() implies CharClass::UrlSafe.holds(
        #[trigger] s[k],
    ) by {
        assert(s[k] == url[k - b]);
    }
    if after.len() > 0 {
        assert(s[b + url.len()] == after[0]);
    }
    lemma_run_end_exact(s, CharClass::UrlSafe, b + n, b + url.len());
}

/// Calls `thread_rng` and `Rng::gen_range` of the `rand` crate on the range
/// from 0 up to, not including, `bound`. The contract claims that the value
/// lies in that range, and asks for a range that is not empty, on which
/// `gen_range` would panic.
#[verifier::external_body]
fn random_below(bound: u64) -> (r: u64)
    requires
        bound > 0,
    ensures
        r < bound,
{
    rand::thread_rng().gen_range(0..bound)
}

/// Whether `c` is one of the characters that random tokens are drawn from.
pub open spec fn is_letter(c: char) -> bool {
    exists|k: int| 0 <= k < LETTERS@.len() && LETTERS@[k] == c
}

/// A random token of `n` characters, each drawn from `LETTERS`.
pub fn rand_seq(n: usize) -> (s: String)
    ensures
        s@.len() == n,
        forall|i: int| 0 <= i < n ==> is_letter(#[trigger] s@[i]),
{
    let letters = chars_of(LETTERS);
    proof {
        reveal_strlit("0123456789abcdefghijklmnopqrstuvwxyzABCDEFGHIJKLMNOPQRSTUVWXYZ");
    }
    let mut s = String::new();
    let mut i: usize = 0;
    while i < n
        invariant
            i <= n,
            letters@ == LETTERS@,
            letters@.len() == 62,
            s@.len() == i,
            forall|j: int| 0 <= j < i ==> is_letter(#[trigger] s@[j]),
        decreases n - i,
    {
        let idx = random_below(62) as usize;
        s.push(letters[idx]);
        i += 1;
    }
    s
}

/// 10 to the power `n`.
pub open spec fn pow10(n: nat) -> nat
    decreases n,
{
    if n == 0 {
        1
    } else {
        10 * pow10((n - 1) as nat)
    }
}

/// The character of a decimal digit.
pub open spec fn digit_char(d: int) -> char {
    ((48 + d) as u8) as char
}

/// The decimal digits of `v`, without leading zeros.
pub open spec fn decimal_digits(v: nat) -> Seq<char>
    decreases v,
{
    if v < 10 {
        seq![digit_char(v as int)]
    } else {
        decimal_digits(v / 10).push(digit_char((v % 10) as int))
    }
}

/// The decimal digits of `v`, with zeros before them up to `width`
/// characters; longer than `width` where `v` has more digits.
pub open spec fn zero_padded(v: nat, width: nat) -> Seq<char> {
    let digits = decimal_digits(v);
    let zeros: nat = if width > digits.len() {
        (width - digits.len()) as nat
    } else {
        0
    };
    Seq::new(zeros, |i: int| '0') + digits
}

/// The decimal text of an integer, with `-` before a negative one.
pub open spec fn decimal_text(v: int) -> Seq<char> {
    if v < 0 {
        seq!['-'] + decimal_digits((-v) as nat)
    } else {
        decimal_digits(v as nat)
    }
}

pub proof fn lemma_decimal_digits_len(v: nat, n: nat)
    requires
        v < pow10(n),
        n >= 1,
    ensures
        1 <= decimal_digits(v).len() <= n,
    decreases v,
{
    if v >= 10 {
        assert(pow10(n) == 10 * pow10((n - 1) as nat));
        assert(pow10(1) == 10) by {
            assert(pow10(0) == 1);
        }
        assert(n >= 2);
        lemma_decimal_digits_len(v / 10, (n - 1) as nat);
    }
}

/// The decimal digits of `v`.
pub fn decimal(v: u64) -> (r: Vec<char>)
    ensures
        r@ == decimal_digits(v as nat),
    decreases v,
{
    let d = (48 + (v % 10)) as u8;
    if v < 10 {
        let mut r: Vec<char> = Vec::new();
        r.push(d as char);
        assert(r@ =~= seq![digit_char(v as int)]);
        r
    } else {
        let mut r = decimal(v / 10);
        r.push(d as char);
        r
    }
}

/// The decimal text of `v`.
pub fn decimal_string(v: i64) -> (r: String)
    ensures
        r@ == decimal_text(v as int),
{
    if v < 0 {
        let magnitude: u64 = if v == i64::MIN {
            0x8000_0000_0000_0000
        } else {
            (-v) as u64
        };
        let mut out: Vec<char> = Vec::new();
        out.push('-');
        let digits = decimal(magnitude);
        append(&mut out, digits.as_slice());
        assert(out@ =~= seq!['-'] + digits@);
        string_of(out.as_slice())
    } else {
        let digits = decimal(v as u64);
        string_of(digits.as_slice())
    }
}

/// The decimal digits of `v` after as many zeros as make `width` characters.
pub fn zero_padded_decimal(v: u64, width: usize) -> (r: String)
    ensures
        r@ == zero_padded(v as nat, width as nat),
{
    let digits = decimal(v);
    let mut out: Vec<char> = Vec::new();
    let mut i: usize = digits.len();
    while i < width
        invariant
            i >= digits@.len(),
            i <= width || i == digits@.len(),
            out@ == Seq::new((i - digits@.len()) as nat, |k: int| '0'),
        decreases width - i,
    {
        out.push('0');
        i += 1;
        assert(out@ =~= Seq::new((i - digits@.len()) as nat, |k: int| '0'));
    }
    append(&mut out, digits.as_slice());
    assert(out@ =~= zero_padded(v as nat, width as nat));
    string_of(out.as_slice())
}

/// A random number of `length` decimal digits, leading zeros included. No
/// number of more than 19 digits fits the machine's integers.
pub fn generate_fixed_length_numeric_id(length: usize) -> (s: String)
    requires
        length <= 19,
    ensures
        exists|v: nat| v < pow10(length as nat) && s@ == zero_padded(v, length as nat),
        length >= 1 ==> s@.len() == length,
{
    let mut max: u64 = 1;
    let mut i: usize = 0;
    while i < length
        invariant
            i <= length <= 19,
            max == pow10(i as nat),
        decreases length - i,
    {
        proof {
            lemma_pow10_monotonic((i + 1) as nat, 19);
            lemma_pow10_19();
        }
        max = max * 10;
        i += 1;
    }
    proof {
        lemma_pow10_monotonic(length as nat, 19);
    }
    let random_num = random_below(max);
    proof {
        if length >= 1 {
            lemma_decimal_digits_len(random_num as nat, length as nat);
        }
    }
    zero_padded_decimal(random_num, length)
}

proof fn lemma_pow10_monotonic(a: nat, b: nat)
    requires
        a <= b,
    ensures
        pow10(a) <= pow10(b),
        pow10(a) >= 1,
    decreases b,
{
    if a < b {
        lemma_pow10_monotonic(a, (b - 1) as nat);
    } else if a > 0 {
        lemma_pow10_monotonic((a - 1) as nat, (b - 1) as nat);
    }
}

proof fn lemma_pow10_19()
    ensures
        pow10(19) == 10000000000000000000,
{
    reveal_with_fuel(pow10, 20);
}

} // verus!
