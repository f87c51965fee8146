//! Links taken apart: host, path and query of a URL, and pieces of a path.

use vstd::prelude::*;

use crate::text::{chars_of, split, split_at_char};

verus! {

/// The parts of a URL that the adapters read.
#[derive(Debug, Clone, PartialEq, Eq)]
pub struct UrlParts {
    /// The host, where the URL has one.
    pub host: Option<String>,
    /// The path, as it stands in the URL.
    pub path: String,
    /// The pairs of the query, decoded, in their order.
    pub query: Vec<(String, String)>,
}

/// The parts of a text that is an absolute URL.
pub uninterp spec fn url_parse(text: Seq<char>) -> Option<UrlParts>;

/// Calls `Url::parse` of the `url` crate and copies out what `host_str`,
/// `path` and `query_pairs` give. The contract names the parts of the text
/// and claims that the result is those parts, `None` where the text is
/// refused; nothing is claimed about which texts are URLs or what their
/// parts are.
#[verifier::external_body]
fn split_url(text: &str) -> (r: Option<UrlParts>)
    ensures
        r == url_parse(text@),
{
    match url::Url::parse(text) {
        Ok(u) => Some(
            UrlParts {
                host: u.host_str().map(|h| h.to_string()),
                path: u.path().to_string(),
                query: u.query_pairs().map(|(k, v)| (k.into_owned(), v.into_owned())).collect(),
            },
        ),
        Err(_) => None,
    }
}

/// The value of the first pair at or after position `i` whose key is `key`.
pub open spec fn pair_value(pairs: Seq<(String, String)>, key: Seq<char>, i: int) -> Option<
    Seq<char>,
>
    decreases pairs.len() - i,
{
    if i < 0 || i >= pairs.len() {
        None
    } else if pairs[i].0@ == key {
        Some(pairs[i].1@)
    } else {
        pair_value(pairs, key, i + 1)
    }
}

/// The last of the pieces of `s` cut at every `sep`.
pub open spec fn last_piece(s: Seq<char>, sep: char) -> Seq<char> {
    split(s, sep).last()
}

impl UrlParts {
    /// The parts of `text`, where it is an absolute URL.
    pub fn parse(text: &str) -> (r: Option<UrlParts>)
        ensures
            r == url_parse(text@),
    {
        split_url(text)
    }

    /// The host, or the empty text where there is none.
    pub open spec fn host_text(self) -> Seq<char> {
        match self.host {
            Some(h) => h@,
            None => Seq::empty(),
        }
    }

    /// The value of the first pair of the query whose key is `key`.
    pub open spec fn query_value(self, key: Seq<char>) -> Option<Seq<char>> {
        pair_value(self.query@, key, 0)
    }

    /// The host, or the empty text where there is none.
    pub fn host_chars(&self) -> (r: Vec<char>)
        ensures
            r@ == self.host_text(),
    {
        match &self.host {
            Some(h) => chars_of(h.as_str()),
            None => Vec::new(),
        }
    }

    /// The value of the first pair of the query whose key is `key`.
    pub fn query(&self, key: &str) -> (r: Option<String>)
        ensures
            match r {
                Some(v) => self.query_value(key@) == Some(v@),
                None => self.query_value(key@) is None,
            },
    {
        let wanted = key.to_owned();
        let mut i: usize = 0;
        while i < self.query.len()
            invariant
                i <= self.query@.len(),
                wanted@ == key@,
                self.query_value(key@) == pair_value(self.query@, key@, i as int),
            decreases self.query@.len() - i,
        {
            if self.query[i].0 == wanted {
                return Some(self.query[i].1.clone());
            }
            i += 1;
        }
        None
    }
}

/// The last of the pieces of `s` cut at every `sep`.
pub fn last_piece_of(s: &[char], sep: char) -> (r: Vec<char>)
    ensures
        r@ == last_piece(s@, sep),
{
    let mut pieces = split_at_char(s, sep);
    let n = pieces.len();
    pieces.swap_remove(n - 1)
}

} // verus!
