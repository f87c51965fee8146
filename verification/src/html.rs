//! What the adapters read from the markup of a page.

use vstd::prelude::*;

use crate::models::text_view;

verus! {

/// The selector of the link element that names a page's canonical address.
pub const CANONICAL_LINK: &'static str = "link[rel='canonical']";

/// The value that the attribute `attribute` has on the first element of the
/// document `html` that the CSS selector `selector` selects.
pub uninterp spec fn html_attribute(
    html: Seq<char>,
    selector: Seq<char>,
    attribute: Seq<char>,
) -> Option<Seq<char>>;

/// Calls `Html::parse_document`, `Selector::parse`, `Html::select` and
/// `Element::attr` of the `scraper` crate. The contract names the value of
/// the attribute on the first selected element and claims that the result
/// is that value; `None` stands for a selector that is refused, for no
/// selected element and for an element without the attribute. Nothing is
/// claimed about what a document holds.
#[verifier::external_body]
fn select_attribute(html: &str, selector: &str, attribute: &str) -> (r: Option<String>)
    ensures
        text_view(r) == html_attribute(html@, selector@, attribute@),
{
    let document = scraper::Html::parse_document(html);
    let parsed = scraper::Selector::parse(selector).ok()?;
    let element = document.select(&parsed).next()?;
    element.value().attr(attribute).map(|value| value.to_string())
}

/// The address that the page `html` names as its canonical one.
pub open spec fn canonical_link(html: Seq<char>) -> Option<Seq<char>> {
    html_attribute(html, CANONICAL_LINK@, "href"@)
}

/// The address that the page `html` names as its canonical one.
pub fn get_canonical_from_html(html: &str) -> (r: Option<String>)
    ensures
        text_view(r) == canonical_link(html@),
{
    select_attribute(html, CANONICAL_LINK, "href")
}

} // verus!
