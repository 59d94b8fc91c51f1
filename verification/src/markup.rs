//! Reading values out of HTML, done by the `scraper` and `html_escape` crates.

use vstd::prelude::*;
use vstd::string::*;
use crate::pattern::group_view;

verus! {

/// The longest page, in characters, that is handed to the parser. The
/// parser keeps text in buffers of at most `u32::MAX` bytes and fails beyond
/// that; this bound leaves room for four bytes to a character and for text
/// that grows threefold while it is parsed.
pub const MAX_PAGE_CHARS: usize = 0x0800_0000;

/// `page` is short enough for the parser.
pub open spec fn fits_parser(page: Seq<char>) -> bool {
    page.len() <= MAX_PAGE_CHARS
}

/// Whether `page` is short enough for the parser.
pub fn page_fits(page: &str) -> (r: bool)
    ensures
        r == fits_parser(page@),
{
    page.unicode_len() <= MAX_PAGE_CHARS
}

/// The inner HTML of the first element of `page` that `selector` selects, as
/// `scraper` parses the page as a fragment; `None` where `selector` is no
/// valid selector or selects nothing.
pub uninterp spec fn selected_inner_html(page: Seq<char>, selector: Seq<char>) -> Option<Seq<char>>;

/// The value of attribute `name` on the first element of `page` that
/// `selector` selects; `None` where `selector` is no valid selector, selects
/// nothing, or that element has no such attribute.
pub uninterp spec fn selected_attribute(page: Seq<char>, selector: Seq<char>, name: Seq<char>) -> Option<Seq<char>>;

/// The values of attribute `name` on the elements that `inner` selects
/// within the first element of `page` that `outer` selects, in document
/// order, `None` for an element without the attribute; `None` as a whole
/// where a selector is not valid or `outer` selects nothing.
pub uninterp spec fn nested_attributes(
    page: Seq<char>,
    outer: Seq<char>,
    inner: Seq<char>,
    name: Seq<char>,
) -> Option<Seq<Option<Seq<char>>>>;

/// The values as sequences of characters.
pub open spec fn values_view(values: Seq<Option<String>>) -> Seq<Option<Seq<char>>> {
    Seq::new(values.len(), |i: int| group_view(values[i]))
}

/// `text` with its HTML character references replaced, as `html_escape` does.
pub uninterp spec fn entities_decoded(text: Seq<char>) -> Seq<char>;

/// Calls `scraper::Selector::parse`, `Html::parse_fragment`, `Html::select`
/// and `ElementRef::inner_html`. Trusted: on a page within the parser's
/// bound the calls return, and the result is what `selected_inner_html`
/// names.
#[verifier::external_body]
pub(crate) fn select_inner_html(page: &str, selector: &str) -> (r: Option<String>)
    requires
        fits_parser(page@),
    ensures
        match r {
            Some(s) => selected_inner_html(page@, selector@) == Some(s@),
            None => selected_inner_html(page@, selector@) is None,
        },
{
    let selector = scraper::Selector::parse(selector).ok()?;
    let document = scraper::Html::parse_fragment(page);
    let element = document.select(&selector).next()?;
    Some(element.inner_html())
}

/// Calls `scraper::Selector::parse`, `Html::parse_fragment`, `Html::select`
/// and `Element::attr`. Trusted: on a page within the parser's bound the
/// calls return, and the result is what `selected_attribute` names.
#[verifier::external_body]
pub(crate) fn select_attribute(page: &str, selector: &str, name: &str) -> (r: Option<String>)
    requires
        fits_parser(page@),
    ensures
        match r {
            Some(s) => selected_attribute(page@, selector@, name@) == Some(s@),
            None => selected_attribute(page@, selector@, name@) is None,
        },
{
    let selector = scraper::Selector::parse(selector).ok()?;
    let document = scraper::Html::parse_fragment(page);
    let element = document.select(&selector).next()?;
    element.value().attr(name).map(|v| v.to_owned())
}

/// Calls `scraper::Selector::parse`, `Html::parse_fragment`, `Html::select`,
/// `ElementRef::select` and `Element::attr`. Trusted: on a page within the
/// parser's bound the calls return, and the result is what
/// `nested_attributes` names.
#[verifier::external_body]
pub(crate) fn select_nested_attributes(page: &str, outer: &str, inner: &str, name: &str) -> (r: Option<Vec<Option<String>>>)
    requires
        fits_parser(page@),
    ensures
        match r {
            Some(values) => nested_attributes(page@, outer@, inner@, name@) == Some(
                values_view(values@),
            ),
            None => nested_attributes(page@, outer@, inner@, name@) is None,
        },
{
    let outer = scraper::Selector::parse(outer).ok()?;
    let inner = scraper::Selector::parse(inner).ok()?;
    let document = scraper::Html::parse_fragment(page);
    let container = document.select(&outer).next()?;
    Some(container.select(&inner).map(|e| e.value().attr(name).map(|v| v.to_owned())).collect())
}

/// Calls `html_escape::decode_html_entities`. Trusted: the result is what
/// `entities_decoded` names.
#[verifier::external_body]
pub(crate) fn decode_entities(text: &str) -> (r: String)
    ensures
        r@ == entities_decoded(text@),
{
    html_escape::decode_html_entities(text).into_owned()
}

} // verus!
