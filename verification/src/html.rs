//! What is read out of HTML. Parsing and selecting are `scraper`'s; the
//! functions here hand its findings out as plain texts. A page that is too
//! long for the parser is read as a page without elements.

use vstd::prelude::*;
use vstd::utf8::encode_utf8;
use crate::text::nested_texts;

verus! {

/// The longest page, in bytes, that is handed to the parser. The parser's
/// buffers hold less than 4 GiB and panic beyond; this limit stays far below,
/// with room for the characters that the parser puts in place of others.
pub const MAX_PAGE_BYTES: usize = 0x0fff_ffff;

/// Whether a page is short enough for the parser.
pub open spec fn readable(html: Seq<char>) -> bool {
    encode_utf8(html).len() <= MAX_PAGE_BYTES
}

/// What `scraper` selects in a document: for each element of `html` that
/// matches the CSS selector group `selector`, in the order in which
/// `Html::select` hands the matches out, the text nodes below it, in the order
/// in which `ElementRef::text` hands them out. `None` where `selector` is no
/// selector group.
pub uninterp spec fn selected_texts(html: Seq<char>, selector: Seq<char>) -> Option<
    Seq<Seq<Seq<char>>>,
>;

/// For each element of `html` that matches the CSS selector group `selector`,
/// in the order in which `Html::select` hands the matches out, the value of
/// its attribute `attribute`, where it has that attribute. `None` where
/// `selector` is no selector group.
pub uninterp spec fn selected_attributes(
    html: Seq<char>,
    selector: Seq<char>,
    attribute: Seq<char>,
) -> Option<Seq<Option<Seq<char>>>>;

/// The texts of optional values.
pub open spec fn optional_texts(values: Seq<Option<String>>) -> Seq<Option<Seq<char>>> {
    Seq::new(
        values.len(),
        |i: int|
            match values[i] {
                Some(v) => Some(v@),
                None => None,
            },
    )
}

/// Parses `selector` with `scraper::Selector::parse` and `html` with
/// `scraper::Html::parse_document`, walks the matches of `Html::select` and
/// copies the text nodes that `ElementRef::text` hands out for each. Trusted:
/// what comes back depends on the two texts alone. A page beyond the limit is
/// left out: the parser's buffers panic on one of 4 GiB.
#[verifier::external_body]
fn select_texts(html: &str, selector: &str) -> (r: Option<Vec<Vec<String>>>)
    requires
        readable(html@),
    ensures
        match r {
            Some(elements) => selected_texts(html@, selector@) == Some(nested_texts(elements@)),
            None => selected_texts(html@, selector@) is None,
        },
{
    let selector = scraper::Selector::parse(selector).ok()?;
    let document = scraper::Html::parse_document(html);
    Some(document.select(&selector).map(|e| e.text().map(String::from).collect()).collect())
}

/// Parses `selector` with `scraper::Selector::parse` and `html` with
/// `scraper::Html::parse_document`, walks the matches of `Html::select` and
/// copies what `Element::attr` gives for each. Trusted: what comes back
/// depends on the three texts alone. A page beyond the limit is left out, as
/// for the text nodes.
#[verifier::external_body]
fn select_attributes(html: &str, selector: &str, attribute: &str) -> (r: Option<
    Vec<Option<String>>,
>)
    requires
        readable(html@),
    ensures
        match r {
            Some(values) => selected_attributes(html@, selector@, attribute@) == Some(
                optional_texts(values@),
            ),
            None => selected_attributes(html@, selector@, attribute@) is None,
        },
{
    let selector = scraper::Selector::parse(selector).ok()?;
    let document = scraper::Html::parse_document(html);
    Some(document.select(&selector).map(|e| e.value().attr(attribute).map(String::from)).collect())
}

/// The text nodes of the elements of a page that match `selector`: what
/// `scraper` selects in a readable page, nothing in a longer one.
pub open spec fn texts_in(html: Seq<char>, selector: Seq<char>) -> Option<Seq<Seq<Seq<char>>>> {
    if readable(html) {
        selected_texts(html, selector)
    } else {
        None
    }
}

/// The values of `attribute` on the elements of a page that match `selector`:
/// what `scraper` selects in a readable page, nothing in a longer one.
pub open spec fn attributes_in(html: Seq<char>, selector: Seq<char>, attribute: Seq<char>) -> Option<
    Seq<Option<Seq<char>>>,
> {
    if readable(html) {
        selected_attributes(html, selector, attribute)
    } else {
        None
    }
}

/// Whether `html` is short enough for the parser.
pub fn is_readable(html: &str) -> (r: bool)
    ensures
        r == readable(html@),
{
    html.as_bytes().len() <= MAX_PAGE_BYTES
}

/// Selects the elements of `html` that match `selector` and hands out the
/// text nodes of each. A page beyond [`MAX_PAGE_BYTES`] is not parsed and
/// has no elements.
pub fn element_texts(html: &str, selector: &str) -> (r: Option<Vec<Vec<String>>>)
    ensures
        match r {
            Some(elements) => texts_in(html@, selector@) == Some(nested_texts(elements@)),
            None => texts_in(html@, selector@) is None,
        },
{
    if is_readable(html) {
        select_texts(html, selector)
    } else {
        None
    }
}

/// Selects the elements of `html` that match `selector` and hands out the
/// value of `attribute` on each. A page beyond [`MAX_PAGE_BYTES`] is not
/// parsed and has no elements.
pub fn element_attributes(html: &str, selector: &str, attribute: &str) -> (r: Option<
    Vec<Option<String>>,
>)
    ensures
        match r {
            Some(values) => attributes_in(html@, selector@, attribute@) == Some(
                optional_texts(values@),
            ),
            None => attributes_in(html@, selector@, attribute@) is None,
        },
{
    if is_readable(html) {
        select_attributes(html, selector, attribute)
    } else {
        None
    }
}

} // verus!
