//! Web search and scrape, without the network: which result pages are
//! fetched, what text is taken from a fetched page, and how descriptions and
//! page texts add up to the text of one search. Searching and fetching are
//! the caller's.

use vstd::prelude::*;
use crate::html::{element_texts, texts_in};
use crate::text::{join, joined, nested_texts, texts};

verus! {

/// How many of the top results of a search are used.
pub const TOP_RESULTS: usize = 2;

/// The selector of the elements whose text is taken from a result page.
pub const CONTENT_SELECTOR: &'static str = "p, h1, h2, h3, code";

/// One result of a web search.
#[derive(Debug)]
pub struct SearchHit {
    pub url: String,
    pub description: String,
}

/// The text of the selected elements: the text nodes of an element separated
/// by a space, the elements by a line break.
pub open spec fn lines_of(elements: Seq<Seq<Seq<char>>>) -> Seq<char> {
    joined(Seq::new(elements.len(), |i: int| joined(elements[i], " "@)), "\n"@)
}

/// The text that a page contributes, for what `scraper` selected in it.
pub open spec fn page_text_of(selected: Option<Seq<Seq<Seq<char>>>>) -> Option<Seq<char>> {
    match selected {
        Some(elements) => Some(lines_of(elements)),
        None => None,
    }
}

/// Writes the selected elements out as text.
pub fn element_lines(elements: &Vec<Vec<String>>) -> (r: String)
    ensures
        r@ == lines_of(nested_texts(elements@)),
{
    let mut lines: Vec<String> = Vec::new();
    let ghost model = nested_texts(elements@);
    let mut i: usize = 0;
    while i < elements.len()
        invariant
            i <= elements.len(),
            model == nested_texts(elements@),
            lines.len() == i,
            forall|j: int| 0 <= j < i ==> (#[trigger] lines[j])@ == joined(model[j], " "@),
        decreases elements.len() - i,
    {
        let line = join(&elements[i], " ");
        lines.push(line);
        i = i + 1;
    }
    assert(texts(lines@) =~= Seq::new(model.len(), |i: int| joined(model[i], " "@)));
    join(&lines, "\n")
}

/// The text of one fetched page: that of its paragraphs, headings and code.
pub fn page_text(html: &str) -> (r: Option<String>)
    ensures
        match r {
            Some(text) => page_text_of(texts_in(html@, CONTENT_SELECTOR@)) == Some(text@),
            None => page_text_of(texts_in(html@, CONTENT_SELECTOR@)) is None,
        },
{
    match element_texts(html, CONTENT_SELECTOR) {
        Some(elements) => Some(element_lines(&elements)),
        None => None,
    }
}

/// How many results are used: the top ones, as far as there are any.
pub open spec fn used(results: Seq<SearchHit>) -> int {
    if results.len() < TOP_RESULTS {
        results.len() as int
    } else {
        TOP_RESULTS as int
    }
}

/// The addresses of the pages to fetch: those of the top results, in order.
pub fn pages_to_fetch(results: &Vec<SearchHit>) -> (r: Vec<String>)
    ensures
        r.len() == used(results@),
        forall|i: int| 0 <= i < r.len() ==> (#[trigger] r[i])@ == results[i].url@,
{
    let mut urls: Vec<String> = Vec::new();
    let mut i: usize = 0;
    while i < results.len() && i < TOP_RESULTS
        invariant
            i <= results.len(),
            i <= TOP_RESULTS,
            urls.len() == i,
            forall|j: int| 0 <= j < i ==> (#[trigger] urls[j])@ == results[j].url@,
        decreases results.len() - i,
    {
        urls.push(results[i].url.clone());
        i = i + 1;
    }
    urls
}

/// The text that the page of the result at `i` contributes: that of the
/// fetched page, where it was fetched and its text could be selected.
pub open spec fn page_part(pages: Seq<Option<String>>, i: int) -> Option<Seq<char>> {
    if 0 <= i < pages.len() {
        match pages[i] {
            Some(html) => page_text_of(texts_in(html@, CONTENT_SELECTOR@)),
            None => None,
        }
    } else {
        None
    }
}

/// The pieces of the first `n` results: for each its description, then the
/// text of its page where there is one.
pub open spec fn pieces(results: Seq<SearchHit>, pages: Seq<Option<String>>, n: int) -> Seq<
    Seq<char>,
>
    decreases n,
{
    if n <= 0 {
        Seq::empty()
    } else {
        let earlier = pieces(results, pages, n - 1).push(results[n - 1].description@);
        match page_part(pages, n - 1) {
            Some(text) => earlier.push(text),
            None => earlier,
        }
    }
}

/// The text of one search: the pieces of the top results, separated by a
/// rule.
pub open spec fn search_text(results: Seq<SearchHit>, pages: Seq<Option<String>>) -> Seq<char> {
    joined(pieces(results, pages, used(results)), "\n---\n"@)
}

/// Writes the text of one search. `results` are the search's results, best
/// first; `pages[i]` is the page fetched for the result at `i`, `None` where
/// the fetch failed. A page that is missing costs only its own text.
pub fn search_and_scrape(results: &Vec<SearchHit>, pages: &Vec<Option<String>>) -> (r: String)
    ensures
        r@ == search_text(results@, pages@),
{
    let mut found: Vec<String> = Vec::new();
    let mut i: usize = 0;
    while i < results.len() && i < TOP_RESULTS
        invariant
            i <= results.len(),
            i <= TOP_RESULTS,
            texts(found@) == pieces(results@, pages@, i as int),
        decreases results.len() - i,
    {
        found.push(results[i].description.clone());
        if i < pages.len() {
            match &pages[i] {
                Some(html) => match page_text(html.as_str()) {
                    Some(text) => {
                        found.push(text);
                    },
                    None => {},
                },
                None => {},
            }
        }
        assert(texts(found@) =~= pieces(results@, pages@, i + 1));
        i = i + 1;
    }
    join(&found, "\n---\n")
}

} // verus!
