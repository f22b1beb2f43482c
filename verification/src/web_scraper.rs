//! Crawling one site for its text, without the network: which page is
//! fetched next, what a fetched page adds to the text, and which of its links
//! are followed. Fetching is the caller's; addresses are resolved by
//! `reqwest::Url`.

use vstd::prelude::*;
use vstd::string::StringExecFns;
use crate::html::{attributes_in, element_attributes, element_texts, texts_in};
use std::collections::VecDeque;
use crate::context::optional_text;
use crate::text::{contains_text, join, joined, texts};

verus! {

/// The selector of the element whose text is taken from a crawled page.
pub const BODY_SELECTOR: &'static str = "body";

/// The selector of the links of a page.
pub const LINK_SELECTOR: &'static str = "a[href]";

/// The attribute that holds a link's target.
pub const LINK_ATTRIBUTE: &'static str = "href";

/// What is written after the text of each page.
pub const PAGE_BREAK: &'static str = "\n\n";

/// An address, with the parts of it that the crawl reads.
#[derive(Debug)]
pub struct PageAddress {
    /// The address in full, as `Url` writes it.
    pub url: String,
    pub scheme: String,
    /// The host, where it is a domain name.
    pub domain: Option<String>,
    /// What follows the `?`, where there is one.
    pub query: Option<String>,
    /// What follows the `#`, where there is one.
    pub fragment: Option<String>,
}

/// The model of a [`PageAddress`].
pub struct AddressView {
    pub url: Seq<char>,
    pub scheme: Seq<char>,
    pub domain: Option<Seq<char>>,
    pub query: Option<Seq<char>>,
    pub fragment: Option<Seq<char>>,
}

impl View for PageAddress {
    type V = AddressView;

    open spec fn view(&self) -> AddressView {
        AddressView {
            url: self.url@,
            scheme: self.scheme@,
            domain: optional_text(self.domain),
            query: optional_text(self.query),
            fragment: optional_text(self.fragment),
        }
    }
}

/// The models of a list of addresses.
pub open spec fn address_views(addresses: Seq<PageAddress>) -> Seq<AddressView> {
    Seq::new(addresses.len(), |i: int| addresses[i]@)
}

/// The addresses in full of a list of addresses.
pub open spec fn urls_of(addresses: Seq<AddressView>) -> Seq<Seq<char>> {
    Seq::new(addresses.len(), |i: int| addresses[i].url)
}

/// Why a crawl cannot begin.
#[derive(Debug, Clone, Copy, PartialEq, Eq, Structural)]
pub enum CrawlError {
    /// The start address is no URL.
    InvalidUrl,
    /// The start address has no domain.
    NoDomain,
}

/// What `Url::parse` reads in a text, or `None` where the text is no
/// absolute URL.
pub uninterp spec fn parsed_address(text: Seq<char>) -> Option<AddressView>;

/// The address that a link on the page at `base` points to: what `Url::join`
/// makes of `href` against `base`. `None` where `base` is no absolute URL or
/// `href` cannot be resolved.
pub uninterp spec fn resolved_link(base: Seq<char>, href: Seq<char>) -> Option<AddressView>;

/// The address `url` after `Url::set_fragment` and `Url::set_query` have
/// taken its fragment and its query away. `None` where `url` is no absolute
/// URL.
pub uninterp spec fn cleaned_address(url: Seq<char>) -> Option<AddressView>;

/// Calls `Url::parse` and copies the address with its `scheme`, `domain`,
/// `query` and `fragment`. Trusted: what comes back depends on the text
/// alone.
#[verifier::external_body]
fn parse_address(text: &str) -> (r: Option<PageAddress>)
    ensures
        match r {
            Some(address) => parsed_address(text@) == Some(address@),
            None => parsed_address(text@) is None,
        },
{
    let url = reqwest::Url::parse(text).ok()?;
    Some(
        PageAddress {
            url: url.to_string(),
            scheme: url.scheme().to_string(),
            domain: url.domain().map(String::from),
            query: url.query().map(String::from),
            fragment: url.fragment().map(String::from),
        },
    )
}

/// Calls `Url::parse` on `base` and `Url::join` with `href`, and copies the
/// address with its `scheme`, `domain`, `query` and `fragment`. Trusted: what
/// comes back depends on the two texts alone.
#[verifier::external_body]
fn resolve_link(base: &str, href: &str) -> (r: Option<PageAddress>)
    ensures
        match r {
            Some(address) => resolved_link(base@, href@) == Some(address@),
            None => resolved_link(base@, href@) is None,
        },
{
    let url = reqwest::Url::parse(base).ok()?.join(href).ok()?;
    Some(
        PageAddress {
            url: url.to_string(),
            scheme: url.scheme().to_string(),
            domain: url.domain().map(String::from),
            query: url.query().map(String::from),
            fragment: url.fragment().map(String::from),
        },
    )
}

/// Calls `Url::parse`, then `Url::set_fragment` and `Url::set_query` with
/// nothing to set, and copies the address with its `scheme`, `domain`,
/// `query` and `fragment`. Trusted: what comes back depends on the text
/// alone, and has neither a query nor a fragment, as the two setters leave it.
#[verifier::external_body]
fn clean_address(url: &str) -> (r: Option<PageAddress>)
    ensures
        match r {
            Some(address) => cleaned_address(url@) == Some(address@) && address.query is None
                && address.fragment is None,
            None => cleaned_address(url@) is None,
        },
{
    let mut url = reqwest::Url::parse(url).ok()?;
    url.set_fragment(None);
    url.set_query(None);
    Some(
        PageAddress {
            url: url.to_string(),
            scheme: url.scheme().to_string(),
            domain: url.domain().map(String::from),
            query: url.query().map(String::from),
            fragment: url.fragment().map(String::from),
        },
    )
}

/// Whether an address is a web page of the site `domain`.
pub open spec fn on_site(address: AddressView, domain: Seq<char>) -> bool {
    (address.scheme == "http"@ || address.scheme == "https"@) && address.domain == Some(domain)
}

/// Whether `address` is a web page of the site `domain`: reached by HTTP or
/// HTTPS, on exactly that domain.
pub fn is_on_site(address: &PageAddress, domain: &String) -> (r: bool)
    ensures
        r == on_site(address@, domain@),
{
    let web = address.scheme == String::from_str("http") || address.scheme == String::from_str(
        "https",
    );
    match &address.domain {
        Some(d) => web && *d == *domain,
        None => false,
    }
}

/// The text of a page, for what `scraper` selected under [`BODY_SELECTOR`]:
/// the text nodes of the first match, one after another.
pub open spec fn body_text_of(selected: Option<Seq<Seq<Seq<char>>>>) -> Seq<char> {
    match selected {
        Some(elements) => if elements.len() > 0 {
            joined(elements[0], Seq::empty())
        } else {
            Seq::empty()
        },
        None => Seq::empty(),
    }
}

/// The visible text of a page: all text of its body; empty where it has none.
pub fn extract_text_from_html(html: &str) -> (r: String)
    ensures
        r@ == body_text_of(texts_in(html@, BODY_SELECTOR@)),
{
    match element_texts(html, BODY_SELECTOR) {
        Some(elements) => {
            if elements.len() > 0 {
                proof {
                    reveal_strlit("");
                    assert(""@ =~= Seq::<char>::empty());
                }
                join(&elements[0], "")
            } else {
                String::new()
            }
        },
        None => String::new(),
    }
}

/// The address that the link `href` on the page at `base` is followed to: its
/// resolved address without fragment and query, where that is a page of the
/// site.
pub open spec fn followed(base: Seq<char>, domain: Seq<char>, href: Option<Seq<char>>) -> Option<
    AddressView,
> {
    match href {
        Some(h) => match resolved_link(base, h) {
            Some(target) => match cleaned_address(target.url) {
                Some(address) => if on_site(address, domain) {
                    Some(address)
                } else {
                    None
                },
                None => None,
            },
            None => None,
        },
        None => None,
    }
}

/// The addresses that the links `hrefs` are followed to, each once, in the
/// order of the first link to it.
pub open spec fn links_of(base: Seq<char>, domain: Seq<char>, hrefs: Seq<Option<Seq<char>>>) -> Seq<
    AddressView,
>
    decreases hrefs.len(),
{
    if hrefs.len() == 0 {
        Seq::empty()
    } else {
        let earlier = links_of(base, domain, hrefs.drop_last());
        match followed(base, domain, hrefs.last()) {
            Some(address) => if urls_of(earlier).contains(address.url) {
                earlier
            } else {
                earlier.push(address)
            },
            None => earlier,
        }
    }
}

/// The links of a page to follow, for what `scraper` selected as its links.
pub open spec fn page_links_of(
    base: Seq<char>,
    domain: Seq<char>,
    selected: Option<Seq<Option<Seq<char>>>>,
) -> Seq<AddressView> {
    match selected {
        Some(hrefs) => links_of(base, domain, hrefs),
        None => Seq::empty(),
    }
}

fn holds_url(links: &Vec<PageAddress>, url: &String) -> (r: bool)
    ensures
        r == urls_of(address_views(links@)).contains(url@),
{
    let mut i: usize = 0;
    while i < links.len()
        invariant
            i <= links.len(),
            forall|j: int| 0 <= j < i ==> urls_of(address_views(links@))[j] != url@,
        decreases links.len() - i,
    {
        if links[i].url == *url {
            assert(urls_of(address_views(links@))[i as int] == url@);
            return true;
        }
        i = i + 1;
    }
    false
}

/// Finds the links of the page `html`, fetched from `base`, that lead to
/// pages of the site `domain`: resolved against `base`, their fragment and
/// query taken away, each address once.
pub fn find_links_on_page(html: &str, base: &str, domain: &String) -> (r: Vec<PageAddress>)
    ensures
        address_views(r@) == page_links_of(
            base@,
            domain@,
            attributes_in(html@, LINK_SELECTOR@, LINK_ATTRIBUTE@),
        ),
        urls_of(address_views(r@)).no_duplicates(),
        forall|i: int|
            0 <= i < r.len() ==> (#[trigger] r[i]).query is None && r[i].fragment is None
                && on_site(r[i]@, domain@),
{
    let mut links: Vec<PageAddress> = Vec::new();
    match element_attributes(html, LINK_SELECTOR, LINK_ATTRIBUTE) {
        None => {},
        Some(hrefs) => {
            let ghost model = crate::html::optional_texts(hrefs@);
            let mut i: usize = 0;
            while i < hrefs.len()
                invariant
                    i <= hrefs.len(),
                    model == crate::html::optional_texts(hrefs@),
                    address_views(links@) == links_of(base@, domain@, model.take(i as int)),
                    urls_of(address_views(links@)).no_duplicates(),
                    forall|j: int|
                        0 <= j < links.len() ==> (#[trigger] links[j]).query is None
                            && links[j].fragment is None && on_site(links[j]@, domain@),
                decreases hrefs.len() - i,
            {
                assert(model.take(i + 1).drop_last() =~= model.take(i as int));
                assert(model.take(i + 1).last() == model[i as int]);
                let ghost before = address_views(links@);
                match &hrefs[i] {
                    Some(href) => match resolve_link(base, href.as_str()) {
                        Some(target) => match clean_address(target.url.as_str()) {
                            Some(address) => {
                                if is_on_site(&address, domain) && !holds_url(
                                    &links,
                                    &address.url,
                                ) {
                                    links.push(address);
                                    assert(address_views(links@) =~= before.push(address@));
                                    assert(urls_of(address_views(links@)) =~= urls_of(
                                        before,
                                    ).push(address@.url));
                                }
                            },
                            None => {},
                        },
                        None => {},
                    },
                    None => {},
                }
                assert(address_views(links@) =~= links_of(base@, domain@, model.take(i + 1)));
                i = i + 1;
            }
            assert(model.take(hrefs.len() as int) =~= model);
        },
    }
    links
}

/// A crawl in progress.
#[derive(Debug)]
pub struct Crawl {
    /// The site that the crawl stays on.
    pub domain: String,
    /// The pages still to fetch, the next one first.
    pub queue: VecDeque<String>,
    /// Every page that was ever queued, in the order of queueing. The pages
    /// still to fetch are the last of them.
    pub visited: Vec<String>,
    /// The text gathered so far.
    pub text: String,
}

/// The model of a [`Crawl`].
pub struct CrawlView {
    pub domain: Seq<char>,
    pub queue: Seq<Seq<char>>,
    pub visited: Seq<Seq<char>>,
    pub text: Seq<char>,
}

impl View for Crawl {
    type V = CrawlView;

    open spec fn view(&self) -> CrawlView {
        CrawlView {
            domain: self.domain@,
            queue: texts(self.queue@),
            visited: texts(self.visited@),
            text: self.text@,
        }
    }
}

/// Whether the crawl `c` is in order: no page was queued twice, and the
/// pages still to fetch are the last that were queued.
pub open spec fn orderly(c: CrawlView) -> bool {
    &&& c.visited.no_duplicates()
    &&& c.queue.len() <= c.visited.len()
    &&& c.visited.skip(c.visited.len() - c.queue.len()) == c.queue
}

/// The pages that the crawl `c` has handed out to fetch, in order.
pub open spec fn handed_out(c: CrawlView) -> Seq<Seq<char>> {
    c.visited.take(c.visited.len() - c.queue.len())
}

/// The crawl `c` after the links `links` were seen: each link that was never
/// queued before is queued, at the end, and counts as visited from then on.
pub open spec fn enqueued(c: CrawlView, links: Seq<Seq<char>>) -> CrawlView
    decreases links.len(),
{
    if links.len() == 0 {
        c
    } else {
        let earlier = enqueued(c, links.drop_last());
        if earlier.visited.contains(links.last()) {
            earlier
        } else {
            CrawlView {
                queue: earlier.queue.push(links.last()),
                visited: earlier.visited.push(links.last()),
                ..earlier
            }
        }
    }
}

/// The crawl `c` after a page with the text `page_text` and the links
/// `links` was fetched.
pub open spec fn after_page(c: CrawlView, page_text: Seq<char>, links: Seq<Seq<char>>) -> CrawlView {
    enqueued(CrawlView { text: c.text + page_text + PAGE_BREAK@, ..c }, links)
}

/// How a crawl begins at the address that `Url::parse` read as `parsed`.
pub open spec fn crawl_start(parsed: Option<AddressView>) -> Result<CrawlView, CrawlError> {
    match parsed {
        None => Err(CrawlError::InvalidUrl),
        Some(address) => match address.domain {
            None => Err(CrawlError::NoDomain),
            Some(domain) => Ok(
                CrawlView {
                    domain,
                    queue: seq![address.url],
                    visited: seq![address.url],
                    text: Seq::empty(),
                },
            ),
        },
    }
}

/// Begins the crawl of the site of `start_url`: the start page is the first
/// to fetch. The caller fetches what [`Crawl::next_page`] hands out, reports
/// each page that came back with success to [`Crawl::page_fetched`], and
/// takes the gathered text once no page is left.
pub fn scrape_website(start_url: &str) -> (r: Result<Crawl, CrawlError>)
    ensures
        match r {
            Ok(crawl) => crawl_start(parsed_address(start_url@)) == Ok::<CrawlView, CrawlError>(
                crawl@,
            ) && crawl.wf(),
            Err(e) => crawl_start(parsed_address(start_url@)) == Err::<CrawlView, CrawlError>(e),
        },
{
    match parse_address(start_url) {
        None => Err(CrawlError::InvalidUrl),
        Some(address) => {
            let PageAddress { url, scheme: _, domain, query: _, fragment: _ } = address;
            match domain {
                None => Err(CrawlError::NoDomain),
                Some(domain) => {
                    let mut queue: VecDeque<String> = VecDeque::new();
                    queue.push_back(url.clone());
                    let mut visited: Vec<String> = Vec::new();
                    visited.push(url);
                    let crawl = Crawl { domain, queue, visited, text: String::new() };
                    assert(crawl@.queue =~= seq![url@]);
                    assert(crawl@.visited =~= seq![url@]);
                    assert(crawl@.visited.skip(0) =~= crawl@.queue);
                    Ok(crawl)
                },
            }
        },
    }
}

impl Crawl {
    /// The crawl is in order: see [`orderly`].
    pub open spec fn wf(&self) -> bool {
        orderly(self@)
    }

    /// Takes the next page to fetch off the queue; `None` when the crawl is
    /// over. In a crawl that is in order this page was never handed out
    /// before.
    pub fn next_page(&mut self) -> (r: Option<String>)
        ensures
            match r {
                Some(url) => old(self)@.queue.len() > 0 && url@ == old(self)@.queue[0]
                    && final(self)@ == (CrawlView {
                    queue: old(self)@.queue.drop_first(),
                    ..old(self)@
                }),
                None => old(self)@.queue.len() == 0 && final(self)@ == old(self)@,
            },
            old(self).wf() ==> final(self).wf(),
            old(self).wf() ==> match r {
                Some(url) => handed_out(final(self)@) == handed_out(old(self)@).push(url@)
                    && !handed_out(old(self)@).contains(url@),
                None => handed_out(final(self)@) == handed_out(old(self)@),
            },
    {
        match self.queue.pop_front() {
            None => {
                assert(self@.queue =~= old(self)@.queue);
                None
            },
            Some(url) => {
                assert(self@.queue =~= old(self)@.queue.drop_first());
                proof {
                    if old(self).wf() {
                        lemma_handing_out(old(self)@);
                    }
                }
                Some(url)
            },
        }
    }

    /// Takes in a fetched page: its text joins the gathered text, followed
    /// by a page break, and those of its links that lead to pages of the site
    /// not visited before are queued, in the order of the page. No page is
    /// handed out by this.
    pub fn page_fetched(&mut self, url: &str, html: &str)
        ensures
            final(self)@ == after_page(
                old(self)@,
                body_text_of(texts_in(html@, BODY_SELECTOR@)),
                urls_of(
                    page_links_of(
                        url@,
                        old(self)@.domain,
                        attributes_in(html@, LINK_SELECTOR@, LINK_ATTRIBUTE@),
                    ),
                ),
            ),
            old(self).wf() ==> final(self).wf() && handed_out(final(self)@) == handed_out(
                old(self)@,
            ),
    {
        let page_text = extract_text_from_html(html);
        self.text.append(page_text.as_str());
        self.text.append(PAGE_BREAK);
        let links = find_links_on_page(html, url, &self.domain);
        let ghost start = self@;
        assert(start == (CrawlView {
            text: old(self)@.text + page_text@ + PAGE_BREAK@,
            ..old(self)@
        }));
        let ghost wanted = urls_of(address_views(links@));
        let mut i: usize = 0;
        while i < links.len()
            invariant
                i <= links.len(),
                wanted == urls_of(address_views(links@)),
                self@ == enqueued(start, wanted.take(i as int)),
            decreases links.len() - i,
        {
            assert(wanted.take(i + 1).drop_last() =~= wanted.take(i as int));
            assert(wanted.take(i + 1).last() == links@[i as int].url@);
            if !contains_text(&self.visited, &links[i].url) {
                self.visited.push(links[i].url.clone());
                self.queue.push_back(links[i].url.clone());
            }
            assert(self@.queue =~= enqueued(start, wanted.take(i + 1)).queue);
            assert(self@.visited =~= enqueued(start, wanted.take(i + 1)).visited);
            i = i + 1;
        }
        assert(wanted.take(links.len() as int) =~= wanted);
        proof {
            if old(self).wf() {
                assert(handed_out(start) == handed_out(old(self)@));
                lemma_enqueued_keeps_order(start, wanted);
            }
        }
    }

    /// Whether no page is left to fetch.
    pub fn is_done(&self) -> (r: bool)
        ensures
            r == (self@.queue.len() == 0),
    {
        self.queue.len() == 0
    }

    /// Ends the crawl and hands out the gathered text.
    pub fn into_text(self) -> (r: String)
        ensures
            r@ == self@.text,
    {
        self.text
    }
}

/// No page is fetched twice: in a crawl that is in order the pages handed
/// out so far are all different, none of them is still to fetch, and handed
/// out and still to fetch together are all that was ever queued.
pub proof fn lemma_no_page_twice(c: CrawlView)
    requires
        orderly(c),
    ensures
        handed_out(c).no_duplicates(),
        c.queue.no_duplicates(),
        handed_out(c) + c.queue == c.visited,
        forall|i: int| 0 <= i < c.queue.len() ==> !handed_out(c).contains(#[trigger] c.queue[i]),
{
    let n = c.visited.len() - c.queue.len();
    assert(handed_out(c) + c.queue =~= c.visited);
    assert forall|i: int| 0 <= i < c.queue.len() implies !handed_out(c).contains(
        #[trigger] c.queue[i],
    ) by {
        assert(c.queue[i] == c.visited[n + i]);
        if handed_out(c).contains(c.queue[i]) {
            let k = choose|k: int| 0 <= k < handed_out(c).len() && handed_out(c)[k] == c.queue[i];
            assert(c.visited[k] == c.visited[n + i]);
        }
    }
    assert forall|i: int, j: int|
        0 <= i < c.queue.len() && 0 <= j < c.queue.len() && i != j implies c.queue[i]
        != c.queue[j] by {
        assert(c.queue[i] == c.visited[n + i]);
        assert(c.queue[j] == c.visited[n + j]);
    }
}

/// Handing out the next page of a crawl that is in order leaves it in order,
/// and adds to the pages handed out one that was not among them.
pub proof fn lemma_handing_out(c: CrawlView)
    requires
        orderly(c),
        c.queue.len() > 0,
    ensures
        orderly(CrawlView { queue: c.queue.drop_first(), ..c }),
        handed_out(CrawlView { queue: c.queue.drop_first(), ..c }) == handed_out(c).push(
            c.queue[0],
        ),
        !handed_out(c).contains(c.queue[0]),
{
    let after = CrawlView { queue: c.queue.drop_first(), ..c };
    let n = c.visited.len() - c.queue.len();
    lemma_no_page_twice(c);
    assert(c.queue[0] == c.visited[n]);
    assert(after.visited.skip(n + 1) =~= after.queue) by {
        assert forall|i: int| 0 <= i < after.queue.len() implies after.visited.skip(n + 1)[i]
            == after.queue[i] by {
            assert(c.queue[i + 1] == c.visited[n + i + 1]);
        }
    }
    assert(handed_out(after) =~= handed_out(c).push(c.queue[0]));
}

/// Seeing links never queues a page a second time: a crawl that is in order
/// stays in order, what was queued and visited stays so, in place, the pages
/// handed out stay the same, and only pages that were never visited are
/// added.
pub proof fn lemma_enqueued_keeps_order(c: CrawlView, links: Seq<Seq<char>>)
    requires
        orderly(c),
    ensures
        orderly(enqueued(c, links)),
        enqueued(c, links).domain == c.domain,
        enqueued(c, links).text == c.text,
        handed_out(enqueued(c, links)) == handed_out(c),
        c.queue.is_prefix_of(enqueued(c, links).queue),
        c.visited.is_prefix_of(enqueued(c, links).visited),
        forall|i: int|
            c.queue.len() <= i < enqueued(c, links).queue.len() ==> !c.visited.contains(
                #[trigger] enqueued(c, links).queue[i],
            ) && links.contains(enqueued(c, links).queue[i]),
    decreases links.len(),
{
    if links.len() > 0 {
        let front = links.drop_last();
        lemma_enqueued_keeps_order(c, front);
        let earlier = enqueued(c, front);
        let after = enqueued(c, links);
        let link = links.last();
        assert forall|i: int| c.queue.len() <= i < after.queue.len() implies !c.visited.contains(
            #[trigger] after.queue[i],
        ) && links.contains(after.queue[i]) by {
            if i < earlier.queue.len() {
                assert(after.queue[i] == earlier.queue[i]);
                assert(front.contains(earlier.queue[i]));
                let k = choose|k: int| 0 <= k < front.len() && front[k] == earlier.queue[i];
                assert(links[k] == after.queue[i]);
            } else {
                assert(after.queue[i] == link);
                assert(links[links.len() - 1] == link);
                if c.visited.contains(link) {
                    let k = choose|k: int| 0 <= k < c.visited.len() && c.visited[k] == link;
                    assert(earlier.visited[k] == link);
                }
            }
        }
        if !earlier.visited.contains(link) {
            let n = earlier.visited.len() - earlier.queue.len();
            assert(after.visited.skip(n) =~= after.queue) by {
                assert forall|i: int| 0 <= i < after.queue.len() implies after.visited.skip(n)[i]
                    == after.queue[i] by {
                    if i < earlier.queue.len() {
                        assert(earlier.visited.skip(n)[i] == earlier.queue[i]);
                    }
                }
            }
            assert(handed_out(after) =~= handed_out(earlier));
            assert forall|i: int, j: int|
                0 <= i < after.visited.len() && 0 <= j < after.visited.len() && i
                    != j implies after.visited[i] != after.visited[j] by {
                if i == earlier.visited.len() && j < earlier.visited.len() {
                    assert(earlier.visited[j] == after.visited[j]);
                }
                if j == earlier.visited.len() && i < earlier.visited.len() {
                    assert(earlier.visited[i] == after.visited[i]);
                }
            }
        }
    } else {
        assert(handed_out(enqueued(c, links)) == handed_out(c));
    }
}

} // verus!
