use app_core::web_search::{
    element_lines, page_text, pages_to_fetch, search_and_scrape, SearchHit, CONTENT_SELECTOR,
    TOP_RESULTS,
};

fn hit(url: &str, description: &str) -> SearchHit {
    SearchHit { url: url.to_string(), description: description.to_string() }
}

#[test]
fn page_text_takes_paragraphs_headings_and_code_in_document_order() {
    let html = "<html><head><title>T</title></head><body><h1>Title</h1><div>skipped</div><p>Hello <b>bold</b> world</p><code>x = 1</code><h4>no</h4></body></html>";
    assert_eq!(page_text(html).unwrap(), "Title\nHello  bold  world\nx = 1");
}

#[test]
fn page_text_of_a_page_without_such_elements_is_empty() {
    assert_eq!(page_text("<div>only a div</div>").unwrap(), "");
    assert_eq!(page_text("").unwrap(), "");
}

#[test]
fn page_text_differs_from_the_markup() {
    let html = "<p>a &amp; b</p>";
    let text = page_text(html).unwrap();
    assert_eq!(text, "a & b");
    assert_ne!(text, html);
}

#[test]
fn element_lines_join_nodes_with_spaces_and_elements_with_line_breaks() {
    let elements = vec![
        vec!["a".to_string(), "b".to_string()],
        vec![],
        vec!["c".to_string()],
    ];
    assert_eq!(element_lines(&elements), "a b\n\nc");
    assert_eq!(element_lines(&Vec::new()), "");
}

#[test]
fn only_the_top_results_are_fetched() {
    assert_eq!(TOP_RESULTS, 2);
    assert_eq!(CONTENT_SELECTOR, "p, h1, h2, h3, code");
    let results = vec![hit("u1", "d1"), hit("u2", "d2"), hit("u3", "d3")];
    assert_eq!(pages_to_fetch(&results), vec!["u1".to_string(), "u2".to_string()]);
    assert_eq!(pages_to_fetch(&results[..1].iter().map(|h| hit(&h.url, &h.description)).collect()), vec!["u1".to_string()]);
    assert!(pages_to_fetch(&Vec::new()).is_empty());
}

#[test]
fn search_text_is_descriptions_and_page_texts_separated_by_rules() {
    let results = vec![hit("u1", "first"), hit("u2", "second"), hit("u3", "third")];
    let pages = vec![Some("<p>one</p><h2>two</h2>".to_string()), Some("<code>3</code>".to_string())];
    assert_eq!(search_and_scrape(&results, &pages), "first\n---\none\ntwo\n---\nsecond\n---\n3");
}

#[test]
fn a_page_that_could_not_be_fetched_costs_only_its_own_text() {
    let results = vec![hit("u1", "first"), hit("u2", "second")];
    assert_eq!(
        search_and_scrape(&results, &vec![None, Some("<p>two</p>".to_string())]),
        "first\n---\nsecond\n---\ntwo"
    );
    assert_eq!(search_and_scrape(&results, &vec![None, None]), "first\n---\nsecond");
    assert_eq!(search_and_scrape(&results, &Vec::new()), "first\n---\nsecond");
}

#[test]
fn a_search_without_results_has_no_text() {
    assert_eq!(search_and_scrape(&Vec::new(), &Vec::new()), "");
    assert_eq!(search_and_scrape(&Vec::new(), &vec![Some("<p>x</p>".to_string())]), "");
}

#[test]
fn a_fetched_page_without_text_still_adds_its_empty_piece() {
    let results = vec![hit("u1", "only")];
    assert_eq!(search_and_scrape(&results, &vec![Some("<div>x</div>".to_string())]), "only\n---\n");
}
