//! The list extractor: given the raw HTML text of the fetched page, locate
//! the selection element named `cid` with id `cid`, parse its inner markup
//! as a standalone fragment, and return the inner markup of its `option`
//! entries in document order. A missing selector yields `None`; a selector
//! with no options yields `Some` of an empty list — callers treat `None` as
//! "nothing usable extracted", never as a fatal error.
//!
//! The HTML parsing itself is the scraper crate's work; its results on a
//! given document are named, not restated, and everything around the two
//! parsing calls is verified against those names.

use vstd::prelude::*;

verus! {

/// The inner markup of the first element matching
/// `select[name="cid"][id="cid"]` in a parsed HTML document, or `None` when
/// no element matches. The value is whatever scraper's parser produces; it
/// depends on the document text alone.
pub uninterp spec fn cid_fragment(html: Seq<char>) -> Option<Seq<char>>;

/// The inner markup of each `option` element of a parsed HTML fragment, in
/// document order, duplicates kept. The value is whatever scraper's parser
/// produces; it depends on the fragment text alone.
pub uninterp spec fn option_texts(fragment: Seq<char>) -> Seq<Seq<char>>;

/// Relies on scraper's `Html::parse_document`, `Selector::parse` and
/// `Html::select`: parses the document and returns the inner markup of the
/// first element matching `select[name="cid"][id="cid"]`, or `None` when no
/// element matches.
#[verifier::external_body]
fn find_cid_select(html: &str) -> (r: Option<String>)
    ensures
        r is Some <==> cid_fragment(html@) is Some,
        r is Some ==> r->Some_0@ == cid_fragment(html@)->Some_0,
{
    let document = scraper::Html::parse_document(html);
    let selector = scraper::Selector::parse(r#"select[name="cid"][id="cid"]"#).ok()?;
    document.select(&selector).next().map(|e| e.inner_html())
}

/// Relies on scraper's `Html::parse_fragment`, `Selector::parse` and
/// `Html::select`: parses the fragment and returns the inner markup of
/// every `option` element in document order.
#[verifier::external_body]
fn fragment_options(fragment: &str) -> (r: Vec<String>)
    ensures
        r.deep_view() == option_texts(fragment@),
{
    let doc = scraper::Html::parse_fragment(fragment);
    match scraper::Selector::parse("option") {
        Ok(selector) => doc.select(&selector).map(|e| e.inner_html()).collect(),
        Err(_) => Vec::new(),
    }
}

/// What extraction yields on a given document: `None` when the `cid`
/// selection element is absent, otherwise the option texts of its inner
/// markup — possibly the empty sequence, which is distinct from `None`.
pub open spec fn extract_spec(html: Seq<char>) -> Option<Seq<Seq<char>>> {
    match cid_fragment(html) {
        Some(fragment) => Some(option_texts(fragment)),
        None => None,
    }
}

/// Extracts the option labels of the `cid` selection element from the raw
/// HTML text of the fetched page.
pub fn extract_element(html: &str) -> (r: Option<Vec<String>>)
    ensures
        r.deep_view() == extract_spec(html@),
{
    match find_cid_select(html) {
        Some(fragment) => Some(fragment_options(fragment.as_str())),
        None => None,
    }
}

} // verus!
