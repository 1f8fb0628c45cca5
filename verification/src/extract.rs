use vstd::prelude::*;
use crate::text::{collapse_ws, joined, ws_normalized, lemma_collapse_normalized};
use crate::text::{collapse_whitespace, join_with_spaces};

verus! {

/// The texts of the descendant text nodes of the root element of the
/// document that HTML5 parsing of `html` yields, in document order.
/// Parsing is a function of the input text alone, far too large to state
/// here, so the sequence is named and left undefined.
pub uninterp spec fn text_nodes_of(html: Seq<char>) -> Seq<Seq<char>>;

/// Relies on scraper's `Html::parse_document` and `ElementRef::text`:
/// parse `html` as an HTML document and walk the descendant text nodes
/// of the root element in document order. The result depends on `html`
/// alone. A parsed document always holds a root `<html>` element, so
/// `root_element` cannot panic here.
#[verifier::external_body]
fn html_text_nodes(html: &str) -> (r: Vec<String>)
    ensures
        r@.map_values(|p: String| p@) == text_nodes_of(html@),
{
    scraper::Html::parse_document(html)
        .root_element()
        .text()
        .map(|t| t.to_string())
        .collect()
}

/// The flattened visible text of `html`: all text node texts joined with
/// single spaces, then whitespace-collapsed and trimmed.
pub open spec fn extracted(html: Seq<char>) -> Seq<char> {
    collapse_ws(joined(text_nodes_of(html)))
}

/// Extract the visible text of `html` as one whitespace-collapsed line.
pub fn extract_text(html: &str) -> (r: String)
    ensures
        r@ == extracted(html@),
{
    let nodes = html_text_nodes(html);
    let joined_text = join_with_spaces(&nodes);
    collapse_whitespace(joined_text.as_str())
}

/// Extraction always yields normalized text: no consecutive whitespace
/// and no leading or trailing whitespace, whatever the HTML input.
pub proof fn lemma_extracted_normalized(html: Seq<char>)
    ensures
        ws_normalized(extracted(html)),
{
    lemma_collapse_normalized(joined(text_nodes_of(html)));
}

} // verus!
