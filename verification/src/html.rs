//! Trusted boundary to the HTML selector engine.
//!
//! The provider reports state through semi-structured pages, so the
//! extractor needs one opaque operation: collect the text of every
//! element matching a CSS selector. Everything downstream of that text
//! is parsed by verified code.

use vstd::prelude::*;

verus! {

/// The texts of the elements of `html` matching the CSS `selector`, in
/// document order; `None` when the selector itself is invalid. Named
/// here because the selector engine's behaviour is far too large to
/// state; it depends on the two strings alone.
pub uninterp spec fn select_texts_of(html: Seq<char>, selector: Seq<char>) -> Option<
    Seq<Seq<char>>,
>;

/// Relies on scraper's `Html::parse_document`, `Selector::parse`,
/// `Html::select` and `ElementRef::text`: parses `html`, selects the
/// elements matching `selector`, and collects each element's text in
/// document order. Returns `None` only for an invalid selector.
#[verifier::external_body]
pub(crate) fn select_texts(html: &str, selector: &str) -> (r: Option<Vec<String>>)
    ensures
        match r {
            Some(texts) => select_texts_of(html@, selector@) == Some(texts.deep_view()),
            None => select_texts_of(html@, selector@) is None,
        },
{
    let sel = match scraper::Selector::parse(selector) {
        Ok(s) => s,
        Err(_) => return None,
    };
    let doc = scraper::Html::parse_document(html);
    let mut out: Vec<String> = Vec::new();
    for element in doc.select(&sel) {
        let mut text = String::new();
        for piece in element.text() {
            text.push_str(piece);
        }
        out.push(text);
    }
    Some(out)
}

} // verus!
