//! The boundary to the markup parser.
//!
//! A page is handed over as text and a selector as text; what comes back is
//! the text of the matching elements. Nothing of the parser's own types
//! crosses into the rest of the library.
//!
//! The selectors used on a quote page match on a fragment of an element's
//! class name, so that generated suffixes do not matter, and the results come
//! in the order in which the parser yields the elements. Both tie the
//! extraction to the structure of the page as it is served: where that
//! changes, fields go missing or change places, and nothing here notices.

use vstd::prelude::*;

verus! {

/// The parser's message where `selector` is no valid selector, and `None`
/// where it is one. A selector is read before the page is touched, so this
/// depends on the selector alone.
pub uninterp spec fn selector_error(selector: Seq<char>) -> Option<Seq<char>>;

/// The texts of the elements of `page` that match the valid selector
/// `selector`, each the concatenation of the element's descendant text
/// nodes, in the order in which the parser yields the elements.
pub uninterp spec fn matched_texts(page: Seq<char>, selector: Seq<char>) -> Seq<Seq<char>>;

/// For each element of `page` that matches the valid selector `term`, in the
/// order in which the parser yields them: the element's text, and the texts
/// of the elements matching the valid selector `inner` below the element
/// that follows it among its siblings (`None` where no element follows it).
pub uninterp spec fn matched_terms(page: Seq<char>, term: Seq<char>, inner: Seq<char>) -> Seq<
    (Seq<char>, Option<Seq<Seq<char>>>),
>;

/// What a selection gives: the selector's error, whatever the page, or the
/// texts of the matches.
pub open spec fn selection_texts(page: Seq<char>, selector: Seq<char>) -> Result<
    Seq<Seq<char>>,
    Seq<char>,
> {
    match selector_error(selector) {
        Some(message) => Err(message),
        None => Ok(matched_texts(page, selector)),
    }
}

/// What a selection of terms gives: the error of `term`, else the error of
/// `inner`, whatever the page, or the terms with their descriptions.
pub open spec fn paired_texts(page: Seq<char>, term: Seq<char>, inner: Seq<char>) -> Result<
    Seq<(Seq<char>, Option<Seq<Seq<char>>>)>,
    Seq<char>,
> {
    match selector_error(term) {
        Some(message) => Err(message),
        None => match selector_error(inner) {
            Some(message) => Err(message),
            None => Ok(matched_terms(page, term, inner)),
        },
    }
}

/// A term of a definition list as found on a page: its text, and the texts
/// found in the description paired with it, if a description follows it.
pub struct Term {
    pub label: String,
    pub prices: Option<Vec<String>>,
}

/// The views of a list of strings.
pub open spec fn texts_view(texts: Seq<String>) -> Seq<Seq<char>> {
    texts.map_values(|s: String| s@)
}

/// The views of the texts found in a description.
pub open spec fn description_view(texts: Option<Vec<String>>) -> Option<Seq<Seq<char>>> {
    match texts {
        Some(found) => Some(texts_view(found@)),
        None => None,
    }
}

impl View for Term {
    type V = (Seq<char>, Option<Seq<Seq<char>>>);

    open spec fn view(&self) -> (Seq<char>, Option<Seq<Seq<char>>>) {
        (self.label@, description_view(self.prices))
    }
}

/// The views of a list of terms.
pub open spec fn terms_view(terms: Seq<Term>) -> Seq<(Seq<char>, Option<Seq<Seq<char>>>)> {
    terms.map_values(|t: Term| t@)
}

/// Parses `selector` with `scraper::Selector::parse` and `page` with
/// `scraper::Html::parse_document`, walks `Html::select` and collects
/// `ElementRef::text` of each match. The contract claims that the selector
/// is read first, so that its error comes whatever the page holds, and that
/// the texts are a function of the two arguments; it gives both their names.
#[verifier::external_body]
pub(crate) fn select_texts(page: &str, selector: &str) -> (r: Result<Vec<String>, String>)
    ensures
        selector_error(selector@) is Some ==> r is Err && r->Err_0@ == selector_error(
            selector@,
        )->Some_0,
        selector_error(selector@) is None ==> r is Ok && texts_view(r->Ok_0@) == matched_texts(
            page@,
            selector@,
        ),
{
    let compiled = scraper::Selector::parse(selector).map_err(|e| e.to_string())?;
    let document = scraper::Html::parse_document(page);
    Ok(document.select(&compiled).map(|element| element.text().collect::<String>()).collect())
}

/// Parses `term`, then `inner`, then the page as `select_texts` does, and for
/// each match of `term` collects `ElementRef::text`, steps to
/// `Element::next_sibling_element` and collects `ElementRef::text` of each
/// match of `inner` under `ElementRef::select`. The contract claims that the
/// two selectors are read first and in this order, and that the terms are a
/// function of the three arguments; it gives them their name.
#[verifier::external_body]
pub(crate) fn select_terms(page: &str, term: &str, inner: &str) -> (r: Result<Vec<Term>, String>)
    ensures
        selector_error(term@) is Some ==> r is Err && r->Err_0@ == selector_error(term@)->Some_0,
        selector_error(term@) is None && selector_error(inner@) is Some ==> r is Err
            && r->Err_0@ == selector_error(inner@)->Some_0,
        selector_error(term@) is None && selector_error(inner@) is None ==> r is Ok && terms_view(
            r->Ok_0@,
        ) == matched_terms(page@, term@, inner@),
{
    let outer = scraper::Selector::parse(term).map_err(|e| e.to_string())?;
    let below = scraper::Selector::parse(inner).map_err(|e| e.to_string())?;
    let document = scraper::Html::parse_document(page);
    let found = document.select(&outer).map(|e| Term {
        label: e.text().collect(),
        prices: scraper::Element::next_sibling_element(&e)
            .map(|d| d.select(&below).map(|p| p.text().collect()).collect()),
    });
    Ok(found.collect())
}

} // verus!
