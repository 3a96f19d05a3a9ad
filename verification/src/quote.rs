//! The quote record and its assembly from the texts found on a page.
//!
//! Two facts about the page's markup are relied on and are not checked here:
//! the elements are told apart by fragments of their class names alone, and
//! the two change figures are told apart by the order in which they stand.
//! Numbers are kept as the page's text with the thousands separators removed;
//! reading that text as a number is left to the caller, who takes zero where
//! it is no number, so that a quote of zero and a figure that could not be
//! read look the same.

use vstd::prelude::*;
use crate::page::{
    description_view, matched_terms, matched_texts, paired_texts, select_terms, select_texts,
    selection_texts, selector_error, terms_view, texts_view, Term,
};
use crate::text::{
    contains, contains_text, strip_separators, trimmed, trimmed_equals, without_separators,
};

verus! {

/// A request for one quote: the code of the instrument.
pub struct QuoteRequest {
    pub code: String,
}

/// The two kinds of instrument, which are laid out differently on the page.
#[derive(Clone, Copy, Debug, PartialEq, Eq, Structural)]
pub enum InstrumentKind {
    EquityOrIndex,
    FxPair,
}

/// What a quote page shows of one instrument. Every field may be absent.
/// The numeric fields hold the displayed figure without thousands separators.
#[derive(Clone, Debug)]
pub struct FinancialData {
    pub code: Option<String>,
    pub name: Option<String>,
    pub current_value: Option<String>,
    pub previous_day_change: Option<String>,
    pub change_rate: Option<String>,
    pub bid_value: Option<String>,
    pub update_time: Option<String>,
}

/// The mathematical model of a quote record.
pub struct QuoteModel {
    pub code: Option<Seq<char>>,
    pub name: Option<Seq<char>>,
    pub current_value: Option<Seq<char>>,
    pub previous_day_change: Option<Seq<char>>,
    pub change_rate: Option<Seq<char>>,
    pub bid_value: Option<Seq<char>>,
    pub update_time: Option<Seq<char>>,
}

/// The one error of an extraction: the message of what failed.
#[derive(Debug)]
pub struct ExtractError {
    pub message: String,
}

/// The view of an optional string.
pub open spec fn text_view(text: Option<String>) -> Option<Seq<char>> {
    match text {
        Some(s) => Some(s@),
        None => None,
    }
}

impl View for FinancialData {
    type V = QuoteModel;

    open spec fn view(&self) -> QuoteModel {
        QuoteModel {
            code: text_view(self.code),
            name: text_view(self.name),
            current_value: text_view(self.current_value),
            previous_day_change: text_view(self.previous_day_change),
            change_rate: text_view(self.change_rate),
            bid_value: text_view(self.bid_value),
            update_time: text_view(self.update_time),
        }
    }
}

impl View for ExtractError {
    type V = Seq<char>;

    open spec fn view(&self) -> Seq<char> {
        self.message@
    }
}

impl QuoteModel {
    /// The record with no field present.
    pub open spec fn empty() -> QuoteModel {
        QuoteModel {
            code: None,
            name: None,
            current_value: None,
            previous_day_change: None,
            change_rate: None,
            bid_value: None,
            update_time: None,
        }
    }

    /// The price group and the bid are never present together.
    pub open spec fn well_formed(self) -> bool {
        self.bid_value is Some ==> self.current_value is None && self.previous_day_change is None
            && self.change_rate is None && self.code is None
    }
}

/// The token in a code or an address that marks the foreign-exchange pair.
pub open spec fn fx_marker() -> Seq<char> {
    "USDJPY=FX"@
}

/// The label of the term whose description holds the bid.
pub open spec fn bid_label() -> Seq<char> {
    "Bid（売値）"@
}

/// The selector of the element that holds the instrument's name.
pub open spec fn name_selector() -> Seq<char> {
    "h2[class*=\"PriceBoard__name\"]"@
}

/// The selector of the element that holds the time of the last update.
pub open spec fn time_selector() -> Seq<char> {
    "time"@
}

/// The selector of the element that holds the instrument's code.
pub open spec fn code_selector() -> Seq<char> {
    "span[class*=\"PriceBoard__code\"]"@
}

/// The selector of the figure inside the price element.
pub open spec fn price_selector() -> Seq<char> {
    "span[class*=\"PriceBoard__price\"] span[class*=\"StyledNumber__value\"]"@
}

/// The selector shared by the two change figures.
pub open spec fn change_selector() -> Seq<char> {
    "div[class*=\"PriceChangeLabel\"] span[class*=\"StyledNumber__value\"]"@
}

/// The selector of the terms of a foreign-exchange page.
pub open spec fn term_selector() -> Seq<char> {
    "dt[class*=\"_FxPriceBoard__term\"]"@
}

/// The selector of a price inside the description paired with a term.
pub open spec fn bid_price_selector() -> Seq<char> {
    "span[class*=\"_FxPriceBoard__price\"]"@
}

/// Whether the parser reads every selector that the extraction for `kind`
/// uses. This is a fact about the parser and the fixed selectors alone; no
/// page has a part in it.
pub open spec fn selectors_parse(kind: InstrumentKind) -> bool {
    &&& selector_error(name_selector()) is None
    &&& selector_error(time_selector()) is None
    &&& match kind {
        InstrumentKind::EquityOrIndex => {
            &&& selector_error(code_selector()) is None
            &&& selector_error(price_selector()) is None
            &&& selector_error(change_selector()) is None
        },
        InstrumentKind::FxPair => {
            &&& selector_error(term_selector()) is None
            &&& selector_error(bid_price_selector()) is None
        },
    }
}

/// The kind that a code or an address stands for.
pub open spec fn kind_of(code: Seq<char>) -> InstrumentKind {
    if contains_text(code, fx_marker()) {
        InstrumentKind::FxPair
    } else {
        InstrumentKind::EquityOrIndex
    }
}

/// The first of `texts`, if there is one.
pub open spec fn first_text(texts: Seq<Seq<char>>) -> Option<Seq<char>> {
    if texts.len() > 0 {
        Some(texts[0])
    } else {
        None
    }
}

/// The text of the first element of `page` that matches `selector`, if there
/// is one, or the message of the selection's failure.
pub open spec fn first_selected(page: Seq<char>, selector: Seq<char>) -> Result<
    Option<Seq<char>>,
    Seq<char>,
> {
    match selection_texts(page, selector) {
        Ok(texts) => Ok(first_text(texts)),
        Err(message) => Err(message),
    }
}

/// A displayed figure without its thousands separators, if there is one.
pub open spec fn normalized(text: Option<Seq<char>>) -> Option<Seq<char>> {
    match text {
        Some(figure) => Some(without_separators(figure)),
        None => None,
    }
}

/// The text at place `at` of `texts` without thousands separators, if there
/// is one.
pub open spec fn number_at(texts: Seq<Seq<char>>, at: int) -> Option<Seq<char>> {
    if 0 <= at < texts.len() {
        Some(without_separators(texts[at]))
    } else {
        None
    }
}

/// The record of an equity or an index: the first change figure is the change
/// against the previous day, the second the rate of change.
pub open spec fn equity_quote(
    name: Option<Seq<char>>,
    time: Option<Seq<char>>,
    code: Option<Seq<char>>,
    price: Option<Seq<char>>,
    changes: Seq<Seq<char>>,
) -> QuoteModel {
    QuoteModel {
        code: code,
        name: name,
        current_value: normalized(price),
        previous_day_change: number_at(changes, 0),
        change_rate: number_at(changes, 1),
        bid_value: None,
        update_time: time,
    }
}

/// The record of a foreign-exchange pair.
pub open spec fn fx_quote(
    name: Option<Seq<char>>,
    time: Option<Seq<char>>,
    bid: Option<Seq<char>>,
) -> QuoteModel {
    QuoteModel {
        code: None,
        name: name,
        current_value: None,
        previous_day_change: None,
        change_rate: None,
        bid_value: bid,
        update_time: time,
    }
}

/// The bid that the description paired with a term gives: its first price
/// without thousands separators.
pub open spec fn bid_of_description(prices: Option<Seq<Seq<char>>>) -> Option<Seq<char>> {
    match prices {
        Some(texts) => number_at(texts, 0),
        None => None,
    }
}

/// Whether the term at place `at` carries the bid label: its text, without
/// the white space around it, is the label.
pub open spec fn is_bid_term(terms: Seq<(Seq<char>, Option<Seq<Seq<char>>>)>, at: int) -> bool {
    0 <= at < terms.len() && trimmed(terms[at].0) == bid_label()
}

/// The bid found from place `from` of the terms on: that of the first term
/// that carries the bid label and whose description holds a price.
pub open spec fn bid_search(terms: Seq<(Seq<char>, Option<Seq<Seq<char>>>)>, from: nat) -> Option<
    Seq<char>,
>
    decreases terms.len() - from,
{
    if from >= terms.len() {
        None
    } else if is_bid_term(terms, from as int) && bid_of_description(terms[from as int].1) is Some {
        bid_of_description(terms[from as int].1)
    } else {
        bid_search(terms, from + 1)
    }
}

/// The record that a page gives for a kind of instrument, or the message of
/// the selection that failed first. Name and time of update are taken in the
/// same way for both kinds, before the kinds part.
pub open spec fn page_quote(kind: InstrumentKind, page: Seq<char>) -> Result<QuoteModel, Seq<char>> {
    match first_selected(page, name_selector()) {
        Err(message) => Err(message),
        Ok(name) => match first_selected(page, time_selector()) {
            Err(message) => Err(message),
            Ok(time) => match kind {
                InstrumentKind::EquityOrIndex => equity_page_quote(page, name, time),
                InstrumentKind::FxPair => fx_page_quote(page, name, time),
            },
        },
    }
}

/// The equity branch of `page_quote`.
pub open spec fn equity_page_quote(
    page: Seq<char>,
    name: Option<Seq<char>>,
    time: Option<Seq<char>>,
) -> Result<QuoteModel, Seq<char>> {
    match first_selected(page, code_selector()) {
        Err(message) => Err(message),
        Ok(code) => match first_selected(page, price_selector()) {
            Err(message) => Err(message),
            Ok(price) => match selection_texts(page, change_selector()) {
                Err(message) => Err(message),
                Ok(changes) => Ok(equity_quote(name, time, code, price, changes)),
            },
        },
    }
}

/// The foreign-exchange branch of `page_quote`.
pub open spec fn fx_page_quote(
    page: Seq<char>,
    name: Option<Seq<char>>,
    time: Option<Seq<char>>,
) -> Result<QuoteModel, Seq<char>> {
    match paired_texts(page, term_selector(), bid_price_selector()) {
        Err(message) => Err(message),
        Ok(terms) => Ok(fx_quote(name, time, bid_search(terms, 0))),
    }
}

/// The model of what an extraction returns.
pub open spec fn outcome_view(r: Result<FinancialData, ExtractError>) -> Result<
    QuoteModel,
    Seq<char>,
> {
    match r {
        Ok(data) => Ok(data@),
        Err(error) => Err(error@),
    }
}

/// The model of what the selection of one text returns.
pub open spec fn text_outcome(r: Result<Option<String>, ExtractError>) -> Result<
    Option<Seq<char>>,
    Seq<char>,
> {
    match r {
        Ok(text) => Ok(text_view(text)),
        Err(error) => Err(error@),
    }
}

/// The model of what the selection of a list of texts returns.
pub open spec fn texts_outcome(r: Result<Vec<String>, ExtractError>) -> Result<
    Seq<Seq<char>>,
    Seq<char>,
> {
    match r {
        Ok(texts) => Ok(texts_view(texts@)),
        Err(error) => Err(error@),
    }
}

/// The model of what the selection of terms returns.
pub open spec fn terms_outcome(r: Result<Vec<Term>, ExtractError>) -> Result<
    Seq<(Seq<char>, Option<Seq<Seq<char>>>)>,
    Seq<char>,
> {
    match r {
        Ok(terms) => Ok(terms_view(terms@)),
        Err(error) => Err(error@),
    }
}

impl Default for FinancialData {
    /// The record with no field present.
    fn default() -> (r: FinancialData)
        ensures
            r@ == QuoteModel::empty(),
    {
        FinancialData {
            code: None,
            name: None,
            current_value: None,
            previous_day_change: None,
            change_rate: None,
            bid_value: None,
            update_time: None,
        }
    }
}

impl FinancialData {
    /// A copy of the record, field by field.
    pub fn duplicate(&self) -> (r: FinancialData)
        ensures
            r@ == self@,
    {
        FinancialData {
            code: copy_text(&self.code),
            name: copy_text(&self.name),
            current_value: copy_text(&self.current_value),
            previous_day_change: copy_text(&self.previous_day_change),
            change_rate: copy_text(&self.change_rate),
            bid_value: copy_text(&self.bid_value),
            update_time: copy_text(&self.update_time),
        }
    }
}

/// A copy of an optional string.
pub fn copy_text(text: &Option<String>) -> (r: Option<String>)
    ensures
        text_view(r) == text_view(*text),
{
    match text {
        Some(s) => Some(s.clone()),
        None => None,
    }
}

/// Tells the kind of instrument from its code or address.
pub fn classify(code: &str) -> (kind: InstrumentKind)
    ensures
        kind == kind_of(code@),
{
    if contains(code, "USDJPY=FX") {
        InstrumentKind::FxPair
    } else {
        InstrumentKind::EquityOrIndex
    }
}

/// The texts of all elements of `page` that match `selector`, in the order
/// in which they are found. No match gives an empty list; only a selector
/// that cannot be read gives an error.
pub fn get_texts(page: &str, selector: &str) -> (r: Result<Vec<String>, ExtractError>)
    ensures
        texts_outcome(r) == selection_texts(page@, selector@),
        r is Err <==> selector_error(selector@) is Some,
{
    match select_texts(page, selector) {
        Ok(texts) => Ok(texts),
        Err(message) => Err(ExtractError { message }),
    }
}

/// The first of `texts`, taken as it stands.
pub fn first_of(texts: &Vec<String>) -> (r: Option<String>)
    ensures
        text_view(r) == first_text(texts_view(texts@)),
{
    if texts.len() > 0 {
        Some(texts[0].clone())
    } else {
        None
    }
}

/// The text of the first element of `page` that matches `selector`. No
/// match gives no text; only a selector that cannot be read gives an error.
pub fn get_text(page: &str, selector: &str) -> (r: Result<Option<String>, ExtractError>)
    ensures
        text_outcome(r) == first_selected(page@, selector@),
        r is Err <==> selector_error(selector@) is Some,
{
    match get_texts(page, selector) {
        Ok(texts) => Ok(first_of(&texts)),
        Err(error) => Err(error),
    }
}

/// The terms of `page` that match `term`, each with the texts matching
/// `inner` in the description paired with it.
pub fn get_terms(page: &str, term: &str, inner: &str) -> (r: Result<Vec<Term>, ExtractError>)
    ensures
        terms_outcome(r) == paired_texts(page@, term@, inner@),
        r is Err <==> selector_error(term@) is Some || selector_error(inner@) is Some,
{
    match select_terms(page, term, inner) {
        Ok(terms) => Ok(terms),
        Err(message) => Err(ExtractError { message }),
    }
}

/// A displayed figure with its thousands separators removed.
pub fn normalize(text: &Option<String>) -> (r: Option<String>)
    ensures
        text_view(r) == normalized(text_view(*text)),
{
    match text {
        Some(figure) => Some(strip_separators(figure.as_str())),
        None => None,
    }
}

/// The text at place `at` with its thousands separators removed.
pub fn normalized_at(texts: &Vec<String>, at: usize) -> (r: Option<String>)
    ensures
        text_view(r) == number_at(texts_view(texts@), at as int),
{
    if at < texts.len() {
        Some(strip_separators(texts[at].as_str()))
    } else {
        None
    }
}

/// Assembles the record of an equity or an index from the texts found for
/// name, time of update, code and price, and from the list of the change
/// figures in the order in which they stand on the page.
pub fn assemble_equity(
    name: Option<String>,
    time: Option<String>,
    code: Option<String>,
    price: Option<String>,
    changes: &Vec<String>,
) -> (r: FinancialData)
    ensures
        r@ == equity_quote(
            text_view(name),
            text_view(time),
            text_view(code),
            text_view(price),
            texts_view(changes@),
        ),
        r@.well_formed(),
{
    FinancialData {
        code: code,
        name: name,
        current_value: normalize(&price),
        previous_day_change: normalized_at(changes, 0),
        change_rate: normalized_at(changes, 1),
        bid_value: None,
        update_time: time,
    }
}

/// Assembles the record of a foreign-exchange pair.
pub fn assemble_fx(name: Option<String>, time: Option<String>, bid: Option<String>) -> (r:
    FinancialData)
    ensures
        r@ == fx_quote(text_view(name), text_view(time), text_view(bid)),
        r@.well_formed(),
{
    FinancialData {
        code: None,
        name: name,
        current_value: None,
        previous_day_change: None,
        change_rate: None,
        bid_value: bid,
        update_time: time,
    }
}

/// The bid in the prices found in the description paired with a bid term.
pub fn bid_from_description(prices: &Option<Vec<String>>) -> (r: Option<String>)
    ensures
        text_view(r) == bid_of_description(description_view(*prices)),
{
    match prices {
        Some(texts) => normalized_at(texts, 0),
        None => None,
    }
}

/// Looks for the bid among the terms of a foreign-exchange page: the first
/// term that carries the bid label and whose description holds a price gives
/// the bid, and the search ends there.
pub fn find_bid(terms: &Vec<Term>) -> (r: Option<String>)
    ensures
        text_view(r) == bid_search(terms_view(terms@), 0),
{
    let mut at: usize = 0;
    while at < terms.len()
        invariant
            at <= terms.len(),
            bid_search(terms_view(terms@), 0) == bid_search(terms_view(terms@), at as nat),
        decreases terms.len() - at,
    {
        if trimmed_equals(terms[at].label.as_str(), "Bid（売値）") {
            let bid = bid_from_description(&terms[at].prices);
            if bid.is_some() {
                return bid;
            }
        }
        at += 1;
    }
    None
}

/// Extracts the record of an equity or an index, given the name and the time
/// of update that were found.
pub fn extract_equity(page: &str, name: Option<String>, time: Option<String>) -> (r: Result<
    FinancialData,
    ExtractError,
>)
    ensures
        outcome_view(r) == equity_page_quote(page@, text_view(name), text_view(time)),
{
    let code = get_text(page, "span[class*=\"PriceBoard__code\"]")?;
    let price = get_text(
        page,
        "span[class*=\"PriceBoard__price\"] span[class*=\"StyledNumber__value\"]",
    )?;
    let changes = get_texts(
        page,
        "div[class*=\"PriceChangeLabel\"] span[class*=\"StyledNumber__value\"]",
    )?;
    Ok(assemble_equity(name, time, code, price, &changes))
}

/// Extracts the record of a foreign-exchange pair, given the name and the
/// time of update that were found.
pub fn extract_fx(page: &str, name: Option<String>, time: Option<String>) -> (r: Result<
    FinancialData,
    ExtractError,
>)
    ensures
        outcome_view(r) == fx_page_quote(page@, text_view(name), text_view(time)),
{
    let terms = get_terms(
        page,
        "dt[class*=\"_FxPriceBoard__term\"]",
        "span[class*=\"_FxPriceBoard__price\"]",
    )?;
    Ok(assemble_fx(name, time, find_bid(&terms)))
}

/// Extracts the record of an instrument of the given kind from the text of
/// its quote page. A missing element leaves its field absent; only a selector
/// that cannot be read ends the extraction with an error.
pub fn extract_quote(kind: InstrumentKind, page: &str) -> (r: Result<FinancialData, ExtractError>)
    ensures
        outcome_view(r) == page_quote(kind, page@),
        r is Ok <==> selectors_parse(kind),
{
    let name = get_text(page, "h2[class*=\"PriceBoard__name\"]")?;
    let time = get_text(page, "time")?;
    match kind {
        InstrumentKind::EquityOrIndex => extract_equity(page, name, time),
        InstrumentKind::FxPair => extract_fx(page, name, time),
    }
}

/// Extracts the record from the text of the page that was fetched from
/// `url`: the kind of instrument is told from the address.
pub fn extract_financial_data(url: &str, page: &str) -> (r: Result<FinancialData, ExtractError>)
    ensures
        outcome_view(r) == page_quote(kind_of(url@), page@),
        r is Ok <==> selectors_parse(kind_of(url@)),
        r matches Ok(data) ==> data@.well_formed() && (contains_text(url@, fx_marker())
            ==> data.current_value is None && data.previous_day_change is None
            && data.change_rate is None) && (!contains_text(url@, fx_marker())
            ==> data.bid_value is None),
{
    extract_quote(classify(url), page)
}

/// An extraction fails only on a selector that the parser does not read,
/// and so on every page or on none: a missing element is no error.
pub proof fn lemma_failure_is_of_selectors(kind: InstrumentKind, page: Seq<char>)
    ensures
        page_quote(kind, page) is Ok <==> selectors_parse(kind),
{
}

/// The current value of an equity or an index is the text of the first
/// price element with its thousands separators removed, and is absent where
/// the page has no price element.
pub proof fn lemma_current_value(page: Seq<char>)
    requires
        selectors_parse(InstrumentKind::EquityOrIndex),
    ensures
        page_quote(InstrumentKind::EquityOrIndex, page) is Ok,
        page_quote(InstrumentKind::EquityOrIndex, page)->Ok_0.current_value == number_at(
            matched_texts(page, price_selector()),
            0,
        ),
{
}

/// The two change figures are told apart by their place alone: the first is
/// the change against the previous day, the second the rate of change, and
/// each is absent, on its own, where the page has no figure at its place.
pub proof fn lemma_changes_by_place(page: Seq<char>)
    requires
        selectors_parse(InstrumentKind::EquityOrIndex),
    ensures
        page_quote(InstrumentKind::EquityOrIndex, page) is Ok,
        page_quote(InstrumentKind::EquityOrIndex, page)->Ok_0.previous_day_change == number_at(
            matched_texts(page, change_selector()),
            0,
        ),
        page_quote(InstrumentKind::EquityOrIndex, page)->Ok_0.change_rate == number_at(
            matched_texts(page, change_selector()),
            1,
        ),
{
}

/// A page without a name element gives a record without a name, and no
/// error.
pub proof fn lemma_name_absent(kind: InstrumentKind, page: Seq<char>)
    requires
        selectors_parse(kind),
        matched_texts(page, name_selector()).len() == 0,
    ensures
        page_quote(kind, page) is Ok,
        page_quote(kind, page)->Ok_0.name is None,
{
}

/// The price group and the bid exclude each other, whatever the page holds:
/// a foreign-exchange pair has no code, current value, change or rate, and
/// any other instrument has no bid.
pub proof fn lemma_groups_exclusive(code: Seq<char>, page: Seq<char>)
    ensures
        selectors_parse(kind_of(code)) ==> page_quote(kind_of(code), page) is Ok,
        page_quote(kind_of(code), page) matches Ok(quote) ==> {
            &&& quote.well_formed()
            &&& contains_text(code, fx_marker()) ==> quote.current_value is None
                && quote.previous_day_change is None && quote.change_rate is None
                && quote.code is None
            &&& !contains_text(code, fx_marker()) ==> quote.bid_value is None
        },
{
}

/// Where no term from place `from` on carries the bid label, no bid is found.
pub proof fn lemma_bid_absent(terms: Seq<(Seq<char>, Option<Seq<Seq<char>>>)>, from: nat)
    requires
        forall|at: int| from <= at < terms.len() ==> !is_bid_term(terms, at),
    ensures
        bid_search(terms, from) is None,
    decreases terms.len() - from,
{
    if from < terms.len() {
        assert(!is_bid_term(terms, from as int));
        lemma_bid_absent(terms, from + 1);
    }
}

/// Where the first term that carries the bid label stands at place `at`, and
/// the description paired with it holds a price, the bid is the first such
/// price without its thousands separators, whatever terms follow.
pub proof fn lemma_bid_found(
    terms: Seq<(Seq<char>, Option<Seq<Seq<char>>>)>,
    from: nat,
    at: nat,
    prices: Seq<Seq<char>>,
)
    requires
        from <= at,
        is_bid_term(terms, at as int),
        forall|before: int| from <= before < at ==> !is_bid_term(terms, before),
        terms[at as int].1 == Some(prices),
        prices.len() > 0,
    ensures
        bid_search(terms, from) == Some(without_separators(prices[0])),
    decreases at - from,
{
    if from < at {
        assert(!is_bid_term(terms, from as int));
        lemma_bid_found(terms, from + 1, at, prices);
    }
}

/// A bid that is found is the first price of the description of some term
/// that carries the bid label.
pub proof fn lemma_bid_origin(terms: Seq<(Seq<char>, Option<Seq<Seq<char>>>)>, from: nat)
    requires
        bid_search(terms, from) is Some,
    ensures
        exists|at: int|
            from <= at < terms.len() && is_bid_term(terms, at) && bid_search(terms, from)
                == bid_of_description(#[trigger] terms[at].1),
    decreases terms.len() - from,
{
    if is_bid_term(terms, from as int) && bid_of_description(terms[from as int].1) is Some {
        assert(bid_search(terms, from) == bid_of_description(terms[from as int].1));
    } else {
        lemma_bid_origin(terms, from + 1);
        let at = choose|at: int|
            from + 1 <= at < terms.len() && is_bid_term(terms, at) && bid_search(terms, from + 1)
                == bid_of_description(#[trigger] terms[at].1);
        assert(bid_search(terms, from) == bid_of_description(terms[at].1));
    }
}

/// The bid of a foreign-exchange page is what the search finds among its
/// terms: the first price, without separators, of the description paired
/// with the first term that carries the bid label and has a price, and
/// absent where no term carries the label.
pub proof fn lemma_bid_value(page: Seq<char>)
    requires
        selectors_parse(InstrumentKind::FxPair),
    ensures
        page_quote(InstrumentKind::FxPair, page) is Ok,
        page_quote(InstrumentKind::FxPair, page)->Ok_0.bid_value == bid_search(
            matched_terms(page, term_selector(), bid_price_selector()),
            0,
        ),
        (forall|at: int|
            !is_bid_term(matched_terms(page, term_selector(), bid_price_selector()), at))
            ==> page_quote(InstrumentKind::FxPair, page)->Ok_0.bid_value is None,
{
    let terms = matched_terms(page, term_selector(), bid_price_selector());
    if forall|at: int| !is_bid_term(terms, at) {
        lemma_bid_absent(terms, 0);
    }
}

} // verus!
