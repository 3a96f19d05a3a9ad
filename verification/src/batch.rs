//! The handling of requests: the address of a quote page, the answer to a
//! request for one code, the built-in list of instruments, and what is kept
//! of a batch of extractions. Fetching the pages is the caller's: each
//! function takes what the fetch returned, the page's text or the message of
//! the failure.

use vstd::prelude::*;
use vstd::string::*;
use crate::page::texts_view;
use crate::quote::{
    extract_financial_data, fx_marker, kind_of, outcome_view, page_quote, selectors_parse,
    ExtractError, FinancialData, QuoteModel, QuoteRequest,
};
use crate::text::{contains_text, occurs_at};

verus! {

/// The address under which the quote pages stand.
pub open spec fn quote_base() -> Seq<char> {
    "https://finance.yahoo.co.jp/quote/"@
}

/// What precedes the error's message in the answer to a failed request.
pub open spec fn failure_prefix() -> Seq<char> {
    "データの取得に失敗しました: "@
}

/// The codes of the built-in list, in the order in which they are answered.
pub open spec fn default_code_list() -> Seq<Seq<char>> {
    seq!["^DJI"@, "998407.O"@, "USDJPY=FX"@]
}

/// The outcome of one pipeline: the failure of the fetch, or what the
/// extraction makes of the page that was fetched.
pub open spec fn fetch_outcome(url: Seq<char>, fetched: Result<Seq<char>, Seq<char>>) -> Result<
    QuoteModel,
    Seq<char>,
> {
    match fetched {
        Err(message) => Err(message),
        Ok(page) => page_quote(kind_of(url), page),
    }
}

/// The successes among `outcomes`, in their order.
pub open spec fn kept(outcomes: Seq<Result<QuoteModel, Seq<char>>>) -> Seq<QuoteModel>
    decreases outcomes.len(),
{
    if outcomes.len() == 0 {
        Seq::empty()
    } else {
        match outcomes.last() {
            Ok(quote) => kept(outcomes.drop_last()).push(quote),
            Err(_) => kept(outcomes.drop_last()),
        }
    }
}

/// The number of failures among `outcomes`.
pub open spec fn failures(outcomes: Seq<Result<QuoteModel, Seq<char>>>) -> nat
    decreases outcomes.len(),
{
    if outcomes.len() == 0 {
        0
    } else if outcomes.last() is Err {
        failures(outcomes.drop_last()) + 1
    } else {
        failures(outcomes.drop_last())
    }
}

/// The models of a list of records.
pub open spec fn quotes_view(quotes: Seq<FinancialData>) -> Seq<QuoteModel> {
    quotes.map_values(|q: FinancialData| q@)
}

/// The models of the results of a batch.
pub open spec fn results_view(results: Seq<Result<FinancialData, ExtractError>>) -> Seq<
    Result<QuoteModel, Seq<char>>,
> {
    results.map_values(|r: Result<FinancialData, ExtractError>| outcome_view(r))
}

/// The model of what a fetch returned.
pub open spec fn fetched_view(fetched: Result<String, String>) -> Result<Seq<char>, Seq<char>> {
    match fetched {
        Ok(page) => Ok(page@),
        Err(message) => Err(message@),
    }
}

/// The models of what the fetches of a batch returned.
pub open spec fn fetches_view(fetched: Seq<Result<String, String>>) -> Seq<
    Result<Seq<char>, Seq<char>>,
> {
    fetched.map_values(|f: Result<String, String>| fetched_view(f))
}

/// The number of pipelines of a batch: a code without a fetch, or a fetch
/// without a code, makes none.
pub open spec fn batch_len(codes: Seq<Seq<char>>, fetched: Seq<Result<Seq<char>, Seq<char>>>) -> nat {
    if codes.len() <= fetched.len() {
        codes.len()
    } else {
        fetched.len()
    }
}

/// The outcomes of the pipelines of a batch, one for each code with what the
/// fetch of its page returned.
pub open spec fn batch_outcomes(
    codes: Seq<Seq<char>>,
    fetched: Seq<Result<Seq<char>, Seq<char>>>,
) -> Seq<Result<QuoteModel, Seq<char>>> {
    Seq::new(
        batch_len(codes, fetched),
        |i: int| fetch_outcome(quote_base() + codes[i], fetched[i]),
    )
}

/// The answer to a request for one code.
pub enum QuoteReply {
    /// The record, to be sent with the status of success.
    Found(FinancialData),
    /// The text of the failure, to be sent with the status of a server error.
    Failed(String),
}

/// The model of an answer.
pub enum ReplyModel {
    Found(QuoteModel),
    Failed(Seq<char>),
}

impl View for QuoteReply {
    type V = ReplyModel;

    open spec fn view(&self) -> ReplyModel {
        match *self {
            QuoteReply::Found(data) => ReplyModel::Found(data@),
            QuoteReply::Failed(text) => ReplyModel::Failed(text@),
        }
    }
}

/// The answer that an outcome is given: the record, or the failure's message
/// behind its prefix.
pub open spec fn reply_of(outcome: Result<QuoteModel, Seq<char>>) -> ReplyModel {
    match outcome {
        Ok(quote) => ReplyModel::Found(quote),
        Err(message) => ReplyModel::Failed(failure_prefix() + message),
    }
}

/// The status of success.
pub const STATUS_OK: u16 = 200;

/// The status of a server error.
pub const STATUS_FAILED: u16 = 500;

impl QuoteReply {
    /// The status with which the answer is sent.
    pub fn status(&self) -> (code: u16)
        ensures
            code == (if self@ is Found { STATUS_OK } else { STATUS_FAILED }),
    {
        match self {
            QuoteReply::Found(_) => STATUS_OK,
            QuoteReply::Failed(_) => STATUS_FAILED,
        }
    }
}

/// The address of a code is of the code's kind: the marker of the
/// foreign-exchange pair stands in the address exactly where it stands in
/// the code.
pub proof fn lemma_kind_of_address(code: Seq<char>)
    ensures
        kind_of(quote_base() + code) == kind_of(code),
{
    let base = quote_base();
    let marker = fx_marker();
    let url = base + code;
    reveal_strlit("https://finance.yahoo.co.jp/quote/");
    reveal_strlit("USDJPY=FX");
    assert(marker.len() == 9 && marker[0] == 'U');
    assert(base.len() == 34);
    if contains_text(code, marker) {
        let at = choose|at: int| occurs_at(code, marker, at);
        assert(url.subrange(base.len() + at, base.len() + at + marker.len()) =~= code.subrange(
            at,
            at + marker.len(),
        ));
        assert(occurs_at(url, marker, base.len() + at));
    }
    if contains_text(url, marker) {
        let at = choose|at: int| occurs_at(url, marker, at);
        assert(url.subrange(at, at + marker.len())[0] == url[at]);
        if at < base.len() {
            assert(url[at] == base[at]);
            assert(forall|i: int| 0 <= i < 34 ==> base[i] != 'U');
            assert(false);
        }
        assert(code.subrange(at - base.len(), at - base.len() + marker.len()) =~= url.subrange(
            at,
            at + marker.len(),
        ));
        assert(occurs_at(code, marker, at - base.len()));
    }
}

/// Every outcome is either kept or counted as a failure: one failure costs
/// one record and no other.
pub proof fn lemma_kept_count(outcomes: Seq<Result<QuoteModel, Seq<char>>>)
    ensures
        kept(outcomes).len() + failures(outcomes) == outcomes.len(),
    decreases outcomes.len(),
{
    if outcomes.len() > 0 {
        lemma_kept_count(outcomes.drop_last());
    }
}

/// A failure is isolated: it leaves the batch's records as they would be
/// had its code not been asked for.
pub proof fn lemma_failure_isolated(outcomes: Seq<Result<QuoteModel, Seq<char>>>, at: int)
    requires
        0 <= at < outcomes.len(),
        outcomes[at] is Err,
    ensures
        kept(outcomes) == kept(outcomes.remove(at)),
    decreases outcomes.len(),
{
    if at == outcomes.len() - 1 {
        assert(outcomes.remove(at) =~= outcomes.drop_last());
    } else {
        lemma_failure_isolated(outcomes.drop_last(), at);
        assert(outcomes.remove(at).drop_last() =~= outcomes.drop_last().remove(at));
        assert(outcomes.remove(at).last() == outcomes.last());
    }
}

/// Where nothing failed, every record is kept, each at its place.
pub proof fn lemma_kept_all(outcomes: Seq<Result<QuoteModel, Seq<char>>>)
    requires
        forall|i: int| 0 <= i < outcomes.len() ==> (#[trigger] outcomes[i]) is Ok,
    ensures
        kept(outcomes).len() == outcomes.len(),
        forall|i: int| 0 <= i < outcomes.len() ==> Ok::<QuoteModel, Seq<char>>(#[trigger] kept(outcomes)[i]) == outcomes[i],
    decreases outcomes.len(),
{
    if outcomes.len() > 0 {
        lemma_kept_all(outcomes.drop_last());
    }
}

/// The address of the quote page of `code`.
pub fn quote_url(code: &str) -> (url: String)
    ensures
        url@ == quote_base() + code@,
{
    let mut url = String::from_str("https://finance.yahoo.co.jp/quote/");
    url.append(code);
    url
}

/// The address of the page that a request asks for.
pub fn request_url(request: &QuoteRequest) -> (url: String)
    ensures
        url@ == quote_base() + request.code@,
{
    quote_url(request.code.as_str())
}

/// The text that answers a request whose extraction failed.
pub fn failure_message(error: &ExtractError) -> (text: String)
    ensures
        text@ == failure_prefix() + error@,
{
    let mut text = String::from_str("データの取得に失敗しました: ");
    text.append(error.message.as_str());
    text
}

/// The codes of the built-in list.
pub fn default_codes() -> (codes: Vec<String>)
    ensures
        texts_view(codes@) == default_code_list(),
{
    let mut codes: Vec<String> = Vec::new();
    codes.push(String::from_str("^DJI"));
    codes.push(String::from_str("998407.O"));
    codes.push(String::from_str("USDJPY=FX"));
    proof {
        assert(texts_view(codes@) =~= default_code_list());
    }
    codes
}

/// The result of one pipeline from what the fetch of `url` returned: a
/// failed fetch is the pipeline's error, a page goes through the extraction.
pub fn fetch_financial_data(url: &str, fetched: &Result<String, String>) -> (r: Result<
    FinancialData,
    ExtractError,
>)
    ensures
        outcome_view(r) == fetch_outcome(url@, fetched_view(*fetched)),
        r is Ok <==> *fetched is Ok && selectors_parse(kind_of(url@)),
{
    match fetched {
        Err(message) => Err(ExtractError { message: message.clone() }),
        Ok(page) => extract_financial_data(url, page.as_str()),
    }
}

/// The answer to a request for one code, from what the fetch of its page
/// returned.
pub fn get_quote_by_code(req: &QuoteRequest, fetched: &Result<String, String>) -> (reply: QuoteReply)
    ensures
        reply@ == reply_of(fetch_outcome(quote_base() + req.code@, fetched_view(*fetched))),
        reply@ is Found <==> *fetched is Ok && selectors_parse(kind_of(req.code@)),
{
    proof {
        lemma_kind_of_address(req.code@);
    }
    let url = request_url(req);
    match fetch_financial_data(url.as_str(), fetched) {
        Ok(data) => QuoteReply::Found(data),
        Err(error) => QuoteReply::Failed(failure_message(&error)),
    }
}

/// The records of the successful results, in their order; the failures are
/// left out and change nothing else.
pub fn successful_quotes(results: &Vec<Result<FinancialData, ExtractError>>) -> (quotes: Vec<
    FinancialData,
>)
    ensures
        quotes_view(quotes@) == kept(results_view(results@)),
{
    let mut quotes: Vec<FinancialData> = Vec::new();
    let mut i: usize = 0;
    while i < results.len()
        invariant
            i <= results.len(),
            quotes_view(quotes@) == kept(results_view(results@).take(i as int)),
        decreases results.len() - i,
    {
        proof {
            assert(results_view(results@).take(i + 1).drop_last() =~= results_view(results@).take(
                i as int,
            ));
        }
        let ghost before = quotes@;
        match &results[i] {
            Ok(data) => {
                quotes.push(data.duplicate());
                proof {
                    assert(quotes_view(quotes@) =~= quotes_view(before).push(results[i as int]->Ok_0@));
                }
            },
            Err(_) => {},
        }
        i += 1;
    }
    proof {
        assert(results_view(results@).take(results.len() as int) =~= results_view(results@));
    }
    quotes
}

/// Runs one pipeline for each code on what the fetch of its page returned,
/// each on its own, and keeps the successes in the order of the codes.
pub fn batch_quotes(codes: &Vec<String>, fetched: &Vec<Result<String, String>>) -> (quotes: Vec<
    FinancialData,
>)
    ensures
        quotes_view(quotes@) == kept(batch_outcomes(texts_view(codes@), fetches_view(fetched@))),
{
    let ghost outcomes = batch_outcomes(texts_view(codes@), fetches_view(fetched@));
    let mut results: Vec<Result<FinancialData, ExtractError>> = Vec::new();
    let mut i: usize = 0;
    while i < codes.len() && i < fetched.len()
        invariant
            i <= codes.len(),
            i <= fetched.len(),
            outcomes == batch_outcomes(texts_view(codes@), fetches_view(fetched@)),
            results_view(results@) == outcomes.take(i as int),
        decreases codes.len() - i,
    {
        let ghost before = results@;
        let url = quote_url(codes[i].as_str());
        let r = fetch_financial_data(url.as_str(), &fetched[i]);
        results.push(r);
        proof {
            assert(results_view(results@) =~= results_view(before).push(outcome_view(r)));
            assert(outcomes.take(i + 1) =~= outcomes.take(i as int).push(outcomes[i as int]));
        }
        i += 1;
    }
    proof {
        assert(outcomes.take(i as int) =~= outcomes);
    }
    successful_quotes(&results)
}

/// The records of the built-in codes from what the fetches of their pages
/// returned, in the order of the codes; a code whose pipeline failed is left
/// out.
pub fn get_default_quotes(fetched: &Vec<Result<String, String>>) -> (quotes: Vec<FinancialData>)
    ensures
        quotes_view(quotes@) == kept(batch_outcomes(default_code_list(), fetches_view(fetched@))),
{
    let codes = default_codes();
    batch_quotes(&codes, fetched)
}

} // verus!
