use quote_extract::page::Term;
use quote_extract::text::has_digit;
use quote_extract::quote::{
    assemble_equity, assemble_fx, bid_from_description, classify, copy_text, extract_equity,
    extract_financial_data, extract_fx, extract_quote, find_bid, first_of, get_terms, get_text,
    get_texts, normalize, normalized_at, FinancialData, InstrumentKind,
};

const EQUITY_URL: &str = "https://finance.yahoo.co.jp/quote/6758";
const FX_URL: &str = "https://finance.yahoo.co.jp/quote/USDJPY=FX";

fn equity_page() -> String {
    String::from(
        "<html><body>\
         <h2 class=\"PriceBoard__name__a1\">Sony Group</h2>\
         <span class=\"PriceBoard__code__b2\">6758</span>\
         <time>15:00</time><time>14:59</time>\
         <span class=\"PriceBoard__price__c3\"><span class=\"StyledNumber__value__d4\">12,345.5</span></span>\
         <div class=\"PriceChangeLabel__e5\">\
         <span class=\"StyledNumber__value__d4\">+123</span>\
         <span class=\"StyledNumber__value__d4\">4.56</span>\
         </div></body></html>",
    )
}

fn fx_page() -> String {
    String::from(
        "<html><body>\
         <h2 class=\"PriceBoard__name__a1\">USD/JPY</h2><time>09:30</time>\
         <dl>\
         <dt class=\"_FxPriceBoard__term_x\">Ask（買値）</dt>\
         <dd class=\"_FxPriceBoard__description_y\"><span class=\"_FxPriceBoard__price_z\">151.000</span></dd>\
         <dt class=\"_FxPriceBoard__term_x\"> Bid（売値）\n</dt>\
         <dd class=\"_FxPriceBoard__description_y\"><span class=\"_FxPriceBoard__price_z\">1,150.<b>123</b></span></dd>\
         <dt class=\"_FxPriceBoard__term_x\">Bid（売値）</dt>\
         <dd class=\"_FxPriceBoard__description_y\"><span class=\"_FxPriceBoard__price_z\">999</span></dd>\
         </dl></body></html>",
    )
}

fn number(text: &Option<String>) -> Option<f64> {
    text.as_ref().map(|t| if has_digit(t) { t.parse().unwrap_or(0.0) } else { 0.0 })
}

fn texts(items: &[&str]) -> Vec<String> {
    items.iter().map(|s| s.to_string()).collect()
}

fn extract(url: &str, page: &str) -> FinancialData {
    match extract_financial_data(url, page) {
        Ok(data) => data,
        Err(error) => panic!("extraction failed: {}", error.message),
    }
}

#[test]
fn equity_page_gives_every_field() {
    let data = extract(EQUITY_URL, &equity_page());
    assert_eq!(data.name.as_deref(), Some("Sony Group"));
    assert_eq!(data.code.as_deref(), Some("6758"));
    assert_eq!(data.update_time.as_deref(), Some("15:00"));
    assert_eq!(data.current_value.as_deref(), Some("12345.5"));
    assert_eq!(data.previous_day_change.as_deref(), Some("+123"));
    assert_eq!(data.change_rate.as_deref(), Some("4.56"));
    assert_eq!(data.bid_value, None);
}

#[test]
fn current_value_is_price_without_separators() {
    let data = extract(EQUITY_URL, &equity_page());
    assert_eq!(number(&data.current_value), Some(12345.5));
}

#[test]
fn changes_are_paired_by_position() {
    let data = extract(EQUITY_URL, &equity_page());
    assert_eq!(number(&data.previous_day_change), Some(123.0));
    assert_eq!(number(&data.change_rate), Some(4.56));
}

#[test]
fn single_change_fills_only_the_first() {
    let page = "<div class=\"PriceChangeLabel\"><span class=\"StyledNumber__value\">-1,000</span></div>";
    let data = extract(EQUITY_URL, page);
    assert_eq!(data.previous_day_change.as_deref(), Some("-1000"));
    assert_eq!(data.change_rate, None);
    assert_eq!(data.current_value, None);
}

#[test]
fn third_change_is_ignored() {
    let page = "<div class=\"PriceChangeLabel\">\
                <span class=\"StyledNumber__value\">1</span>\
                <span class=\"StyledNumber__value\">2</span>\
                <span class=\"StyledNumber__value\">3</span></div>";
    let data = extract(EQUITY_URL, page);
    assert_eq!(data.previous_day_change.as_deref(), Some("1"));
    assert_eq!(data.change_rate.as_deref(), Some("2"));
}

#[test]
fn missing_name_is_absent_not_an_error() {
    let page = "<html><body><span class=\"PriceBoard__code\">6758</span><time>15:00</time></body></html>";
    let result = extract_financial_data(EQUITY_URL, page);
    assert!(result.is_ok());
    let data = result.unwrap();
    assert_eq!(data.name, None);
    assert_eq!(data.code.as_deref(), Some("6758"));
    assert_eq!(data.update_time.as_deref(), Some("15:00"));
}

#[test]
fn empty_page_gives_empty_record() {
    for url in [EQUITY_URL, FX_URL] {
        let data = extract(url, "");
        assert_eq!(data.name, None);
        assert_eq!(data.code, None);
        assert_eq!(data.current_value, None);
        assert_eq!(data.previous_day_change, None);
        assert_eq!(data.change_rate, None);
        assert_eq!(data.bid_value, None);
        assert_eq!(data.update_time, None);
    }
}

#[test]
fn non_numeric_price_reads_as_zero() {
    let page = "<span class=\"PriceBoard__price\"><span class=\"StyledNumber__value\">---</span></span>";
    let data = extract(EQUITY_URL, page);
    assert_eq!(data.current_value.as_deref(), Some("---"));
    assert_eq!(number(&data.current_value), Some(0.0));
}

#[test]
fn spelled_out_price_reads_as_zero() {
    for word in ["NaN", "inf", "-inf", "infinity", "nan"] {
        let page = format!(
            "<span class=\"PriceBoard__price\"><span class=\"StyledNumber__value\">{}</span></span>",
            word
        );
        let data = extract(EQUITY_URL, &page);
        assert_eq!(data.current_value.as_deref(), Some(word));
        assert_eq!(number(&data.current_value), Some(0.0));
    }
}

#[test]
fn selector_error_does_not_depend_on_the_page() {
    let on_empty = get_text("", "p[").err().unwrap();
    let on_page = get_text("<p class=\"a\">text</p>", "p[").err().unwrap();
    assert_eq!(on_empty.message, on_page.message);
    let terms_first = get_terms("<p>x</p>", "p[", "[[").err().unwrap();
    assert_eq!(terms_first.message, on_empty.message);
    let terms_second = get_terms("", "p", "p[").err().unwrap();
    assert_eq!(terms_second.message, on_empty.message);
    for page in ["", "<p>x</p>", "<dl><dt>a</dt></dl>"] {
        assert!(get_text(page, "p").is_ok());
        assert!(get_texts(page, "dt[class*=\"x\"] span").is_ok());
        assert!(extract_financial_data(EQUITY_URL, page).is_ok());
        assert!(extract_financial_data(FX_URL, page).is_ok());
    }
}

#[test]
fn zero_price_reads_as_zero() {
    let page = "<span class=\"PriceBoard__price\"><span class=\"StyledNumber__value\">0</span></span>";
    let data = extract(EQUITY_URL, page);
    assert_eq!(number(&data.current_value), Some(0.0));
}

#[test]
fn fx_page_gives_first_bid() {
    let data = extract(FX_URL, &fx_page());
    assert_eq!(data.name.as_deref(), Some("USD/JPY"));
    assert_eq!(data.update_time.as_deref(), Some("09:30"));
    assert_eq!(data.bid_value.as_deref(), Some("1150.123"));
    assert_eq!(number(&data.bid_value), Some(1150.123));
}

#[test]
fn fx_page_never_fills_price_group() {
    let mut page = equity_page();
    page.push_str(&fx_page());
    let data = extract(FX_URL, &page);
    assert_eq!(data.code, None);
    assert_eq!(data.current_value, None);
    assert_eq!(data.previous_day_change, None);
    assert_eq!(data.change_rate, None);
    assert!(data.bid_value.is_some());
}

#[test]
fn equity_page_never_fills_bid() {
    let mut page = equity_page();
    page.push_str(&fx_page());
    let data = extract(EQUITY_URL, &page);
    assert_eq!(data.bid_value, None);
    assert!(data.current_value.is_some());
}

#[test]
fn fx_page_without_bid_term_has_no_bid() {
    let page = "<dl><dt class=\"_FxPriceBoard__term\">Ask（買値）</dt>\
                <dd><span class=\"_FxPriceBoard__price\">151.0</span></dd></dl>";
    let data = extract(FX_URL, page);
    assert_eq!(data.bid_value, None);
}

#[test]
fn bid_label_must_match_exactly() {
    let page = "<dl><dt class=\"_FxPriceBoard__term\">Bid</dt>\
                <dd><span class=\"_FxPriceBoard__price\">151.0</span></dd></dl>";
    let data = extract(FX_URL, page);
    assert_eq!(data.bid_value, None);
}

#[test]
fn bid_term_without_price_passes_to_the_next() {
    let page = "<dl><dt class=\"_FxPriceBoard__term\">Bid（売値）</dt><dd>none</dd>\
                <dt class=\"_FxPriceBoard__term\">Bid（売値）</dt>\
                <dd><span class=\"_FxPriceBoard__price\">149.5</span></dd></dl>";
    let data = extract(FX_URL, page);
    assert_eq!(data.bid_value.as_deref(), Some("149.5"));
}

#[test]
fn bid_term_without_sibling_has_no_bid() {
    let page = "<dl><dt class=\"_FxPriceBoard__term\">Bid（売値）</dt></dl>";
    let data = extract(FX_URL, page);
    assert_eq!(data.bid_value, None);
}

#[test]
fn bid_comes_from_the_following_sibling_only() {
    let page = "<dl><dd><span class=\"_FxPriceBoard__price\">1</span></dd>\
                <dt class=\"_FxPriceBoard__term\">Bid（売値）</dt>\
                <dd><span class=\"_FxPriceBoard__price\">2</span><span class=\"_FxPriceBoard__price\">3</span></dd></dl>";
    let data = extract(FX_URL, page);
    assert_eq!(data.bid_value.as_deref(), Some("2"));
}

fn term(label: &str, prices: Option<&[&str]>) -> Term {
    Term { label: label.to_string(), prices: prices.map(texts) }
}

#[test]
fn find_bid_takes_first_labelled_price() {
    let terms = vec![
        term("Ask（買値）", Some(&["151.000"])),
        term(" Bid（売値）\n", Some(&["1,150.123", "7"])),
        term("Bid（売値）", Some(&["999"])),
    ];
    assert_eq!(find_bid(&terms).as_deref(), Some("1150.123"));
}

#[test]
fn find_bid_skips_terms_without_price() {
    let terms = vec![
        term("Bid（売値）", None),
        term("Bid（売値）", Some(&[])),
        term("Bid（売値）", Some(&["3"])),
    ];
    assert_eq!(find_bid(&terms).as_deref(), Some("3"));
    let bare = vec![term("Bid（売値）", None), term("Bid（売値）", Some(&[]))];
    assert_eq!(find_bid(&bare), None);
}

#[test]
fn find_bid_without_label_finds_nothing() {
    let terms = vec![
        term("Ask（買値）", Some(&["1"])),
        term("Bid", Some(&["2"])),
        term("bid（売値）", Some(&["3"])),
    ];
    assert_eq!(find_bid(&terms), None);
    assert_eq!(find_bid(&Vec::new()), None);
}

#[test]
fn classify_goes_by_the_marker() {
    assert_eq!(classify(FX_URL), InstrumentKind::FxPair);
    assert_eq!(classify("USDJPY=FX"), InstrumentKind::FxPair);
    assert_eq!(classify(EQUITY_URL), InstrumentKind::EquityOrIndex);
    assert_eq!(classify("^DJI"), InstrumentKind::EquityOrIndex);
    assert_eq!(classify(""), InstrumentKind::EquityOrIndex);
}

#[test]
fn extract_quote_follows_the_kind() {
    let mut page = equity_page();
    page.push_str(&fx_page());
    let equity = extract_quote(InstrumentKind::EquityOrIndex, &page).ok().unwrap();
    assert_eq!(equity.current_value.as_deref(), Some("12345.5"));
    assert_eq!(equity.bid_value, None);
    let fx = extract_quote(InstrumentKind::FxPair, &page).ok().unwrap();
    assert_eq!(fx.current_value, None);
    assert_eq!(fx.bid_value.as_deref(), Some("1150.123"));
}

#[test]
fn text_includes_nested_elements() {
    let page = "<h2 class=\"x PriceBoard__name y\">A<b>B</b>C</h2>";
    let data = extract(EQUITY_URL, page);
    assert_eq!(data.name.as_deref(), Some("ABC"));
}

fn some(text: &str) -> Option<String> {
    Some(text.to_string())
}

#[test]
fn assemble_equity_pairs_changes_by_place() {
    let data = assemble_equity(some("N"), some("T"), None, some("1,000"), &texts(&["+123", "4.56"]));
    assert_eq!(data.name.as_deref(), Some("N"));
    assert_eq!(data.update_time.as_deref(), Some("T"));
    assert_eq!(data.code, None);
    assert_eq!(data.current_value.as_deref(), Some("1000"));
    assert_eq!(number(&data.previous_day_change), Some(123.0));
    assert_eq!(number(&data.change_rate), Some(4.56));
    assert_eq!(data.bid_value, None);
}

#[test]
fn assemble_equity_with_short_change_list() {
    let one = assemble_equity(None, None, some("6758"), None, &texts(&["+1,5"]));
    assert_eq!(one.code.as_deref(), Some("6758"));
    assert_eq!(one.current_value, None);
    assert_eq!(one.previous_day_change.as_deref(), Some("+15"));
    assert_eq!(one.change_rate, None);
    let none = assemble_equity(None, None, None, None, &texts(&[]));
    assert_eq!(none.previous_day_change, None);
    assert_eq!(none.change_rate, None);
    let three = assemble_equity(None, None, None, None, &texts(&["1", "2", "3"]));
    assert_eq!(three.previous_day_change.as_deref(), Some("1"));
    assert_eq!(three.change_rate.as_deref(), Some("2"));
}

#[test]
fn assemble_fx_keeps_the_bid() {
    let data = assemble_fx(some("N"), None, some("150.1"));
    assert_eq!(data.name.as_deref(), Some("N"));
    assert_eq!(data.update_time, None);
    assert_eq!(data.bid_value.as_deref(), Some("150.1"));
    assert_eq!(data.current_value, None);
    assert_eq!(data.previous_day_change, None);
    assert_eq!(data.change_rate, None);
    assert_eq!(data.code, None);
}

#[test]
fn get_text_takes_the_first_match() {
    let page = "<p class=\"a-1\">one</p><p class=\"b a-2\">two</p>";
    assert_eq!(get_text(page, "p[class*=\"a-\"]").ok().unwrap().as_deref(), Some("one"));
    assert_eq!(get_text(page, "p[class*=\"b\"]").ok().unwrap().as_deref(), Some("two"));
    assert_eq!(get_text(page, "p[class*=\"c\"]").ok().unwrap(), None);
    assert_eq!(get_text("", "p").ok().unwrap(), None);
}

#[test]
fn get_texts_lists_matches_in_the_order_found() {
    let page = "<div class=\"x\"><span class=\"v1\">a</span><i><span class=\"v2\">b</span></i></div>\
                <span class=\"v3\">c</span>";
    assert_eq!(get_texts(page, "span[class*=\"v\"]").ok().unwrap(), vec!["a", "b", "c"]);
    assert_eq!(
        get_texts(page, "div[class*=\"x\"] span[class*=\"v\"]").ok().unwrap(),
        vec!["a", "b"]
    );
    assert_eq!(get_texts(page, "b").ok().unwrap(), Vec::<String>::new());
}

#[test]
fn unreadable_selector_is_the_error() {
    let page = "<p>text</p>";
    let error = get_text(page, "p[").err().unwrap();
    assert!(!error.message.is_empty());
    assert_ne!(error.message, "p[");
    assert!(get_texts(page, "[[").is_err());
    assert!(get_terms(page, "p[", "p").is_err());
    assert!(get_terms(page, "p", "p[").is_err());
    assert!(get_terms(page, "p", "p").is_ok());
}

#[test]
fn get_terms_pairs_each_term_with_its_description() {
    let page = "<dl><dt>a</dt><dd><b>1</b><b>2</b></dd><dt>c</dt>text<dt>d</dt><dd>none</dd><dt>e</dt></dl>";
    let terms = get_terms(page, "dt", "b").ok().unwrap();
    assert_eq!(terms.len(), 4);
    assert_eq!(terms[0].label, "a");
    assert_eq!(terms[0].prices, Some(texts(&["1", "2"])));
    assert_eq!(terms[1].label, "c");
    assert_eq!(terms[1].prices, Some(texts(&[])));
    assert_eq!(terms[2].label, "d");
    assert_eq!(terms[2].prices, Some(texts(&[])));
    assert_eq!(terms[3].label, "e");
    assert_eq!(terms[3].prices, None);
}

#[test]
fn branches_take_name_and_time_as_given() {
    let mut page = equity_page();
    page.push_str(&fx_page());
    let equity = extract_equity(&page, some("given"), None).ok().unwrap();
    assert_eq!(equity.name.as_deref(), Some("given"));
    assert_eq!(equity.update_time, None);
    assert_eq!(equity.code.as_deref(), Some("6758"));
    assert_eq!(equity.current_value.as_deref(), Some("12345.5"));
    let fx = extract_fx(&page, None, some("now")).ok().unwrap();
    assert_eq!(fx.name, None);
    assert_eq!(fx.update_time.as_deref(), Some("now"));
    assert_eq!(fx.bid_value.as_deref(), Some("1150.123"));
    assert_eq!(fx.code, None);
}

#[test]
fn helpers_on_lists() {
    assert_eq!(first_of(&texts(&[])), None);
    assert_eq!(first_of(&texts(&["a", "b"])).as_deref(), Some("a"));
    assert_eq!(normalized_at(&texts(&["1,1"]), 0).as_deref(), Some("11"));
    assert_eq!(normalized_at(&texts(&["1,1"]), 1), None);
    assert_eq!(normalize(&some("1,234,567")).as_deref(), Some("1234567"));
    assert_eq!(normalize(&None), None);
    assert_eq!(copy_text(&some("a,b")).as_deref(), Some("a,b"));
    assert_eq!(copy_text(&None), None);
    assert_eq!(bid_from_description(&None), None);
    assert_eq!(bid_from_description(&Some(texts(&[]))), None);
    assert_eq!(bid_from_description(&Some(texts(&["1,2", "3"]))).as_deref(), Some("12"));
}

#[test]
fn duplicate_copies_every_field() {
    let data = extract(EQUITY_URL, &equity_page());
    let copy = data.duplicate();
    assert_eq!(copy.name, data.name);
    assert_eq!(copy.code, data.code);
    assert_eq!(copy.current_value, data.current_value);
    assert_eq!(copy.previous_day_change, data.previous_day_change);
    assert_eq!(copy.change_rate, data.change_rate);
    assert_eq!(copy.bid_value, data.bid_value);
    assert_eq!(copy.update_time, data.update_time);
    let empty = FinancialData::default();
    assert_eq!(empty.name, None);
    assert_eq!(empty.bid_value, None);
}
