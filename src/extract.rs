//! Reading a price out of one region's storefront page.
//!
//! The strategies run in a fixed order and the first that yields a price
//! wins: the page's embedded catalog cache, its Open Graph price tags, its
//! linked-data offer, and last a legacy price label, which gives display text
//! only.

use vstd::prelude::*;
use crate::collect::Extraction;
use crate::json::{
    deref_opt, element, field, get_element, get_field, get_text, member, parse_json,
    parsed_json, same_scalar, same_scalar_exec, text_value, Json,
};
use crate::text::{parse_thousandths, thousandths_of};

verus! {

/// The embedded catalog cache; its first group is the cache's JSON text.
pub const CACHE_PATTERN: &'static str = r#"<script[^>]*id="shoebox-media-api-cache-apps"[^>]*>([\s\S]*?)</script>"#;

/// The Open Graph price amount tag.
pub const OG_AMOUNT_PATTERN: &'static str = r#"<meta property="og:price:amount" content="([^"]+)""#;

/// The Open Graph price currency tag.
pub const OG_CURRENCY_PATTERN: &'static str = r#"<meta property="og:price:currency" content="([^"]+)""#;

/// The linked-data block; its first group is the block's JSON text.
pub const LINKED_DATA_PATTERN: &'static str = r#"<script[^>]*type="application/ld\+json"[^>]*>([\s\S]*?)</script>"#;

/// The legacy price label in the page header.
pub const LEGACY_PATTERN: &'static str = r#"<li[^>]*class="inline-list__item[^"]*app-header__list__item--price"[^>]*>([^<]+)</li>"#;

/// The Open Graph title tag.
pub const TITLE_PATTERN: &'static str = r#"<meta property="og:title" content="([^"]+)""#;

/// What the regex crate finds: the first group of the leftmost match of
/// `pattern` in `text`; `None` when nothing matches, the group took no part,
/// or the pattern does not compile.
pub uninterp spec fn regex_capture(pattern: Seq<char>, text: Seq<char>) -> Option<Seq<char>>;

/// `s` without its leading and trailing white space, as `str::trim` gives it.
pub uninterp spec fn trimmed(s: Seq<char>) -> Seq<char>;

/// `s` with every occurrence of `from` replaced by `to`, as `str::replace` gives it.
pub uninterp spec fn replaced(s: Seq<char>, from: Seq<char>, to: Seq<char>) -> Seq<char>;

/// The text an optional string holds.
pub open spec fn view_opt(o: Option<String>) -> Option<Seq<char>> {
    match o {
        Some(s) => Some(s@),
        None => None,
    }
}

/// Relies on regex::Regex::new and regex::Regex::captures: the first group of
/// the leftmost match, which depends on the two texts alone.
#[verifier::external_body]
fn first_capture(pattern: &str, text: &str) -> (r: Option<String>)
    ensures
        view_opt(r) == regex_capture(pattern@, text@),
{
    let re = match regex::Regex::new(pattern) {
        Ok(re) => re,
        Err(_) => return None,
    };
    let caps = re.captures(text)?;
    let group = caps.get(1)?;
    Some(group.as_str().to_string())
}

/// Relies on str::trim: the result depends on the text alone.
#[verifier::external_body]
fn trim_text(s: &str) -> (r: String)
    ensures
        r@ == trimmed(s@),
{
    s.trim().to_string()
}

/// Relies on str::replace: the result depends on the three texts alone.
#[verifier::external_body]
fn replace_text(s: &str, from: &str, to: &str) -> (r: String)
    ensures
        r@ == replaced(s@, from@, to@),
{
    s.replace(from, to)
}

/// A price found by a full strategy: thousandths and the currency code.
pub open spec fn price_opt(o: Option<(u64, String)>) -> Option<(u64, Seq<char>)> {
    match o {
        Some((a, c)) => Some((a, c@)),
        None => None,
    }
}

/// The amount a JSON number gives, in thousandths.
pub open spec fn json_amount(j: Option<Json>) -> Option<u64> {
    match j {
        Some(Json::Number(t)) => thousandths_of(t@),
        _ => None,
    }
}

/// The product entry of a catalog document: the first element of its `d` list.
pub open spec fn app_entry(doc: Json) -> Option<Json> {
    element(field(doc, "d"@), 0)
}

/// The in-app offers listed in a catalog document.
pub open spec fn offer_items(doc: Json) -> Option<Json> {
    member(member(member(app_entry(doc), "relationships"@), "top-in-apps"@), "data"@)
}

/// Whether a catalog document lists in-app offers.
pub open spec fn has_offer_list(doc: Json) -> bool {
    match offer_items(doc) {
        Some(Json::Array(_)) => true,
        _ => false,
    }
}

/// The catalog document a cache entry holds as JSON text.
pub open spec fn entry_document(v: Json) -> Option<Json> {
    match v {
        Json::Str(s) => parsed_json(s@),
        _ => None,
    }
}

/// The first cache entry, from index `i` on, that holds a document (one that
/// lists in-app offers, when `need_list`).
pub open spec fn pick_document(fs: Seq<(String, Json)>, i: int, need_list: bool) -> Option<Json>
    decreases fs.len() - i,
{
    if i < 0 || i >= fs.len() {
        None
    } else {
        match entry_document(fs[i].1) {
            Some(d) => if !need_list || has_offer_list(d) {
                Some(d)
            } else {
                pick_document(fs, i + 1, need_list)
            },
            None => pick_document(fs, i + 1, need_list),
        }
    }
}

/// The catalog document of a parsed cache: the first entry that lists in-app
/// offers, else the first entry that holds a document at all.
pub open spec fn cache_document(cache: Option<Json>) -> Option<Json> {
    match cache {
        Some(Json::Object(fs)) => match pick_document(fs@, 0, true) {
            Some(d) => Some(d),
            None => pick_document(fs@, 0, false),
        },
        _ => None,
    }
}

/// The catalog document embedded in a page.
pub open spec fn page_document(html: Seq<char>) -> Option<Json> {
    match regex_capture(CACHE_PATTERN@, html) {
        Some(block) => cache_document(parsed_json(trimmed(block))),
        None => None,
    }
}

/// The product's own price in a catalog document: its amount and currency
/// must both be there.
pub open spec fn cache_price(doc: Option<Json>) -> Option<(u64, Seq<char>)> {
    match doc {
        Some(d) => {
            let attr = member(app_entry(d), "attributes"@);
            match (json_amount(member(attr, "price"@)), text_value(member(attr, "currencyCode"@))) {
                (Some(a), Some(c)) => Some((a, c)),
                _ => None,
            }
        },
        None => None,
    }
}

/// The price the Open Graph tags give: both tags must be there and the amount
/// must be a decimal.
pub open spec fn og_price(amount: Option<Seq<char>>, currency: Option<Seq<char>>) -> Option<(u64, Seq<char>)> {
    match (amount, currency) {
        (Some(a), Some(c)) => match thousandths_of(a) {
            Some(v) => Some((v, c)),
            None => None,
        },
        _ => None,
    }
}

/// The price of a linked-data block's offer: amount and currency must both be there.
pub open spec fn linked_data_price(doc: Option<Json>) -> Option<(u64, Seq<char>)> {
    let off = member(doc, "offers"@);
    match (json_amount(member(off, "price"@)), text_value(member(off, "priceCurrency"@))) {
        (Some(a), Some(c)) => Some((a, c)),
        _ => None,
    }
}

/// The display text of a legacy label: non-breaking space entities made
/// spaces, then trimmed.
pub open spec fn legacy_label(label: Option<Seq<char>>) -> Option<Seq<char>> {
    match label {
        Some(l) => Some(trimmed(replaced(l, "&nbsp;"@, " "@))),
        None => None,
    }
}

/// Whether `r` is what the fallback chain gives for the results of the four
/// strategies: the first full price, else the label, else no price.
pub open spec fn chain_result(
    r: Extraction,
    s1: Option<(u64, Seq<char>)>,
    s2: Option<(u64, Seq<char>)>,
    s3: Option<(u64, Seq<char>)>,
    s4: Option<Seq<char>>,
) -> bool {
    let full = if s1 is Some {
        s1
    } else if s2 is Some {
        s2
    } else {
        s3
    };
    match full {
        Some((a, c)) => r is Full && r->amount == a && r->currency@ == c,
        None => match s4 {
            Some(l) => r is DisplayOnly && r->DisplayOnly_0@ == l,
            None => r is NoPrice,
        },
    }
}

/// What the extractor finds on a product page.
pub open spec fn base_extraction(r: Extraction, html: Seq<char>) -> bool {
    chain_result(
        r,
        cache_price(page_document(html)),
        og_price(regex_capture(OG_AMOUNT_PATTERN@, html), regex_capture(OG_CURRENCY_PATTERN@, html)),
        linked_data_price(
            match regex_capture(LINKED_DATA_PATTERN@, html) {
                Some(b) => parsed_json(trimmed(b)),
                None => None,
            },
        ),
        legacy_label(regex_capture(LEGACY_PATTERN@, html)),
    )
}

/// The price of the first listed offer, from index `i` on, whose name equals
/// `selected` (absent names counting as null): the amount and currency of its
/// first offer, which must both be there.
pub open spec fn offer_match_from(items: Seq<Json>, selected: Option<Json>, i: int) -> Option<(u64, Seq<char>)>
    decreases items.len() - i,
{
    if i < 0 || i >= items.len() {
        None
    } else {
        let attr = field(items[i], "attributes"@);
        if same_scalar(member(attr, "offerName"@), selected) {
            let offer = element(member(attr, "offers"@), 0);
            match (json_amount(member(offer, "price"@)), text_value(member(offer, "currencyCode"@))) {
                (Some(a), Some(c)) => Some((a, c)),
                _ => None,
            }
        } else {
            offer_match_from(items, selected, i + 1)
        }
    }
}

/// The price of the selected in-app offer in a catalog document.
pub open spec fn offer_price(doc: Option<Json>, selected: Option<Json>) -> Option<(u64, Seq<char>)> {
    match doc {
        Some(d) => match offer_items(d) {
            Some(Json::Array(items)) => offer_match_from(items@, selected, 0),
            _ => None,
        },
        None => None,
    }
}

/// The name of an in-app offer as listed.
pub open spec fn offer_name_of(item: Json) -> Option<Json> {
    member(field(item, "attributes"@), "offerName"@)
}

/// The choice text of an in-app offer: its name, a colon and a space, and its
/// formatted price (each empty when missing).
pub open spec fn offer_label_text(item: Json) -> Seq<char> {
    let attr = field(item, "attributes"@);
    let name = match text_value(member(attr, "name"@)) {
        Some(t) => t,
        None => Seq::empty(),
    };
    let price = match text_value(member(element(member(attr, "offers"@), 0), "priceFormatted"@)) {
        Some(t) => t,
        None => Seq::empty(),
    };
    name + seq![':', ' '] + price
}

/// The amount of a JSON number, in thousandths.
pub fn amount_of(j: Option<&Json>) -> (r: Option<u64>)
    ensures
        r == json_amount(deref_opt(j)),
{
    match j {
        Some(Json::Number(t)) => parse_thousandths(t.as_str()),
        _ => None,
    }
}

/// Whether a catalog document lists in-app offers.
pub fn lists_offers(doc: &Json) -> (r: bool)
    ensures
        r == has_offer_list(*doc),
{
    let entry = get_element(get_field(Some(doc), "d"), 0);
    let items = get_field(get_field(get_field(entry, "relationships"), "top-in-apps"), "data");
    match items {
        Some(Json::Array(_)) => true,
        _ => false,
    }
}

fn pick_from_cache(fs: &Vec<(String, Json)>, need_list: bool) -> (r: Option<Json>)
    ensures
        r == pick_document(fs@, 0, need_list),
{
    let mut i: usize = 0;
    while i < fs.len()
        invariant
            i <= fs@.len(),
            pick_document(fs@, 0, need_list) == pick_document(fs@, i as int, need_list),
        decreases fs@.len() - i,
    {
        let entry = &fs[i];
        match &entry.1 {
            Json::Str(s) => {
                let d = parse_json(s.as_str());
                match d {
                    Some(doc) => {
                        if !need_list || lists_offers(&doc) {
                            return Some(doc);
                        }
                    },
                    None => {},
                }
            },
            _ => {},
        }
        i = i + 1;
    }
    None
}

/// The catalog document of a parsed cache: the first entry that lists in-app
/// offers, else the first entry that holds a document at all.
pub fn document_of_cache(cache: Option<Json>) -> (r: Option<Json>)
    ensures
        r == cache_document(cache),
{
    match cache {
        Some(Json::Object(fs)) => {
            let with_list = pick_from_cache(&fs, true);
            match with_list {
                Some(d) => Some(d),
                None => pick_from_cache(&fs, false),
            }
        },
        _ => None,
    }
}

/// The catalog document embedded in a storefront page, if any.
pub fn app_document(html: &str) -> (r: Option<Json>)
    ensures
        r == page_document(html@),
{
    match first_capture(CACHE_PATTERN, html) {
        Some(block) => {
            let text = trim_text(block.as_str());
            document_of_cache(parse_json(text.as_str()))
        },
        None => None,
    }
}

/// The product's own price in a catalog document.
pub fn price_from_cache(doc: &Option<Json>) -> (r: Option<(u64, String)>)
    ensures
        price_opt(r) == cache_price(*doc),
{
    match doc {
        Some(d) => {
            let attr = get_field(get_element(get_field(Some(d), "d"), 0), "attributes");
            let amount = amount_of(get_field(attr, "price"));
            let currency = get_text(get_field(attr, "currencyCode"));
            match (amount, currency) {
                (Some(a), Some(c)) => Some((a, c)),
                _ => None,
            }
        },
        None => None,
    }
}

/// The price the Open Graph tags give, from the two tags' contents.
pub fn price_from_og(amount: Option<String>, currency: Option<String>) -> (r: Option<(u64, String)>)
    ensures
        price_opt(r) == og_price(view_opt(amount), view_opt(currency)),
{
    match (amount, currency) {
        (Some(a), Some(c)) => match parse_thousandths(a.as_str()) {
            Some(v) => Some((v, c)),
            None => None,
        },
        _ => None,
    }
}

/// The price of a parsed linked-data block's offer.
pub fn price_from_linked_data(doc: &Option<Json>) -> (r: Option<(u64, String)>)
    ensures
        price_opt(r) == linked_data_price(*doc),
{
    let d = match doc {
        Some(x) => Some(x),
        None => None,
    };
    let off = get_field(d, "offers");
    let amount = amount_of(get_field(off, "price"));
    let currency = get_text(get_field(off, "priceCurrency"));
    match (amount, currency) {
        (Some(a), Some(c)) => Some((a, c)),
        _ => None,
    }
}

/// The display text of a legacy label's content.
pub fn label_from_legacy(label: Option<String>) -> (r: Option<String>)
    ensures
        view_opt(r) == legacy_label(view_opt(label)),
{
    match label {
        Some(l) => {
            let spaced = replace_text(l.as_str(), "&nbsp;", " ");
            Some(trim_text(spaced.as_str()))
        },
        None => None,
    }
}

/// Recovers the product's price from a storefront page: the first of the
/// catalog cache, the Open Graph tags and the linked-data offer that gives a
/// full price; else the legacy label as display text; else no price.
pub fn extract_base_price(html: &str) -> (r: Extraction)
    ensures
        base_extraction(r, html@),
{
    let doc = app_document(html);
    if let Some((amount, currency)) = price_from_cache(&doc) {
        return Extraction::Full { amount, currency };
    }
    let og = price_from_og(first_capture(OG_AMOUNT_PATTERN, html), first_capture(OG_CURRENCY_PATTERN, html));
    if let Some((amount, currency)) = og {
        return Extraction::Full { amount, currency };
    }
    let ld_doc = match first_capture(LINKED_DATA_PATTERN, html) {
        Some(b) => {
            let text = trim_text(b.as_str());
            parse_json(text.as_str())
        },
        None => None,
    };
    if let Some((amount, currency)) = price_from_linked_data(&ld_doc) {
        return Extraction::Full { amount, currency };
    }
    match label_from_legacy(first_capture(LEGACY_PATTERN, html)) {
        Some(l) => Extraction::DisplayOnly(l),
        None => Extraction::NoPrice,
    }
}

/// The price of the selected in-app offer in a catalog document: the first
/// listed offer whose name equals `selected`.
pub fn price_of_offer(doc: &Option<Json>, selected: Option<&Json>) -> (r: Option<(u64, String)>)
    ensures
        price_opt(r) == offer_price(*doc, deref_opt(selected)),
{
    let d = match doc {
        Some(x) => x,
        None => {
            return None;
        },
    };
    let entry = get_element(get_field(Some(d), "d"), 0);
    let items = get_field(get_field(get_field(entry, "relationships"), "top-in-apps"), "data");
    let list = match items {
        Some(Json::Array(a)) => a,
        _ => {
            return None;
        },
    };
    let mut i: usize = 0;
    while i < list.len()
        invariant
            i <= list@.len(),
            offer_price(*doc, deref_opt(selected)) == offer_match_from(list@, deref_opt(selected), i as int),
        decreases list@.len() - i,
    {
        let attr = get_field(Some(&list[i]), "attributes");
        if same_scalar_exec(get_field(attr, "offerName"), selected) {
            let offer = get_element(get_field(attr, "offers"), 0);
            let amount = amount_of(get_field(offer, "price"));
            let currency = get_text(get_field(offer, "currencyCode"));
            return match (amount, currency) {
                (Some(a), Some(c)) => Some((a, c)),
                _ => None,
            };
        }
        i = i + 1;
    }
    None
}

/// Recovers the price of the selected in-app offer from a storefront page; an
/// offer price comes only from the catalog cache.
pub fn extract_offer_price(html: &str, selected: Option<&Json>) -> (r: Extraction)
    ensures
        match offer_price(page_document(html@), deref_opt(selected)) {
            Some((a, c)) => r is Full && r->amount == a && r->currency@ == c,
            None => r is NoPrice,
        },
{
    let doc = app_document(html);
    match price_of_offer(&doc, selected) {
        Some((amount, currency)) => Extraction::Full { amount, currency },
        None => Extraction::NoPrice,
    }
}

/// The in-app offers a catalog document lists, if it lists any.
pub fn offer_list(doc: &Json) -> (r: Option<&Vec<Json>>)
    ensures
        match r {
            Some(v) => offer_items(*doc) == Some(Json::Array(*v)),
            None => !has_offer_list(*doc),
        },
{
    let entry = get_element(get_field(Some(doc), "d"), 0);
    let items = get_field(get_field(get_field(entry, "relationships"), "top-in-apps"), "data");
    match items {
        Some(Json::Array(a)) => Some(a),
        _ => None,
    }
}

/// The name an in-app offer is matched by in other regions.
pub fn offer_name(item: &Json) -> (r: Option<&Json>)
    ensures
        deref_opt(r) == offer_name_of(*item),
{
    get_field(get_field(Some(item), "attributes"), "offerName")
}

/// The text an in-app offer is offered with for selection.
pub fn offer_label(item: &Json) -> (r: String)
    ensures
        r@ == offer_label_text(*item),
{
    let attr = get_field(Some(item), "attributes");
    let mut out = match get_text(get_field(attr, "name")) {
        Some(t) => t,
        None => String::new(),
    };
    let price = match get_text(get_field(get_element(get_field(attr, "offers"), 0), "priceFormatted")) {
        Some(t) => t,
        None => String::new(),
    };
    out.append(": ");
    out.append(price.as_str());
    proof {
        reveal_strlit(": ");
    }
    out
}

/// The product's title on a storefront page, from its Open Graph title tag.
pub fn app_title(html: &str) -> (r: Option<String>)
    ensures
        view_opt(r) == regex_capture(TITLE_PATTERN@, html@),
{
    first_capture(TITLE_PATTERN, html)
}

} // verus!
