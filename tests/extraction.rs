use region_pricing::collect::Extraction;
use region_pricing::extract::{
    app_document, app_title, extract_base_price, extract_offer_price, label_from_legacy,
    offer_label, offer_list, offer_name, price_from_og,
};
use region_pricing::json::Json;

const CACHE_PAGE: &str = r#"<html><script type="fastboot/shoebox" id="shoebox-media-api-cache-apps">
  {"a":"{\"d\":[{\"attributes\":{\"price\":4.99,\"currencyCode\":\"USD\",\"formattedPrice\":\"$4.99\"}}]}"}
</script></html>"#;

const OFFER_PAGE: &str = r#"<script id="shoebox-media-api-cache-apps">{"a":"{\"d\":[{}]}","b":"{\"d\":[{\"relationships\":{\"top-in-apps\":{\"data\":[{\"attributes\":{\"name\":\"Coins\",\"offerName\":\"coins\",\"offers\":[{\"price\":0.99,\"currencyCode\":\"USD\",\"priceFormatted\":\"$0.99\"}]}},{\"attributes\":{\"name\":\"Gems\",\"offerName\":\"gems\",\"offers\":[{\"price\":1000,\"currencyCode\":\"JPY\",\"priceFormatted\":\"¥1000\"}]}}]}}}]}"}</script>"#;

fn full(e: Extraction) -> (u64, String) {
    match e {
        Extraction::Full { amount, currency } => (amount, currency),
        Extraction::DisplayOnly(l) => panic!("display only: {}", l),
        Extraction::NoPrice => panic!("no price"),
    }
}

#[test]
fn cache_strategy_gives_full_price() {
    assert_eq!(full(extract_base_price(CACHE_PAGE)), (4990, "USD".to_string()));
}

#[test]
fn open_graph_strategy_gives_full_price() {
    let page = r#"<head><meta property="og:price:amount" content="2.50" /><meta property="og:price:currency" content="EUR" /></head>"#;
    assert_eq!(full(extract_base_price(page)), (2500, "EUR".to_string()));
    let usd = r#"<meta property="og:price:amount" content="4.99"><meta property="og:price:currency" content="USD">"#;
    assert_eq!(full(extract_base_price(usd)), (4990, "USD".to_string()));
}

#[test]
fn unreadable_open_graph_amount_is_no_price() {
    let odd = r#"<meta property="og:price:amount" content="free"><meta property="og:price:currency" content="EUR">"#;
    assert!(matches!(extract_base_price(odd), Extraction::NoPrice));
    let with_offer = format!(
        "{}{}",
        odd,
        r#"<script type="application/ld+json">{"offers":{"price":2.99,"priceCurrency":"EUR"}}</script>"#
    );
    assert_eq!(full(extract_base_price(&with_offer)), (2990, "EUR".to_string()));
    assert_eq!(price_from_og(Some("free".to_string()), Some("EUR".to_string())), None);
}

#[test]
fn cache_price_needs_no_formatted_price() {
    let page = r#"<script id="shoebox-media-api-cache-apps">{"a":"{\"d\":[{\"attributes\":{\"price\":1.5,\"currencyCode\":\"KWD\"}}]}"}</script>"#;
    assert_eq!(full(extract_base_price(page)), (1500, "KWD".to_string()));
    let no_currency = r#"<script id="shoebox-media-api-cache-apps">{"a":"{\"d\":[{\"attributes\":{\"price\":1.5}}]}"}</script>"#;
    assert!(matches!(extract_base_price(no_currency), Extraction::NoPrice));
}

#[test]
fn linked_data_strategy_gives_full_price() {
    let page = r#"<script type="application/ld+json"> {"offers":{"price":3.5,"priceCurrency":"GBP"}} </script>"#;
    assert_eq!(full(extract_base_price(page)), (3500, "GBP".to_string()));
    let eur = r#"<script type="application/ld+json">{"offers":{"price":2.99,"priceCurrency":"EUR"}}</script>"#;
    assert_eq!(full(extract_base_price(eur)), (2990, "EUR".to_string()));
}

#[test]
fn legacy_label_strategy_gives_text_only() {
    let page = r#"<ul><li class="inline-list__item inline-list__item--bulleted app-header__list__item--price">&nbsp;Free&nbsp;</li></ul>"#;
    match extract_base_price(page) {
        Extraction::DisplayOnly(l) => assert_eq!(l, "Free"),
        _ => panic!("expected a label"),
    }
    assert_eq!(label_from_legacy(Some("  1,99&nbsp;€ ".to_string())), Some("1,99 €".to_string()));
}

#[test]
fn page_without_price_gives_no_price() {
    assert!(matches!(extract_base_price("<html><body>nothing</body></html>"), Extraction::NoPrice));
    let partial = r#"<meta property="og:price:amount" content="2.50">"#;
    assert!(matches!(extract_base_price(partial), Extraction::NoPrice));
}

#[test]
fn earlier_strategy_wins() {
    let page = format!(
        "{}{}",
        CACHE_PAGE,
        r#"<meta property="og:price:amount" content="2.50"><meta property="og:price:currency" content="EUR">"#
    );
    assert_eq!(full(extract_base_price(&page)), (4990, "USD".to_string()));
}

#[test]
fn open_graph_from_captures() {
    let r = price_from_og(Some("7.25".to_string()), Some("CAD".to_string()));
    assert_eq!(r, Some((7250, "CAD".to_string())));
    assert_eq!(price_from_og(None, Some("CAD".to_string())), None);
}

#[test]
fn selected_offer_is_found_by_name() {
    let doc = app_document(OFFER_PAGE).expect("cache document");
    let items = offer_list(&doc).expect("offers");
    assert_eq!(items.len(), 2);
    assert_eq!(offer_label(&items[0]), "Coins: $0.99");
    assert_eq!(offer_label(&items[1]), "Gems: ¥1000");
    let name = offer_name(&items[1]);
    assert_eq!(full(extract_offer_price(OFFER_PAGE, name)), (1_000_000, "JPY".to_string()));
    let other = Json::Str("nothing".to_string());
    assert!(matches!(extract_offer_price(OFFER_PAGE, Some(&other)), Extraction::NoPrice));
    assert!(matches!(extract_offer_price(CACHE_PAGE, name), Extraction::NoPrice));
}

#[test]
fn selected_offer_without_readable_price_is_no_price() {
    let page = r#"<script id="shoebox-media-api-cache-apps">{"a":"{\"d\":[{\"relationships\":{\"top-in-apps\":{\"data\":[{\"attributes\":{\"offerName\":\"coins\",\"offers\":[{\"currencyCode\":\"USD\"}]}},{\"attributes\":{\"offerName\":\"gems\",\"offers\":[{\"price\":2}]}}]}}}]}"}</script>"#;
    let coins = Json::Str("coins".to_string());
    let gems = Json::Str("gems".to_string());
    assert!(matches!(extract_offer_price(page, Some(&coins)), Extraction::NoPrice));
    assert!(matches!(extract_offer_price(page, Some(&gems)), Extraction::NoPrice));
}

#[test]
fn title_from_open_graph() {
    let page = r#"<meta property="og:title" content="Some App" />"#;
    assert_eq!(app_title(page), Some("Some App".to_string()));
    assert_eq!(app_title("<html></html>"), None);
}
