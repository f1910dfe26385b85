use region_pricing::collect::{
    base_region_index, gather_records, next_step, outcome_for, plan_regions, table_rows,
    Extraction, NextStep, Region, RegionOutcome,
};
use region_pricing::convert::{convert_amount, convert_prices, rate_for, PriceRecord, Rate, RATE_ONE};

fn rec(region: &str, amount: u64, currency: &str) -> PriceRecord {
    PriceRecord::new(region.to_string(), amount, currency.to_string())
}

fn rate(currency: &str, per_base: u64) -> Rate {
    Rate { currency: currency.to_string(), per_base }
}

fn region(code: &str, name: &str) -> Region {
    Region { code: code.to_string(), name: name.to_string() }
}

#[test]
fn conversion_rounds_to_hundredths() {
    assert_eq!(convert_amount(4990, RATE_ONE), Some(4990));
    assert_eq!(convert_amount(1_000_000, 150_000_000_000), Some(6670));
    assert_eq!(convert_amount(1000, 3 * RATE_ONE), Some(330));
    assert_eq!(convert_amount(1000, 0), None);
    assert_eq!(convert_amount(u64::MAX, 1), None);
}

#[test]
fn converting_again_at_par_changes_nothing() {
    for amount in [0u64, 10, 4990, 6670, 123_456_780] {
        let once = convert_amount(amount, RATE_ONE).unwrap();
        assert_eq!(once, amount);
        assert_eq!(convert_amount(once, RATE_ONE), Some(once));
    }
    let first = convert_amount(1_000_000, 150_000_000_000).unwrap();
    assert_eq!(convert_amount(first, RATE_ONE), Some(first));
}

#[test]
fn converting_the_list_twice_changes_nothing() {
    let mut records = vec![
        rec("Japan", 1_000_000, "JPY"),
        rec("Nowhere", 5000, "XXX"),
        rec("First", 6670, "USD"),
        rec("Euro Area", 4990, "EUR"),
    ];
    let rates = vec![rate("JPY", 150_000_000_000), rate("USD", RATE_ONE), rate("EUR", 500_000_000)];
    convert_prices(&mut records, &rates);
    let once: Vec<(String, u64, String, Option<u64>)> = records
        .iter()
        .map(|r| (r.region.clone(), r.amount, r.currency.clone(), r.converted))
        .collect();
    convert_prices(&mut records, &rates);
    let twice: Vec<(String, u64, String, Option<u64>)> = records
        .iter()
        .map(|r| (r.region.clone(), r.amount, r.currency.clone(), r.converted))
        .collect();
    assert_eq!(once, twice);
    assert_eq!(once[0].0, "Japan");
    assert_eq!(once[1].0, "First");
}

#[test]
fn rate_lookup_takes_first_entry() {
    let rates = vec![rate("EUR", 920_000_000), rate("USD", RATE_ONE), rate("EUR", 1)];
    assert_eq!(rate_for(&rates, &"EUR".to_string()), Some(920_000_000));
    assert_eq!(rate_for(&rates, &"GBP".to_string()), None);
}

#[test]
fn converted_records_are_ranked() {
    let mut records = vec![
        rec("Japan", 1_000_000, "JPY"),
        rec("Nowhere", 5000, "XXX"),
        rec("United States", 4990, "USD"),
        rec("Euro Area", 4990, "EUR"),
        rec("Zero", 100, "ZZZ"),
    ];
    let rates = vec![
        rate("JPY", 150_000_000_000),
        rate("USD", RATE_ONE),
        rate("EUR", 500_000_000),
        rate("ZZZ", 0),
    ];
    convert_prices(&mut records, &rates);
    let order: Vec<&str> = records.iter().map(|r| r.region.as_str()).collect();
    assert_eq!(order[0], "United States");
    assert_eq!(order[1], "Japan");
    assert_eq!(order[2], "Euro Area");
    assert_eq!(records[0].converted, Some(4990));
    assert_eq!(records[1].converted, Some(6670));
    assert_eq!(records[2].converted, Some(9980));
    assert_eq!(records[3].converted, None);
    assert_eq!(records[4].converted, None);
    assert_eq!(order[3], "Nowhere");
    assert_eq!(order[4], "Zero");
    for pair in records.windows(2) {
        if let (Some(a), Some(b)) = (pair[0].converted, pair[1].converted) {
            assert!(a <= b);
        }
    }
}

#[test]
fn equal_values_keep_their_order() {
    let mut records = vec![
        rec("First", 2000, "USD"),
        rec("Cheap", 1000, "USD"),
        rec("Second", 4000, "EUR"),
        rec("Third", 2000, "USD"),
    ];
    let rates = vec![rate("USD", RATE_ONE), rate("EUR", 2 * RATE_ONE)];
    convert_prices(&mut records, &rates);
    let order: Vec<&str> = records.iter().map(|r| r.region.as_str()).collect();
    assert_eq!(order, vec!["Cheap", "First", "Second", "Third"]);
}

#[test]
fn failures_yield_no_records() {
    let outcomes = vec![
        outcome_for("A".to_string(), Extraction::Full { amount: 1000, currency: "USD".to_string() }),
        outcome_for("B".to_string(), Extraction::NoPrice),
        outcome_for("C".to_string(), Extraction::Full { amount: 2000, currency: "EUR".to_string() }),
        outcome_for("D".to_string(), Extraction::DisplayOnly("Free".to_string())),
        RegionOutcome::Failed { region: "E".to_string() },
        outcome_for("F".to_string(), Extraction::Full { amount: 3000, currency: "GBP".to_string() }),
    ];
    let records = gather_records(outcomes);
    assert_eq!(records.len(), 3);
    assert_eq!(records[0].region, "A");
    assert_eq!(records[1].region, "C");
    assert_eq!(records[2].region, "F");
    assert_eq!(records[2].amount, 3000);
    assert_eq!(records[2].converted, None);
}

#[test]
fn no_records_means_no_pricing_data() {
    let records = gather_records(vec![RegionOutcome::Failed { region: "A".to_string() }]);
    assert!(matches!(next_step(&records), NextStep::ReportNoPricingData));
    let some = vec![rec("A", 1, "USD")];
    assert!(matches!(next_step(&some), NextStep::FetchRates));
}

#[test]
fn base_region_comes_first() {
    let catalog = vec![
        region("DZ", "Algeria"),
        region("US", "United States"),
        region("FJ", "Fiji"),
        region("US", "United States"),
        region("SG", "Singapore"),
    ];
    assert_eq!(base_region_index(&catalog, "USD"), 1);
    assert_eq!(base_region_index(&catalog, "SGD"), 4);
    assert_eq!(base_region_index(&catalog, "EUR"), 0);
    assert_eq!(base_region_index(&catalog, "U"), 0);
    assert_eq!(plan_regions(&catalog, 1), vec![1, 0, 2, 4]);
    assert_eq!(plan_regions(&catalog, 0), vec![0, 1, 2, 3, 4]);
}

#[test]
fn table_rows_show_native_and_converted_prices() {
    let mut records = vec![rec("Japan", 1_000_000, "JPY"), rec("Nowhere", 5000, "XXX")];
    convert_prices(&mut records, &vec![rate("JPY", 150_000_000_000)]);
    let rows = table_rows(&records, "USD");
    assert_eq!(rows.len(), 2);
    assert_eq!(rows[0].region, "Japan");
    assert_eq!(rows[0].price, "¥1000");
    assert_eq!(rows[0].currency, "JPY");
    assert_eq!(rows[0].converted, "$6.67");
    assert_eq!(rows[1].price, "XXX 5.00");
    assert_eq!(rows[1].converted, "N/A");
}
