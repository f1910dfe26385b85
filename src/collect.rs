//! Planning the per-region work, gathering what each region yielded, and
//! deciding what a run reports.

use vstd::prelude::*;
use vstd::utf8::encode_utf8;
use crate::convert::PriceRecord;
use crate::format::{format_price, price_text};

verus! {

/// A storefront region: its two-letter code and display name.
pub struct Region {
    pub code: String,
    pub name: String,
}

/// What the extractor recovered from one region's page.
pub enum Extraction {
    /// An amount, in thousandths, and the currency it is quoted in.
    Full { amount: u64, currency: String },
    /// Only a display label; it takes no part in conversion or ranking.
    DisplayOnly(String),
    /// No strategy found a price.
    NoPrice,
}

/// How one region's unit of work ended.
pub enum RegionOutcome {
    /// A price that takes part in conversion and ranking.
    Priced(PriceRecord),
    /// A label to show, without an amount.
    Labelled { region: String, label: String },
    /// The page could not be had, or held no price.
    Failed { region: String },
}

/// What a run does once every region has finished.
pub enum NextStep {
    /// No region yielded a price: report that there is no pricing data and
    /// finish without a table and without error.
    ReportNoPricingData,
    /// Fetch the exchange rates, convert, rank and show the table.
    FetchRates,
}

/// One line of the comparison table.
pub struct TableRow {
    pub region: String,
    pub price: String,
    pub currency: String,
    /// The base-currency price, or "N/A" when it could not be converted.
    pub converted: String,
}

/// Whether the two-letter `code` is the start of the currency code `currency`,
/// byte for byte.
pub open spec fn names_region(code: Seq<char>, currency: Seq<char>) -> bool {
    encode_utf8(currency).len() >= 2 && encode_utf8(code) == encode_utf8(currency).take(2)
}

/// The first index, from `i` on, of a region whose code starts `currency`; the
/// catalog's length if there is none.
pub open spec fn region_for_from(cat: Seq<Region>, currency: Seq<char>, i: int) -> int
    decreases cat.len() - i,
{
    if i < 0 || i >= cat.len() {
        cat.len() as int
    } else if names_region(cat[i].code@, currency) {
        i
    } else {
        region_for_from(cat, currency, i + 1)
    }
}

/// The base region of a currency: the first region whose code is the
/// currency's first two letters, else the catalog's first region.
pub open spec fn base_region_of(cat: Seq<Region>, currency: Seq<char>) -> int {
    let i = region_for_from(cat, currency, 0);
    if i < cat.len() {
        i
    } else {
        0
    }
}

/// The indices below `n` of the regions whose code is not `code`, in order.
pub open spec fn others_upto(cat: Seq<Region>, code: Seq<char>, n: int) -> Seq<usize>
    decreases n,
{
    if n <= 0 {
        Seq::empty()
    } else if cat[n - 1].code@ != code {
        others_upto(cat, code, n - 1).push((n - 1) as usize)
    } else {
        others_upto(cat, code, n - 1)
    }
}

/// The order in which region work is issued: the base region first, then every
/// region with another code, in catalog order.
pub open spec fn region_plan(cat: Seq<Region>, base: int) -> Seq<usize> {
    seq![base as usize] + others_upto(cat, cat[base].code@, cat.len() as int)
}

/// The records of the priced outcomes, in order.
pub open spec fn priced_records(s: Seq<RegionOutcome>) -> Seq<PriceRecord>
    decreases s.len(),
{
    if s.len() == 0 {
        Seq::empty()
    } else {
        match s.last() {
            RegionOutcome::Priced(r) => priced_records(s.drop_last()).push(r),
            _ => priced_records(s.drop_last()),
        }
    }
}

/// How many outcomes yielded no price record.
pub open spec fn unpriced_count(s: Seq<RegionOutcome>) -> nat
    decreases s.len(),
{
    if s.len() == 0 {
        0
    } else {
        match s.last() {
            RegionOutcome::Priced(_) => unpriced_count(s.drop_last()),
            _ => unpriced_count(s.drop_last()) + 1,
        }
    }
}

/// Whether `row` is the table line of the converted record `rec`, with base
/// currency `base`.
pub open spec fn is_row_of(row: TableRow, rec: PriceRecord, base: Seq<char>) -> bool {
    &&& row.region@ == rec.region@
    &&& row.price@ == price_text(rec.amount as nat, rec.currency@)
    &&& row.currency@ == rec.currency@
    &&& row.converted@ == match rec.converted {
        Some(v) => price_text(v as nat, base),
        None => seq!['N', '/', 'A'],
    }
}

/// The index in `catalog` of the base region for `currency`: the first region
/// whose code is the currency's first two letters, else the first region.
pub fn base_region_index(catalog: &[Region], currency: &str) -> (r: usize)
    requires
        catalog@.len() > 0,
    ensures
        r as int == base_region_of(catalog@, currency@),
        r < catalog@.len(),
{
    let cb = currency.as_bytes();
    let mut i: usize = 0;
    while i < catalog.len()
        invariant
            i <= catalog@.len(),
            region_for_from(catalog@, currency@, 0) == region_for_from(catalog@, currency@, i as int),
            cb@ == encode_utf8(currency@),
        decreases catalog@.len() - i,
    {
        let code = catalog[i].code.as_str().as_bytes();
        if cb.len() >= 2 && code.len() == 2 && code[0] == cb[0] && code[1] == cb[1] {
            proof {
                assert(code@ =~= cb@.take(2));
            }
            return i;
        }
        proof {
            if cb@.len() >= 2 && code@ == cb@.take(2) {
                assert(code@[0] == cb@[0] && code@[1] == cb@[1]);
            }
        }
        i = i + 1;
    }
    0
}

/// The catalog indices in the order their work is issued: `base` first, then
/// each region whose code differs from the base region's.
pub fn plan_regions(catalog: &[Region], base: usize) -> (r: Vec<usize>)
    requires
        base < catalog@.len(),
    ensures
        r@ == region_plan(catalog@, base as int),
{
    let mut out: Vec<usize> = Vec::new();
    out.push(base);
    let base_code = &catalog[base].code;
    let mut i: usize = 0;
    while i < catalog.len()
        invariant
            i <= catalog@.len(),
            base < catalog@.len(),
            base_code@ == catalog@[base as int].code@,
            out@ == seq![base] + others_upto(catalog@, base_code@, i as int),
        decreases catalog@.len() - i,
    {
        if !catalog[i].code.eq(base_code) {
            out.push(i);
        }
        i = i + 1;
    }
    out
}

/// The outcome of one region's unit of work, from what its page yielded.
pub fn outcome_for(region: String, found: Extraction) -> (r: RegionOutcome)
    ensures
        match found {
            Extraction::Full { amount, currency } => r == RegionOutcome::Priced(
                PriceRecord { region, amount, currency, converted: None },
            ),
            Extraction::DisplayOnly(label) => r == (RegionOutcome::Labelled { region, label }),
            Extraction::NoPrice => r == (RegionOutcome::Failed { region }),
        },
{
    match found {
        Extraction::Full { amount, currency } => RegionOutcome::Priced(
            PriceRecord::new(region, amount, currency),
        ),
        Extraction::DisplayOnly(label) => RegionOutcome::Labelled { region, label },
        Extraction::NoPrice => RegionOutcome::Failed { region },
    }
}

/// The price records of all regions' outcomes, once every unit has finished.
pub fn gather_records(outcomes: Vec<RegionOutcome>) -> (r: Vec<PriceRecord>)
    ensures
        r@ == priced_records(outcomes@),
{
    let ghost all = outcomes@;
    let total = outcomes.len();
    let mut rest = outcomes;
    let mut out: Vec<PriceRecord> = Vec::new();
    let mut taken: usize = 0;
    while rest.len() > 0
        invariant
            taken + rest@.len() == all.len(),
            all.len() == total,
            rest@ == all.subrange(taken as int, all.len() as int),
            out@ == priced_records(all.subrange(0, taken as int)),
        decreases rest@.len(),
    {
        let o = rest.remove(0);
        proof {
            assert(all.subrange(0, taken + 1).drop_last() =~= all.subrange(0, taken as int));
            assert(rest@ =~= all.subrange(taken + 1, all.len() as int));
        }
        match o {
            RegionOutcome::Priced(rec) => out.push(rec),
            _ => {},
        }
        taken = taken + 1;
    }
    proof {
        assert(all.subrange(0, taken as int) =~= all);
    }
    out
}

/// What to do once every region has finished.
pub fn next_step(records: &Vec<PriceRecord>) -> (r: NextStep)
    ensures
        r == (if records@.len() == 0 {
            NextStep::ReportNoPricingData
        } else {
            NextStep::FetchRates
        }),
{
    if records.len() == 0 {
        NextStep::ReportNoPricingData
    } else {
        NextStep::FetchRates
    }
}

/// The table lines of converted records, in their order, with base currency `base`.
pub fn table_rows(records: &Vec<PriceRecord>, base: &str) -> (r: Vec<TableRow>)
    ensures
        r@.len() == records@.len(),
        forall|i: int| 0 <= i < r@.len() ==> is_row_of(#[trigger] r@[i], records@[i], base@),
{
    let mut out: Vec<TableRow> = Vec::new();
    let mut i: usize = 0;
    while i < records.len()
        invariant
            i <= records@.len(),
            out@.len() == i,
            forall|k: int| 0 <= k < i ==> is_row_of(#[trigger] out@[k], records@[k], base@),
        decreases records@.len() - i,
    {
        let rec = &records[i];
        let converted = match rec.converted {
            Some(v) => format_price(v, base),
            None => {
                let s = "N/A";
                proof {
                    reveal_strlit("N/A");
                    assert(s@ =~= seq!['N', '/', 'A']);
                }
                s.to_owned()
            },
        };
        let row = TableRow {
            region: rec.region.clone(),
            price: format_price(rec.amount, rec.currency.as_str()),
            currency: rec.currency.clone(),
            converted,
        };
        out.push(row);
        i = i + 1;
    }
    out
}

/// Every region yields either a price record or an unpriced outcome: with `n`
/// regions of which `m` failed, exactly `n - m` records are gathered.
pub proof fn lemma_records_count(s: Seq<RegionOutcome>)
    ensures
        priced_records(s).len() == s.len() - unpriced_count(s),
    decreases s.len(),
{
    if s.len() > 0 {
        lemma_records_count(s.drop_last());
    }
}

} // verus!
