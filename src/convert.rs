//! Converting collected prices into the base currency and ranking them.
//!
//! Amounts are counts of thousandths of a currency unit; an exchange rate is a
//! count of billionths of a unit of the priced currency per unit of the base
//! currency.

use vstd::prelude::*;

verus! {

broadcast use vstd::seq_lib::group_to_multiset_ensures;

/// The price found in one region.
pub struct PriceRecord {
    /// Display name of the region.
    pub region: String,
    /// The quoted price, in thousandths of its own currency.
    pub amount: u64,
    /// The currency the price is quoted in.
    pub currency: String,
    /// The price in the base currency, in thousandths, rounded to hundredths;
    /// `None` until converted, or when no rate is known for the currency.
    pub converted: Option<u64>,
}

/// How many units of one currency a unit of the base currency buys.
///
/// A rate table is a list of these; where it names a currency more than once,
/// its first entry for that currency is the one used.
pub struct Rate {
    pub currency: String,
    /// Billionths of a unit of `currency` per unit of the base currency.
    pub per_base: u64,
}

/// The rate of a currency that trades at par with the base currency.
pub const RATE_ONE: u64 = 1_000_000_000;

impl PriceRecord {
    /// A freshly found price, not yet converted.
    pub fn new(region: String, amount: u64, currency: String) -> (r: PriceRecord)
        ensures
            r.region == region,
            r.amount == amount,
            r.currency == currency,
            r.converted is None,
    {
        PriceRecord { region, amount, currency, converted: None }
    }
}

/// `amount` thousandths divided by a rate of `per_base` billionths, rounded half
/// up to hundredths and given in thousandths; `None` for a zero rate or a result
/// that does not fit in a `u64`.
pub open spec fn converted_value(amount: nat, per_base: nat) -> Option<nat> {
    if per_base == 0 {
        None
    } else {
        let hundredths = (2 * amount * 100_000_000 + per_base) / (2 * per_base);
        if hundredths * 10 <= u64::MAX {
            Some(hundredths * 10)
        } else {
            None
        }
    }
}

/// The rate of the first entry of `rates`, from index `i` on, that names `code`.
pub open spec fn rate_from(rates: Seq<Rate>, code: Seq<char>, i: int) -> Option<u64>
    decreases rates.len() - i,
{
    if i < 0 || i >= rates.len() {
        None
    } else if rates[i].currency@ == code {
        Some(rates[i].per_base)
    } else {
        rate_from(rates, code, i + 1)
    }
}

/// The rate that `rates` gives for `code`: its first entry for that currency.
pub open spec fn rate_of(rates: Seq<Rate>, code: Seq<char>) -> Option<u64> {
    rate_from(rates, code, 0)
}

/// `rec` with its base-currency value computed from `rates`.
pub open spec fn with_conversion(rec: PriceRecord, rates: Seq<Rate>) -> PriceRecord {
    PriceRecord {
        region: rec.region,
        amount: rec.amount,
        currency: rec.currency,
        converted: match rate_of(rates, rec.currency@) {
            Some(r) => match converted_value(rec.amount as nat, r as nat) {
                Some(v) => Some(v as u64),
                None => None,
            },
            None => None,
        },
    }
}

/// Every record of `records` with its base-currency value computed from `rates`.
pub open spec fn converted_all(records: Seq<PriceRecord>, rates: Seq<Rate>) -> Seq<PriceRecord> {
    records.map_values(|rec: PriceRecord| with_conversion(rec, rates))
}

/// Ranking order on base-currency values: ascending, with unconverted
/// records after all converted ones.
pub open spec fn ranks_no_later(a: Option<u64>, b: Option<u64>) -> bool {
    match (a, b) {
        (Some(x), Some(y)) => x <= y,
        (Some(_), None) => true,
        (None, None) => true,
        (None, Some(_)) => false,
    }
}

/// Whether `s` is in ranking order.
pub open spec fn is_ranked(s: Seq<PriceRecord>) -> bool {
    forall|i: int, j: int|
        0 <= i < j < s.len() ==> ranks_no_later(#[trigger] s[i].converted, #[trigger] s[j].converted)
}

/// `amount` thousandths at a rate of `per_base` billionths, in thousandths of
/// the base currency rounded half up to hundredths.
pub fn convert_amount(amount: u64, per_base: u64) -> (r: Option<u64>)
    ensures
        r == (match converted_value(amount as nat, per_base as nat) {
            Some(v) => Some(v as u64),
            None => None,
        }),
{
    if per_base == 0 {
        return None;
    }
    let num: u128 = 2 * (amount as u128) * 100_000_000 + per_base as u128;
    let den: u128 = 2 * (per_base as u128);
    let hundredths: u128 = num / den;
    if hundredths > (u64::MAX / 10) as u128 {
        return None;
    }
    Some((hundredths * 10) as u64)
}

/// The rate that `rates` gives for `code`: its first entry for that currency.
pub fn rate_for(rates: &[Rate], code: &String) -> (r: Option<u64>)
    ensures
        r == rate_of(rates@, code@),
{
    let mut i: usize = 0;
    while i < rates.len()
        invariant
            i <= rates@.len(),
            rate_of(rates@, code@) == rate_from(rates@, code@, i as int),
        decreases rates@.len() - i,
    {
        if rates[i].currency.eq(code) {
            return Some(rates[i].per_base);
        }
        i = i + 1;
    }
    None
}

proof fn lemma_ranks_total(a: Option<u64>, b: Option<u64>)
    ensures
        ranks_no_later(a, b) || ranks_no_later(b, a),
{
}

proof fn lemma_ranks_transitive(a: Option<u64>, b: Option<u64>, c: Option<u64>)
    requires
        ranks_no_later(a, b),
        ranks_no_later(b, c),
    ensures
        ranks_no_later(a, c),
{
}

/// Puts `rec` into the ranked `out` after every record that ranks no later
/// than it, and gives the position it took.
fn insert_ranked(out: &mut Vec<PriceRecord>, rec: PriceRecord) -> (p: usize)
    requires
        is_ranked(old(out)@),
    ensures
        p <= old(out)@.len(),
        final(out)@ == old(out)@.insert(p as int, rec),
        is_ranked(final(out)@),
        forall|q: int| p <= q < old(out)@.len() ==> !ranks_no_later(#[trigger] old(out)@[q].converted, rec.converted),
{
    let mut p: usize = 0;
    while p < out.len() && ranks_no_later_exec(&out[p].converted, &rec.converted)
        invariant
            p <= out@.len(),
            forall|q: int| 0 <= q < p ==> ranks_no_later(#[trigger] out@[q].converted, rec.converted),
        decreases out@.len() - p,
    {
        p = p + 1;
    }
    let ghost before = out@;
    proof {
        if p < before.len() {
            lemma_ranks_total(before[p as int].converted, rec.converted);
            assert forall|q: int| p <= q < before.len() implies !ranks_no_later(
                #[trigger] before[q].converted,
                rec.converted,
            ) by {
                if q > p && ranks_no_later(before[q].converted, rec.converted) {
                    lemma_ranks_transitive(before[p as int].converted, before[q].converted, rec.converted);
                }
            }
        }
    }
    out.insert(p, rec);
    proof {
        let s = out@;
        assert(s =~= before.insert(p as int, rec));
        assert forall|i: int, j: int| 0 <= i < j < s.len() implies ranks_no_later(
            #[trigger] s[i].converted,
            #[trigger] s[j].converted,
        ) by {
            if j < p {
                assert(s[i] == before[i] && s[j] == before[j]);
            } else if j == p {
                assert(s[i] == before[i]);
            } else if i == p {
                assert(s[j] == before[j - 1]);
                if j - 1 > p {
                    lemma_ranks_transitive(rec.converted, before[p as int].converted, before[j - 1].converted);
                }
            } else if i < p {
                assert(s[i] == before[i] && s[j] == before[j - 1]);
            } else {
                assert(s[i] == before[i - 1] && s[j] == before[j - 1]);
            }
        }
    }
    p
}

/// Whether `out` holds the records of `ins` reordered by `idx` (position `k`
/// of `out` holds record `idx[k]` of `ins`, each record once), with records
/// that rank alike kept in their order in `ins`.
pub open spec fn is_stable_reordering(out: Seq<PriceRecord>, ins: Seq<PriceRecord>, idx: Seq<int>) -> bool {
    &&& idx.len() == out.len() == ins.len()
    &&& forall|k: int| 0 <= k < out.len() ==> 0 <= #[trigger] idx[k] < ins.len() && out[k] == ins[idx[k]]
    &&& forall|k: int, l: int|
        0 <= k < l < out.len() ==> #[trigger] idx[k] != #[trigger] idx[l] && (ranks_no_later(
            out[l].converted,
            out[k].converted,
        ) ==> idx[k] < idx[l])
}

/// Executable form of the ranking order.
pub fn ranks_no_later_exec(a: &Option<u64>, b: &Option<u64>) -> (r: bool)
    ensures
        r == ranks_no_later(*a, *b),
{
    match (a, b) {
        (Some(x), Some(y)) => *x <= *y,
        (Some(_), None) => true,
        (None, None) => true,
        (None, Some(_)) => false,
    }
}

/// Whether `out` is what converting `ins` with `rates` gives: the converted
/// records, ranked, with records that rank alike in their order in `ins`.
pub open spec fn is_conversion_of(out: Seq<PriceRecord>, ins: Seq<PriceRecord>, rates: Seq<Rate>) -> bool {
    &&& is_ranked(out)
    &&& exists|idx: Seq<int>| #[trigger] is_stable_reordering(out, converted_all(ins, rates), idx)
}

/// Gives each record its base-currency value from `rates` and ranks the
/// records: ascending by that value, with records whose currency has no usable
/// rate last, and records that rank alike in their earlier order.
pub fn convert_prices(records: &mut Vec<PriceRecord>, rates: &[Rate])
    ensures
        is_ranked(final(records)@),
        is_conversion_of(final(records)@, old(records)@, rates@),
        final(records)@.to_multiset() == converted_all(old(records)@, rates@).to_multiset(),
{
    let ghost input = old(records)@;
    let ghost orig = converted_all(input, rates@);
    let ghost mut idx: Seq<int> = Seq::empty();
    let total = records.len();
    let mut taken: usize = 0;
    let mut out: Vec<PriceRecord> = Vec::new();
    while records.len() > 0
        invariant
            total == input.len(),
            taken + records@.len() == total,
            records@ == input.subrange(taken as int, total as int),
            orig == converted_all(input, rates@),
            is_ranked(out@),
            out@.to_multiset().add(
                converted_all(records@, rates@).to_multiset(),
            ) == orig.to_multiset(),
            idx.len() == out@.len() == taken,
            forall|k: int| 0 <= k < out@.len() ==> 0 <= #[trigger] idx[k] < taken && out@[k] == orig[idx[k]],
            forall|k: int, l: int|
                0 <= k < l < out@.len() ==> #[trigger] idx[k] != #[trigger] idx[l] && (ranks_no_later(
                    out@[l].converted,
                    out@[k].converted,
                ) ==> idx[k] < idx[l]),
        decreases records@.len(),
    {
        let ghost rest = records@;
        let rec = records.remove(0);
        let rate = rate_for(rates, &rec.currency);
        let converted = match rate {
            Some(r) => convert_amount(rec.amount, r),
            None => None,
        };
        let done = PriceRecord {
            region: rec.region,
            amount: rec.amount,
            currency: rec.currency,
            converted,
        };
        proof {
            let m = converted_all(rest, rates@);
            assert(done == with_conversion(rest[0], rates@));
            assert(rest[0] == input[taken as int]);
            assert(done == orig[taken as int]);
            assert(records@ =~= input.subrange(taken + 1, total as int));
            assert(converted_all(records@, rates@) =~= m.remove(0));
            vstd::seq_lib::to_multiset_remove(m, 0);
        }
        let ghost before = out@;
        let ghost old_idx = idx;
        let p = insert_ranked(&mut out, done);
        proof {
            vstd::seq_lib::to_multiset_insert(before, p as int, done);
            idx = old_idx.insert(p as int, taken as int);
            let s = out@;
            assert forall|k: int| 0 <= k < s.len() implies 0 <= #[trigger] idx[k] < taken + 1 && s[k] == orig[idx[k]] by {
                if k < p {
                    assert(s[k] == before[k] && idx[k] == old_idx[k]);
                } else if k > p {
                    assert(s[k] == before[k - 1] && idx[k] == old_idx[k - 1]);
                }
            }
            assert forall|k: int, l: int| 0 <= k < l < s.len() implies #[trigger] idx[k] != #[trigger] idx[l] && (
            ranks_no_later(s[l].converted, s[k].converted) ==> idx[k] < idx[l]) by {
                if l < p {
                    assert(s[k] == before[k] && idx[k] == old_idx[k]);
                    assert(s[l] == before[l] && idx[l] == old_idx[l]);
                } else if l == p {
                    assert(idx[k] == old_idx[k]);
                } else if k == p {
                    assert(s[l] == before[l - 1] && idx[l] == old_idx[l - 1]);
                } else if k < p {
                    assert(s[k] == before[k] && idx[k] == old_idx[k]);
                    assert(s[l] == before[l - 1] && idx[l] == old_idx[l - 1]);
                } else {
                    assert(s[k] == before[k - 1] && idx[k] == old_idx[k - 1]);
                    assert(s[l] == before[l - 1] && idx[l] == old_idx[l - 1]);
                }
            }
        }
        taken = taken + 1;
    }
    proof {
        assert(converted_all(records@, rates@) =~= Seq::empty());
        assert(is_stable_reordering(out@, orig, idx));
        assert(is_ranked(out@));
    }
    *records = out;
}

/// Converting a value that is already in whole hundredths a second time, at
/// par, gives it back unchanged.
pub proof fn lemma_reconvert_at_par(value: nat)
    requires
        value % 10 == 0,
        value <= u64::MAX,
    ensures
        converted_value(value, RATE_ONE as nat) == Some(value),
{
    let h = (2 * value * 100_000_000 + 1_000_000_000) / (2 * 1_000_000_000nat);
    assert(h == value / 10) by (nonlinear_arith)
        requires value % 10 == 0, h == (2 * value * 100_000_000 + 1_000_000_000) / (2 * 1_000_000_000nat);
}

/// A reordering that keeps records that rank alike in order, of a ranked
/// sequence into a ranked sequence, moves nothing.
proof fn lemma_stable_ranked_reordering_is_identity(out: Seq<PriceRecord>, ins: Seq<PriceRecord>, idx: Seq<int>)
    requires
        is_ranked(out),
        is_ranked(ins),
        is_stable_reordering(out, ins, idx),
    ensures
        out == ins,
{
    let n = out.len() as int;
    assert forall|k: int, l: int| 0 <= k < l < n implies #[trigger] idx[k] < #[trigger] idx[l] by {
        if idx[l] < idx[k] {
            assert(ranks_no_later(ins[idx[l]].converted, ins[idx[k]].converted));
            assert(out[l] == ins[idx[l]] && out[k] == ins[idx[k]]);
        }
    }
    assert forall|k: int| 0 <= k < n implies out[k] == ins[k] by {
        lemma_increasing_from_below(idx, n, k);
        lemma_increasing_from_above(idx, n, k);
    }
    assert(out =~= ins);
}

proof fn lemma_increasing_from_below(idx: Seq<int>, n: int, k: int)
    requires
        0 <= k < n,
        idx.len() == n,
        forall|j: int| 0 <= j < n ==> 0 <= #[trigger] idx[j] < n,
        forall|a: int, b: int| 0 <= a < b < n ==> #[trigger] idx[a] < #[trigger] idx[b],
    ensures
        idx[k] >= k,
    decreases k,
{
    if k > 0 {
        lemma_increasing_from_below(idx, n, k - 1);
        assert(idx[k - 1] < idx[k]);
    }
}

proof fn lemma_increasing_from_above(idx: Seq<int>, n: int, k: int)
    requires
        0 <= k < n,
        idx.len() == n,
        forall|j: int| 0 <= j < n ==> 0 <= #[trigger] idx[j] < n,
        forall|a: int, b: int| 0 <= a < b < n ==> #[trigger] idx[a] < #[trigger] idx[b],
    ensures
        idx[k] <= k,
    decreases n - k,
{
    if k < n - 1 {
        lemma_increasing_from_above(idx, n, k + 1);
        assert(idx[k] < idx[k + 1]);
    }
}

/// Converting an already converted and ranked list again, with the same
/// rates, changes nothing: the same values in the same order.
pub proof fn lemma_convert_again_changes_nothing(
    ins: Seq<PriceRecord>,
    once: Seq<PriceRecord>,
    twice: Seq<PriceRecord>,
    rates: Seq<Rate>,
)
    requires
        is_conversion_of(once, ins, rates),
        is_conversion_of(twice, once, rates),
    ensures
        twice == once,
{
    let orig = converted_all(ins, rates);
    let idx1 = choose|idx: Seq<int>| #[trigger] is_stable_reordering(once, orig, idx);
    assert(converted_all(once, rates) =~= once) by {
        assert forall|k: int| 0 <= k < once.len() implies #[trigger] converted_all(once, rates)[k] == once[k] by {
            assert(once[k] == orig[idx1[k]]);
            assert(orig[idx1[k]] == with_conversion(ins[idx1[k]], rates));
        }
    }
    let idx2 = choose|idx: Seq<int>| #[trigger] is_stable_reordering(twice, converted_all(once, rates), idx);
    lemma_stable_ranked_reordering_is_identity(twice, once, idx2);
}

} // verus!
