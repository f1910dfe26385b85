//! Rendering an amount in a currency as display text.
//!
//! Amounts are counts of thousandths of a currency unit.

use vstd::prelude::*;
use crate::currency::{
    currency_is_suffix, currency_symbol, decimal_places, is_suffix_code, is_whole_unit_code, places_of,
    symbol_of,
};
use crate::text::{
    digits_of, fixed_text, is_digit_char, lemma_digits_are_digits, lemma_padded_digits,
    padded_digits, pow10, write_fixed,
};

verus! {

/// `amount` thousandths rounded half up to `places` fraction digits, counted in
/// units of that precision.
pub open spec fn rounded_units(amount: nat, places: nat) -> nat {
    let step = pow10((3 - places) as nat);
    (amount + step / 2) / step
}

/// The amount part of a displayed price: rounded to the currency's precision.
pub open spec fn amount_text(amount: nat, code: Seq<char>) -> Seq<char> {
    fixed_text(rounded_units(amount, places_of(code)), places_of(code))
}

/// A displayed price: the symbol right before the amount, or the amount, a
/// space and the symbol after it; the code stands in for an unknown symbol
/// (before the amount, it is followed by a space).
pub open spec fn price_text(amount: nat, code: Seq<char>) -> Seq<char> {
    let sym = symbol_of(code);
    let a = amount_text(amount, code);
    if is_suffix_code(code) {
        if sym.len() > 0 {
            a + seq![' '] + sym
        } else {
            a + seq![' '] + code
        }
    } else {
        if sym.len() > 0 {
            sym + a
        } else {
            code + seq![' '] + a
        }
    }
}

/// `amount` thousandths of `code`, rounded to the currency's precision and
/// written with exactly that many fraction digits.
pub fn format_amount(amount: u64, code: &str) -> (r: String)
    ensures
        r@ == amount_text(amount as nat, code@),
{
    let places = decimal_places(code);
    proof {
        reveal_with_fuel(pow10, 4);
    }
    let units: u64 = if places == 3 {
        assert(pow10(0) == 1);
        amount
    } else if places == 2 {
        assert(pow10(1) == 10);
        ((amount as u128 + 5) / 10) as u64
    } else {
        assert(pow10(3) == 1000);
        ((amount as u128 + 500) / 1000) as u64
    };
    assert(units as nat == rounded_units(amount as nat, places as nat));
    write_fixed(units, places)
}

/// `amount` thousandths of `code` as display text, with the currency's symbol
/// (or its code) before or after the amount.
pub fn format_price(amount: u64, code: &str) -> (r: String)
    ensures
        r@ == price_text(amount as nat, code@),
{
    let symbol = currency_symbol(code);
    let a = format_amount(amount, code);
    proof {
        reveal_strlit(" ");
    }
    if currency_is_suffix(code) {
        let mut s = a;
        s.append(" ");
        if !symbol.is_empty() {
            s.append(symbol);
        } else {
            s.append(code);
        }
        s
    } else {
        if !symbol.is_empty() {
            let mut s = symbol.to_owned();
            s.append(a.as_str());
            s
        } else {
            let mut s = code.to_owned();
            s.append(" ");
            s.append(a.as_str());
            s
        }
    }
}

/// A currency placed before the amount with a known symbol shows the symbol
/// immediately followed by the amount; a currency placed after the amount shows
/// the amount, one space, then its symbol, or its code when it has none.
pub proof fn lemma_price_layout(amount: nat, code: Seq<char>)
    ensures
        !is_suffix_code(code) && symbol_of(code).len() > 0 ==> price_text(amount, code)
            == symbol_of(code) + amount_text(amount, code),
        is_suffix_code(code) && symbol_of(code).len() > 0 ==> price_text(amount, code)
            == amount_text(amount, code) + seq![' '] + symbol_of(code),
        is_suffix_code(code) && symbol_of(code).len() == 0 ==> price_text(amount, code)
            == amount_text(amount, code) + seq![' '] + code,
{
}

/// An amount in a currency quoted to thousandths always shows a point followed
/// by exactly three digits.
pub proof fn lemma_thousandths_show_three_digits(amount: nat, code: Seq<char>)
    requires
        places_of(code) == 3,
    ensures
        amount_text(amount, code).len() >= 4,
        amount_text(amount, code)[amount_text(amount, code).len() - 4] == '.',
        forall|i: int|
            amount_text(amount, code).len() - 3 <= i < amount_text(amount, code).len()
                ==> is_digit_char(#[trigger] amount_text(amount, code)[i]),
{
    reveal_with_fuel(pow10, 4);
    let u = rounded_units(amount, 3);
    let w = digits_of(u / 1000);
    let f = padded_digits(u % 1000, 3);
    lemma_digits_are_digits(u / 1000);
    lemma_padded_digits(u % 1000, 3);
    let t = amount_text(amount, code);
    assert(t == w + seq!['.'] + f);
    assert forall|i: int| t.len() - 3 <= i < t.len() implies is_digit_char(#[trigger] t[i]) by {
        assert(t[i] == f[i - w.len() - 1]);
    }
}

/// An amount in a currency quoted in whole units shows no point.
pub proof fn lemma_whole_units_show_no_point(amount: nat, code: Seq<char>)
    requires
        places_of(code) == 0,
    ensures
        !amount_text(amount, code).contains('.'),
{
    reveal_with_fuel(pow10, 4);
    let t = amount_text(amount, code);
    lemma_digits_are_digits(rounded_units(amount, 0));
    if t.contains('.') {
        let i = choose|i: int| 0 <= i < t.len() && t[i] == '.';
        assert(is_digit_char(t[i]));
    }
}

/// In a currency quoted in whole units neither the symbol nor the code holds a point.
proof fn lemma_whole_unit_marks_have_no_point(code: Seq<char>)
    requires
        is_whole_unit_code(code),
    ensures
        !symbol_of(code).contains('.'),
        !code.contains('.'),
{
    reveal_strlit("DZD");
    reveal_strlit("AOA");
    reveal_strlit("XOF");
    reveal_strlit("BWP");
    reveal_strlit("XAF");
    reveal_strlit("CDF");
    reveal_strlit("EGP");
    reveal_strlit("GHS");
    reveal_strlit("INR");
    reveal_strlit("ILS");
    reveal_strlit("JOD");
    reveal_strlit("KES");
    reveal_strlit("KWD");
    reveal_strlit("LRD");
    reveal_strlit("LYD");
    reveal_strlit("MGA");
    reveal_strlit("MWK");
    reveal_strlit("MRU");
    reveal_strlit("MUR");
    reveal_strlit("MAD");
    reveal_strlit("MZN");
    reveal_strlit("NAD");
    reveal_strlit("NGN");
    reveal_strlit("OMR");
    reveal_strlit("PKR");
    reveal_strlit("QAR");
    reveal_strlit("RWF");
    reveal_strlit("SAR");
    reveal_strlit("SCR");
    reveal_strlit("SLL");
    reveal_strlit("ZAR");
    reveal_strlit("TZS");
    reveal_strlit("TND");
    reveal_strlit("UGX");
    reveal_strlit("AED");
    reveal_strlit("ZMW");
    reveal_strlit("ZWL");
    reveal_strlit("AUD");
    reveal_strlit("BDT");
    reveal_strlit("BTN");
    reveal_strlit("BND");
    reveal_strlit("KHR");
    reveal_strlit("CNY");
    reveal_strlit("FJD");
    reveal_strlit("HKD");
    reveal_strlit("IDR");
    reveal_strlit("JPY");
    reveal_strlit("KZT");
    reveal_strlit("KGS");
    reveal_strlit("MOP");
    reveal_strlit("MYR");
    reveal_strlit("MVR");
    reveal_strlit("MNT");
    reveal_strlit("MMK");
    reveal_strlit("NPR");
    reveal_strlit("NZD");
    reveal_strlit("PHP");
    reveal_strlit("SGD");
    reveal_strlit("KRW");
    reveal_strlit("LKR");
    reveal_strlit("TWD");
    reveal_strlit("TJS");
    reveal_strlit("THB");
    reveal_strlit("TMT");
    reveal_strlit("UZS");
    reveal_strlit("VND");
    reveal_strlit("ALL");
    reveal_strlit("AMD");
    reveal_strlit("EUR");
    reveal_strlit("AZN");
    reveal_strlit("BYN");
    reveal_strlit("BAM");
    reveal_strlit("BGN");
    reveal_strlit("HRK");
    reveal_strlit("CZK");
    reveal_strlit("DKK");
    reveal_strlit("GEL");
    reveal_strlit("HUF");
    reveal_strlit("ISK");
    reveal_strlit("MDL");
    reveal_strlit("MKD");
    reveal_strlit("NOK");
    reveal_strlit("PLN");
    reveal_strlit("RON");
    reveal_strlit("RUB");
    reveal_strlit("SEK");
    reveal_strlit("CHF");
    reveal_strlit("TRY");
    reveal_strlit("UAH");
    reveal_strlit("GBP");
    reveal_strlit("XCD");
    reveal_strlit("ARS");
    reveal_strlit("BSD");
    reveal_strlit("BBD");
    reveal_strlit("BZD");
    reveal_strlit("BOB");
    reveal_strlit("BRL");
    reveal_strlit("KYD");
    reveal_strlit("CLP");
    reveal_strlit("COP");
    reveal_strlit("CRC");
    reveal_strlit("DOP");
    reveal_strlit("GTQ");
    reveal_strlit("GYD");
    reveal_strlit("HNL");
    reveal_strlit("JMD");
    reveal_strlit("MXN");
    reveal_strlit("NIO");
    reveal_strlit("PAB");
    reveal_strlit("PYG");
    reveal_strlit("PEN");
    reveal_strlit("SRD");
    reveal_strlit("TTD");
    reveal_strlit("UYU");
    reveal_strlit("VES");
    reveal_strlit("CAD");
    reveal_strlit("USD");
    reveal_strlit("PGK");
    reveal_strlit("SBD");
    reveal_strlit("TOP");
    reveal_strlit("VUV");
    reveal_strlit("LAK");
    reveal_strlit("GNF");
    reveal_strlit("KMF");
    reveal_strlit("BIF");
    reveal_strlit("Ar");
    reveal_strlit("Br");
    reveal_strlit("FC");
    reveal_strlit("FRw");
    reveal_strlit("Fr");
    reveal_strlit("K");
    reveal_strlit("Le");
    reveal_strlit("MK");
    reveal_strlit("MTn");
    reveal_strlit("Rp");
    reveal_strlit("TZS");
    reveal_strlit("USh");
    reveal_strlit("VT");
    reveal_strlit("¥");
    reveal_strlit("៛");
    reveal_strlit("₩");
    reveal_strlit("₫");
    if code == "JPY"@ {
        assert(code[0] == 'J' && code[1] == 'P' && code[2] == 'Y');
        assert(symbol_of(code) == "¥"@);
    } else if code == "KRW"@ {
        assert(code[0] == 'K' && code[1] == 'R' && code[2] == 'W');
        assert(symbol_of(code) == "₩"@);
    } else if code == "VND"@ {
        assert(code[0] == 'V' && code[1] == 'N' && code[2] == 'D');
        assert(symbol_of(code) == "₫"@);
    } else if code == "IDR"@ {
        assert(code[0] == 'I' && code[1] == 'D' && code[2] == 'R');
        assert(symbol_of(code) == "Rp"@);
    } else if code == "MMK"@ {
        assert(code[0] == 'M' && code[1] == 'M' && code[2] == 'K');
        assert(symbol_of(code) == "K"@);
    } else if code == "LAK"@ {
        assert(code[0] == 'L' && code[1] == 'A' && code[2] == 'K');
        assert(symbol_of(code) == Seq::<char>::empty());
    } else if code == "KHR"@ {
        assert(code[0] == 'K' && code[1] == 'H' && code[2] == 'R');
        assert(symbol_of(code) == "៛"@);
    } else if code == "UGX"@ {
        assert(code[0] == 'U' && code[1] == 'G' && code[2] == 'X');
        assert(symbol_of(code) == "USh"@);
    } else if code == "TZS"@ {
        assert(code[0] == 'T' && code[1] == 'Z' && code[2] == 'S');
        assert(symbol_of(code) == "TZS"@);
    } else if code == "MWK"@ {
        assert(code[0] == 'M' && code[1] == 'W' && code[2] == 'K');
        assert(symbol_of(code) == "MK"@);
    } else if code == "MGA"@ {
        assert(code[0] == 'M' && code[1] == 'G' && code[2] == 'A');
        assert(symbol_of(code) == "Ar"@);
    } else if code == "CDF"@ {
        assert(code[0] == 'C' && code[1] == 'D' && code[2] == 'F');
        assert(symbol_of(code) == "FC"@);
    } else if code == "RWF"@ {
        assert(code[0] == 'R' && code[1] == 'W' && code[2] == 'F');
        assert(symbol_of(code) == "FRw"@);
    } else if code == "GNF"@ {
        assert(code[0] == 'G' && code[1] == 'N' && code[2] == 'F');
        assert(symbol_of(code) == Seq::<char>::empty());
    } else if code == "XOF"@ {
        assert(code[0] == 'X' && code[1] == 'O' && code[2] == 'F');
        assert(symbol_of(code) == "Fr"@);
    } else if code == "XAF"@ {
        assert(code[0] == 'X' && code[1] == 'A' && code[2] == 'F');
        assert(symbol_of(code) == "Fr"@);
    } else if code == "KMF"@ {
        assert(code[0] == 'K' && code[1] == 'M' && code[2] == 'F');
        assert(symbol_of(code) == Seq::<char>::empty());
    } else if code == "MZN"@ {
        assert(code[0] == 'M' && code[1] == 'Z' && code[2] == 'N');
        assert(symbol_of(code) == "MTn"@);
    } else if code == "BIF"@ {
        assert(code[0] == 'B' && code[1] == 'I' && code[2] == 'F');
        assert(symbol_of(code) == Seq::<char>::empty());
    } else if code == "VUV"@ {
        assert(code[0] == 'V' && code[1] == 'U' && code[2] == 'V');
        assert(symbol_of(code) == "VT"@);
    } else if code == "SLL"@ {
        assert(code[0] == 'S' && code[1] == 'L' && code[2] == 'L');
        assert(symbol_of(code) == "Le"@);
    } else if code == "BYN"@ {
        assert(code[0] == 'B' && code[1] == 'Y' && code[2] == 'N');
        assert(symbol_of(code) == "Br"@);
    }
}

/// A price in a currency quoted in whole units shows no point at all.
pub proof fn lemma_whole_unit_price_has_no_point(amount: nat, code: Seq<char>)
    requires
        places_of(code) == 0,
    ensures
        !price_text(amount, code).contains('.'),
{
    lemma_whole_units_show_no_point(amount, code);
    lemma_whole_unit_marks_have_no_point(code);
    let t = price_text(amount, code);
    let a = amount_text(amount, code);
    let sym = symbol_of(code);
    if t.contains('.') {
        let i = choose|i: int| 0 <= i < t.len() && t[i] == '.';
        if is_suffix_code(code) {
            let m = if sym.len() > 0 { sym } else { code };
            assert(t == a + seq![' '] + m);
            if i < a.len() {
                assert(a[i] == '.');
            } else if i > a.len() {
                assert(m[i - a.len() - 1] == '.');
            }
        } else if sym.len() > 0 {
            assert(t == sym + a);
            if i < sym.len() {
                assert(sym[i] == '.');
            } else {
                assert(a[i - sym.len()] == '.');
            }
        } else {
            assert(t == code + seq![' '] + a);
            if i < code.len() {
                assert(code[i] == '.');
            } else if i > code.len() {
                assert(a[i - code.len() - 1] == '.');
            }
        }
    }
}

} // verus!
