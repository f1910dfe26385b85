//! Small text helpers: comparing text, writing and reading decimal numbers.

use vstd::prelude::*;
use vstd::string::StringSliceAdditionalSpecFns;
use vstd::utf8::encode_utf8;

verus! {

/// Whether the owned text `c` reads exactly as `lit`.
pub fn same_text(c: &String, lit: &str) -> (r: bool)
    ensures
        r == (c@ == lit@),
{
    let l = lit.to_owned();
    c.eq(&l)
}

/// The decimal digit for `d`, for `d` under ten.
pub open spec fn digit_char(d: nat) -> char {
    if d == 0 {
        '0'
    } else if d == 1 {
        '1'
    } else if d == 2 {
        '2'
    } else if d == 3 {
        '3'
    } else if d == 4 {
        '4'
    } else if d == 5 {
        '5'
    } else if d == 6 {
        '6'
    } else if d == 7 {
        '7'
    } else if d == 8 {
        '8'
    } else {
        '9'
    }
}

/// `n` written in decimal, without leading zeros ("0" for zero).
pub open spec fn digits_of(n: nat) -> Seq<char>
    decreases n,
{
    if n < 10 {
        seq![digit_char(n)]
    } else {
        digits_of(n / 10).push(digit_char(n % 10))
    }
}

/// The last `width` decimal digits of `n`, with leading zeros.
pub open spec fn padded_digits(n: nat, width: nat) -> Seq<char>
    decreases width,
{
    if width == 0 {
        Seq::empty()
    } else {
        padded_digits(n / 10, (width - 1) as nat).push(digit_char(n % 10))
    }
}

/// Ten to the power `p`.
pub open spec fn pow10(p: nat) -> nat
    decreases p,
{
    if p == 0 {
        1
    } else {
        10 * pow10((p - 1) as nat)
    }
}

/// A count of `units` of ten to the minus `places` written as a decimal
/// number with exactly `places` fraction digits (and no point when `places` is 0).
pub open spec fn fixed_text(units: nat, places: nat) -> Seq<char> {
    if places == 0 {
        digits_of(units)
    } else {
        digits_of(units / pow10(places)) + seq!['.'] + padded_digits(units % pow10(places), places)
    }
}

/// Whether `c` is one of the ten decimal digits.
pub open spec fn is_digit_char(c: char) -> bool {
    '0' <= c && c <= '9'
}

/// Decimal digits are never a point.
pub proof fn lemma_digits_are_digits(n: nat)
    ensures
        forall|i: int| 0 <= i < digits_of(n).len() ==> is_digit_char(#[trigger] digits_of(n)[i]),
        digits_of(n).len() >= 1,
    decreases n,
{
    if n >= 10 {
        lemma_digits_are_digits(n / 10);
    }
}

/// Padding writes exactly `width` decimal digits.
pub proof fn lemma_padded_digits(n: nat, width: nat)
    ensures
        padded_digits(n, width).len() == width,
        forall|i: int|
            0 <= i < padded_digits(n, width).len() ==> is_digit_char(
                #[trigger] padded_digits(n, width)[i],
            ),
    decreases width,
{
    if width > 0 {
        lemma_padded_digits(n / 10, (width - 1) as nat);
    }
}

fn digit_text(d: u64) -> (r: &'static str)
    requires
        d < 10,
    ensures
        r@ == seq![digit_char(d as nat)],
{
    if d == 0 {
        let s = "0";
        proof {
            reveal_strlit("0");
            assert(s@ =~= seq![digit_char(d as nat)]);
        }
        s
    } else if d == 1 {
        let s = "1";
        proof {
            reveal_strlit("1");
            assert(s@ =~= seq![digit_char(d as nat)]);
        }
        s
    } else if d == 2 {
        let s = "2";
        proof {
            reveal_strlit("2");
            assert(s@ =~= seq![digit_char(d as nat)]);
        }
        s
    } else if d == 3 {
        let s = "3";
        proof {
            reveal_strlit("3");
            assert(s@ =~= seq![digit_char(d as nat)]);
        }
        s
    } else if d == 4 {
        let s = "4";
        proof {
            reveal_strlit("4");
            assert(s@ =~= seq![digit_char(d as nat)]);
        }
        s
    } else if d == 5 {
        let s = "5";
        proof {
            reveal_strlit("5");
            assert(s@ =~= seq![digit_char(d as nat)]);
        }
        s
    } else if d == 6 {
        let s = "6";
        proof {
            reveal_strlit("6");
            assert(s@ =~= seq![digit_char(d as nat)]);
        }
        s
    } else if d == 7 {
        let s = "7";
        proof {
            reveal_strlit("7");
            assert(s@ =~= seq![digit_char(d as nat)]);
        }
        s
    } else if d == 8 {
        let s = "8";
        proof {
            reveal_strlit("8");
            assert(s@ =~= seq![digit_char(d as nat)]);
        }
        s
    } else {
        let s = "9";
        proof {
            reveal_strlit("9");
            assert(s@ =~= seq![digit_char(d as nat)]);
        }
        s
    }
}

/// `n` written in decimal.
pub fn write_digits(n: u64) -> (r: String)
    ensures
        r@ == digits_of(n as nat),
    decreases n,
{
    if n < 10 {
        digit_text(n).to_owned()
    } else {
        let mut s = write_digits(n / 10);
        s.append(digit_text(n % 10));
        s
    }
}

/// The last `width` digits of `n`, with leading zeros.
pub fn write_padded(n: u64, width: u32) -> (r: String)
    ensures
        r@ == padded_digits(n as nat, width as nat),
    decreases width,
{
    if width == 0 {
        String::new()
    } else {
        let mut s = write_padded(n / 10, width - 1);
        s.append(digit_text(n % 10));
        s
    }
}

/// Ten to the power `p`, for the precisions amounts are kept at.
pub fn small_pow10(p: u32) -> (r: u64)
    requires
        p <= 3,
    ensures
        r as nat == pow10(p as nat),
        1 <= r <= 1000,
{
    proof {
        reveal_with_fuel(pow10, 4);
    }
    if p == 0 {
        1
    } else if p == 1 {
        10
    } else if p == 2 {
        100
    } else {
        1000
    }
}

/// `units` of ten to the minus `places`, written with exactly `places` fraction digits.
pub fn write_fixed(units: u64, places: u32) -> (r: String)
    requires
        places <= 3,
    ensures
        r@ == fixed_text(units as nat, places as nat),
{
    if places == 0 {
        write_digits(units)
    } else {
        let scale = small_pow10(places);
        let mut s = write_digits(units / scale);
        s.append(".");
        let frac = write_padded(units % scale, places);
        s.append(frac.as_str());
        proof {
            reveal_strlit(".");
        }
        s
    }
}

/// Whether byte `b` is an ASCII decimal digit.
pub open spec fn is_digit_byte(b: u8) -> bool {
    48 <= b && b <= 57
}

/// Whether every byte of `b` is an ASCII decimal digit.
pub open spec fn all_digit_bytes(b: Seq<u8>) -> bool {
    forall|i: int| 0 <= i < b.len() ==> is_digit_byte(#[trigger] b[i])
}

/// The number that the ASCII digits `b` spell in decimal.
pub open spec fn digits_value(b: Seq<u8>) -> nat
    decreases b.len(),
{
    if b.len() == 0 {
        0
    } else {
        digits_value(b.drop_last()) * 10 + (b.last() - 48) as nat
    }
}

/// The index of the first ASCII point in `b` at or after `i`; the length of `b` if none.
pub open spec fn point_from(b: Seq<u8>, i: int) -> int
    decreases b.len() - i,
{
    if i < 0 || i >= b.len() {
        b.len() as int
    } else if b[i] == 46 {
        i
    } else {
        point_from(b, i + 1)
    }
}

/// The value, in thousandths, of a decimal written as one or more digits,
/// optionally followed by a point and one to three digits; `None` for any
/// other text.
pub open spec fn decimal_thousandths(b: Seq<u8>) -> Option<nat> {
    let k = point_from(b, 0);
    let whole = b.subrange(0, k);
    if whole.len() == 0 || !all_digit_bytes(whole) {
        None
    } else if k == b.len() {
        Some(digits_value(whole) * 1000)
    } else {
        let frac = b.subrange(k + 1, b.len() as int);
        if frac.len() == 0 || frac.len() > 3 || !all_digit_bytes(frac) {
            None
        } else {
            Some(digits_value(whole) * 1000 + digits_value(frac) * pow10((3 - frac.len()) as nat))
        }
    }
}

/// Reading more digits never makes the value smaller.
pub proof fn lemma_digits_value_grows(b: Seq<u8>, lo: int, i: int, j: int)
    requires
        0 <= lo <= i <= j <= b.len(),
        all_digit_bytes(b.subrange(lo, j)),
    ensures
        digits_value(b.subrange(lo, i)) <= digits_value(b.subrange(lo, j)),
    decreases j - i,
{
    if i < j {
        lemma_digits_value_grows(b, lo, i, j - 1);
        assert(b.subrange(lo, j).drop_last() =~= b.subrange(lo, j - 1));
        assert(all_digit_bytes(b.subrange(lo, j - 1))) by {
            assert forall|k: int| 0 <= k < j - 1 - lo implies is_digit_byte(
                #[trigger] b.subrange(lo, j - 1)[k],
            ) by {
                assert(b.subrange(lo, j - 1)[k] == b.subrange(lo, j)[k]);
            }
        }
    }
}

/// The value of the digits `b[lo..hi]`, or `None` when one of them is not a
/// digit or the value exceeds `limit`.
fn read_digits(b: &[u8], lo: usize, hi: usize, limit: u64) -> (r: Option<u64>)
    requires
        lo <= hi <= b@.len(),
    ensures
        r == (if all_digit_bytes(b@.subrange(lo as int, hi as int)) && digits_value(
            b@.subrange(lo as int, hi as int),
        ) <= limit {
            Some(digits_value(b@.subrange(lo as int, hi as int)) as u64)
        } else {
            None
        }),
{
    let mut i: usize = lo;
    let mut v: u64 = 0;
    while i < hi
        invariant
            lo <= i <= hi <= b@.len(),
            all_digit_bytes(b@.subrange(lo as int, i as int)),
            v as nat == digits_value(b@.subrange(lo as int, i as int)),
            v <= limit,
        decreases hi - i,
    {
        let c = b[i];
        assert(b@.subrange(lo as int, i + 1).drop_last() =~= b@.subrange(lo as int, i as int));
        if c < 48 || c > 57 {
            assert(!is_digit_byte(b@.subrange(lo as int, hi as int)[i - lo]));
            return None;
        }
        assert(all_digit_bytes(b@.subrange(lo as int, i + 1))) by {
            assert forall|k: int| 0 <= k < i + 1 - lo implies is_digit_byte(
                #[trigger] b@.subrange(lo as int, i + 1)[k],
            ) by {
                if k < i - lo {
                    assert(b@.subrange(lo as int, i + 1)[k] == b@.subrange(lo as int, i as int)[k]);
                }
            }
        }
        let d = (c - 48) as u64;
        if d > limit || v > (limit - d) / 10 {
            proof {
                assert(v * 10 + d > limit) by (nonlinear_arith)
                    requires d > limit || v > (limit - d) / 10, v >= 0, d >= 0;
                let full = b@.subrange(lo as int, hi as int);
                if all_digit_bytes(full) {
                    assert(b@.subrange(lo as int, hi as int) =~= full);
                    lemma_digits_value_grows(b@, lo as int, i + 1, hi as int);
                }
            }
            return None;
        }
        v = v * 10 + d;
        i = i + 1;
    }
    Some(v)
}

/// The value, in thousandths, of the decimal `text` (digits, optionally a
/// point and one to three more digits); `None` when the text is not such a
/// decimal or the value does not fit in a `u64`.
pub open spec fn thousandths_of(text: Seq<char>) -> Option<u64> {
    match decimal_thousandths(encode_utf8(text)) {
        Some(v) => if v <= u64::MAX {
            Some(v as u64)
        } else {
            None
        },
        None => None,
    }
}

/// The value, in thousandths, of the decimal text `s`; see `thousandths_of`.
pub fn parse_thousandths(s: &str) -> (r: Option<u64>)
    ensures
        r == thousandths_of(s@),
{
    let b = s.as_bytes();
    let n = b.len();
    let mut k: usize = 0;
    while k < n && b[k] != 46
        invariant
            k <= n == b@.len(),
            point_from(b@, 0) == point_from(b@, k as int),
        decreases n - k,
    {
        k = k + 1;
    }
    proof {
        reveal_with_fuel(pow10, 4);
    }
    if k == 0 {
        return None;
    }
    let whole = match read_digits(b, 0, k, u64::MAX / 1000) {
        Some(w) => w,
        None => {
            proof {
                let ws = b@.subrange(0, k as int);
                if all_digit_bytes(ws) {
                    assert(digits_value(ws) * 1000 > u64::MAX) by (nonlinear_arith)
                        requires digits_value(ws) > u64::MAX / 1000;
                }
            }
            return None;
        }
    };
    if k == n {
        return Some(whole * 1000);
    }
    let flen = n - k - 1;
    if flen == 0 || flen > 3 {
        return None;
    }
    let frac = match read_digits(b, k + 1, n, 999) {
        Some(f) => f,
        None => {
            proof {
                let fs = b@.subrange(k + 1, n as int);
                if all_digit_bytes(fs) {
                    lemma_digits_value_grows(b@, k + 1, n as int, n as int);
                    lemma_digits_value_bound(fs);
                }
            }
            return None;
        }
    };
    let scale = small_pow10((3 - flen) as u32);
    proof {
        lemma_digits_value_bound(b@.subrange(k + 1, n as int));
        assert(frac * scale <= 999) by (nonlinear_arith)
            requires frac < pow10(flen as nat), scale == pow10((3 - flen) as nat), 1 <= flen <= 3,
                pow10(0) == 1, pow10(1) == 10, pow10(2) == 100, pow10(3) == 1000;
    }
    let w = whole * 1000;
    let f = frac * scale;
    w.checked_add(f)
}

/// A run of digits is less than ten to the power of its length.
pub proof fn lemma_digits_value_bound(b: Seq<u8>)
    requires
        all_digit_bytes(b),
    ensures
        digits_value(b) < pow10(b.len()),
    decreases b.len(),
{
    if b.len() > 0 {
        let p = b.drop_last();
        assert(all_digit_bytes(p)) by {
            assert forall|k: int| 0 <= k < p.len() implies is_digit_byte(#[trigger] p[k]) by {
                assert(p[k] == b[k]);
            }
        }
        lemma_digits_value_bound(p);
        assert(is_digit_byte(b[b.len() - 1]));
        assert(digits_value(b) < pow10(b.len())) by (nonlinear_arith)
            requires digits_value(b) == digits_value(p) * 10 + (b.last() - 48) as nat,
                digits_value(p) < pow10(p.len()), pow10(b.len()) == 10 * pow10(p.len()),
                (b.last() - 48) as nat <= 9;
    }
}

} // verus!
