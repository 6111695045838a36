//! Decimal reading and writing for the engine's fixed-point values.
//!
//! A directive value such as `0.5` is carried as 500 thousandths; this
//! module defines the accepted grammar (digits, optionally a point and
//! more digits), the value a numeral denotes, and the shortest decimal
//! rendering of a stored value.

use vstd::prelude::*;

use crate::text::{lemma_find_bounds, spec_find};

verus! {

/// A decimal digit.
pub open spec fn spec_is_digit(c: char) -> bool {
    c == '0' || c == '1' || c == '2' || c == '3' || c == '4' || c == '5' || c == '6' || c == '7'
        || c == '8' || c == '9'
}

/// The value of a decimal digit.
pub open spec fn spec_digit_val(c: char) -> int {
    match c {
        '0' => 0,
        '1' => 1,
        '2' => 2,
        '3' => 3,
        '4' => 4,
        '5' => 5,
        '6' => 6,
        '7' => 7,
        '8' => 8,
        '9' => 9,
        _ => 0,
    }
}

/// The digit character for a value below ten.
pub open spec fn spec_digit_char(d: int) -> char {
    if d == 0 {
        '0'
    } else if d == 1 {
        '1'
    } else if d == 2 {
        '2'
    } else if d == 3 {
        '3'
    } else if d == 4 {
        '4'
    } else if d == 5 {
        '5'
    } else if d == 6 {
        '6'
    } else if d == 7 {
        '7'
    } else if d == 8 {
        '8'
    } else if d == 9 {
        '9'
    } else {
        '0'
    }
}

/// Every character of `s` is a decimal digit.
pub open spec fn spec_all_digits(s: Seq<char>) -> bool {
    forall|i: int| 0 <= i < s.len() ==> spec_is_digit(s[i])
}

/// The non-negative integer a digit string denotes.
pub open spec fn spec_digits_val(s: Seq<char>) -> int
    decreases s.len(),
{
    if s.len() == 0 {
        0
    } else {
        spec_digits_val(s.drop_last()) * 10 + spec_digit_val(s.last())
    }
}

pub proof fn lemma_digits_val_nonneg(s: Seq<char>)
    ensures
        spec_digits_val(s) >= 0,
    decreases s.len(),
{
    if s.len() > 0 {
        lemma_digits_val_nonneg(s.drop_last());
    }
}

/// Executable digit test.
pub fn is_digit(c: char) -> (r: bool)
    ensures
        r == spec_is_digit(c),
{
    c == '0' || c == '1' || c == '2' || c == '3' || c == '4' || c == '5' || c == '6' || c == '7'
        || c == '8' || c == '9'
}

/// Executable digit value.
pub fn digit_val(c: char) -> (r: u32)
    ensures
        r == spec_digit_val(c),
{
    match c {
        '0' => 0,
        '1' => 1,
        '2' => 2,
        '3' => 3,
        '4' => 4,
        '5' => 5,
        '6' => 6,
        '7' => 7,
        '8' => 8,
        '9' => 9,
        _ => 0,
    }
}

/// The kth digit of the fractional digit string `f`, counting from the
/// point; absent places read as zero.
pub open spec fn spec_frac_digit(f: Seq<char>, k: int) -> int {
    if 0 <= k < f.len() {
        spec_digit_val(f[k])
    } else {
        0
    }
}

/// The thousandths a fractional digit string denotes; digits beyond
/// the third have no effect.
pub open spec fn spec_frac_milli(f: Seq<char>) -> int {
    spec_frac_digit(f, 0) * 100 + spec_frac_digit(f, 1) * 10 + spec_frac_digit(f, 2)
}

/// The fractional digit string of the numeral `s`: what follows the
/// first point, or empty if there is none.
pub open spec fn spec_frac_part(s: Seq<char>) -> Seq<char> {
    let d = spec_find(s, '.');
    if d < s.len() {
        s.skip(d + 1)
    } else {
        Seq::empty()
    }
}

/// The integer digit string of the numeral `s`: what precedes the
/// first point.
pub open spec fn spec_int_part(s: Seq<char>) -> Seq<char> {
    s.take(spec_find(s, '.'))
}

/// `s` is an accepted numeral: a non-empty run of digits, optionally
/// followed by a point and further digits.
pub open spec fn spec_milli_ok(s: Seq<char>) -> bool {
    &&& spec_find(s, '.') >= 1
    &&& spec_all_digits(spec_int_part(s))
    &&& spec_all_digits(spec_frac_part(s))
}

/// The thousandths the numeral `s` denotes, truncated after the third
/// fractional digit.
pub open spec fn spec_milli_val(s: Seq<char>) -> int {
    spec_digits_val(spec_int_part(s)) * 1000 + spec_frac_milli(spec_frac_part(s))
}

/// Reads a numeral as a count of thousandths.  Succeeds exactly on the
/// accepted grammar when the denoted value fits `u32`.
pub fn parse_milli(s: &str) -> (r: Option<u32>)
    ensures
        r is Some <==> spec_milli_ok(s@) && spec_milli_val(s@) <= u32::MAX,
        r matches Some(v) ==> v == spec_milli_val(s@),
{
    let n: usize = s.unicode_len();
    let d: usize = crate::text::find_char(s, '.');
    proof {
        lemma_find_bounds(s@, '.');
    }
    if d == 0 {
        return None;
    }
    // integer part
    let mut i: usize = 0;
    let mut acc: u64 = 0;
    let mut too_big = false;
    while i < d
        invariant
            0 <= i <= d <= n == s@.len(),
            d == spec_find(s@, '.'),
            forall|j: int| 0 <= j < i ==> spec_is_digit(s@[j]),
            !too_big ==> acc == spec_digits_val(s@.take(i as int)) && acc <= u32::MAX,
            too_big ==> spec_digits_val(s@.take(i as int)) > u32::MAX,
        decreases d - i,
    {
        let c = s.get_char(i);
        if !is_digit(c) {
            proof {
                assert(spec_int_part(s@)[i as int] == s@[i as int]);
            }
            return None;
        }
        let dv: u64 = digit_val(c) as u64;
        proof {
            assert(s@.take(i as int + 1).drop_last() =~= s@.take(i as int));
            assert(s@.take(i as int + 1).last() == s@[i as int]);
            if too_big {
                lemma_digits_val_nonneg(s@.take(i as int));
            }
        }
        if !too_big {
            acc = acc * 10 + dv;
            if acc > 0xFFFF_FFFF {
                too_big = true;
            }
        }
        i = i + 1;
    }
    proof {
        assert(s@.take(d as int) == spec_int_part(s@));
    }
    // fractional part
    let mut frac: u32 = 0;
    if d < n {
        let ghost f = s@.skip(d as int + 1);
        let mut k: usize = d + 1;
        while k < n
            invariant
                d + 1 <= k <= n == s@.len(),
                d == spec_find(s@, '.'),
                f == s@.skip(d as int + 1),
                forall|j: int| d + 1 <= j < k ==> spec_is_digit(s@[j]),
                frac == spec_frac_digit(f, 0) * 100 * (if k >= d + 2 {
                    1int
                } else {
                    0int
                }) + spec_frac_digit(f, 1) * 10 * (if k >= d + 3 {
                    1int
                } else {
                    0int
                }) + spec_frac_digit(f, 2) * (if k >= d + 4 {
                    1int
                } else {
                    0int
                }),
            decreases n - k,
        {
            let c = s.get_char(k);
            if !is_digit(c) {
                proof {
                    assert(spec_frac_part(s@)[k - d - 1] == s@[k as int]);
                }
                return None;
            }
            proof {
                assert(f[k - d - 1] == s@[k as int]);
            }
            let dv: u32 = digit_val(c);
            if k == d + 1 {
                frac = frac + dv * 100;
            } else if k == d + 2 {
                frac = frac + dv * 10;
            } else if k == d + 3 {
                frac = frac + dv;
            }
            k = k + 1;
        }
        proof {
            assert forall|j: int| 0 <= j < f.len() implies spec_is_digit(f[j]) by {
                assert(f[j] == s@[j + d + 1]);
            }
            assert(frac == spec_frac_milli(f));
        }
    } else {
        proof {
            assert(spec_frac_part(s@) =~= Seq::<char>::empty());
        }
    }
    proof {
        assert(spec_milli_ok(s@));
        assert(0 <= frac < 1000);
    }
    if too_big {
        proof {
            lemma_digits_val_nonneg(spec_frac_part(s@));
            assert(spec_milli_val(s@) > u32::MAX);
        }
        return None;
    }
    let total: u64 = acc * 1000 + frac as u64;
    if total > 0xFFFF_FFFF {
        return None;
    }
    Some(total as u32)
}

/// Reads a numeral as a speed in words per minute: digits only, value
/// at most 255.
pub fn parse_wpm(s: &str) -> (r: Option<u8>)
    ensures
        r is Some <==> s@.len() >= 1 && spec_all_digits(s@) && spec_digits_val(s@) <= u8::MAX,
        r matches Some(v) ==> v == spec_digits_val(s@),
{
    let n: usize = s.unicode_len();
    if n == 0 {
        return None;
    }
    let mut i: usize = 0;
    let mut acc: u32 = 0;
    let mut too_big = false;
    while i < n
        invariant
            0 <= i <= n == s@.len(),
            forall|j: int| 0 <= j < i ==> spec_is_digit(s@[j]),
            !too_big ==> acc == spec_digits_val(s@.take(i as int)) && acc <= u8::MAX,
            too_big ==> spec_digits_val(s@.take(i as int)) > u8::MAX,
        decreases n - i,
    {
        let c = s.get_char(i);
        if !is_digit(c) {
            return None;
        }
        let dv: u32 = digit_val(c);
        proof {
            assert(s@.take(i as int + 1).drop_last() =~= s@.take(i as int));
            assert(s@.take(i as int + 1).last() == s@[i as int]);
            if too_big {
                lemma_digits_val_nonneg(s@.take(i as int));
            }
        }
        if !too_big {
            acc = acc * 10 + dv;
            if acc > 255 {
                too_big = true;
            }
        }
        i = i + 1;
    }
    proof {
        assert(s@.take(n as int) =~= s@);
    }
    if too_big {
        return None;
    }
    Some(acc as u8)
}

/// The decimal digit string of a non-negative integer.
pub open spec fn spec_dec(n: int) -> Seq<char>
    decreases n,
{
    if n < 10 {
        seq![spec_digit_char(n)]
    } else {
        spec_dec(n / 10).push(spec_digit_char(n % 10))
    }
}

/// The digit character for a value below ten, as a borrowed string.
fn digit_str(d: u32) -> (r: &'static str)
    requires
        d < 10,
    ensures
        r@ =~= seq![spec_digit_char(d as int)],
{
    proof {
        reveal_strlit("0");
        reveal_strlit("1");
        reveal_strlit("2");
        reveal_strlit("3");
        reveal_strlit("4");
        reveal_strlit("5");
        reveal_strlit("6");
        reveal_strlit("7");
        reveal_strlit("8");
        reveal_strlit("9");
    }
    match d {
        0 => "0",
        1 => "1",
        2 => "2",
        3 => "3",
        4 => "4",
        5 => "5",
        6 => "6",
        7 => "7",
        8 => "8",
        _ => "9",
    }
}

/// The reversed digit characters of `ds`.
spec fn rev_chars(ds: Seq<u32>) -> Seq<char> {
    Seq::new(ds.len(), |i: int| spec_digit_char(ds[ds.len() - 1 - i] as int))
}

/// Writes a non-negative integer in decimal.
pub fn u32_to_string(n: u32) -> (r: String)
    ensures
        r@ == spec_dec(n as int),
{
    let mut digits: Vec<u32> = Vec::new();
    let mut m: u32 = n;
    if m < 10 {
        return String::from_str(digit_str(m));
    }
    while m > 0
        invariant
            m > 0 ==> spec_dec(n as int) =~= spec_dec(m as int) + rev_chars(digits@),
            m == 0 ==> spec_dec(n as int) =~= rev_chars(digits@),
            forall|j: int| 0 <= j < digits@.len() ==> digits@[j] < 10,
        decreases m,
    {
        let dv: u32 = m % 10;
        let ghost digits0 = digits@;
        digits.push(dv);
        proof {
            assert(rev_chars(digits@) =~= seq![spec_digit_char(dv as int)] + rev_chars(digits0));
            if m >= 10 {
                assert(spec_dec(m as int) == spec_dec(m as int / 10).push(
                    spec_digit_char(m as int % 10),
                ));
                assert(spec_dec(m as int / 10) + rev_chars(digits@) =~= spec_dec(m as int)
                    + rev_chars(digits0));
            } else {
                assert(spec_dec(m as int) =~= seq![spec_digit_char(m as int)]);
                assert(rev_chars(digits@) =~= spec_dec(m as int) + rev_chars(digits0));
            }
        }
        m = m / 10;
    }
    let mut r = String::new();
    let mut k: usize = digits.len();
    while k > 0
        invariant
            0 <= k <= digits@.len(),
            forall|j: int| 0 <= j < digits@.len() ==> digits@[j] < 10,
            r@ =~= rev_chars(digits@).take(digits@.len() - k),
        decreases k,
    {
        k = k - 1;
        let ghost r0 = r@;
        r.append(digit_str(digits[k]));
        proof {
            assert(rev_chars(digits@)[digits@.len() - 1 - k] == spec_digit_char(
                digits@[k as int] as int,
            ));
            assert(r@ =~= rev_chars(digits@).take(digits@.len() - k));
        }
    }
    proof {
        assert(rev_chars(digits@).take(digits@.len() as int) =~= rev_chars(digits@));
    }
    r
}

/// The shortest decimal rendering of a count of thousandths: the
/// integer part, then a point and the fractional digits with trailing
/// zeros dropped; nothing after an exact integer.
pub open spec fn spec_format_milli(v: u32) -> Seq<char> {
    let ip = v as int / 1000;
    let f = v as int % 1000;
    if f == 0 {
        spec_dec(ip)
    } else if f % 100 == 0 {
        spec_dec(ip) + seq!['.', spec_digit_char(f / 100)]
    } else if f % 10 == 0 {
        spec_dec(ip) + seq!['.', spec_digit_char(f / 100), spec_digit_char((f / 10) % 10)]
    } else {
        spec_dec(ip) + seq![
            '.',
            spec_digit_char(f / 100),
            spec_digit_char((f / 10) % 10),
            spec_digit_char(f % 10),
        ]
    }
}

/// Writes a count of thousandths as its shortest decimal numeral.
pub fn format_milli(v: u32) -> (r: String)
    ensures
        r@ == spec_format_milli(v),
{
    let ip: u32 = v / 1000;
    let f: u32 = v % 1000;
    let mut r = u32_to_string(ip);
    if f == 0 {
        return r;
    }
    proof {
        reveal_strlit(".");
    }
    r.append(".");
    r.append(digit_str(f / 100));
    if f % 100 == 0 {
        proof {
            assert(r@ =~= spec_format_milli(v));
        }
        return r;
    }
    r.append(digit_str((f / 10) % 10));
    if f % 10 == 0 {
        proof {
            assert(r@ =~= spec_format_milli(v));
        }
        return r;
    }
    r.append(digit_str(f % 10));
    proof {
        assert(r@ =~= spec_format_milli(v));
    }
    r
}

} // verus!
