//! Decimal encoding and parsing of 64-bit integers, and the pinned integer
//! reading of interpreter numbers.
//!
//! Two conventions of the bridge live here.  First, 64-bit integers cross
//! the interpreter boundary as decimal strings, never as interpreter
//! numbers, because a number is a double with only 53 bits of integral
//! precision; the encoding and the parser below are exact inverses, which is
//! what makes that convention lossless.  Second, where a host function reads
//! an integer argument from an interpreter number (limits and offsets), the
//! reading is pinned as truncation toward zero of the IEEE-754 double,
//! saturated to the 64-bit signed range, computed here purely on the bit
//! pattern.

use vstd::prelude::*;
use vstd::string::*;

verus! {

/// The decimal digit character for `d` in 0..=9.
pub open spec fn digit_char(d: nat) -> char {
    if d == 0 {
        '0'
    } else if d == 1 {
        '1'
    } else if d == 2 {
        '2'
    } else if d == 3 {
        '3'
    } else if d == 4 {
        '4'
    } else if d == 5 {
        '5'
    } else if d == 6 {
        '6'
    } else if d == 7 {
        '7'
    } else if d == 8 {
        '8'
    } else {
        '9'
    }
}

/// Whether `c` is a decimal digit.
pub open spec fn is_digit_char(c: char) -> bool {
    48 <= c as int && c as int <= 57
}

/// The numeric value of a digit character ('0' -> 0, ..., '9' -> 9).
pub open spec fn digit_val(c: char) -> nat {
    (c as int - 48) as nat
}

/// The canonical decimal form of `n`: no sign, no leading zero except for
/// the single digit "0" itself.
pub open spec fn dec_digits(n: nat) -> Seq<char>
    decreases n,
{
    if n < 10 {
        seq![digit_char(n)]
    } else {
        dec_digits(n / 10) + seq![digit_char(n % 10)]
    }
}

/// The canonical decimal form of a signed integer: a leading '-' for
/// negative values, then the digits of the magnitude.
pub open spec fn dec_int(i: int) -> Seq<char> {
    if i >= 0 {
        dec_digits(i as nat)
    } else {
        seq!['-'] + dec_digits((-i) as nat)
    }
}

/// Whether every character of `s` is a decimal digit.
pub open spec fn all_digits(s: Seq<char>) -> bool {
    forall|i: int| 0 <= i < s.len() ==> is_digit_char(s[i])
}

/// The numeric value of a digit string (most significant digit first).
pub open spec fn dec_val(s: Seq<char>) -> nat
    decreases s.len(),
{
    if s.len() == 0 {
        0
    } else {
        dec_val(s.drop_last()) * 10 + digit_val(s.last())
    }
}

/// What parsing `s` as an unsigned 64-bit decimal yields: the digits' value
/// when `s` is nonempty, all digits, and the value fits; nothing otherwise.
/// No sign and no other character is accepted.
pub open spec fn spec_parse_u64(s: Seq<char>) -> Option<u64> {
    if s.len() > 0 && all_digits(s) && dec_val(s) <= u64::MAX {
        Some(dec_val(s) as u64)
    } else {
        None
    }
}

/// What parsing `s` as a signed 64-bit decimal yields.  The pinned grammar
/// is an optional leading '-' followed by one or more digits; the value must
/// fit in an `i64`.
pub open spec fn spec_parse_i64(s: Seq<char>) -> Option<i64> {
    if s.len() > 0 && s[0] == '-' {
        let t = s.subrange(1, s.len() as int);
        if t.len() > 0 && all_digits(t) && dec_val(t) <= 0x8000_0000_0000_0000 {
            Some((-(dec_val(t) as int)) as i64)
        } else {
            None
        }
    } else {
        if s.len() > 0 && all_digits(s) && dec_val(s) <= i64::MAX {
            Some(dec_val(s) as i64)
        } else {
            None
        }
    }
}

/// The canonical decimal form is nonempty and made of digits only.
pub proof fn lemma_dec_digits_wf(n: nat)
    ensures
        dec_digits(n).len() >= 1,
        all_digits(dec_digits(n)),
    decreases n,
{
    if n < 10 {
    } else {
        lemma_dec_digits_wf(n / 10);
        assert forall|i: int| 0 <= i < dec_digits(n).len() implies is_digit_char(
            dec_digits(n)[i],
        ) by {
            if i < dec_digits(n / 10).len() {
                assert(dec_digits(n)[i] == dec_digits(n / 10)[i]);
            } else {
                assert(dec_digits(n)[i] == digit_char(n % 10));
            }
        }
    }
}

/// Encoding then evaluating gives the number back: the decimal form is
/// lossless.
pub proof fn lemma_dec_val_of_digits(n: nat)
    ensures
        dec_val(dec_digits(n)) == n,
    decreases n,
{
    if n < 10 {
        assert(dec_digits(n).drop_last() =~= Seq::<char>::empty());
        assert(dec_val(Seq::<char>::empty()) == 0);
        assert(dec_digits(n).last() == digit_char(n));
        assert(dec_val(dec_digits(n)) == dec_val(Seq::<char>::empty()) * 10 + digit_val(
            digit_char(n),
        ));
        assert(digit_val(digit_char(n)) == n);
    } else {
        lemma_dec_val_of_digits(n / 10);
        assert(dec_digits(n).drop_last() =~= dec_digits(n / 10));
        assert(dec_digits(n).last() == digit_char(n % 10));
        assert(dec_val(dec_digits(n)) == dec_val(dec_digits(n / 10)) * 10 + digit_val(
            digit_char(n % 10),
        ));
        assert(digit_val(digit_char(n % 10)) == n % 10);
        assert(n / 10 * 10 + n % 10 == n);
    }
}

/// A prefix of a digit string never exceeds the whole string's value.
pub proof fn lemma_dec_val_prefix(s: Seq<char>, k: int)
    requires
        0 <= k <= s.len(),
    ensures
        dec_val(s.subrange(0, k)) <= dec_val(s),
    decreases s.len(),
{
    if k < s.len() {
        let t = s.drop_last();
        assert(t.subrange(0, k) =~= s.subrange(0, k));
        lemma_dec_val_prefix(t, k);
    } else {
        assert(s.subrange(0, k) =~= s);
    }
}

/// Round trip of the unsigned decimal convention: parsing the canonical
/// form of any `u64` gives that value back.
pub proof fn lemma_u64_decimal_round_trip(n: u64)
    ensures
        spec_parse_u64(dec_digits(n as nat)) == Some(n),
{
    lemma_dec_digits_wf(n as nat);
    lemma_dec_val_of_digits(n as nat);
}

/// Round trip of the signed decimal convention: parsing the canonical form
/// of any `i64` gives that value back.
pub proof fn lemma_i64_decimal_round_trip(i: i64)
    ensures
        spec_parse_i64(dec_int(i as int)) == Some(i),
{
    if i >= 0 {
        lemma_dec_digits_wf(i as nat);
        lemma_dec_val_of_digits(i as nat);
        let s = dec_int(i as int);
        assert(is_digit_char(s[0]));
        assert(s[0] != '-');
    } else {
        let m = (-(i as int)) as nat;
        lemma_dec_digits_wf(m);
        lemma_dec_val_of_digits(m);
        let s = dec_int(i as int);
        assert(s[0] == '-');
        assert(s.subrange(1, s.len() as int) =~= dec_digits(m));
    }
}

/// The one-character string for a digit.
fn digit_str(d: u64) -> (r: &'static str)
    requires
        d < 10,
    ensures
        r@ =~= seq![digit_char(d as nat)],
{
    let s: &'static str = match d {
        0 => "0",
        1 => "1",
        2 => "2",
        3 => "3",
        4 => "4",
        5 => "5",
        6 => "6",
        7 => "7",
        8 => "8",
        _ => "9",
    };
    proof {
        reveal_strlit("0");
        reveal_strlit("1");
        reveal_strlit("2");
        reveal_strlit("3");
        reveal_strlit("4");
        reveal_strlit("5");
        reveal_strlit("6");
        reveal_strlit("7");
        reveal_strlit("8");
        reveal_strlit("9");
    }
    s
}

/// Renders `n` in its canonical decimal form.
pub fn u64_to_dec_string(n: u64) -> (r: String)
    ensures
        r@ == dec_digits(n as nat),
{
    let mut s = String::from_str(digit_str(n % 10));
    let mut m = n / 10;
    proof {
        if m == 0 {
            assert(dec_digits(n as nat) =~= s@);
        } else {
            assert(dec_digits(n as nat) =~= dec_digits(m as nat) + s@);
        }
    }
    while m > 0
        invariant
            m > 0 ==> dec_digits(n as nat) == dec_digits(m as nat) + s@,
            m == 0 ==> dec_digits(n as nat) == s@,
        decreases m,
    {
        let ghost m0 = m as nat;
        let ghost s0 = s@;
        let d = m % 10;
        m = m / 10;
        s = String::from_str(digit_str(d)).concat(s.as_str());
        proof {
            if m == 0 {
                assert(dec_digits(m0) =~= seq![digit_char(d as nat)]);
                assert(dec_digits(n as nat) =~= s@);
            } else {
                assert(dec_digits(m0) =~= dec_digits(m as nat) + seq![digit_char(d as nat)]);
                assert(dec_digits(n as nat) =~= dec_digits(m as nat) + s@);
            }
        }
    }
    s
}

/// Renders `i` in its canonical decimal form, with a leading '-' when
/// negative.
pub fn i64_to_dec_string(i: i64) -> (r: String)
    ensures
        r@ == dec_int(i as int),
{
    if i >= 0 {
        u64_to_dec_string(i as u64)
    } else {
        let wide: i128 = -(i as i128);
        let mag: u64 = wide as u64;
        let r = String::from_str("-").concat(u64_to_dec_string(mag).as_str());
        proof {
            reveal_strlit("-");
            assert(r@ =~= dec_int(i as int));
        }
        r
    }
}

/// Parses an unsigned 64-bit decimal; exactly the values that
/// [`spec_parse_u64`] describes.
pub fn parse_u64_dec(s: &str) -> (r: Option<u64>)
    ensures
        r == spec_parse_u64(s@),
{
    let len = s.unicode_len();
    if len == 0 {
        return None;
    }
    let mut acc: u64 = 0;
    let mut i: usize = 0;
    while i < len
        invariant
            0 <= i <= len,
            len == s@.len(),
            all_digits(s@.subrange(0, i as int)),
            acc as nat == dec_val(s@.subrange(0, i as int)),
        decreases len - i,
    {
        let c = s.get_char(i);
        let cv = c as u32;
        if cv < 48 || cv > 57 {
            proof {
                assert(!is_digit_char(s@[i as int]));
            }
            return None;
        }
        let d = (cv - 48) as u64;
        let wide: u128 = acc as u128 * 10 + d as u128;
        proof {
            assert(s@.subrange(0, i + 1).drop_last() =~= s@.subrange(0, i as int));
            assert(s@.subrange(0, i + 1).last() == s@[i as int]);
            assert(dec_val(s@.subrange(0, i + 1)) == acc as nat * 10 + d as nat);
        }
        if wide > u64::MAX as u128 {
            proof {
                lemma_dec_val_prefix(s@, i + 1);
            }
            return None;
        }
        acc = wide as u64;
        i = i + 1;
        proof {
            assert forall|j: int| 0 <= j < i implies is_digit_char(
                s@.subrange(0, i as int)[j],
            ) by {
                if j < i - 1 {
                    assert(s@.subrange(0, i as int)[j] == s@.subrange(0, i - 1)[j]);
                }
            }
        }
    }
    proof {
        assert(s@.subrange(0, len as int) =~= s@);
    }
    Some(acc)
}

/// Parses a signed 64-bit decimal; exactly the values that
/// [`spec_parse_i64`] describes.
pub fn parse_i64_dec(s: &str) -> (r: Option<i64>)
    ensures
        r == spec_parse_i64(s@),
{
    let len = s.unicode_len();
    if len == 0 {
        return None;
    }
    let c0 = s.get_char(0);
    if c0 == '-' {
        let rest = s.substring_char(1, len);
        match parse_u64_dec(rest) {
            Some(v) => {
                if v <= 0x8000_0000_0000_0000u64 {
                    let wide: i128 = -(v as i128);
                    Some(wide as i64)
                } else {
                    None
                }
            },
            None => None,
        }
    } else {
        match parse_u64_dec(s) {
            Some(v) => {
                if v <= i64::MAX as u64 {
                    Some(v as i64)
                } else {
                    None
                }
            },
            None => None,
        }
    }
}

/// The pinned integral reading of an interpreter number, straight from its
/// IEEE-754 bit pattern: the double truncated toward zero and saturated to
/// the `i64` range; a NaN reads as 0.  This is the model of the
/// interpreter's own number-to-integer conversion, defined here so the
/// argument extractors stay exact without any floating-point arithmetic.
pub open spec fn spec_number_to_int(bits: u64) -> i64 {
    let exp = (bits >> 52) & 0x7ff;
    let frac = bits & 0xf_ffff_ffff_ffff;
    let neg = (bits >> 63) == 1;
    if exp == 0x7ff && frac != 0 {
        0
    } else if exp < 1023 {
        0
    } else if exp >= 1086 {
        if neg {
            i64::MIN
        } else {
            i64::MAX
        }
    } else {
        let sig = frac | 0x10_0000_0000_0000;
        let mag = if exp >= 1075 {
            sig << ((exp - 1075) as u64)
        } else {
            sig >> ((1075 - exp) as u64)
        };
        if neg {
            (-(mag as int)) as i64
        } else {
            mag as i64
        }
    }
}

/// Computes [`spec_number_to_int`].
pub fn number_to_int(bits: u64) -> (r: i64)
    ensures
        r == spec_number_to_int(bits),
{
    let exp = (bits >> 52) & 0x7ff;
    let frac = bits & 0xf_ffff_ffff_ffff;
    let neg = (bits >> 63) == 1;
    if exp == 0x7ff && frac != 0 {
        0
    } else if exp < 1023 {
        0
    } else if exp >= 1086 {
        if neg {
            i64::MIN
        } else {
            i64::MAX
        }
    } else {
        let sig = frac | 0x10_0000_0000_0000;
        proof {
            assert((bits & 0xf_ffff_ffff_ffff) | 0x10_0000_0000_0000 <= 0x1f_ffff_ffff_ffff)
                by (bit_vector);
        }
        let mag = if exp >= 1075 {
            let sh = exp - 1075;
            proof {
                assert(sig <= 0x1f_ffff_ffff_ffff && sh <= 10 ==> (sig << sh)
                    <= 0x7fff_ffff_ffff_fc00) by (bit_vector);
            }
            sig << sh
        } else {
            let sh = 1075 - exp;
            proof {
                assert((sig >> sh) <= sig) by (bit_vector);
            }
            sig >> sh
        };
        if neg {
            -(mag as i64)
        } else {
            mag as i64
        }
    }
}

/// Whether a weight's bit pattern lies in [-1.0, 1.0]: by the ordering of
/// IEEE-754 doubles, the magnitude bits must not exceed the bits of 1.0.
/// A NaN's magnitude bits exceed them, so a NaN is never in range.
pub open spec fn spec_weight_ok(bits: u64) -> bool {
    (bits & 0x7fff_ffff_ffff_ffff) <= 0x3ff0_0000_0000_0000
}

/// Computes [`spec_weight_ok`].
pub fn weight_in_range(bits: u64) -> (r: bool)
    ensures
        r == spec_weight_ok(bits),
{
    (bits & 0x7fff_ffff_ffff_ffff) <= 0x3ff0_0000_0000_0000
}

} // verus!
