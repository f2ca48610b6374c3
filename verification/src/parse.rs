//! Verified decimal parsing for the numeric fields that the upstream
//! delivers as strings (entity ids, revision counters, playtime seconds).
//!
//! The functions mirror `str::parse` for unsigned and signed integers: an
//! optional sign followed by one or more decimal digits, rejecting empty
//! input, stray characters and overflow.

use vstd::prelude::*;
use vstd::string::StrSliceExecFns;

verus! {

/// True when `c` is a decimal digit.
pub open spec fn is_digit(c: char) -> bool {
    '0' as u32 <= c as u32 <= '9' as u32
}

/// True when every character of `s` is a decimal digit.
pub open spec fn all_digits(s: Seq<char>) -> bool {
    forall|i: int| 0 <= i < s.len() ==> is_digit(#[trigger] s[i])
}

/// The number denoted by a sequence of decimal digits, most significant
/// digit first.
pub open spec fn dec_nat(s: Seq<char>) -> nat
    decreases s.len(),
{
    if s.len() == 0 {
        0
    } else {
        (dec_nat(s.drop_last()) * 10 + (s.last() as u32 - '0' as u32)) as nat
    }
}

/// What a run of decimal digits parses to as a `u64`: defined only when the
/// run is non-empty, all digits, and its value fits.
pub open spec fn dec_value(s: Seq<char>) -> Option<u64> {
    if s.len() > 0 && all_digits(s) && dec_nat(s) <= u64::MAX {
        Some(dec_nat(s) as u64)
    } else {
        None
    }
}

/// What `str::parse::<u64>` accepts: an optional leading `+`, then digits.
pub open spec fn parsed_u64(s: Seq<char>) -> Option<u64> {
    if s.len() > 0 && s[0] == '+' {
        dec_value(s.skip(1))
    } else {
        dec_value(s)
    }
}

/// What `str::parse::<u32>` accepts.
pub open spec fn parsed_u32(s: Seq<char>) -> Option<u32> {
    match parsed_u64(s) {
        Some(v) => if v <= u32::MAX { Some(v as u32) } else { None },
        None => None,
    }
}

/// What `str::parse::<i64>` accepts: an optional sign, then digits, with the
/// magnitude bounded by the signed range.
pub open spec fn parsed_i64(s: Seq<char>) -> Option<i64> {
    if s.len() > 0 && s[0] == '-' {
        match dec_value(s.skip(1)) {
            Some(m) => if m <= i64::MAX as u64 + 1 { Some((-(m as int)) as i64) } else { None },
            None => None,
        }
    } else {
        match parsed_u64(s) {
            Some(m) => if m <= i64::MAX as u64 { Some(m as i64) } else { None },
            None => None,
        }
    }
}

/// A digit run's value never shrinks as the run grows to the right.
proof fn lemma_dec_nat_prefix(s: Seq<char>, k: int)
    requires
        0 <= k <= s.len(),
        all_digits(s),
    ensures
        dec_nat(s) >= dec_nat(s.take(k)),
    decreases s.len() - k,
{
    if k < s.len() {
        assert(s.take(k + 1).drop_last() =~= s.take(k));
        assert(s.take(k + 1).last() == s[k]);
        assert(dec_nat(s.take(k + 1)) == dec_nat(s.take(k)) * 10 + (s[k] as u32 - '0' as u32));
        assert(dec_nat(s.take(k)) * 10 >= dec_nat(s.take(k))) by (nonlinear_arith)
            requires dec_nat(s.take(k)) >= 0;
        lemma_dec_nat_prefix(s, k + 1);
        assert(s.take(s.len() as int) =~= s);
    } else {
        assert(s.take(k) =~= s);
    }
}

/// Parses a bare run of decimal digits.
fn parse_digits(s: &str) -> (r: Option<u64>)
    ensures
        r == dec_value(s@),
{
    let n = s.unicode_len();
    if n == 0 {
        return None;
    }
    let mut acc: u64 = 0;
    let mut j: usize = 0;
    while j < n
        invariant
            0 <= j <= n,
            n == s@.len(),
            all_digits(s@.take(j as int)),
            acc == dec_nat(s@.take(j as int)),
        decreases n - j,
    {
        let c = s.get_char(j);
        let cu = c as u32;
        if cu < '0' as u32 || cu > '9' as u32 {
            assert(!is_digit(s@[j as int]));
            return None;
        }
        let d = (cu - '0' as u32) as u64;
        assert(s@.take(j as int + 1).drop_last() =~= s@.take(j as int));
        let next = match acc.checked_mul(10) {
            Some(x) => x.checked_add(d),
            None => None,
        };
        match next {
            Some(x) => {
                acc = x;
            },
            None => {
                // The prefix already exceeds the range, so the whole run does.
                proof {
                    if all_digits(s@) {
                        assert(dec_nat(s@.take(j as int + 1)) > u64::MAX);
                        lemma_dec_nat_prefix(s@, j as int + 1);
                    }
                }
                return None;
            },
        }
        j = j + 1;
    }
    assert(s@.take(n as int) =~= s@);
    Some(acc)
}

/// Parses a decimal `u64` exactly as `str::parse::<u64>` does.
pub fn parse_u64(s: &str) -> (r: Option<u64>)
    ensures
        r == parsed_u64(s@),
{
    let n = s.unicode_len();
    if n > 0 && s.get_char(0) == '+' {
        let rest = s.substring_char(1, n);
        assert(rest@ =~= s@.skip(1));
        parse_digits(rest)
    } else {
        parse_digits(s)
    }
}

/// Parses a decimal `u32` exactly as `str::parse::<u32>` does.
pub fn parse_u32(s: &str) -> (r: Option<u32>)
    ensures
        r == parsed_u32(s@),
{
    match parse_u64(s) {
        Some(v) => {
            if v <= u32::MAX as u64 {
                Some(v as u32)
            } else {
                None
            }
        },
        None => None,
    }
}

/// Parses a decimal `i64` exactly as `str::parse::<i64>` does.
pub fn parse_i64(s: &str) -> (r: Option<i64>)
    ensures
        r == parsed_i64(s@),
{
    let n = s.unicode_len();
    if n > 0 && s.get_char(0) == '-' {
        let rest = s.substring_char(1, n);
        assert(rest@ =~= s@.skip(1));
        match parse_digits(rest) {
            Some(m) => {
                if m <= 0x8000_0000_0000_0000u64 {
                    if m == 0x8000_0000_0000_0000u64 {
                        Some(i64::MIN)
                    } else {
                        Some(-(m as i64))
                    }
                } else {
                    None
                }
            },
            None => None,
        }
    } else {
        match parse_u64(s) {
            Some(m) => {
                if m <= i64::MAX as u64 {
                    Some(m as i64)
                } else {
                    None
                }
            },
            None => None,
        }
    }
}

/// The character of one decimal digit.
pub open spec fn digit_char(d: u64) -> char {
    if d == 0 {
        '0'
    } else if d == 1 {
        '1'
    } else if d == 2 {
        '2'
    } else if d == 3 {
        '3'
    } else if d == 4 {
        '4'
    } else if d == 5 {
        '5'
    } else if d == 6 {
        '6'
    } else if d == 7 {
        '7'
    } else if d == 8 {
        '8'
    } else {
        '9'
    }
}

/// The canonical decimal text of a number: most significant digit first, no
/// leading zero except for zero itself.
pub open spec fn dec_seq(v: u64) -> Seq<char>
    decreases v,
{
    if v < 10 {
        seq![digit_char(v)]
    } else {
        dec_seq(v / 10).push(digit_char(v % 10))
    }
}

/// The character of a digit carries the digit's value.
proof fn lemma_digit_char_val(d: u64)
    requires
        d < 10,
    ensures
        digit_char(d) as u32 == '0' as u32 + d,
        is_digit(digit_char(d)),
{
}

/// Law: formatting round-trips through parsing — the canonical decimal
/// text of a number parses back to exactly that number.
pub proof fn lemma_dec_seq_round_trip(v: u64)
    ensures
        dec_value(dec_seq(v)) == Some(v),
        parsed_u64(dec_seq(v)) == Some(v),
    decreases v,
{
    if v < 10 {
        lemma_digit_char_val(v);
        assert(dec_seq(v) =~= seq![digit_char(v)]);
        assert(dec_seq(v).drop_last() =~= Seq::<char>::empty());
        assert(dec_seq(v).last() == digit_char(v));
        assert(dec_nat(Seq::<char>::empty()) == 0);
        assert(digit_char(v) as u32 - '0' as u32 == v);
        assert(dec_nat(dec_seq(v)) == v);
        assert(all_digits(dec_seq(v)));
    } else {
        lemma_digit_char_val(v % 10);
        lemma_dec_seq_round_trip(v / 10);
        let s = dec_seq(v / 10);
        assert(dec_seq(v) =~= s.push(digit_char(v % 10)));
        assert(s.push(digit_char(v % 10)).drop_last() =~= s);
        assert(s.push(digit_char(v % 10)).last() == digit_char(v % 10));
        assert(dec_nat(dec_seq(v)) == dec_nat(s) * 10 + (v % 10));
        assert(dec_nat(s) == v / 10);
        assert((v / 10) * 10 + v % 10 == v);
        assert forall|i: int| 0 <= i < dec_seq(v).len() implies is_digit(
            #[trigger] dec_seq(v)[i],
        ) by {
            if i < s.len() {
                assert(dec_seq(v)[i] == s[i]);
            }
        }
        assert(dec_seq(v)[0] != '+');
    }
    assert(dec_seq(v)[0] != '+');
}

/// The one-character text of a decimal digit.
fn digit_str(d: u64) -> (r: &'static str)
    requires
        d < 10,
    ensures
        r@ =~= seq![digit_char(d)],
{
    proof {
        reveal_strlit("0");
        reveal_strlit("1");
        reveal_strlit("2");
        reveal_strlit("3");
        reveal_strlit("4");
        reveal_strlit("5");
        reveal_strlit("6");
        reveal_strlit("7");
        reveal_strlit("8");
        reveal_strlit("9");
    }
    if d == 0 {
        "0"
    } else if d == 1 {
        "1"
    } else if d == 2 {
        "2"
    } else if d == 3 {
        "3"
    } else if d == 4 {
        "4"
    } else if d == 5 {
        "5"
    } else if d == 6 {
        "6"
    } else if d == 7 {
        "7"
    } else if d == 8 {
        "8"
    } else {
        "9"
    }
}

/// Formats a number as its canonical decimal text.
pub fn u64_to_dec(v: u64) -> (r: String)
    ensures
        r@ == dec_seq(v),
{
    if v < 10 {
        return digit_str(v).to_owned();
    }
    let mut built = String::new();
    let mut rest: u64 = v;
    proof {
        assert(dec_seq(v) =~= dec_seq(rest) + built@);
    }
    while rest > 0
        invariant
            rest > 0 ==> dec_seq(v) =~= dec_seq(rest) + built@,
            rest == 0 ==> dec_seq(v) =~= built@,
        decreases rest,
    {
        let d: u64 = rest % 10;
        let next: u64 = rest / 10;
        let ghost rest_before = rest;
        let ghost built_before = built@;
        let prefix: String = digit_str(d).to_owned();
        let combined = prefix.concat(built.as_str());
        built = combined;
        proof {
            if rest_before < 10 {
                assert(next == 0 && d == rest_before);
                assert(dec_seq(rest_before) =~= seq![digit_char(d)]);
                assert(dec_seq(v) =~= built@);
            } else {
                assert(dec_seq(rest_before) =~= dec_seq(next).push(digit_char(d)));
                assert(dec_seq(next) + built@ =~= dec_seq(next) + (seq![digit_char(d)]
                    + built_before));
                assert(dec_seq(v) =~= dec_seq(next) + built@);
            }
        }
        rest = next;
    }
    built
}

} // verus!
