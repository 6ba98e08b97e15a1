//! Decimal notation of integers: how `Display` writes them and how
//! `str::parse` reads them back.

use vstd::prelude::*;
use crate::text::chars_of;

verus! {

/// The ASCII digit for `d` (`0 <= d < 10`).
pub open spec fn digit_char(d: nat) -> char {
    (d + 48) as char
}

/// `c` is one of the ASCII digits `0` to `9`.
pub open spec fn is_digit(c: char) -> bool {
    48 <= c as int && c as int <= 57
}

/// The numeric value of an ASCII digit.
pub open spec fn digit_value(c: char) -> nat {
    (c as int - 48) as nat
}

/// Every character of `s` is an ASCII digit.
pub open spec fn all_digits(s: Seq<char>) -> bool {
    forall|i: int| 0 <= i < s.len() ==> is_digit(#[trigger] s[i])
}

/// The value of a string of digits read in base ten (0 for the empty string).
pub open spec fn digits_value(s: Seq<char>) -> nat
    decreases s.len(),
{
    if s.len() == 0 {
        0
    } else {
        digits_value(s.drop_last()) * 10 + digit_value(s.last())
    }
}

/// The decimal digits of `n`, most significant first, without leading zeros.
pub open spec fn nat_digits(n: nat) -> Seq<char>
    decreases n,
{
    if n < 10 {
        seq![digit_char(n)]
    } else {
        nat_digits(n / 10).push(digit_char(n % 10))
    }
}

/// How `Display` writes the integer `n`: a `-` before the digits of a
/// negative number, nothing before those of another.
pub open spec fn int_decimal(n: int) -> Seq<char> {
    if n < 0 {
        seq!['-'] + nat_digits((-n) as nat)
    } else {
        nat_digits(n as nat)
    }
}

/// How `str::parse` reads a base-ten integer, before the range check: an
/// optional `+` (or `-` where `signed`), then one or more ASCII digits and
/// nothing else.
pub open spec fn parse_int_text(s: Seq<char>, signed: bool) -> Option<int> {
    if s.len() == 0 {
        None
    } else if (s[0] == '+' || s[0] == '-') && s.len() == 1 {
        None
    } else {
        let neg = signed && s[0] == '-';
        let digits = if s[0] == '+' || neg { s.drop_first() } else { s };
        if all_digits(digits) {
            Some(if neg { -(digits_value(digits) as int) } else { digits_value(digits) as int })
        } else {
            None
        }
    }
}

/// What `s.parse::<i64>()` gives, as an `Option`.
pub open spec fn parse_i64_text(s: Seq<char>) -> Option<i64> {
    match parse_int_text(s, true) {
        Some(v) => if i64::MIN <= v && v <= i64::MAX { Some(v as i64) } else { None },
        None => None,
    }
}

/// What `s.parse::<usize>()` gives, as an `Option`.
pub open spec fn parse_usize_text(s: Seq<char>) -> Option<usize> {
    match parse_int_text(s, false) {
        Some(v) => if 0 <= v && v <= usize::MAX { Some(v as usize) } else { None },
        None => None,
    }
}

proof fn lemma_digit_char(d: nat)
    requires
        d < 10,
    ensures
        is_digit(digit_char(d)),
        digit_value(digit_char(d)) == d,
        digit_char(d) != '-',
        digit_char(d) != '+',
{
}

/// The digits of `n` are ASCII digits, and read back as `n`.
pub proof fn lemma_nat_digits(n: nat)
    ensures
        all_digits(nat_digits(n)),
        digits_value(nat_digits(n)) == n,
        nat_digits(n).len() > 0,
    decreases n,
{
    if n < 10 {
        lemma_digit_char(n);
        assert(nat_digits(n).drop_last() =~= Seq::<char>::empty());
        assert(digits_value(Seq::<char>::empty()) == 0);
        assert(digits_value(nat_digits(n)) == digits_value(nat_digits(n).drop_last()) * 10
            + digit_value(nat_digits(n).last()));
    } else {
        lemma_nat_digits(n / 10);
        lemma_digit_char(n % 10);
        let s = nat_digits(n);
        assert(s.drop_last() =~= nat_digits(n / 10));
        assert(s.last() == digit_char(n % 10));
        assert((n / 10) * 10 + n % 10 == n);
        assert(digits_value(s) == digits_value(s.drop_last()) * 10 + digit_value(s.last()));
        assert forall|i: int| 0 <= i < s.len() implies is_digit(#[trigger] s[i]) by {
            if i < s.len() - 1 {
                assert(s[i] == nat_digits(n / 10)[i]);
            }
        }
    }
}

/// The decimal notation of an integer is made of digits, after a `-` for
/// a negative number.
pub proof fn lemma_decimal_chars(n: int)
    ensures
        forall|i: int|
            0 <= i < int_decimal(n).len() ==> is_digit(#[trigger] int_decimal(n)[i]) || int_decimal(
                n,
            )[i] == '-',
{
    if n < 0 {
        lemma_nat_digits((-n) as nat);
        let d = nat_digits((-n) as nat);
        assert forall|i: int| 0 <= i < int_decimal(n).len() implies is_digit(
            #[trigger] int_decimal(n)[i],
        ) || int_decimal(n)[i] == '-' by {
            if i > 0 {
                assert(int_decimal(n)[i] == d[i - 1]);
            }
        }
    } else {
        lemma_nat_digits(n as nat);
    }
}

/// A prefix of a digit string reads as no more than the whole string.
pub proof fn lemma_digits_prefix_le(s: Seq<char>, k: int)
    requires
        all_digits(s),
        0 <= k <= s.len(),
    ensures
        digits_value(s.take(k)) <= digits_value(s),
    decreases s.len(),
{
    if k < s.len() {
        let t = s.drop_last();
        assert(all_digits(t)) by {
            assert forall|i: int| 0 <= i < t.len() implies is_digit(#[trigger] t[i]) by {
                assert(t[i] == s[i]);
            }
        }
        lemma_digits_prefix_le(t, k);
        assert(t.take(k) =~= s.take(k));
    } else {
        assert(s.take(k) =~= s);
    }
}

/// Reading the decimal notation of any `i64` gives the number back.
pub proof fn lemma_parse_i64_of_decimal(n: i64)
    ensures
        parse_i64_text(int_decimal(n as int)) == Some(n),
{
    let s = int_decimal(n as int);
    if n < 0 {
        let m = (-(n as int)) as nat;
        lemma_nat_digits(m);
        let d = nat_digits(m);
        assert(s[0] == '-');
        assert(s.drop_first() =~= d);
    } else {
        lemma_nat_digits(n as nat);
        let d = nat_digits(n as nat);
        assert(is_digit(d[0]));
    }
}

/// Reading the decimal notation of any `usize` gives the number back.
pub proof fn lemma_parse_usize_of_decimal(n: usize)
    ensures
        parse_usize_text(nat_digits(n as nat)) == Some(n),
{
    lemma_nat_digits(n as nat);
    let d = nat_digits(n as nat);
    assert(is_digit(d[0]));
}

fn digit_text(d: u64) -> (s: &'static str)
    requires
        d < 10,
    ensures
        s@ == seq![digit_char(d as nat)],
{
    proof {
        reveal_strlit("0");
        reveal_strlit("1");
        reveal_strlit("2");
        reveal_strlit("3");
        reveal_strlit("4");
        reveal_strlit("5");
        reveal_strlit("6");
        reveal_strlit("7");
        reveal_strlit("8");
        reveal_strlit("9");
    }
    if d == 0 {
        "0"
    } else if d == 1 {
        "1"
    } else if d == 2 {
        "2"
    } else if d == 3 {
        "3"
    } else if d == 4 {
        "4"
    } else if d == 5 {
        "5"
    } else if d == 6 {
        "6"
    } else if d == 7 {
        "7"
    } else if d == 8 {
        "8"
    } else {
        "9"
    }
}

/// Appends the decimal digits of `n` to `out`.
pub fn append_digits(out: &mut String, n: u64)
    ensures
        final(out)@ == old(out)@ + nat_digits(n as nat),
    decreases n,
{
    if n >= 10 {
        append_digits(out, n / 10);
    }
    out.append(digit_text(n % 10));
    proof {
        if n >= 10 {
            assert(old(out)@ + nat_digits(n as nat) =~= old(out)@ + nat_digits((n / 10) as nat)
                + seq![digit_char((n % 10) as nat)]);
        }
    }
}

/// Appends the decimal notation of `n` to `out`, as `Display` writes it.
pub fn append_i64(out: &mut String, n: i64)
    ensures
        final(out)@ == old(out)@ + int_decimal(n as int),
{
    if n < 0 {
        proof {
            reveal_strlit("-");
        }
        out.append("-");
        let m: u64 = (0i128 - n as i128) as u64;
        append_digits(out, m);
        assert(final(out)@ =~= old(out)@ + int_decimal(n as int));
    } else {
        append_digits(out, n as u64);
    }
}

/// The decimal notation of `n`, as `n.to_string()` gives it.
pub fn decimal_i64(n: i64) -> (s: String)
    ensures
        s@ == int_decimal(n as int),
{
    let mut s = String::new();
    append_i64(&mut s, n);
    assert(s@ =~= int_decimal(n as int));
    s
}

/// Reads the digits `cs[start..]` in base ten, refusing a value above
/// `limit`.
fn parse_magnitude(cs: &Vec<char>, start: usize, limit: u128) -> (r: Option<u128>)
    requires
        start <= cs.len(),
        limit <= u64::MAX as u128 + 1,
    ensures
        match r {
            Some(v) => all_digits(cs@.skip(start as int)) && v == digits_value(cs@.skip(start as int))
                && v <= limit,
            None => !(all_digits(cs@.skip(start as int)) && digits_value(cs@.skip(start as int))
                <= limit),
        },
{
    let ghost whole = cs@.skip(start as int);
    let mut acc: u128 = 0;
    let mut i: usize = start;
    while i < cs.len()
        invariant
            start <= i <= cs.len(),
            whole == cs@.skip(start as int),
            all_digits(cs@.subrange(start as int, i as int)),
            acc == digits_value(cs@.subrange(start as int, i as int)),
            acc <= limit,
            limit <= u64::MAX as u128 + 1,
        decreases cs.len() - i,
    {
        let c = cs[i];
        let ghost prefix = cs@.subrange(start as int, i as int + 1);
        assert(prefix.drop_last() =~= cs@.subrange(start as int, i as int));
        assert(whole[i - start] == c);
        if !('0' <= c && c <= '9') {
            return None;
        }
        let d: u128 = (c as u32 - 48) as u128;
        acc = acc * 10 + d;
        assert(all_digits(prefix)) by {
            assert forall|j: int| 0 <= j < prefix.len() implies is_digit(#[trigger] prefix[j]) by {
                if j < prefix.len() - 1 {
                    assert(prefix[j] == cs@.subrange(start as int, i as int)[j]);
                }
            }
        }
        if acc > limit {
            proof {
                if all_digits(whole) {
                    lemma_digits_prefix_le(whole, i - start + 1);
                    assert(whole.take(i - start + 1) =~= prefix);
                }
            }
            return None;
        }
        i = i + 1;
    }
    assert(cs@.subrange(start as int, i as int) =~= whole);
    Some(acc)
}

/// `s.parse::<i64>().ok()`.
pub fn parse_i64(s: &str) -> (r: Option<i64>)
    ensures
        r == parse_i64_text(s@),
{
    let cs = chars_of(s);
    if cs.len() == 0 {
        return None;
    }
    if (cs[0] == '+' || cs[0] == '-') && cs.len() == 1 {
        return None;
    }
    let neg = cs[0] == '-';
    let start: usize = if cs[0] == '+' || neg { 1 } else { 0 };
    assert(cs@.skip(1) =~= cs@.drop_first());
    assert(cs@.skip(0) =~= cs@);
    let limit: u128 = if neg { 9223372036854775808 } else { 9223372036854775807 };
    match parse_magnitude(&cs, start, limit) {
        None => None,
        Some(m) => {
            if neg {
                Some((0i128 - m as i128) as i64)
            } else {
                Some(m as i64)
            }
        },
    }
}

/// `s.parse::<usize>().ok()`.
pub fn parse_usize(s: &str) -> (r: Option<usize>)
    ensures
        r == parse_usize_text(s@),
{
    let cs = chars_of(s);
    if cs.len() == 0 {
        return None;
    }
    if (cs[0] == '+' || cs[0] == '-') && cs.len() == 1 {
        return None;
    }
    let start: usize = if cs[0] == '+' { 1 } else { 0 };
    assert(cs@.skip(1) =~= cs@.drop_first());
    assert(cs@.skip(0) =~= cs@);
    match parse_magnitude(&cs, start, usize::MAX as u128) {
        None => None,
        Some(m) => Some(m as usize),
    }
}

} // verus!
