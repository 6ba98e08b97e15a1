//! Building message texts out of literal pieces, numbers and names.

use vstd::prelude::*;
use crate::decimal::{append_digits, append_i64, int_decimal, nat_digits};

verus! {

/// A `String` holding `s`.
pub fn owned(s: &str) -> (r: String)
    ensures
        r@ == s@,
{
    String::from_str(s)
}

/// `a`, the decimal notation of `n`, then `b`.
pub fn around_i64(a: &str, n: i64, b: &str) -> (r: String)
    ensures
        r@ == a@ + int_decimal(n as int) + b@,
{
    let mut r = String::from_str(a);
    append_i64(&mut r, n);
    r.append(b);
    r
}

/// `a`, the decimal notation of `n`, `b`, the decimal notation of `n` again,
/// then `c`.
pub fn around_i64_twice(a: &str, n: i64, b: &str, c: &str) -> (r: String)
    ensures
        r@ == a@ + int_decimal(n as int) + b@ + int_decimal(n as int) + c@,
{
    let mut r = String::from_str(a);
    append_i64(&mut r, n);
    r.append(b);
    append_i64(&mut r, n);
    r.append(c);
    r
}

/// `a`, `s`, then `b`.
pub fn around_str(a: &str, s: &str, b: &str) -> (r: String)
    ensures
        r@ == a@ + s@ + b@,
{
    let mut r = String::from_str(a);
    r.append(s);
    r.append(b);
    r
}

/// Appends the decimal notation of the `usize` `n` to `out`.
pub fn append_usize(out: &mut String, n: usize)
    ensures
        final(out)@ == old(out)@ + nat_digits(n as nat),
{
    append_digits(out, n as u64);
}

} // verus!
