//! Character-level views of strings: conversion, whitespace, splitting,
//! trimming and prefixes, each as `str` in the standard library defines it.

use vstd::prelude::*;

verus! {

/// The characters of `s`, in order.
pub fn chars_of(s: &str) -> (cs: Vec<char>)
    ensures
        cs@ == s@,
{
    let n = s.unicode_len();
    let mut cs: Vec<char> = Vec::new();
    let mut i: usize = 0;
    while i < n
        invariant
            n == s@.len(),
            i <= n,
            cs@ == s@.take(i as int),
        decreases n - i,
    {
        let c = s.get_char(i);
        cs.push(c);
        i = i + 1;
        assert(cs@ =~= s@.take(i as int));
    }
    assert(cs@ =~= s@);
    cs
}


/// `char::is_whitespace`: the Unicode `White_Space` property.
pub open spec fn is_whitespace(c: char) -> bool {
    let u = c as int;
    ||| 9 <= u <= 13
    ||| u == 32
    ||| u == 0x85
    ||| u == 0xA0
    ||| u == 0x1680
    ||| 0x2000 <= u <= 0x200A
    ||| u == 0x2028
    ||| u == 0x2029
    ||| u == 0x202F
    ||| u == 0x205F
    ||| u == 0x3000
}

/// `c.is_whitespace()`.
pub fn char_is_whitespace(c: char) -> (b: bool)
    ensures
        b == is_whitespace(c),
{
    let u = c as u32;
    (9 <= u && u <= 13) || u == 32 || u == 0x85 || u == 0xA0 || u == 0x1680 || (0x2000 <= u && u
        <= 0x200A) || u == 0x2028 || u == 0x2029 || u == 0x202F || u == 0x205F || u == 0x3000
}

/// The maximal runs of non-whitespace characters of `s`, in order: what
/// `str::split_whitespace` yields. Read left to right: a whitespace character
/// ends the current word, any other character extends it or starts a new one.
pub open spec fn words(s: Seq<char>) -> Seq<Seq<char>>
    decreases s.len(),
{
    if s.len() == 0 {
        seq![]
    } else {
        let prev = words(s.drop_last());
        let c = s.last();
        if is_whitespace(c) {
            prev
        } else if s.len() >= 2 && !is_whitespace(s[s.len() - 2]) {
            prev.update(prev.len() - 1, prev.last().push(c))
        } else {
            prev.push(seq![c])
        }
    }
}

/// The pieces of `s` between occurrences of `sep`, empty pieces included:
/// what `str::split` with a `char` pattern yields.
pub open spec fn split_on(s: Seq<char>, sep: char) -> Seq<Seq<char>>
    decreases s.len(),
{
    if s.len() == 0 {
        seq![seq![]]
    } else {
        let prev = split_on(s.drop_last(), sep);
        if s.last() == sep {
            prev.push(seq![])
        } else {
            prev.update(prev.len() - 1, prev.last().push(s.last()))
        }
    }
}

/// `s` without its leading whitespace.
pub open spec fn trim_start(s: Seq<char>) -> Seq<char>
    decreases s.len(),
{
    if s.len() > 0 && is_whitespace(s[0]) {
        trim_start(s.drop_first())
    } else {
        s
    }
}

/// `s` without its trailing whitespace.
pub open spec fn trim_end(s: Seq<char>) -> Seq<char>
    decreases s.len(),
{
    if s.len() > 0 && is_whitespace(s.last()) {
        trim_end(s.drop_last())
    } else {
        s
    }
}

/// `str::trim`: `s` without leading and trailing whitespace.
pub open spec fn trim(s: Seq<char>) -> Seq<char> {
    trim_end(trim_start(s))
}

/// The views of a vector of strings.
pub open spec fn strings_view(v: Seq<String>) -> Seq<Seq<char>> {
    v.map_values(|x: String| x@)
}

/// `s.split(sep)`, each piece copied into a `String`.
pub fn split_char(s: &str, sep: char) -> (pieces: Vec<String>)
    ensures
        strings_view(pieces@) == split_on(s@, sep),
{
    let n = s.unicode_len();
    let mut pieces: Vec<String> = Vec::new();
    let mut start: usize = 0;
    let mut i: usize = 0;
    assert(s@.take(0) =~= Seq::<char>::empty());
    assert(s@.subrange(0, 0) =~= Seq::<char>::empty());
    assert(strings_view(pieces@).push(s@.subrange(0, 0)) =~= split_on(s@.take(0), sep));
    while i < n
        invariant
            n == s@.len(),
            start <= i <= n,
            split_on(s@.take(i as int), sep) == strings_view(pieces@).push(
                s@.subrange(start as int, i as int),
            ),
        decreases n - i,
    {
        let c = s.get_char(i);
        let ghost prev = split_on(s@.take(i as int), sep);
        assert(s@.take(i + 1).drop_last() =~= s@.take(i as int));
        assert(s@.take(i + 1).last() == c);
        if c == sep {
            let piece = String::from_str(s.substring_char(start, i));
            pieces.push(piece);
            start = i + 1;
            assert(s@.subrange(start as int, i + 1) =~= Seq::<char>::empty());
            assert(strings_view(pieces@) =~= prev);
            assert(split_on(s@.take(i + 1), sep) =~= strings_view(pieces@).push(
                s@.subrange(start as int, i + 1),
            ));
        } else {
            assert(s@.subrange(start as int, i + 1) =~= s@.subrange(start as int, i as int).push(c));
            assert(split_on(s@.take(i + 1), sep) =~= strings_view(pieces@).push(
                s@.subrange(start as int, i + 1),
            ));
        }
        i = i + 1;
    }
    let last = String::from_str(s.substring_char(start, n));
    let ghost before = strings_view(pieces@);
    pieces.push(last);
    assert(s@.take(n as int) =~= s@);
    assert(strings_view(pieces@) =~= before.push(s@.subrange(start as int, n as int)));
    pieces
}

/// `s.split_whitespace()`, each word copied into a `String`.
pub fn split_whitespace(s: &str) -> (ws: Vec<String>)
    ensures
        strings_view(ws@) == words(s@),
{
    let n = s.unicode_len();
    let mut ws: Vec<String> = Vec::new();
    let mut in_word = false;
    let mut start: usize = 0;
    let mut i: usize = 0;
    assert(s@.take(0) =~= Seq::<char>::empty());
    assert(strings_view(ws@) =~= words(s@.take(0)));
    while i < n
        invariant
            n == s@.len(),
            start <= i <= n,
            in_word ==> i > 0 && !is_whitespace(s@[i - 1]),
            !in_word ==> i == 0 || is_whitespace(s@[i - 1]),
            in_word ==> words(s@.take(i as int)) == strings_view(ws@).push(
                s@.subrange(start as int, i as int),
            ),
            !in_word ==> words(s@.take(i as int)) == strings_view(ws@),
        decreases n - i,
    {
        let c = s.get_char(i);
        let ghost prev = words(s@.take(i as int));
        let ghost t = s@.take(i + 1);
        assert(t.drop_last() =~= s@.take(i as int));
        assert(t.last() == c);
        if char_is_whitespace(c) {
            if in_word {
                let word = String::from_str(s.substring_char(start, i));
                pieces_push(&mut ws, word);
                assert(strings_view(ws@) =~= prev);
            }
            in_word = false;
        } else {
            if in_word {
                assert(t[t.len() - 2] == s@[i - 1]);
                assert(s@.subrange(start as int, i + 1) =~= s@.subrange(start as int, i as int).push(
                    c,
                ));
                assert(words(t) =~= strings_view(ws@).push(s@.subrange(start as int, i + 1)));
            } else {
                if i > 0 {
                    assert(t[t.len() - 2] == s@[i - 1]);
                }
                start = i;
                assert(s@.subrange(start as int, i + 1) =~= seq![c]);
                assert(words(t) =~= strings_view(ws@).push(s@.subrange(start as int, i + 1)));
            }
            in_word = true;
        }
        i = i + 1;
    }
    assert(s@.take(n as int) =~= s@);
    if in_word {
        let word = String::from_str(s.substring_char(start, n));
        let ghost before = strings_view(ws@);
        pieces_push(&mut ws, word);
        assert(strings_view(ws@) =~= before.push(s@.subrange(start as int, n as int)));
    }
    ws
}

fn pieces_push(v: &mut Vec<String>, x: String)
    ensures
        strings_view(final(v)@) == strings_view(old(v)@).push(x@),
{
    v.push(x);
    assert(strings_view(v@) =~= strings_view(old(v)@).push(x@));
}

/// `s.trim()`.
pub fn trim_str(s: &str) -> (t: &str)
    ensures
        t@ == trim(s@),
{
    let n = s.unicode_len();
    let mut a: usize = 0;
    assert(s@.skip(0) =~= s@);
    while a < n && char_is_whitespace(s.get_char(a))
        invariant
            n == s@.len(),
            a <= n,
            trim_start(s@) == trim_start(s@.skip(a as int)),
        decreases n - a,
    {
        assert(s@.skip(a as int).drop_first() =~= s@.skip(a + 1));
        a = a + 1;
    }
    assert(trim_start(s@) == s@.subrange(a as int, n as int)) by {
        assert(s@.skip(a as int) =~= s@.subrange(a as int, n as int));
    }
    let ghost front = s@.subrange(a as int, n as int);
    let mut b: usize = n;
    while b > a && char_is_whitespace(s.get_char(b - 1))
        invariant
            n == s@.len(),
            a <= b <= n,
            front == s@.subrange(a as int, n as int),
            trim_end(front) == trim_end(s@.subrange(a as int, b as int)),
        decreases b,
    {
        assert(s@.subrange(a as int, b as int).drop_last() =~= s@.subrange(a as int, b - 1));
        b = b - 1;
    }
    s.substring_char(a, b)
}

/// `s.strip_prefix(prefix)`.
pub fn strip_prefix<'a>(s: &'a str, prefix: &str) -> (r: Option<&'a str>)
    ensures
        r is Some <==> prefix@.is_prefix_of(s@),
        r matches Some(rest) ==> rest@ == s@.skip(prefix@.len() as int),
{
    let n = s.unicode_len();
    let m = prefix.unicode_len();
    if m > n {
        return None;
    }
    let mut i: usize = 0;
    while i < m
        invariant
            n == s@.len(),
            m == prefix@.len(),
            m <= n,
            i <= m,
            forall|j: int| 0 <= j < i ==> prefix@[j] == s@[j],
        decreases m - i,
    {
        if s.get_char(i) != prefix.get_char(i) {
            return None;
        }
        i = i + 1;
    }
    Some(s.substring_char(m, n))
}

/// `a == b` on string slices.
pub fn str_eq(a: &str, b: &str) -> (r: bool)
    ensures
        r == (a@ == b@),
{
    let n = a.unicode_len();
    if n != b.unicode_len() {
        return false;
    }
    let mut i: usize = 0;
    while i < n
        invariant
            n == a@.len(),
            n == b@.len(),
            i <= n,
            forall|j: int| 0 <= j < i ==> a@[j] == b@[j],
        decreases n - i,
    {
        if a.get_char(i) != b.get_char(i) {
            return false;
        }
        i = i + 1;
    }
    assert(a@ =~= b@);
    true
}

} // verus!
