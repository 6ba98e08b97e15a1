//! The links and callback data the bot puts on its buttons, and how it reads
//! them back when they return.

use vstd::prelude::*;
use crate::compose::append_usize;
use crate::decimal::{
    append_i64, int_decimal, is_digit, lemma_nat_digits, lemma_parse_i64_of_decimal,
    lemma_parse_usize_of_decimal, nat_digits, parse_i64, parse_i64_text, parse_usize,
    parse_usize_text,
};
use crate::text::{split_char, split_on, strings_view, strip_prefix};

verus! {

/// The start parameter of the deep link that verifies membership of
/// `group_id`: `verify_<group_id>`.
pub open spec fn deep_link_param(group_id: i64) -> Seq<char> {
    "verify_"@ + int_decimal(group_id as int)
}

/// The link that opens a private chat with the bot and asks it to verify
/// the user in `group_id`.
pub open spec fn verify_link(bot_username: Seq<char>, group_id: i64) -> Seq<char> {
    "https://t.me/"@ + bot_username + "?start="@ + deep_link_param(group_id)
}

/// The group a `/start` payload asks to verify: the payload must be
/// `verify_` followed by a number `str::parse` reads as an `i64`.
pub open spec fn deep_link_group(payload: Seq<char>) -> Option<i64> {
    if "verify_"@.is_prefix_of(payload) {
        parse_i64_text(payload.skip("verify_"@.len() as int))
    } else {
        None
    }
}

/// Callback data of the button for option `option` of question `question`,
/// asked for `group_id`.
pub open spec fn answer_data(group_id: i64, question: usize, option: usize) -> Seq<char> {
    "answer:"@ + int_decimal(group_id as int) + ":"@ + nat_digits(question as nat) + ":"@
        + nat_digits(option as nat)
}

/// Callback data of the button that lifts the ban of `user_id` in
/// `group_id`.
pub open spec fn unban_data(group_id: i64, user_id: i64) -> Seq<char> {
    "unban:"@ + int_decimal(group_id as int) + ":"@ + int_decimal(user_id as int)
}

/// What a callback asks for.
pub enum CallbackRequest {
    /// The user chose option `option` of question `question` for `group_id`.
    Answer { group_id: i64, question: usize, option: usize },
    /// An administrator asks to lift the ban of `target_id` in `group_id`.
    Unban { group_id: i64, target_id: i64 },
    /// The user asks to be verified in `group_id`.
    Verify { group_id: i64 },
}

/// How callback data is read: it is split at `:`; the first piece names the
/// request and the others are its numbers. An `answer` has exactly three
/// numbers, an `unban` exactly two, a `verify` at least one (only the first
/// is read). Anything else is ignored.
pub open spec fn callback_request(data: Seq<char>) -> Option<CallbackRequest> {
    let p = split_on(data, ':');
    if p.len() < 2 || !(p[0] == "verify"@ || p[0] == "answer"@ || p[0] == "unban"@) {
        None
    } else if p[0] == "answer"@ {
        if p.len() != 4 {
            None
        } else {
            match (parse_i64_text(p[1]), parse_usize_text(p[2]), parse_usize_text(p[3])) {
                (Some(g), Some(q), Some(o)) => Some(
                    CallbackRequest::Answer { group_id: g, question: q, option: o },
                ),
                _ => None,
            }
        }
    } else {
        match parse_i64_text(p[1]) {
            None => None,
            Some(g) => if p[0] == "unban"@ {
                if p.len() != 3 {
                    None
                } else {
                    match parse_i64_text(p[2]) {
                        Some(t) => Some(CallbackRequest::Unban { group_id: g, target_id: t }),
                        None => None,
                    }
                }
            } else {
                Some(CallbackRequest::Verify { group_id: g })
            },
        }
    }
}

/// The deep-link start parameter for `group_id`.
pub fn make_deep_link_param(group_id: i64) -> (s: String)
    ensures
        s@ == deep_link_param(group_id),
{
    let mut s = String::from_str("verify_");
    append_i64(&mut s, group_id);
    s
}

/// The verification link for `group_id`.
pub fn make_verify_link(bot_username: &str, group_id: i64) -> (s: String)
    ensures
        s@ == verify_link(bot_username@, group_id),
{
    let mut s = String::from_str("https://t.me/");
    s.append(bot_username);
    s.append("?start=verify_");
    append_i64(&mut s, group_id);
    proof {
        reveal_strlit("?start=verify_");
        reveal_strlit("?start=");
        reveal_strlit("verify_");
        assert("?start=verify_"@ =~= "?start="@ + "verify_"@);
    }
    assert(s@ =~= verify_link(bot_username@, group_id));
    s
}

/// The callback data of an answer button.
pub fn make_answer_data(group_id: i64, question: usize, option: usize) -> (s: String)
    ensures
        s@ == answer_data(group_id, question, option),
{
    let mut s = String::from_str("answer:");
    append_i64(&mut s, group_id);
    s.append(":");
    append_usize(&mut s, question);
    s.append(":");
    append_usize(&mut s, option);
    s
}

/// The callback data of an unban button.
pub fn make_unban_data(group_id: i64, user_id: i64) -> (s: String)
    ensures
        s@ == unban_data(group_id, user_id),
{
    let mut s = String::from_str("unban:");
    append_i64(&mut s, group_id);
    s.append(":");
    append_i64(&mut s, user_id);
    s
}

/// The group a `/start` payload asks to verify, if any.
pub fn read_deep_link(payload: &str) -> (r: Option<i64>)
    ensures
        r == deep_link_group(payload@),
{
    proof {
        reveal_strlit("verify_");
    }
    match strip_prefix(payload, "verify_") {
        Some(rest) => parse_i64(rest),
        None => None,
    }
}

fn piece_is(p: &Vec<String>, i: usize, lit: &str) -> (r: bool)
    requires
        i < p.len(),
    ensures
        r == (p@[i as int]@ == lit@),
{
    crate::text::str_eq(p[i].as_str(), lit)
}

/// Reads callback data.
pub fn read_callback(data: &str) -> (r: Option<CallbackRequest>)
    ensures
        r == callback_request(data@),
{
    let p = split_char(data, ':');
    let ghost pv = strings_view(p@);
    assert(forall|i: int| 0 <= i < p@.len() ==> #[trigger] pv[i] == p@[i]@);
    if p.len() < 2 {
        return None;
    }
    let is_verify = piece_is(&p, 0, "verify");
    let is_answer = piece_is(&p, 0, "answer");
    let is_unban = piece_is(&p, 0, "unban");
    if !(is_verify || is_answer || is_unban) {
        return None;
    }
    if is_answer {
        if p.len() != 4 {
            return None;
        }
        let g = parse_i64(p[1].as_str());
        let q = parse_usize(p[2].as_str());
        let o = parse_usize(p[3].as_str());
        return match (g, q, o) {
            (Some(g), Some(q), Some(o)) => Some(
                CallbackRequest::Answer { group_id: g, question: q, option: o },
            ),
            _ => None,
        };
    }
    match parse_i64(p[1].as_str()) {
        None => None,
        Some(g) => {
            if is_unban {
                if p.len() != 3 {
                    None
                } else {
                    match parse_i64(p[2].as_str()) {
                        Some(t) => Some(CallbackRequest::Unban { group_id: g, target_id: t }),
                        None => None,
                    }
                }
            } else {
                Some(CallbackRequest::Verify { group_id: g })
            }
        },
    }
}

// ---------------------------------------------------------------------
// Reading back what was written
// ---------------------------------------------------------------------

/// `pieces` joined with `sep` between consecutive pieces.
pub open spec fn join_with(pieces: Seq<Seq<char>>, sep: char) -> Seq<char>
    decreases pieces.len(),
{
    if pieces.len() <= 1 {
        if pieces.len() == 1 {
            pieces[0]
        } else {
            Seq::empty()
        }
    } else {
        join_with(pieces.drop_last(), sep).push(sep) + pieces.last()
    }
}

/// `c` does not occur in `s`.
pub open spec fn free_of(s: Seq<char>, c: char) -> bool {
    forall|i: int| 0 <= i < s.len() ==> s[i] != c
}

proof fn lemma_split_extend(s: Seq<char>, t: Seq<char>, sep: char)
    requires
        free_of(t, sep),
    ensures
        split_on(s + t, sep) == split_on(s, sep).update(
            split_on(s, sep).len() - 1,
            split_on(s, sep).last() + t,
        ),
        split_on(s + t, sep).len() == split_on(s, sep).len(),
    decreases t.len(),
{
    lemma_split_nonempty(s, sep);
    if t.len() == 0 {
        assert(s + t =~= s);
        let p = split_on(s, sep);
        assert(p.last() + t =~= p.last());
        assert(p.update(p.len() - 1, p.last() + t) =~= p);
    } else {
        let t0 = t.drop_last();
        assert(free_of(t0, sep));
        lemma_split_extend(s, t0, sep);
        assert((s + t).drop_last() =~= s + t0);
        assert((s + t).last() == t.last());
        let p = split_on(s, sep);
        let q = split_on(s + t0, sep);
        assert(p.last() + t =~= (p.last() + t0).push(t.last()));
        assert(split_on(s + t, sep) =~= p.update(p.len() - 1, p.last() + t));
    }
}

proof fn lemma_split_nonempty(s: Seq<char>, sep: char)
    ensures
        split_on(s, sep).len() >= 1,
    decreases s.len(),
{
    if s.len() > 0 {
        lemma_split_nonempty(s.drop_last(), sep);
    }
}

/// Splitting at `sep` the join of pieces that hold no `sep` gives the
/// pieces back.
pub proof fn lemma_split_of_join(pieces: Seq<Seq<char>>, sep: char)
    requires
        pieces.len() >= 1,
        forall|i: int| 0 <= i < pieces.len() ==> free_of(#[trigger] pieces[i], sep),
    ensures
        split_on(join_with(pieces, sep), sep) == pieces,
    decreases pieces.len(),
{
    if pieces.len() == 1 {
        lemma_split_extend(Seq::empty(), pieces[0], sep);
        assert(Seq::<char>::empty() + pieces[0] =~= pieces[0]);
        assert(split_on(Seq::<char>::empty(), sep) =~= seq![Seq::<char>::empty()]);
        assert(Seq::<char>::empty() + pieces[0] =~= pieces[0]);
        assert(split_on(pieces[0], sep) =~= pieces);
    } else {
        let front = pieces.drop_last();
        assert forall|i: int| 0 <= i < front.len() implies free_of(#[trigger] front[i], sep) by {
            assert(front[i] == pieces[i]);
        }
        lemma_split_of_join(front, sep);
        let s = join_with(front, sep).push(sep);
        assert(s.drop_last() =~= join_with(front, sep));
        assert(split_on(s, sep) == front.push(Seq::<char>::empty()));
        assert(free_of(pieces.last(), sep));
        lemma_split_extend(s, pieces.last(), sep);
        assert(Seq::<char>::empty() + pieces.last() =~= pieces.last());
        assert(front.push(Seq::<char>::empty()).update(front.len() as int, pieces.last())
            =~= pieces);
    }
}

/// The decimal notation of an integer holds no character other than the
/// digits and `-`.
pub proof fn lemma_decimal_free_of(n: int, c: char)
    requires
        !is_digit(c),
        c != '-',
    ensures
        free_of(int_decimal(n), c),
{
    if n < 0 {
        lemma_nat_digits((-n) as nat);
        let d = nat_digits((-n) as nat);
        assert forall|i: int| 0 <= i < int_decimal(n).len() implies int_decimal(n)[i] != c by {
            if i > 0 {
                assert(int_decimal(n)[i] == d[i - 1]);
                assert(is_digit(d[i - 1]));
            }
        }
    } else {
        lemma_nat_digits(n as nat);
        let d = nat_digits(n as nat);
        assert forall|i: int| 0 <= i < d.len() implies d[i] != c by {
            assert(is_digit(d[i]));
        }
    }
}

/// The decimal notation of an integer holds no `:`.
pub proof fn lemma_decimal_free_of_colon(n: int)
    ensures
        free_of(int_decimal(n), ':'),
{
    lemma_decimal_free_of(n, ':');
}

proof fn lemma_digits_free_of_colon(n: nat)
    ensures
        free_of(nat_digits(n), ':'),
{
    lemma_decimal_free_of_colon(n as int);
}

/// The callback data of an answer button reads back as that answer.
pub proof fn lemma_answer_data_roundtrip(group_id: i64, question: usize, option: usize)
    ensures
        callback_request(answer_data(group_id, question, option)) == Some(
            CallbackRequest::Answer { group_id, question, option },
        ),
{
    reveal_strlit("answer:");
    reveal_strlit("answer");
    reveal_strlit(":");
    let a = "answer"@;
    let g = int_decimal(group_id as int);
    let q = nat_digits(question as nat);
    let o = nat_digits(option as nat);
    let pieces = seq![a, g, q, o];
    lemma_decimal_free_of_colon(group_id as int);
    lemma_digits_free_of_colon(question as nat);
    lemma_digits_free_of_colon(option as nat);
    assert(free_of(a, ':'));
    assert forall|i: int| 0 <= i < pieces.len() implies free_of(#[trigger] pieces[i], ':') by {}
    assert(pieces.drop_last().drop_last().drop_last() =~= seq![a]);
    assert(pieces.drop_last().drop_last() =~= seq![a, g]);
    assert(pieces.drop_last() =~= seq![a, g, q]);
    assert(join_with(seq![a], ':') == a);
    assert(join_with(seq![a, g], ':') == a.push(':') + g);
    assert(join_with(seq![a, g, q], ':') == (a.push(':') + g).push(':') + q);
    assert(join_with(pieces, ':') == ((a.push(':') + g).push(':') + q).push(':') + o);
    assert("answer:"@ =~= a.push(':'));
    assert(join_with(pieces, ':') =~= answer_data(group_id, question, option));
    lemma_split_of_join(pieces, ':');
    lemma_parse_i64_of_decimal(group_id);
    lemma_parse_usize_of_decimal(question);
    lemma_parse_usize_of_decimal(option);
}

/// The callback data of an unban button reads back as that unban request.
pub proof fn lemma_unban_data_roundtrip(group_id: i64, user_id: i64)
    ensures
        callback_request(unban_data(group_id, user_id)) == Some(
            CallbackRequest::Unban { group_id, target_id: user_id },
        ),
{
    reveal_strlit("unban:");
    reveal_strlit("unban");
    reveal_strlit("answer");
    reveal_strlit("verify");
    reveal_strlit(":");
    let u = "unban"@;
    let g = int_decimal(group_id as int);
    let t = int_decimal(user_id as int);
    let pieces = seq![u, g, t];
    lemma_decimal_free_of_colon(group_id as int);
    lemma_decimal_free_of_colon(user_id as int);
    assert(free_of(u, ':'));
    assert forall|i: int| 0 <= i < pieces.len() implies free_of(#[trigger] pieces[i], ':') by {}
    assert(pieces.drop_last().drop_last() =~= seq![u]);
    assert(pieces.drop_last() =~= seq![u, g]);
    assert(join_with(seq![u], ':') == u);
    assert(join_with(seq![u, g], ':') == u.push(':') + g);
    assert(join_with(pieces, ':') == (u.push(':') + g).push(':') + t);
    assert("unban:"@ =~= u.push(':'));
    assert(join_with(pieces, ':') =~= unban_data(group_id, user_id));
    lemma_split_of_join(pieces, ':');
    lemma_parse_i64_of_decimal(group_id);
    lemma_parse_i64_of_decimal(user_id);
    assert(u[0] != "answer"@[0]);
    assert(u[0] != "verify"@[0]);
}

/// The start parameter of a verification link reads back as its group.
pub proof fn lemma_deep_link_roundtrip(group_id: i64)
    ensures
        deep_link_group(deep_link_param(group_id)) == Some(group_id),
{
    reveal_strlit("verify_");
    let p = deep_link_param(group_id);
    assert("verify_"@.is_prefix_of(p)) by {
        assert(p.take(7) =~= "verify_"@);
    }
    assert(p.skip(7) =~= int_decimal(group_id as int));
    lemma_parse_i64_of_decimal(group_id);
}

} // verus!
