//! The worker's entry: configuration and the first answer to a request.

use vstd::prelude::*;
use crate::compose::owned;
use crate::decimal::{
    int_decimal, is_digit, lemma_nat_digits, lemma_parse_i64_of_decimal, nat_digits, parse_i64,
    parse_i64_text,
};
use crate::durable::Reply;
use crate::links::{free_of, join_with, lemma_decimal_free_of, lemma_split_of_join};
use crate::text::{split_char, split_on, strings_view, trim, trim_start, trim_str};

verus! {

/// The ids of a comma-separated list, in order: each piece is trimmed and
/// read as an `i64`; pieces that do not read are skipped.
pub open spec fn listed_ids(pieces: Seq<Seq<char>>) -> Seq<i64>
    decreases pieces.len(),
{
    if pieces.len() == 0 {
        Seq::empty()
    } else {
        let rest = listed_ids(pieces.drop_last());
        match parse_i64_text(trim(pieces.last())) {
            Some(v) => rest.push(v),
            None => rest,
        }
    }
}

/// The monitored groups given by the `MONITORED_GROUPS` setting: none when
/// it is not set.
pub open spec fn monitored_ids(setting: Option<Seq<char>>) -> Seq<i64> {
    match setting {
        Some(v) => listed_ids(split_on(v, ',')),
        None => Seq::empty(),
    }
}

/// Reads the monitored groups from the `MONITORED_GROUPS` setting.
pub fn monitored_groups(setting: Option<&str>) -> (groups: Vec<i64>)
    ensures
        groups@ == monitored_ids(crate::auth_hub::opt_str_view(setting)),
{
    let v = match setting {
        Some(v) => v,
        None => return Vec::new(),
    };
    let pieces = split_char(v, ',');
    let ghost pv = strings_view(pieces@);
    let mut groups: Vec<i64> = Vec::new();
    let mut i: usize = 0;
    while i < pieces.len()
        invariant
            i <= pieces.len(),
            pv == strings_view(pieces@),
            pv == split_on(v@, ','),
            groups@ == listed_ids(pv.take(i as int)),
        decreases pieces.len() - i,
    {
        assert(pv.take(i + 1).drop_last() =~= pv.take(i as int));
        assert(pv.take(i + 1).last() == pieces@[i as int]@);
        match parse_i64(trim_str(pieces[i].as_str())) {
            Some(g) => groups.push(g),
            None => {},
        }
        i = i + 1;
    }
    assert(pv.take(i as int) =~= pv);
    groups
}

/// A decimal number has no whitespace to trim.
proof fn lemma_trim_decimal(n: int)
    ensures
        trim(int_decimal(n)) == int_decimal(n),
{
    let s = int_decimal(n);
    if n < 0 {
        lemma_nat_digits((-n) as nat);
        assert(s.last() == nat_digits((-n) as nat).last());
        assert(is_digit(nat_digits((-n) as nat).last()));
    } else {
        lemma_nat_digits(n as nat);
        assert(is_digit(s[0]));
        assert(is_digit(s.last()));
    }
    assert(trim_start(s) == s);
}

/// The views of decimal notations.
pub open spec fn decimals(ids: Seq<i64>) -> Seq<Seq<char>> {
    ids.map_values(|g: i64| int_decimal(g as int))
}

proof fn lemma_listed_decimals(ids: Seq<i64>)
    ensures
        listed_ids(decimals(ids)) == ids,
    decreases ids.len(),
{
    if ids.len() > 0 {
        lemma_listed_decimals(ids.drop_last());
        assert(decimals(ids).drop_last() =~= decimals(ids.drop_last()));
        lemma_trim_decimal(ids.last() as int);
        lemma_parse_i64_of_decimal(ids.last());
        assert(ids.drop_last().push(ids.last()) =~= ids);
    }
}

/// Every group listed in `MONITORED_GROUPS`, written as decimal ids
/// separated by commas, is monitored, in the order listed.
pub proof fn lemma_listed_groups_monitored(ids: Seq<i64>)
    requires
        ids.len() >= 1,
    ensures
        monitored_ids(Some(join_with(decimals(ids), ','))) == ids,
{
    let d = decimals(ids);
    assert forall|i: int| 0 <= i < d.len() implies free_of(#[trigger] d[i], ',') by {
        lemma_decimal_free_of(ids[i] as int, ',');
    }
    lemma_split_of_join(d, ',');
    lemma_listed_decimals(ids);
}

/// The bot token read from its setting, without surrounding whitespace.
pub fn bot_token(setting: &str) -> (token: String)
    ensures
        token@ == trim(setting@),
{
    String::from_str(trim_str(setting))
}

/// The first answer to a request: the worker refuses to run without its
/// token or its bot username (status 500), and answers anything but a
/// `POST` with a notice that it runs; `None` lets a `POST` through.
pub fn request_gate(has_token: bool, has_bot_username: bool, is_post: bool) -> (r: Option<Reply>)
    ensures
        !has_token ==> (r matches Some(x) && x.status == 500 && x.body@
            == "TELEGRAM_BOT_TOKEN missing"@),
        has_token && !has_bot_username ==> (r matches Some(x) && x.status == 500 && x.body@
            == "BOT_USERNAME missing"@),
        has_token && has_bot_username && !is_post ==> (r matches Some(x) && x.status == 200
            && x.body@ == "Sphinx bot worker is running"@),
        has_token && has_bot_username && is_post ==> r is None,
{
    if !has_token {
        Some(Reply { status: 500, body: owned("TELEGRAM_BOT_TOKEN missing") })
    } else if !has_bot_username {
        Some(Reply { status: 500, body: owned("BOT_USERNAME missing") })
    } else if !is_post {
        Some(Reply { status: 200, body: owned("Sphinx bot worker is running") })
    } else {
        None
    }
}

} // verus!
