//! The hub of pending verifications: a Durable Object that keeps, for each
//! user, the list of groups in which the user still has to be verified.
//! The list is stored under the key `user_idx:<user_id>`.

use vstd::prelude::*;
use crate::decimal::{append_i64, int_decimal, parse_i64, parse_i64_text};
use crate::members::DurableRequest;
use crate::text::str_eq;

verus! {

// ---------------------------------------------------------------------
// Query strings
// ---------------------------------------------------------------------

/// The views of decoded query pairs.
pub open spec fn pairs_view(pairs: Seq<(String, String)>) -> Seq<(Seq<char>, Seq<char>)> {
    pairs.map_values(|p: (String, String)| (p.0@, p.1@))
}

/// The value of the first pair named `key`.
pub open spec fn first_value(pairs: Seq<(Seq<char>, Seq<char>)>, key: Seq<char>) -> Option<Seq<char>>
    decreases pairs.len(),
{
    if pairs.len() == 0 {
        None
    } else if pairs[0].0 == key {
        Some(pairs[0].1)
    } else {
        first_value(pairs.drop_first(), key)
    }
}

/// The id given by the first pair named `key`, or 0 when there is none or
/// its value is not an `i64`.
pub open spec fn query_id(pairs: Seq<(Seq<char>, Seq<char>)>, key: Seq<char>) -> i64 {
    match first_value(pairs, key) {
        Some(v) => match parse_i64_text(v) {
            Some(n) => n,
            None => 0,
        },
        None => 0,
    }
}

/// Reads the id given by the first pair named `key`, 0 when missing or
/// unreadable.
pub fn read_query_id(pairs: &Vec<(String, String)>, key: &str) -> (n: i64)
    ensures
        n == query_id(pairs_view(pairs@), key@),
{
    let ghost pv = pairs_view(pairs@);
    let mut i: usize = 0;
    assert(pv.skip(0) =~= pv);
    while i < pairs.len()
        invariant
            i <= pairs.len(),
            pv == pairs_view(pairs@),
            first_value(pv, key@) == first_value(pv.skip(i as int), key@),
        decreases pairs.len() - i,
    {
        let ghost rest = pv.skip(i as int);
        assert(rest[0] == pv[i as int]);
        if str_eq(pairs[i].0.as_str(), key) {
            return match parse_i64(pairs[i].1.as_str()) {
                Some(n) => n,
                None => 0,
            };
        }
        assert(rest.drop_first() =~= pv.skip(i + 1));
        i = i + 1;
    }
    0
}

// ---------------------------------------------------------------------
// The stored lists
// ---------------------------------------------------------------------

/// The list after `group_id` is added: unchanged when already there, else
/// extended at the end.
pub open spec fn with_group(groups: Seq<i64>, group_id: i64) -> Seq<i64> {
    if groups.contains(group_id) {
        groups
    } else {
        groups.push(group_id)
    }
}

/// The list without any occurrence of `group_id`, order kept.
pub open spec fn without_group(groups: Seq<i64>, group_id: i64) -> Seq<i64>
    decreases groups.len(),
{
    if groups.len() == 0 {
        groups
    } else {
        let rest = without_group(groups.drop_last(), group_id);
        if groups.last() == group_id {
            rest
        } else {
            rest.push(groups.last())
        }
    }
}

/// The JSON array of the ids, as `serde_json` writes it: `[`, the decimal
/// ids separated by `,`, then `]`.
pub open spec fn json_list_text(groups: Seq<i64>) -> Seq<char> {
    "["@ + json_items(groups) + "]"@
}

/// The comma-separated decimal ids.
pub open spec fn json_items(groups: Seq<i64>) -> Seq<char>
    decreases groups.len(),
{
    if groups.len() == 0 {
        Seq::empty()
    } else if groups.len() == 1 {
        int_decimal(groups[0] as int)
    } else {
        json_items(groups.drop_last()) + ","@ + int_decimal(groups.last() as int)
    }
}

/// What `serde_json::from_str::<Vec<i64>>` reads from `text`, `None` when it
/// fails.
pub uninterp spec fn json_int_list(text: Seq<char>) -> Option<Seq<i64>>;

/// Calls `serde_json::to_string` on a list of ids. The contract states the
/// compact JSON array that `serde_json`'s compact formatter writes for a
/// sequence of integers (`[`, the `itoa` decimal of each id with `,` between
/// them, `]`); serialising a `Vec<i64>` cannot fail, and `"[]"` stands in
/// for a failure as it does at the call site.
#[verifier::external_body]
fn encode_id_list(groups: &Vec<i64>) -> (text: String)
    ensures
        text@ == json_list_text(groups@),
{
    match serde_json::to_string(groups) {
        Ok(s) => s,
        Err(_) => String::from("[]"),
    }
}

/// Calls `serde_json::from_str::<Vec<i64>>`. The contract names its result
/// and states one fact that the crate's serializer and parser give: the
/// compact array that `serde_json` writes for a list of ids reads back as
/// that list. Nothing is stated of other texts.
#[verifier::external_body]
fn decode_id_list(text: &str) -> (r: Option<Vec<i64>>)
    ensures
        match r {
            Some(v) => json_int_list(text@) == Some(v@),
            None => json_int_list(text@) is None,
        },
        forall|gs: Seq<i64>| text@ == #[trigger] json_list_text(gs) ==> r is Some && r.unwrap()@ == gs,
{
    serde_json::from_str::<Vec<i64>>(text).ok()
}

// ---------------------------------------------------------------------
// The hub's requests
// ---------------------------------------------------------------------

/// What a request asks of the hub.
pub enum HubOp {
    /// Add `group_id` to the user's pending groups.
    Add(i64),
    /// Remove `group_id` from them.
    Remove(i64),
    /// List them.
    Get,
}

/// A read request: the parsed operation on a storage key, or an error reply.
pub enum HubCommand {
    Reject { status: u16, message: String },
    Apply { key: String, op: HubOp },
}

pub enum HubCommandView {
    Reject { status: u16, message: Seq<char> },
    Apply { key: Seq<char>, op: HubOp },
}

impl HubCommand {
    pub open spec fn view_of(&self) -> HubCommandView {
        match self {
            HubCommand::Reject { status, message } => HubCommandView::Reject {
                status: *status,
                message: message@,
            },
            HubCommand::Apply { key, op } => HubCommandView::Apply { key: key@, op: *op },
        }
    }
}

/// The storage key of the pending groups of `user_id`.
pub open spec fn user_key(user_id: i64) -> Seq<char> {
    "user_idx:"@ + int_decimal(user_id as int)
}

/// How the hub reads a request: the user comes from the `user_id` pair and
/// the operation from the last path segment; adding and removing also read
/// the `group_id` pair. A missing or zero id is refused with status 400, an
/// unknown operation with 404.
pub open spec fn hub_command(pairs: Seq<(Seq<char>, Seq<char>)>, last_segment: Option<Seq<char>>) -> HubCommandView {
    let user_id = query_id(pairs, "user_id"@);
    if user_id == 0 {
        HubCommandView::Reject { status: 400, message: "user_id required"@ }
    } else {
        let action = match last_segment {
            Some(a) => a,
            None => Seq::empty(),
        };
        let key = user_key(user_id);
        if action == "add_pending"@ || action == "remove_pending"@ {
            let group_id = query_id(pairs, "group_id"@);
            if group_id == 0 {
                HubCommandView::Reject { status: 400, message: "group_id required"@ }
            } else if action == "add_pending"@ {
                HubCommandView::Apply { key, op: HubOp::Add(group_id) }
            } else {
                HubCommandView::Apply { key, op: HubOp::Remove(group_id) }
            }
        } else if action == "get_pending"@ {
            HubCommandView::Apply { key, op: HubOp::Get }
        } else {
            HubCommandView::Reject { status: 404, message: "unknown action"@ }
        }
    }
}

/// Reads a request to the hub from its query pairs and the last segment of
/// its path.
pub fn read_hub_request(pairs: &Vec<(String, String)>, last_segment: &Option<String>) -> (c: HubCommand)
    ensures
        c.view_of() == hub_command(
            pairs_view(pairs@),
            crate::commands::opt_text(*last_segment),
        ),
{
    let user_id = read_query_id(pairs, "user_id");
    if user_id == 0 {
        return HubCommand::Reject { status: 400, message: String::from_str("user_id required") };
    }
    let action: &str = match last_segment {
        Some(a) => a.as_str(),
        None => {
            proof {
                reveal_strlit("");
            }
            ""
        },
    };
    assert(action@ == match crate::commands::opt_text(*last_segment) {
        Some(a) => a,
        None => Seq::<char>::empty(),
    });
    let mut key = String::from_str("user_idx:");
    append_i64(&mut key, user_id);
    let add = str_eq(action, "add_pending");
    let remove = str_eq(action, "remove_pending");
    if add || remove {
        let group_id = read_query_id(pairs, "group_id");
        if group_id == 0 {
            HubCommand::Reject { status: 400, message: String::from_str("group_id required") }
        } else if add {
            HubCommand::Apply { key, op: HubOp::Add(group_id) }
        } else {
            HubCommand::Apply { key, op: HubOp::Remove(group_id) }
        }
    } else if str_eq(action, "get_pending") {
        HubCommand::Apply { key, op: HubOp::Get }
    } else {
        HubCommand::Reject { status: 404, message: String::from_str("unknown action") }
    }
}

/// What the hub does to the stored list.
pub enum StorageWrite {
    /// Leaves it as it is.
    Keep,
    /// Stores this list.
    Put(Vec<i64>),
    /// Deletes the key.
    Delete,
}

pub enum StorageWriteView {
    Keep,
    Put(Seq<i64>),
    Delete,
}

impl StorageWrite {
    pub open spec fn view_of(&self) -> StorageWriteView {
        match self {
            StorageWrite::Keep => StorageWriteView::Keep,
            StorageWrite::Put(v) => StorageWriteView::Put(v@),
            StorageWrite::Delete => StorageWriteView::Delete,
        }
    }
}

/// The list stored under a key, empty when the key is absent.
pub open spec fn stored_list(stored: Option<Seq<i64>>) -> Seq<i64> {
    match stored {
        Some(l) => l,
        None => Seq::empty(),
    }
}

/// The write the hub makes for `op` on the stored list.
pub open spec fn hub_write(op: HubOp, stored: Option<Seq<i64>>) -> StorageWriteView {
    let groups = stored_list(stored);
    match op {
        HubOp::Add(g) => StorageWriteView::Put(with_group(groups, g)),
        HubOp::Remove(g) => if without_group(groups, g).len() == 0 {
            StorageWriteView::Delete
        } else {
            StorageWriteView::Put(without_group(groups, g))
        },
        HubOp::Get => StorageWriteView::Keep,
    }
}

/// The body of the hub's reply (always with status 200) for `op`.
pub open spec fn hub_body(op: HubOp, stored: Option<Seq<i64>>) -> Seq<char> {
    match op {
        HubOp::Get => json_list_text(stored_list(stored)),
        _ => "OK"@,
    }
}

/// What is stored under the key after `write`.
pub open spec fn stored_after(stored: Option<Seq<i64>>, write: StorageWriteView) -> Option<Seq<i64>> {
    match write {
        StorageWriteView::Keep => stored,
        StorageWriteView::Put(l) => Some(l),
        StorageWriteView::Delete => None,
    }
}

/// Carries out `op` on the list stored under its key (`None` when the key
/// is absent): the write to make, and the body of the reply.
pub fn apply_hub_op(op: &HubOp, stored: Option<Vec<i64>>) -> (r: (StorageWrite, String))
    ensures
        r.0.view_of() == hub_write(*op, stored_view(stored)),
        r.1@ == hub_body(*op, stored_view(stored)),
{
    let groups: Vec<i64> = match stored {
        Some(v) => v,
        None => Vec::new(),
    };
    match op {
        HubOp::Add(g) => {
            let mut groups = groups;
            if !list_contains(&groups, *g) {
                groups.push(*g);
            }
            (StorageWrite::Put(groups), String::from_str("OK"))
        },
        HubOp::Remove(g) => {
            let kept = remove_all(&groups, *g);
            if kept.len() == 0 {
                (StorageWrite::Delete, String::from_str("OK"))
            } else {
                (StorageWrite::Put(kept), String::from_str("OK"))
            }
        },
        HubOp::Get => {
            let body = encode_id_list(&groups);
            (StorageWrite::Keep, body)
        },
    }
}

/// The view of an optional stored list.
pub open spec fn stored_view(stored: Option<Vec<i64>>) -> Option<Seq<i64>> {
    match stored {
        Some(v) => Some(v@),
        None => None,
    }
}

fn list_contains(groups: &Vec<i64>, g: i64) -> (r: bool)
    ensures
        r == groups@.contains(g),
{
    let mut i: usize = 0;
    while i < groups.len()
        invariant
            i <= groups.len(),
            forall|j: int| 0 <= j < i ==> groups@[j] != g,
        decreases groups.len() - i,
    {
        if groups[i] == g {
            return true;
        }
        i = i + 1;
    }
    false
}

fn remove_all(groups: &Vec<i64>, g: i64) -> (r: Vec<i64>)
    ensures
        r@ == without_group(groups@, g),
{
    let mut r: Vec<i64> = Vec::new();
    let mut i: usize = 0;
    while i < groups.len()
        invariant
            i <= groups.len(),
            r@ == without_group(groups@.take(i as int), g),
        decreases groups.len() - i,
    {
        assert(groups@.take(i + 1).drop_last() =~= groups@.take(i as int));
        if groups[i] != g {
            r.push(groups[i]);
        }
        i = i + 1;
    }
    assert(groups@.take(i as int) =~= groups@);
    r
}

// ---------------------------------------------------------------------
// Requests made to the hub
// ---------------------------------------------------------------------

/// The name under which the single hub object is reached.
pub open spec fn hub_object_name() -> Seq<char> {
    "global"@
}

/// The URL that records a pending verification.
pub open spec fn add_pending_url(user_id: i64, group_id: i64) -> Seq<char> {
    "https://do/add_pending?user_id="@ + int_decimal(user_id as int) + "&group_id="@ + int_decimal(
        group_id as int,
    )
}

/// The URL that clears a pending verification.
pub open spec fn remove_pending_url(user_id: i64, group_id: i64) -> Seq<char> {
    "https://do/remove_pending?user_id="@ + int_decimal(user_id as int) + "&group_id="@
        + int_decimal(group_id as int)
}

/// The URL that lists the pending verifications of a user.
pub open spec fn get_pending_url(user_id: i64) -> Seq<char> {
    "https://do/get_pending?user_id="@ + int_decimal(user_id as int)
}

fn id_pair_url(prefix: &str, user_id: i64, group_id: i64) -> (s: String)
    ensures
        s@ == prefix@ + int_decimal(user_id as int) + "&group_id="@ + int_decimal(group_id as int),
{
    let mut s = String::from_str(prefix);
    append_i64(&mut s, user_id);
    s.append("&group_id=");
    append_i64(&mut s, group_id);
    s
}

/// The `POST` request that records that `user_id` must be verified in
/// `group_id`.
pub fn add_pending_request(user_id: i64, group_id: i64) -> (r: DurableRequest)
    ensures
        r.object_name@ == hub_object_name(),
        r.url@ == add_pending_url(user_id, group_id),
        r.post,
{
    DurableRequest {
        object_name: String::from_str("global"),
        url: id_pair_url("https://do/add_pending?user_id=", user_id, group_id),
        post: true,
    }
}

/// The `POST` request that clears the pending verification of `user_id` in
/// `group_id`.
pub fn remove_pending_request(user_id: i64, group_id: i64) -> (r: DurableRequest)
    ensures
        r.object_name@ == hub_object_name(),
        r.url@ == remove_pending_url(user_id, group_id),
        r.post,
{
    DurableRequest {
        object_name: String::from_str("global"),
        url: id_pair_url("https://do/remove_pending?user_id=", user_id, group_id),
        post: true,
    }
}

/// The `GET` request that lists the pending verifications of `user_id`.
pub fn get_pending_request(user_id: i64) -> (r: DurableRequest)
    ensures
        r.object_name@ == hub_object_name(),
        r.url@ == get_pending_url(user_id),
        !r.post,
{
    let mut url = String::from_str("https://do/get_pending?user_id=");
    append_i64(&mut url, user_id);
    DurableRequest { object_name: String::from_str("global"), url, post: false }
}

/// The pending groups read from the hub's reply: `None` when the request
/// failed, and an unreadable body, give no group.
pub open spec fn pending_from_reply(body: Option<Seq<char>>) -> Seq<i64> {
    match body {
        Some(text) => match json_int_list(text) {
            Some(l) => l,
            None => Seq::empty(),
        },
        None => Seq::empty(),
    }
}

/// The pending groups read from the body of the hub's reply to a listing.
pub fn pending_groups(body: Option<&str>) -> (groups: Vec<i64>)
    ensures
        groups@ == pending_from_reply(opt_str_view(body)),
        forall|gs: Seq<i64>|
            opt_str_view(body) == Some(#[trigger] json_list_text(gs)) ==> groups@ == gs,
{
    match body {
        Some(text) => match decode_id_list(text) {
            Some(v) => v,
            None => Vec::new(),
        },
        None => Vec::new(),
    }
}

/// The view of an optional string slice.
pub open spec fn opt_str_view(s: Option<&str>) -> Option<Seq<char>> {
    match s {
        Some(t) => Some(t@),
        None => None,
    }
}

// ---------------------------------------------------------------------
// Laws of the hub
// ---------------------------------------------------------------------

/// No group occurs twice in the list.
pub open spec fn no_duplicates(groups: Seq<i64>) -> bool {
    forall|i: int, j: int| 0 <= i < j < groups.len() ==> groups[i] != groups[j]
}

/// The list stored after `op`, starting from `stored`.
pub open spec fn list_after(op: HubOp, stored: Option<Seq<i64>>) -> Seq<i64> {
    stored_list(stored_after(stored, hub_write(op, stored)))
}

/// Removing a group keeps exactly the other groups.
pub proof fn lemma_without_group_contains(groups: Seq<i64>, g: i64, x: i64)
    ensures
        without_group(groups, g).contains(x) <==> (groups.contains(x) && x != g),
    decreases groups.len(),
{
    if groups.len() > 0 {
        let front = groups.drop_last();
        lemma_without_group_contains(front, g, x);
        assert(groups =~= front.push(groups.last()));
        if groups.contains(x) && x != g && !front.contains(x) {
            let i = choose|i: int| 0 <= i < groups.len() && groups[i] == x;
            assert(i == groups.len() - 1);
        }
        if groups.last() != g {
            let r = without_group(front, g);
            assert(r.push(groups.last()).contains(x) ==> (r.contains(x) || x == groups.last()));
            assert(r.contains(x) ==> r.push(groups.last()).contains(x)) by {
                if r.contains(x) {
                    let i = choose|i: int| 0 <= i < r.len() && r[i] == x;
                    assert(r.push(groups.last())[i] == x);
                }
            }
            assert(r.push(groups.last())[r.len() as int] == groups.last());
        }
        if front.contains(x) {
            let i = choose|i: int| 0 <= i < front.len() && front[i] == x;
            assert(groups[i] == x);
        }
    }
}

/// Removing a group from a list without duplicates leaves a list without
/// duplicates.
pub proof fn lemma_without_group_no_duplicates(groups: Seq<i64>, g: i64)
    requires
        no_duplicates(groups),
    ensures
        no_duplicates(without_group(groups, g)),
    decreases groups.len(),
{
    if groups.len() > 0 {
        let front = groups.drop_last();
        lemma_without_group_no_duplicates(front, g);
        if groups.last() != g {
            let r = without_group(front, g);
            lemma_without_group_contains(front, g, groups.last());
            assert(!front.contains(groups.last())) by {
                if front.contains(groups.last()) {
                    let i = choose|i: int| 0 <= i < front.len() && front[i] == groups.last();
                    assert(groups[i] == groups[groups.len() - 1]);
                }
            }
            let rr = r.push(groups.last());
            assert forall|i: int, j: int| 0 <= i < j < rr.len() implies rr[i] != rr[j] by {
                if j == rr.len() - 1 {
                    assert(rr[i] == r[i]);
                    assert(r.contains(r[i]));
                }
            }
        }
    }
}

/// Read after write: once a group is added, listing the user's pending
/// groups replies with the stored list, and that list holds the group.
pub proof fn lemma_add_then_list(stored: Option<Seq<i64>>, group_id: i64)
    ensures
        list_after(HubOp::Add(group_id), stored).contains(group_id),
        hub_body(HubOp::Get, stored_after(stored, hub_write(HubOp::Add(group_id), stored)))
            == json_list_text(list_after(HubOp::Add(group_id), stored)),
{
    let l = stored_list(stored);
    if !l.contains(group_id) {
        assert(l.push(group_id)[l.len() as int] == group_id);
    }
}

/// Once a group is removed, listing the user's pending groups no longer
/// holds it.
pub proof fn lemma_remove_then_list(stored: Option<Seq<i64>>, group_id: i64)
    ensures
        !list_after(HubOp::Remove(group_id), stored).contains(group_id),
{
    lemma_without_group_contains(stored_list(stored), group_id, group_id);
}

/// Adding or removing a group leaves every other group as it was.
pub proof fn lemma_other_groups_unchanged(stored: Option<Seq<i64>>, group_id: i64, other: i64)
    requires
        other != group_id,
    ensures
        list_after(HubOp::Add(group_id), stored).contains(other) <==> stored_list(stored).contains(
            other,
        ),
        list_after(HubOp::Remove(group_id), stored).contains(other) <==> stored_list(
            stored,
        ).contains(other),
{
    let l = stored_list(stored);
    lemma_without_group_contains(l, group_id, other);
    if !l.contains(group_id) {
        let p = l.push(group_id);
        if p.contains(other) {
            let i = choose|i: int| 0 <= i < p.len() && p[i] == other;
            assert(l[i] == other);
        }
        if l.contains(other) {
            let i = choose|i: int| 0 <= i < l.len() && l[i] == other;
            assert(p[i] == other);
        }
    }
    if without_group(l, group_id).len() == 0 {
        assert(!without_group(l, group_id).contains(other));
    }
}

/// Adding a group twice stores the same list as adding it once.
pub proof fn lemma_add_idempotent(stored: Option<Seq<i64>>, group_id: i64)
    ensures
        list_after(HubOp::Add(group_id), Some(list_after(HubOp::Add(group_id), stored)))
            == list_after(HubOp::Add(group_id), stored),
{
    lemma_add_then_list(stored, group_id);
}

/// The hub never stores a group twice for a user: adding and removing keep
/// a list without duplicates free of them.
pub proof fn lemma_no_duplicates_kept(stored: Option<Seq<i64>>, op: HubOp)
    requires
        no_duplicates(stored_list(stored)),
    ensures
        no_duplicates(list_after(op, stored)),
{
    let l = stored_list(stored);
    match op {
        HubOp::Add(g) => {
            if !l.contains(g) {
                let p = l.push(g);
                assert forall|i: int, j: int| 0 <= i < j < p.len() implies p[i] != p[j] by {
                    if j == l.len() {
                        assert(p[i] == l[i]);
                    }
                }
            }
        },
        HubOp::Remove(g) => {
            lemma_without_group_no_duplicates(l, g);
        },
        HubOp::Get => {},
    }
}

/// The list stored under `key`, if any.
pub open spec fn store_lookup(store: Map<Seq<char>, Seq<i64>>, key: Seq<char>) -> Option<Seq<i64>> {
    if store.dom().contains(key) {
        Some(store[key])
    } else {
        None
    }
}

/// The hub's storage after it serves a request with query pairs `pairs`
/// and last path segment `last_segment`.
pub open spec fn store_after_request(
    store: Map<Seq<char>, Seq<i64>>,
    pairs: Seq<(Seq<char>, Seq<char>)>,
    last_segment: Option<Seq<char>>,
) -> Map<Seq<char>, Seq<i64>> {
    match hub_command(pairs, last_segment) {
        HubCommandView::Reject { .. } => store,
        HubCommandView::Apply { key, op } => {
            let stored = store_lookup(store, key);
            match stored_after(stored, hub_write(op, stored)) {
                Some(l) => store.insert(key, l),
                None => store.remove(key),
            }
        },
    }
}

/// The hub's storage after it serves `requests` in order, from `store`.
pub open spec fn store_after_requests(
    store: Map<Seq<char>, Seq<i64>>,
    requests: Seq<(Seq<(Seq<char>, Seq<char>)>, Option<Seq<char>>)>,
) -> Map<Seq<char>, Seq<i64>>
    decreases requests.len(),
{
    if requests.len() == 0 {
        store
    } else {
        let before = store_after_requests(store, requests.drop_last());
        store_after_request(before, requests.last().0, requests.last().1)
    }
}

/// What the hub's storage always satisfies: every key is the key of a
/// non-zero user, and every list stored is non-empty, free of duplicates
/// and holds no zero group.
pub open spec fn hub_store_ok(store: Map<Seq<char>, Seq<i64>>) -> bool {
    forall|k: Seq<char>|
        #[trigger] store.dom().contains(k) ==> {
            &&& exists|u: i64| u != 0 && k == user_key(u)
            &&& store[k].len() > 0
            &&& no_duplicates(store[k])
            &&& !store[k].contains(0)
        }
}

/// Serving one request keeps the storage invariant.
pub proof fn lemma_hub_request_keeps_store_ok(
    store: Map<Seq<char>, Seq<i64>>,
    pairs: Seq<(Seq<char>, Seq<char>)>,
    last_segment: Option<Seq<char>>,
)
    requires
        hub_store_ok(store),
    ensures
        hub_store_ok(store_after_request(store, pairs, last_segment)),
{
    match hub_command(pairs, last_segment) {
        HubCommandView::Reject { .. } => {},
        HubCommandView::Apply { key, op } => {
            let user_id = query_id(pairs, "user_id"@);
            assert(user_id != 0 && key == user_key(user_id));
            let stored = store_lookup(store, key);
            let l = stored_list(stored);
            assert(no_duplicates(l) && !l.contains(0)) by {
                if store.dom().contains(key) {
                    assert(store.dom().contains(key));
                }
            }
            lemma_no_duplicates_kept(stored, op);
            let after = store_after_request(store, pairs, last_segment);
            match op {
                HubOp::Add(g) => {
                    assert(g == query_id(pairs, "group_id"@));
                    assert(g != 0);
                    let w = with_group(l, g);
                    if !l.contains(g) {
                        assert(w[l.len() as int] == g);
                        assert(!w.contains(0)) by {
                            if w.contains(0) {
                                let i = choose|i: int| 0 <= i < w.len() && w[i] == 0;
                                if i < l.len() {
                                    assert(l[i] == 0);
                                }
                            }
                        }
                    }
                    assert(after == store.insert(key, w));
                    assert forall|k: Seq<char>| #[trigger] after.dom().contains(k) implies {
                        &&& exists|u: i64| u != 0 && k == user_key(u)
                        &&& after[k].len() > 0
                        &&& no_duplicates(after[k])
                        &&& !after[k].contains(0)
                    } by {
                        if k == key {
                            assert(after[k] == w);
                        } else {
                            assert(store.dom().contains(k));
                        }
                    }
                },
                HubOp::Remove(g) => {
                    let w = without_group(l, g);
                    assert(!w.contains(0)) by {
                        lemma_without_group_contains(l, g, 0);
                    }
                    if w.len() == 0 {
                        assert(after == store.remove(key));
                        assert forall|k: Seq<char>| #[trigger] after.dom().contains(k) implies {
                            &&& exists|u: i64| u != 0 && k == user_key(u)
                            &&& after[k].len() > 0
                            &&& no_duplicates(after[k])
                            &&& !after[k].contains(0)
                        } by {
                            assert(store.dom().contains(k));
                        }
                    } else {
                        assert(after == store.insert(key, w));
                        assert forall|k: Seq<char>| #[trigger] after.dom().contains(k) implies {
                            &&& exists|u: i64| u != 0 && k == user_key(u)
                            &&& after[k].len() > 0
                            &&& no_duplicates(after[k])
                            &&& !after[k].contains(0)
                        } by {
                            if k == key {
                                assert(after[k] == w);
                            } else {
                                assert(store.dom().contains(k));
                            }
                        }
                    }
                },
                HubOp::Get => {
                    assert(after == store);
                },
            }
        },
    }
}

/// Whatever requests the hub serves from empty storage, every stored key is
/// the key of a non-zero user and every stored list is non-empty, free of
/// duplicates and holds no zero group.
pub proof fn lemma_hub_store_invariant(
    requests: Seq<(Seq<(Seq<char>, Seq<char>)>, Option<Seq<char>>)>,
)
    ensures
        hub_store_ok(store_after_requests(Map::empty(), requests)),
    decreases requests.len(),
{
    if requests.len() > 0 {
        lemma_hub_store_invariant(requests.drop_last());
        lemma_hub_request_keeps_store_ok(
            store_after_requests(Map::empty(), requests.drop_last()),
            requests.last().0,
            requests.last().1,
        );
    }
}

} // verus!
