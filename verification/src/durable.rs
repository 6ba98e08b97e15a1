//! The watch over a newcomer: a Durable Object scheduled when a member
//! joins, whose alarm bans the member if still unverified two minutes later.

use vstd::prelude::*;
use crate::auth_hub::{pairs_view, query_id, read_query_id};
use crate::compose::owned;
use crate::model::{
    is_suspended, member_is_suspended, member_view, MemberView, one_week_after, optional, optional_step,
    push_step, week_after, Call, CallView, MemberInfo, Step, StepView,
};

verus! {

/// A reply of a Durable Object: an HTTP status and a text body.
pub struct Reply {
    pub status: u16,
    pub body: String,
}

/// What a scheduling request asks for.
pub enum WatchCommand {
    /// The request is refused with this reply.
    Reject(Reply),
    /// Store the target and set the alarm `alarm_secs` seconds ahead, then
    /// reply `Scheduled`.
    Schedule { chat_id: i64, user_id: i64, alarm_secs: u64 },
}

/// The delay of the watch's alarm, in seconds.
pub open spec fn watch_delay() -> u64 {
    120
}

/// Reads a scheduling request: both `chat_id` and `user_id` must be given
/// and not zero.
pub fn read_watch_request(pairs: &Vec<(String, String)>) -> (c: WatchCommand)
    ensures
        ({
            let chat_id = query_id(pairs_view(pairs@), "chat_id"@);
            let user_id = query_id(pairs_view(pairs@), "user_id"@);
            if chat_id == 0 || user_id == 0 {
                c matches WatchCommand::Reject(r) && r.status == 400 && r.body@
                    == "chat_id and user_id required"@
            } else {
                c == WatchCommand::Schedule { chat_id, user_id, alarm_secs: watch_delay() }
            }
        }),
{
    let chat_id = read_query_id(pairs, "chat_id");
    let user_id = read_query_id(pairs, "user_id");
    if chat_id == 0 || user_id == 0 {
        WatchCommand::Reject(Reply { status: 400, body: owned("chat_id and user_id required") })
    } else {
        WatchCommand::Schedule { chat_id, user_id, alarm_secs: 120 }
    }
}

/// The reply to an accepted scheduling request.
pub fn scheduled_reply() -> (r: Reply)
    ensures
        r.status == 200,
        r.body@ == "Scheduled"@,
{
    Reply { status: 200, body: owned("Scheduled") }
}

/// The target stored by the watch, when both ids are stored and not zero;
/// a missing id counts as zero.
pub open spec fn alarm_target(chat_id: Option<i64>, user_id: Option<i64>) -> Option<(i64, i64)> {
    let c = match chat_id {
        Some(c) => c,
        None => 0,
    };
    let u = match user_id {
        Some(u) => u,
        None => 0,
    };
    if c == 0 || u == 0 {
        None
    } else {
        Some((c, u))
    }
}

/// The target of a firing alarm, from the stored ids.
pub fn read_alarm_target(chat_id: Option<i64>, user_id: Option<i64>) -> (r: Option<(i64, i64)>)
    ensures
        r == alarm_target(chat_id, user_id),
{
    let c = match chat_id {
        Some(c) => c,
        None => 0,
    };
    let u = match user_id {
        Some(u) => u,
        None => 0,
    };
    if c == 0 || u == 0 {
        None
    } else {
        Some((c, u))
    }
}

/// The reply of an alarm that found no target.
pub fn no_target_reply() -> (r: Reply)
    ensures
        r.status == 200,
        r.body@ == "No target"@,
{
    Reply { status: 200, body: owned("No target") }
}

/// The reply of an alarm that cannot reach Telegram for want of the bot
/// token.
pub fn token_missing_reply() -> (r: Reply)
    ensures
        r.status == 500,
        r.body@ == "token missing"@,
{
    Reply { status: 500, body: owned("token missing") }
}

/// What the alarm does with its target, given the lookup of the member: a
/// failed lookup ends the check; a member still suspended has the tag
/// cleared and is banned for a week (failures of either are ignored).
pub open spec fn alarm_steps(chat_id: i64, user_id: i64, member: Option<MemberView>, now_ms: u64) -> Seq<
    StepView,
> {
    if member is Some && is_suspended(member) {
        seq![
            optional(CallView::SetTag { chat_id, user_id, tag: ""@ }),
            optional(CallView::Ban { chat_id, user_id, until: one_week_after(now_ms) }),
        ]
    } else {
        Seq::empty()
    }
}

/// The body of the alarm's reply (status 200): `Check failed` when the
/// lookup failed, `Done` otherwise.
pub open spec fn alarm_reply_body(member: Option<MemberView>) -> Seq<char> {
    if member is Some {
        "Done"@
    } else {
        "Check failed"@
    }
}


/// The alarm acts on its own target only, and only while the target is
/// still tagged `suspending`: then the tag is cleared in that chat and the
/// target banned there until one week after `now_ms` (failures of both
/// ignored), and the reply is `Done`; a member found without that tag is
/// left alone (`Done`), and a failed lookup changes nothing (`Check failed`).
pub proof fn lemma_alarm_acts_on_target(chat_id: i64, user_id: i64, member: Option<MemberView>, now_ms: u64)
    ensures
        (member matches Some(m) && m.tag == Some("suspending"@)) ==> alarm_steps(
            chat_id,
            user_id,
            member,
            now_ms,
        ) == seq![
            StepView {
                call: CallView::SetTag { chat_id, user_id, tag: ""@ },
                on_error: crate::model::OnErrorView::Ignore,
            },
            StepView {
                call: CallView::Ban { chat_id, user_id, until: (now_ms / 1000 + 604800) as u64 },
                on_error: crate::model::OnErrorView::Ignore,
            },
        ] && alarm_reply_body(member) == "Done"@,
        (member matches Some(m) && m.tag != Some("suspending"@)) ==> alarm_steps(
            chat_id,
            user_id,
            member,
            now_ms,
        ).len() == 0 && alarm_reply_body(member) == "Done"@,
        member is None ==> alarm_steps(chat_id, user_id, member, now_ms).len() == 0
            && alarm_reply_body(member) == "Check failed"@,
{
    reveal_strlit("suspending");
    match member {
        Some(m) => match m.tag {
            Some(t) => {},
            None => {
                assert("suspending"@.len() == 10);
                assert(Seq::<char>::empty() != "suspending"@);
            },
        },
        None => {},
    }
}

/// The plan of a firing alarm and its reply, given the lookup of the
/// target.
pub fn alarm_plan(chat_id: i64, user_id: i64, member: &Option<MemberInfo>, now_ms: u64) -> (r: (
    Vec<Step>,
    Reply,
))
    ensures
        r.0.deep_view() == alarm_steps(chat_id, user_id, member_view(member), now_ms),
        r.1.status == 200,
        r.1.body@ == alarm_reply_body(member_view(member)),
{
    let mut p: Vec<Step> = Vec::new();
    if member.is_none() {
        assert(p.deep_view() =~= Seq::<StepView>::empty());
        return (p, Reply { status: 200, body: owned("Check failed") });
    }
    if member_is_suspended(member) {
        push_step(&mut p, optional_step(Call::SetTag { chat_id, user_id, tag: owned("") }));
        push_step(
            &mut p,
            optional_step(Call::Ban { chat_id, user_id, until: week_after(now_ms) }),
        );
        assert(p.deep_view() =~= alarm_steps(chat_id, user_id, member_view(member), now_ms));
    } else {
        assert(p.deep_view() =~= Seq::<StepView>::empty());
    }
    (p, Reply { status: 200, body: owned("Done") })
}

} // verus!
