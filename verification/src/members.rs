//! Monitored groups and the members who join them.

use vstd::prelude::*;
use crate::commands::{keyboard_message, opt_text};
use crate::compose::{around_str, owned};
use crate::decimal::{append_i64, int_decimal};
use crate::links::{make_verify_link, verify_link};
use crate::model::{
    hour_after, one_button, one_hour_after, optional, optional_step, push_step, required,
    required_step, Button, ButtonAction, ButtonActionView, ButtonView, Call, CallView,
    OutgoingMessage, Step, StepView,
};

verus! {

/// Whether `chat_id` is one of the monitored groups.
pub fn is_monitored(monitored: &Vec<i64>, chat_id: i64) -> (r: bool)
    ensures
        r == monitored@.contains(chat_id),
{
    let mut i: usize = 0;
    while i < monitored.len()
        invariant
            i <= monitored.len(),
            forall|j: int| 0 <= j < i ==> monitored@[j] != chat_id,
        decreases monitored.len() - i,
    {
        if monitored[i] == chat_id {
            return true;
        }
        i = i + 1;
    }
    false
}

/// The steps that verify `user_id` in `group_id`: every permission is
/// given back and the tag is cleared.
pub open spec fn verify_user_steps(group_id: i64, user_id: i64) -> Seq<StepView> {
    seq![
        required(CallView::Restrict { chat_id: group_id, user_id, allowed: true, expires: None }),
        required(CallView::SetTag { chat_id: group_id, user_id, tag: ""@ }),
    ]
}

/// Appends to `plan` the steps that verify `user_id` in `group_id`.
pub fn verify_user(plan: &mut Vec<Step>, group_id: i64, user_id: i64)
    ensures
        final(plan).deep_view() == old(plan).deep_view() + verify_user_steps(group_id, user_id),
{
    push_step(
        plan,
        required_step(Call::Restrict { chat_id: group_id, user_id, allowed: true, expires: None }),
    );
    push_step(plan, required_step(Call::SetTag { chat_id: group_id, user_id, tag: owned("") }));
    assert(plan.deep_view() =~= old(plan).deep_view() + verify_user_steps(group_id, user_id));
}

/// A member listed in a `new_chat_members` service message, with the
/// fields the bot reads.
pub struct NewMember {
    /// The `id` field, when it is an integer.
    pub id: Option<i64>,
    /// The `is_bot` field, when it is a boolean.
    pub is_bot: Option<bool>,
    /// The `first_name` field, when it is a string.
    pub first_name: Option<String>,
    /// The `username` field, when it is a string.
    pub username: Option<String>,
}

pub struct NewMemberView {
    pub id: Option<i64>,
    pub is_bot: Option<bool>,
    pub first_name: Option<Seq<char>>,
    pub username: Option<Seq<char>>,
}

impl DeepView for NewMember {
    type V = NewMemberView;

    open spec fn deep_view(&self) -> NewMemberView {
        NewMemberView {
            id: self.id,
            is_bot: self.is_bot,
            first_name: opt_text(self.first_name),
            username: opt_text(self.username),
        }
    }
}

/// How a newcomer is named in the welcome: `@username` when the username is
/// not empty, else the first name, else `User`.
pub open spec fn display_name(m: NewMemberView) -> Seq<char> {
    let username = match m.username {
        Some(u) => u,
        None => Seq::empty(),
    };
    if username.len() > 0 {
        "@"@ + username
    } else {
        match m.first_name {
            Some(f) => f,
            None => "User"@,
        }
    }
}

pub open spec fn welcome_text(name: Seq<char>) -> Seq<char> {
    "👋 欢迎 "@ + name + " 加入群组！\n\n请点击下方按钮进行身份验证。\nWelcome! Please verify your identity."@
}

/// The steps that admit a newcomer `user_id` to `chat_id`: the pending
/// verification is recorded (its failure ignored), the newcomer is
/// restricted for an hour and tagged `suspending`, and a welcome with the
/// verification button is sent.
pub open spec fn admission_steps(
    chat_id: i64,
    user_id: i64,
    name: Seq<char>,
    bot_username: Seq<char>,
    now_ms: u64,
) -> Seq<StepView> {
    seq![
        optional(CallView::AddPending { user_id, group_id: chat_id }),
        required(
            CallView::Restrict {
                chat_id,
                user_id,
                allowed: false,
                expires: Some(one_hour_after(now_ms)),
            },
        ),
        required(CallView::SetTag { chat_id, user_id, tag: "suspending"@ }),
        required(
            CallView::Send(
                keyboard_message(
                    chat_id,
                    welcome_text(name),
                    seq![
                        seq![
                            ButtonView {
                                label: "🔐 验证身份"@,
                                action: ButtonActionView::Url(verify_link(bot_username, chat_id)),
                            },
                        ],
                    ],
                ),
            ),
        ),
    ]
}

/// How a member listed as joining `chat_id` is handled: one without an id,
/// and bots, are skipped; anyone else is admitted.
pub open spec fn admission(chat_id: i64, m: NewMemberView, bot_username: Seq<char>, now_ms: u64) -> Option<
    (i64, Seq<StepView>),
> {
    match m.id {
        None => None,
        Some(user_id) => if m.is_bot == Some(true) {
            None
        } else {
            Some((user_id, admission_steps(chat_id, user_id, display_name(m), bot_username, now_ms)))
        },
    }
}

fn display_name_of(m: &NewMember) -> (name: String)
    ensures
        name@ == display_name(m.deep_view()),
{
    let has_username = match &m.username {
        Some(u) => u.unicode_len() > 0,
        None => false,
    };
    if has_username {
        let u = m.username.as_ref().unwrap();
        let mut s = String::from_str("@");
        s.append(u.as_str());
        s
    } else {
        match &m.first_name {
            Some(f) => String::from_str(f.as_str()),
            None => String::from_str("User"),
        }
    }
}

/// The newcomer's id and admission plan, or `None` when the member is
/// skipped.
pub fn admission_plan(chat_id: i64, m: &NewMember, bot_username: &str, now_ms: u64) -> (r: Option<
    (i64, Vec<Step>),
>)
    ensures
        match (r, admission(chat_id, m.deep_view(), bot_username@, now_ms)) {
            (Some((u, p)), Some((su, sp))) => u == su && p.deep_view() == sp,
            (None, None) => true,
            _ => false,
        },
{
    let user_id = match m.id {
        Some(id) => id,
        None => return None,
    };
    if m.is_bot == Some(true) {
        return None;
    }
    let name = display_name_of(m);
    let mut p: Vec<Step> = Vec::new();
    push_step(&mut p, optional_step(Call::AddPending { user_id, group_id: chat_id }));
    push_step(
        &mut p,
        required_step(
            Call::Restrict { chat_id, user_id, allowed: false, expires: Some(hour_after(now_ms)) },
        ),
    );
    push_step(
        &mut p,
        required_step(Call::SetTag { chat_id, user_id, tag: String::from_str("suspending") }),
    );
    let b = Button {
        label: String::from_str("🔐 验证身份"),
        action: ButtonAction::Url(make_verify_link(bot_username, chat_id)),
    };
    let m_out = OutgoingMessage {
        chat_id,
        text: around_str(
            "👋 欢迎 ",
            name.as_str(),
            " 加入群组！\n\n请点击下方按钮进行身份验证。\nWelcome! Please verify your identity.",
        ),
        html: false,
        keyboard: Some(one_button(b)),
    };
    push_step(&mut p, required_step(Call::Send(m_out)));
    assert(p.deep_view() =~= admission_steps(
        chat_id,
        user_id,
        display_name(m.deep_view()),
        bot_username@,
        now_ms,
    ));
    Some((user_id, p))
}

/// The tags mark the verification: a newcomer tagged as on admission counts
/// as suspended, and a member whose tag was cleared as on verification no
/// longer does, whatever the member's status.
pub proof fn lemma_tags_mark_suspension(
    chat_id: i64,
    user_id: i64,
    name: Seq<char>,
    bot_username: Seq<char>,
    now_ms: u64,
    status: Option<Seq<char>>,
)
    ensures
        ({
            let admitted = admission_steps(chat_id, user_id, name, bot_username, now_ms)[2].call;
            let verified = verify_user_steps(chat_id, user_id)[1].call;
            &&& admitted == CallView::SetTag { chat_id, user_id, tag: "suspending"@ }
            &&& crate::model::is_suspended(
                Some(crate::model::MemberView { status, tag: Some(admitted->tag) }),
            )
            &&& verified == CallView::SetTag { chat_id, user_id, tag: ""@ }
            &&& !crate::model::is_suspended(
                Some(crate::model::MemberView { status, tag: Some(verified->tag) }),
            )
        }),
{
    reveal_strlit("");
    reveal_strlit("suspending");
    assert(""@.len() == 0);
    assert("suspending"@.len() == 10);
    assert(""@ != "suspending"@);
    let admitted = admission_steps(chat_id, user_id, name, bot_username, now_ms)[2].call;
    assert(admitted == CallView::SetTag { chat_id, user_id, tag: "suspending"@ });
    let verified = verify_user_steps(chat_id, user_id)[1].call;
    assert(verified == CallView::SetTag { chat_id, user_id, tag: ""@ });
}

/// How a newcomer is admitted and welcomed: bots and members without an id
/// are skipped; anyone else is recorded as pending in the group, restricted
/// there for an hour, tagged `suspending` there, and welcomed in the group by
/// `@username` when the username is not empty, else by the first name when
/// one is given, else as `User`.
pub proof fn lemma_newcomer_admitted_and_named(
    chat_id: i64,
    m: NewMemberView,
    bot_username: Seq<char>,
    now_ms: u64,
)
    ensures
        (m.id is None || m.is_bot == Some(true)) ==> admission(chat_id, m, bot_username, now_ms)
            is None,
        ({
            let a = admission(chat_id, m, bot_username, now_ms);
            let u = m.id->0;
            let p = (a->0).1;
            let rest = " 加入群组！\n\n请点击下方按钮进行身份验证。\nWelcome! Please verify your identity."@;
            (m.id is Some && m.is_bot != Some(true)) ==> {
                &&& a is Some
                &&& (a->0).0 == u
                &&& p.len() == 4
                &&& p[0] == (StepView {
                    call: CallView::AddPending { user_id: u, group_id: chat_id },
                    on_error: crate::model::OnErrorView::Ignore,
                })
                &&& p[1] == (StepView {
                    call: CallView::Restrict {
                        chat_id,
                        user_id: u,
                        allowed: false,
                        expires: Some((now_ms / 1000 + 3600) as u64),
                    },
                    on_error: crate::model::OnErrorView::Abort,
                })
                &&& p[2] == (StepView {
                    call: CallView::SetTag { chat_id, user_id: u, tag: "suspending"@ },
                    on_error: crate::model::OnErrorView::Abort,
                })
                &&& p[3].call is Send
                &&& p[3].call->Send_0.chat_id == chat_id
                &&& (m.username matches Some(x) && x.len() > 0) ==> p[3].call->Send_0.text == "👋 欢迎 "@
                    + ("@"@ + m.username->0) + rest
                &&& (m.username is None || m.username == Some(Seq::<char>::empty()))
                    && m.first_name is Some ==> p[3].call->Send_0.text == "👋 欢迎 "@ + m.first_name->0
                    + rest
                &&& (m.username is None || m.username == Some(Seq::<char>::empty()))
                    && m.first_name is None ==> p[3].call->Send_0.text == "👋 欢迎 "@ + "User"@ + rest
            }
        }),
{
}

/// A request to a Durable Object: the name of the object and the URL it is
/// fetched with, by `POST` or else by `GET`.
pub struct DurableRequest {
    pub object_name: String,
    pub url: String,
    pub post: bool,
}

/// The name of the object that watches `user_id` in `chat_id`.
pub open spec fn watch_object_name(chat_id: i64, user_id: i64) -> Seq<char> {
    "watch_"@ + int_decimal(chat_id as int) + "_"@ + int_decimal(user_id as int)
}

/// The URL that schedules the watch of `user_id` in `chat_id`, after the
/// welcome message `message_id`.
pub open spec fn watch_url(chat_id: i64, user_id: i64, message_id: u32) -> Seq<char> {
    "https://do/schedule?chat_id="@ + int_decimal(chat_id as int) + "&user_id="@ + int_decimal(
        user_id as int,
    ) + "&msg_id="@ + int_decimal(message_id as int)
}

/// The request that schedules the watch of a newcomer, once the welcome
/// message `message_id` is sent.
pub fn watch_request(chat_id: i64, user_id: i64, message_id: u32) -> (r: DurableRequest)
    ensures
        r.object_name@ == watch_object_name(chat_id, user_id),
        r.url@ == watch_url(chat_id, user_id, message_id),
        r.post,
{
    let mut name = String::from_str("watch_");
    append_i64(&mut name, chat_id);
    name.append("_");
    append_i64(&mut name, user_id);
    let mut url = String::from_str("https://do/schedule?chat_id=");
    append_i64(&mut url, chat_id);
    url.append("&user_id=");
    append_i64(&mut url, user_id);
    url.append("&msg_id=");
    append_i64(&mut url, message_id as i64);
    DurableRequest { object_name: name, url, post: true }
}

} // verus!
