//! Inline button presses: answers to the verification question, unban
//! requests and verification requests.

use vstd::prelude::*;
use crate::commands::{keyboard_message, questions_view, start_deep_link};
use crate::compose::{around_i64, around_i64_twice, around_str, owned};
use crate::decimal::{append_i64, int_decimal};
use crate::links::{
    answer_data, lemma_answer_data_roundtrip, lemma_unban_data_roundtrip,
    callback_request, make_unban_data, make_verify_link, read_callback, unban_data, verify_link,
    CallbackRequest,
};
use crate::members::{verify_user, verify_user_steps};
use crate::model::{
    is_admin, is_member, is_suspended, member_is_admin, one_button, member_view, one_week_after, optional, optional_step, push_step,
    required, required_step, send_text, single, text_message, week_after, Button, ButtonAction,
    ButtonActionView, ButtonView, Call, CallView, MemberInfo, MemberView, MessageView, OnError,
    OnErrorView, OutgoingMessage, Step, StepView,
};
use crate::questions::{is_correct, question_index, Question, QuestionView};

verus! {

pub open spec fn correct_alert_text() -> Seq<char> {
    "✅ 回答正确！验证成功！"@
}

pub open spec fn correct_private_text() -> Seq<char> {
    "✅ 回答正确！你的限制已被解除，欢迎加入群组！\n\nCorrect answer! You are now verified and unrestricted."@
}

pub open spec fn wrong_alert_text() -> Seq<char> {
    "❌ 回答错误，你已被移出群组，一周后可重新验证。"@
}

pub open spec fn wrong_private_text() -> Seq<char> {
    "回答错误，你已被移出群组，一周后可重新加入验证。\n\nWrong answer. You were removed from the group. You can rejoin and retry in one week."@
}

pub open spec fn wrong_notice_text(user_id: i64) -> Seq<char> {
    "❌ 用户 <a href=\"tg://user?id="@ + int_decimal(user_id as int) + "\">"@ + int_decimal(
        user_id as int,
    ) + "</a> 验证回答错误，已被移出群组并封禁一周。"@
}

pub open spec fn unban_button_label(user_id: i64) -> Seq<char> {
    "🔓 解封用户 "@ + int_decimal(user_id as int)
}

pub open spec fn admin_only_alert_text() -> Seq<char> {
    "❌ 只有管理员可以执行此操作。"@
}

pub open spec fn unbanned_alert_text(target: i64) -> Seq<char> {
    "✅ 已解除对用户 "@ + int_decimal(target as int) + " 的封禁。"@
}

pub open spec fn unbanned_notice_text(target: i64) -> Seq<char> {
    "✅ 管理员已解除对用户 <a href=\"tg://user?id="@ + int_decimal(target as int) + "\">"@
        + int_decimal(target as int) + "</a> 的封禁。"@
}

pub open spec fn check_private_text() -> Seq<char> {
    "📩 请查看私聊消息完成验证..."@
}

pub open spec fn private_prompt_text() -> Seq<char> {
    "👋 你好！\n\n请点击下方按钮完成在群组中的身份验证。\n\nPlease click the button below to verify your identity."@
}

pub open spec fn start_bot_first_text(bot_username: Seq<char>) -> Seq<char> {
    "⚠️ 请先私聊 @"@ + bot_username + " 发送 /start，然后重新点击验证按钮。"@
}

/// An answer to the callback query `query_id`.
pub open spec fn answer(query_id: Seq<char>, text: Seq<char>, alert: bool) -> CallView {
    CallView::AnswerCallback { query_id, text, alert }
}

/// A correct answer: the user is verified in the group, the pending entry
/// is cleared (its failure ignored), and the user is told.
pub open spec fn correct_answer(query_id: Seq<char>, user_id: i64, group_id: i64) -> Seq<StepView> {
    verify_user_steps(group_id, user_id) + seq![
        optional(CallView::RemovePending { user_id, group_id }),
        required(answer(query_id, correct_alert_text(), true)),
        required(CallView::Send(text_message(user_id, correct_private_text()))),
    ]
}

/// A wrong answer: the user is banned from the group for a week, told so,
/// and the group is notified with a button that lifts the ban.
pub open spec fn wrong_answer(query_id: Seq<char>, user_id: i64, group_id: i64, now_ms: u64) -> Seq<
    StepView,
> {
    seq![
        required(CallView::Ban { chat_id: group_id, user_id, until: one_week_after(now_ms) }),
        required(answer(query_id, wrong_alert_text(), true)),
        required(CallView::Send(text_message(user_id, wrong_private_text()))),
        required(
            CallView::Send(
                MessageView {
                    chat_id: group_id,
                    text: wrong_notice_text(user_id),
                    html: true,
                    keyboard: Some(
                        seq![
                            seq![
                                ButtonView {
                                    label: unban_button_label(user_id),
                                    action: ButtonActionView::Callback(unban_data(group_id, user_id)),
                                },
                            ],
                        ],
                    ),
                },
            ),
        ),
    ]
}

/// A verification request from the group: the press is acknowledged and
/// the user gets a private message with the verification link; when
/// Telegram refuses the private message (the user never started the bot),
/// the user is asked to start the bot first.
pub open spec fn verify_prompt(query_id: Seq<char>, user_id: i64, group_id: i64, bot_username: Seq<char>) -> Seq<
    StepView,
> {
    seq![
        required(answer(query_id, check_private_text(), false)),
        StepView {
            call: CallView::Send(
                keyboard_message(
                    user_id,
                    private_prompt_text(),
                    seq![
                        seq![
                            ButtonView {
                                label: "✅ 点击验证身份"@,
                                action: ButtonActionView::Url(verify_link(bot_username, group_id)),
                            },
                        ],
                    ],
                ),
            ),
            on_error: OnErrorView::Fallback(
                answer(query_id, start_bot_first_text(bot_username), true),
            ),
        },
    ]
}

/// What a button press leads to.
pub enum CallbackAction {
    /// Nothing.
    Nothing,
    /// Carries out the plan.
    Run(Vec<Step>),
    /// Looks `user_id` (who pressed) up in `group_id`, then follows
    /// [`unban_callback_plan`].
    UnbanCheck { group_id: i64, user_id: i64, target_id: i64 },
}

pub enum CallbackActionView {
    Nothing,
    Run(Seq<StepView>),
    UnbanCheck { group_id: i64, user_id: i64, target_id: i64 },
}

impl DeepView for CallbackAction {
    type V = CallbackActionView;

    open spec fn deep_view(&self) -> CallbackActionView {
        match self {
            CallbackAction::Nothing => CallbackActionView::Nothing,
            CallbackAction::Run(p) => CallbackActionView::Run(p.deep_view()),
            CallbackAction::UnbanCheck { group_id, user_id, target_id } =>
                CallbackActionView::UnbanCheck {
                group_id: *group_id,
                user_id: *user_id,
                target_id: *target_id,
            },
        }
    }
}

/// What the press of a button carrying `data`, by `user_id`, leads to. An
/// answer to a question that does not exist is ignored.
pub open spec fn callback_action(
    query_id: Seq<char>,
    user_id: i64,
    data: Option<Seq<char>>,
    questions: Seq<QuestionView>,
    bot_username: Seq<char>,
    now_ms: u64,
) -> CallbackActionView {
    match data {
        None => CallbackActionView::Nothing,
        Some(d) => match callback_request(d) {
            None => CallbackActionView::Nothing,
            Some(CallbackRequest::Answer { group_id, question, option }) => if question
                < questions.len() {
                CallbackActionView::Run(
                    if questions[question as int].correct.contains(option) {
                        correct_answer(query_id, user_id, group_id)
                    } else {
                        wrong_answer(query_id, user_id, group_id, now_ms)
                    },
                )
            } else {
                CallbackActionView::Nothing
            },
            Some(CallbackRequest::Unban { group_id, target_id }) => CallbackActionView::UnbanCheck {
                group_id,
                user_id,
                target_id,
            },
            Some(CallbackRequest::Verify { group_id }) => CallbackActionView::Run(
                verify_prompt(query_id, user_id, group_id, bot_username),
            ),
        },
    }
}

fn answer_call(query_id: &str, text: String, alert: bool) -> (c: Call)
    ensures
        c.deep_view() == answer(query_id@, text@, alert),
{
    Call::AnswerCallback { query_id: owned(query_id), text, alert }
}

fn correct_answer_plan(query_id: &str, user_id: i64, group_id: i64) -> (p: Vec<Step>)
    ensures
        p.deep_view() == correct_answer(query_id@, user_id, group_id),
{
    let mut p: Vec<Step> = Vec::new();
    verify_user(&mut p, group_id, user_id);
    push_step(&mut p, optional_step(Call::RemovePending { user_id, group_id }));
    push_step(&mut p, required_step(answer_call(query_id, owned("✅ 回答正确！验证成功！"), true)));
    push_step(
        &mut p,
        send_text(
            user_id,
            owned(
                "✅ 回答正确！你的限制已被解除，欢迎加入群组！\n\nCorrect answer! You are now verified and unrestricted.",
            ),
        ),
    );
    assert(p.deep_view() =~= correct_answer(query_id@, user_id, group_id));
    p
}

fn wrong_answer_plan(query_id: &str, user_id: i64, group_id: i64, now_ms: u64) -> (p: Vec<Step>)
    ensures
        p.deep_view() == wrong_answer(query_id@, user_id, group_id, now_ms),
{
    let mut p: Vec<Step> = Vec::new();
    push_step(
        &mut p,
        required_step(Call::Ban { chat_id: group_id, user_id, until: week_after(now_ms) }),
    );
    push_step(
        &mut p,
        required_step(answer_call(query_id, owned("❌ 回答错误，你已被移出群组，一周后可重新验证。"), true)),
    );
    push_step(
        &mut p,
        send_text(
            user_id,
            owned(
                "回答错误，你已被移出群组，一周后可重新加入验证。\n\nWrong answer. You were removed from the group. You can rejoin and retry in one week.",
            ),
        ),
    );
    let mut label = String::from_str("🔓 解封用户 ");
    append_i64(&mut label, user_id);
    let b = Button { label, action: ButtonAction::Callback(make_unban_data(group_id, user_id)) };
    let k = one_button(b);
    let m = OutgoingMessage {
        chat_id: group_id,
        text: around_i64_twice(
            "❌ 用户 <a href=\"tg://user?id=",
            user_id,
            "\">",
            "</a> 验证回答错误，已被移出群组并封禁一周。",
        ),
        html: true,
        keyboard: Some(k),
    };
    push_step(&mut p, required_step(Call::Send(m)));
    assert(p.deep_view() =~= wrong_answer(query_id@, user_id, group_id, now_ms));
    p
}

fn verify_prompt_plan(query_id: &str, user_id: i64, group_id: i64, bot_username: &str) -> (p: Vec<
    Step,
>)
    ensures
        p.deep_view() == verify_prompt(query_id@, user_id, group_id, bot_username@),
{
    let mut p: Vec<Step> = Vec::new();
    push_step(&mut p, required_step(answer_call(query_id, owned("📩 请查看私聊消息完成验证..."), false)));
    let b = Button {
        label: owned("✅ 点击验证身份"),
        action: ButtonAction::Url(make_verify_link(bot_username, group_id)),
    };
    let k = one_button(b);
    let m = OutgoingMessage {
        chat_id: user_id,
        text: owned(
            "👋 你好！\n\n请点击下方按钮完成在群组中的身份验证。\n\nPlease click the button below to verify your identity.",
        ),
        html: false,
        keyboard: Some(k),
    };
    let fallback = answer_call(
        query_id,
        around_str("⚠️ 请先私聊 @", bot_username, " 发送 /start，然后重新点击验证按钮。"),
        true,
    );
    push_step(&mut p, Step { call: Call::Send(m), on_error: OnError::Fallback(fallback) });
    assert(p.deep_view() =~= verify_prompt(query_id@, user_id, group_id, bot_username@));
    p
}

/// Decides what to do with the press of a button carrying `data`, made by
/// `user_id` as the callback query `query_id`.
pub fn callback_action_for(
    query_id: &str,
    user_id: i64,
    data: &Option<String>,
    questions: &[Question],
    bot_username: &str,
    now_ms: u64,
) -> (r: CallbackAction)
    ensures
        r.deep_view() == callback_action(
            query_id@,
            user_id,
            crate::commands::opt_text(*data),
            questions_view(questions@),
            bot_username@,
            now_ms,
        ),
{
    let d = match data {
        Some(d) => d,
        None => return CallbackAction::Nothing,
    };
    match read_callback(d.as_str()) {
        None => CallbackAction::Nothing,
        Some(CallbackRequest::Answer { group_id, question, option }) => {
            if question < questions.len() {
                if is_correct(&questions[question], option) {
                    CallbackAction::Run(correct_answer_plan(query_id, user_id, group_id))
                } else {
                    CallbackAction::Run(wrong_answer_plan(query_id, user_id, group_id, now_ms))
                }
            } else {
                CallbackAction::Nothing
            }
        },
        Some(CallbackRequest::Unban { group_id, target_id }) => CallbackAction::UnbanCheck {
            group_id,
            user_id,
            target_id,
        },
        Some(CallbackRequest::Verify { group_id }) => CallbackAction::Run(
            verify_prompt_plan(query_id, user_id, group_id, bot_username),
        ),
    }
}

/// An unban request from a button, given the lookup of the user who
/// pressed it: only an administrator may lift the ban.
pub open spec fn unban_callback(query_id: Seq<char>, group_id: i64, target_id: i64, member: Option<MemberView>) -> Seq<StepView> {
    if !is_admin(member) {
        seq![required(answer(query_id, admin_only_alert_text(), true))]
    } else {
        seq![
            required(CallView::Unban { chat_id: group_id, user_id: target_id }),
            required(answer(query_id, unbanned_alert_text(target_id), true)),
            required(
                CallView::Send(
                    MessageView {
                        chat_id: group_id,
                        text: unbanned_notice_text(target_id),
                        html: true,
                        keyboard: None,
                    },
                ),
            ),
        ]
    }
}

/// The plan of an unban request from a button, given the lookup of the user
/// who pressed it.
pub fn unban_callback_plan(
    query_id: &str,
    group_id: i64,
    target_id: i64,
    member: &Option<MemberInfo>,
) -> (p: Vec<Step>)
    ensures
        p.deep_view() == unban_callback(query_id@, group_id, target_id, member_view(member)),
{
    if !member_is_admin(member) {
        return single(required_step(answer_call(query_id, owned("❌ 只有管理员可以执行此操作。"), true)));
    }
    let mut p: Vec<Step> = Vec::new();
    push_step(&mut p, required_step(Call::Unban { chat_id: group_id, user_id: target_id }));
    push_step(
        &mut p,
        required_step(answer_call(query_id, around_i64("✅ 已解除对用户 ", target_id, " 的封禁。"), true)),
    );
    let m = OutgoingMessage {
        chat_id: group_id,
        text: around_i64_twice(
            "✅ 管理员已解除对用户 <a href=\"tg://user?id=",
            target_id,
            "\">",
            "</a> 的封禁。",
        ),
        html: true,
        keyboard: None,
    };
    push_step(&mut p, required_step(Call::Send(m)));
    assert(p.deep_view() =~= unban_callback(query_id@, group_id, target_id, member_view(member)));
    p
}

// ---------------------------------------------------------------------
// Laws
// ---------------------------------------------------------------------

/// The buttons of a verification question decide the outcome: when the bot
/// asks a suspended member of `group_id` a question, pressing the button of
/// option `k` verifies the member if `k` is a correct option of that
/// question, and bans the member for a week otherwise.
pub proof fn lemma_question_buttons_decide(
    user_id: i64,
    group_id: i64,
    member: Option<MemberView>,
    questions: Seq<QuestionView>,
    asked_at_ms: u64,
    query_id: Seq<char>,
    bot_username: Seq<char>,
    pressed_at_ms: u64,
    k: int,
)
    requires
        is_member(member),
        is_suspended(member),
        0 < questions.len() <= usize::MAX,
        0 <= k < questions[question_index(questions.len(), user_id, asked_at_ms)].options.len(),
        questions[question_index(questions.len(), user_id, asked_at_ms)].options.len() <= usize::MAX,
    ensures
        ({
            let qi = question_index(questions.len(), user_id, asked_at_ms);
            let plan = start_deep_link(user_id, group_id, member, questions, asked_at_ms);
            let buttons = plan[0].call->Send_0.keyboard->0;
            &&& buttons[k][0].action == ButtonActionView::Callback(
                answer_data(group_id, qi as usize, k as usize),
            )
            &&& callback_action(
                query_id,
                user_id,
                Some(answer_data(group_id, qi as usize, k as usize)),
                questions,
                bot_username,
                pressed_at_ms,
            ) == CallbackActionView::Run(
                if questions[qi].correct.contains(k as usize) {
                    correct_answer(query_id, user_id, group_id)
                } else {
                    wrong_answer(query_id, user_id, group_id, pressed_at_ms)
                },
            )
        }),
{
    let qi = question_index(questions.len(), user_id, asked_at_ms);
    assert(0 <= qi < questions.len());
    lemma_answer_data_roundtrip(group_id, qi as usize, k as usize);
    assert((qi as usize) as int == qi);
    assert((k as usize) as int == k);
}

/// Pressing an answer button decides by the answered question's correct
/// options, and acts in the group named by the button: for a correct option
/// the user is given every permission back and untagged in that group (both
/// required), the pending entry for that user and group is cleared (its
/// failure ignored), then the press is answered and the user told in
/// private; for a wrong option the user is first banned from that group
/// until one week after `now_ms`, and the group gets a notice whose button
/// asks to unban that user there.
pub proof fn lemma_answer_button_acts_in_its_group(
    query_id: Seq<char>,
    user_id: i64,
    group_id: i64,
    question: usize,
    option: usize,
    questions: Seq<QuestionView>,
    bot_username: Seq<char>,
    now_ms: u64,
)
    requires
        question < questions.len(),
    ensures
        ({
            let a = callback_action(
                query_id,
                user_id,
                Some(answer_data(group_id, question, option)),
                questions,
                bot_username,
                now_ms,
            );
            let p = a->Run_0;
            &&& a is Run
            &&& questions[question as int].correct.contains(option) ==> {
                &&& p.len() == 5
                &&& p[0] == (StepView {
                    call: CallView::Restrict { chat_id: group_id, user_id, allowed: true, expires: None },
                    on_error: OnErrorView::Abort,
                })
                &&& p[1] == (StepView {
                    call: CallView::SetTag { chat_id: group_id, user_id, tag: ""@ },
                    on_error: OnErrorView::Abort,
                })
                &&& p[2] == (StepView {
                    call: CallView::RemovePending { user_id, group_id },
                    on_error: OnErrorView::Ignore,
                })
                &&& p[3].call == (CallView::AnswerCallback {
                    query_id,
                    text: "✅ 回答正确！验证成功！"@,
                    alert: true,
                })
                &&& p[4].call is Send && p[4].call->Send_0.chat_id == user_id
            }
            &&& !questions[question as int].correct.contains(option) ==> {
                &&& p.len() == 4
                &&& p[0] == (StepView {
                    call: CallView::Ban {
                        chat_id: group_id,
                        user_id,
                        until: (now_ms / 1000 + 604800) as u64,
                    },
                    on_error: OnErrorView::Abort,
                })
                &&& p[1].call == (CallView::AnswerCallback {
                    query_id,
                    text: "❌ 回答错误，你已被移出群组，一周后可重新验证。"@,
                    alert: true,
                })
                &&& p[2].call is Send && p[2].call->Send_0.chat_id == user_id
                &&& p[3].call is Send && p[3].call->Send_0.chat_id == group_id
                &&& p[3].call->Send_0.keyboard == Some(
                    seq![
                        seq![
                            ButtonView {
                                label: "🔓 解封用户 "@ + int_decimal(user_id as int),
                                action: ButtonActionView::Callback(
                                    "unban:"@ + int_decimal(group_id as int) + ":"@ + int_decimal(
                                        user_id as int,
                                    ),
                                ),
                            },
                        ],
                    ],
                )
            }
        }),
{
    lemma_answer_data_roundtrip(group_id, question, option);
}

/// A verification request from the group acknowledges the press without an
/// alert, then sends the presser, in private, a button that opens the
/// verification link of exactly the group the request names; if Telegram
/// refuses that message, the presser is alerted to start the bot first.
pub proof fn lemma_verify_button_links_its_group(
    query_id: Seq<char>,
    user_id: i64,
    group_id: i64,
    questions: Seq<QuestionView>,
    bot_username: Seq<char>,
    now_ms: u64,
)
    ensures
        ({
            let a = callback_action(
                query_id,
                user_id,
                Some("verify:"@ + int_decimal(group_id as int)),
                questions,
                bot_username,
                now_ms,
            );
            let p = a->Run_0;
            &&& a is Run
            &&& p.len() == 2
            &&& p[0].call == (CallView::AnswerCallback {
                query_id,
                text: "📩 请查看私聊消息完成验证..."@,
                alert: false,
            })
            &&& p[1].call is Send
            &&& p[1].call->Send_0.chat_id == user_id
            &&& p[1].call->Send_0.keyboard->0[0][0].action == ButtonActionView::Url(
                "https://t.me/"@ + bot_username + "?start=verify_"@ + int_decimal(group_id as int),
            )
            &&& p[1].on_error == OnErrorView::Fallback(
                CallView::AnswerCallback {
                    query_id,
                    text: "⚠️ 请先私聊 @"@ + bot_username + " 发送 /start，然后重新点击验证按钮。"@,
                    alert: true,
                },
            )
        }),
{
    reveal_strlit("verify:");
    reveal_strlit("verify");
    reveal_strlit("answer");
    reveal_strlit("unban");
    reveal_strlit(":");
    reveal_strlit("?start=verify_");
    reveal_strlit("?start=");
    reveal_strlit("verify_");
    let v = "verify"@;
    let g = int_decimal(group_id as int);
    let pieces = seq![v, g];
    crate::links::lemma_decimal_free_of_colon(group_id as int);
    assert(crate::links::free_of(v, ':'));
    assert forall|i: int| 0 <= i < pieces.len() implies crate::links::free_of(#[trigger] pieces[i], ':') by {}
    assert(pieces.drop_last() =~= seq![v]);
    assert(crate::links::join_with(seq![v], ':') == v);
    assert(crate::links::join_with(pieces, ':') == v.push(':') + g);
    assert("verify:"@ =~= v.push(':'));
    assert(crate::links::join_with(pieces, ':') =~= "verify:"@ + g);
    crate::links::lemma_split_of_join(pieces, ':');
    crate::decimal::lemma_parse_i64_of_decimal(group_id);
    assert(v[0] != "answer"@[0]);
    assert(v[0] != "unban"@[0]);
    assert("?start=verify_"@ =~= "?start="@ + "verify_"@);
    assert(verify_link(bot_username, group_id) =~= "https://t.me/"@ + bot_username + "?start=verify_"@ + g);
}

/// The unban button is honoured for the group's administrators and its
/// creator, and for nobody else: for a presser whose status is
/// `administrator` or `creator` the target is unbanned in the group first,
/// then the press is answered and the group told; anyone else (or a failed
/// lookup) only gets the admin-only alert.
pub proof fn lemma_unban_button_for_admins_only(
    query_id: Seq<char>,
    group_id: i64,
    target_id: i64,
    member: Option<MemberView>,
)
    ensures
        ({
            let admin = member is Some && (member->0.status == Some("administrator"@)
                || member->0.status == Some("creator"@));
            let p = unban_callback(query_id, group_id, target_id, member);
            &&& admin ==> p.len() == 3 && p[0] == (StepView {
                call: CallView::Unban { chat_id: group_id, user_id: target_id },
                on_error: OnErrorView::Abort,
            }) && p[1].call == (CallView::AnswerCallback {
                query_id,
                text: "✅ 已解除对用户 "@ + int_decimal(target_id as int) + " 的封禁。"@,
                alert: true,
            }) && p[2].call is Send && p[2].call->Send_0.chat_id == group_id
            &&& !admin ==> p == seq![
                StepView {
                    call: CallView::AnswerCallback {
                        query_id,
                        text: "❌ 只有管理员可以执行此操作。"@,
                        alert: true,
                    },
                    on_error: OnErrorView::Abort,
                },
            ]
        }),
{
    reveal_strlit("administrator");
    reveal_strlit("creator");
    reveal_strlit("");
    match member {
        Some(m) => {
            match m.status {
                Some(s) => {},
                None => {
                    assert(Seq::<char>::empty() != "administrator"@);
                    assert(Seq::<char>::empty() != "creator"@);
                },
            }
        },
        None => {},
    }
}

/// The unban button posted after a wrong answer asks, when pressed, to lift
/// the ban of that user in that group, on behalf of whoever pressed it.
pub proof fn lemma_unban_button_requests_unban(
    query_id: Seq<char>,
    presser_id: i64,
    group_id: i64,
    user_id: i64,
    questions: Seq<QuestionView>,
    bot_username: Seq<char>,
    now_ms: u64,
)
    ensures
        callback_action(
            query_id,
            presser_id,
            Some(unban_data(group_id, user_id)),
            questions,
            bot_username,
            now_ms,
        ) == (CallbackActionView::UnbanCheck { group_id, user_id: presser_id, target_id: user_id }),
{
    lemma_unban_data_roundtrip(group_id, user_id);
}

} // verus!
