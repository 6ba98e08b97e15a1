//! Text messages: moderation of suspended senders and the bot's commands.

use vstd::prelude::*;
use crate::compose::{around_i64, around_str, owned};
use crate::decimal::{append_i64, int_decimal, parse_i64, parse_i64_text};
use crate::links::{
    answer_data, deep_link_group, deep_link_param, lemma_deep_link_roundtrip, make_answer_data,
    make_verify_link, read_deep_link, verify_link,
};
use crate::members::{verify_user, verify_user_steps};
use crate::model::{
    is_admin, is_member, is_suspended, member_is_admin, member_is_present, member_is_suspended,
    member_view, one_week_after, push_step, required, required_step, send_text, single,
    text_message, week_after, Button, ButtonAction, ButtonActionView, ButtonView, Call, CallView,
    MemberInfo, MemberView, MessageView, OutgoingMessage, Step, StepView,
};
use crate::polling::{echo, echo_reply};
use crate::questions::{pick_question, question_index, Question, QuestionView};
use crate::text::{is_whitespace, split_whitespace, str_eq, strings_view, words};

verus! {

// ---------------------------------------------------------------------
// Replies
// ---------------------------------------------------------------------

pub open spec fn help_text() -> Seq<char> {
    "🤖 Sphinx Bot\n\n组内验证流程：\n• 加入群组后，点击验证按钮\n• 私聊 bot 输入 /verify 完成验证\n\n命令：\n/start — 开始\n/help — 帮助\n/chatid — 获取当前群组 ID\n/status — 查看验证状态"@
}

pub open spec fn group_only_text() -> Seq<char> {
    "❌ 请在群组内使用此命令。"@
}

pub open spec fn admin_only_text() -> Seq<char> {
    "❌ 只有管理员可以使用此命令。"@
}

pub open spec fn unbanned_text(target: i64) -> Seq<char> {
    "✅ 已解除对用户 "@ + int_decimal(target as int) + " 的封禁。他们现在可以重新加入群组。"@
}

pub open spec fn unban_usage_text() -> Seq<char> {
    "⚠️ 请提供要解封的用户 ID，例如：/unban 123456789"@
}

pub open spec fn unknown_command_text(command: Seq<char>) -> Seq<char> {
    "未知命令："@ + command + "\n发送 /help 查看可用命令"@
}

pub open spec fn chat_id_text(chat_id: i64) -> Seq<char> {
    if chat_id < 0 {
        "📋 当前群组 ID："@ + int_decimal(chat_id as int) + "\n\n提示：该 ID 可用于 MONITORED_GROUPS 配置。"@
    } else {
        "📋 当前会话 ID："@ + int_decimal(chat_id as int)
    }
}

pub open spec fn not_in_group_text() -> Seq<char> {
    "⏳ 没有待处理的验证请求。\n\n请先加入群组，然后重新点击验证按钮。"@
}

pub open spec fn already_verified_text() -> Seq<char> {
    "✅ 你已完成验证或无需验证。\n\nYou do not need verification or have already been verified."@
}

pub open spec fn question_text(question: Seq<char>) -> Seq<char> {
    "请回答以下问题以完成验证：\n\n"@ + question + "\n\nPlease answer to complete verification:"@
}

pub open spec fn verified_text() -> Seq<char> {
    "✅ 验证成功！你已在群组中完成身份验证。\n\nVerification successful! You are now verified in the group."@
}

pub open spec fn greeting_text() -> Seq<char> {
    "👋 你好！我是 Sphinx Bot。\n\n如果你刚刚加入了某个受监控的群组，请点击群组内的验证按钮，然后在此私聊中完成验证。\n\n发送 /help 查看帮助。"@
}

pub open spec fn choose_group_text() -> Seq<char> {
    "👋 你好！检测到你有待验证的请求，请选择要验证的群组："@
}

pub open spec fn nothing_pending_text() -> Seq<char> {
    "📭 没有待处理的验证请求。\n\n如果你刚加入群组，请点击群组内的验证按钮。"@
}

pub open spec fn go_verify_text() -> Seq<char> {
    "你有待处理的验证请求，请点击下方按钮进行验证："@
}

pub open spec fn no_record_text() -> Seq<char> {
    "📭 没有相关验证记录。"@
}

/// The lines after the header of the status reply, one per pending group.
pub open spec fn status_lines(groups: Seq<i64>) -> Seq<char>
    decreases groups.len(),
{
    if groups.len() == 0 {
        Seq::empty()
    } else {
        status_lines(groups.drop_last()) + "\n  • 群组 "@ + int_decimal(groups.last() as int)
            + " → ⏳ 待验证"@
    }
}

pub open spec fn status_text(groups: Seq<i64>) -> Seq<char> {
    "📋 你的验证状态："@ + status_lines(groups)
}

// ---------------------------------------------------------------------
// Commands
// ---------------------------------------------------------------------

/// A command sent to the bot, with the word after it where the command
/// reads one.
pub enum Command {
    Start(Option<String>),
    Help,
    Verify,
    ChatId,
    Status,
    Unban(Option<String>),
    Unknown(String),
}

pub enum CommandView {
    Start(Option<Seq<char>>),
    Help,
    Verify,
    ChatId,
    Status,
    Unban(Option<Seq<char>>),
    Unknown(Seq<char>),
}

pub open spec fn opt_text(s: Option<String>) -> Option<Seq<char>> {
    match s {
        Some(x) => Some(x@),
        None => None,
    }
}

impl DeepView for Command {
    type V = CommandView;

    open spec fn deep_view(&self) -> CommandView {
        match self {
            Command::Start(p) => CommandView::Start(opt_text(*p)),
            Command::Help => CommandView::Help,
            Command::Verify => CommandView::Verify,
            Command::ChatId => CommandView::ChatId,
            Command::Status => CommandView::Status,
            Command::Unban(a) => CommandView::Unban(opt_text(*a)),
            Command::Unknown(w) => CommandView::Unknown(w@),
        }
    }
}

/// The command a text holds: a text starting with `/` is split into words;
/// the first word names the command and the second is its argument.
pub open spec fn command_of(text: Seq<char>) -> Option<CommandView> {
    if text.len() > 0 && text[0] == '/' {
        let w = words(text);
        let arg = if w.len() > 1 { Some(w[1]) } else { None };
        Some(
            if w[0] == "/start"@ {
                CommandView::Start(arg)
            } else if w[0] == "/help"@ {
                CommandView::Help
            } else if w[0] == "/verify"@ {
                CommandView::Verify
            } else if w[0] == "/chatid"@ {
                CommandView::ChatId
            } else if w[0] == "/status"@ {
                CommandView::Status
            } else if w[0] == "/unban"@ {
                CommandView::Unban(arg)
            } else {
                CommandView::Unknown(w[0])
            },
        )
    } else {
        None
    }
}

/// A text that starts with a non-whitespace character has a first word.
pub proof fn lemma_words_nonempty(s: Seq<char>)
    requires
        s.len() > 0,
        !crate::text::is_whitespace(s[0]),
    ensures
        words(s).len() > 0,
    decreases s.len(),
{
    if s.len() > 1 {
        lemma_words_nonempty(s.drop_last());
    }
}

fn word_is(w: &Vec<String>, i: usize, lit: &str) -> (r: bool)
    requires
        i < w.len(),
    ensures
        r == (w@[i as int]@ == lit@),
{
    str_eq(w[i].as_str(), lit)
}

fn clone_text(s: &String) -> (r: String)
    ensures
        r@ == s@,
{
    s.clone()
}

/// Reads the command in `text`, if it holds one.
pub fn parse_command(text: &str) -> (r: Option<Command>)
    ensures
        r.deep_view() == command_of(text@),
{
    let n = text.unicode_len();
    if n == 0 || text.get_char(0) != '/' {
        return None;
    }
    proof {
        lemma_words_nonempty(text@);
    }
    let w = split_whitespace(text);
    let ghost wv = strings_view(w@);
    assert(forall|i: int| 0 <= i < w@.len() ==> #[trigger] wv[i] == w@[i]@);
    let arg = if w.len() > 1 { Some(clone_text(&w[1])) } else { None };
    let c = if word_is(&w, 0, "/start") {
        Command::Start(arg)
    } else if word_is(&w, 0, "/help") {
        Command::Help
    } else if word_is(&w, 0, "/verify") {
        Command::Verify
    } else if word_is(&w, 0, "/chatid") {
        Command::ChatId
    } else if word_is(&w, 0, "/status") {
        Command::Status
    } else if word_is(&w, 0, "/unban") {
        Command::Unban(arg)
    } else {
        Command::Unknown(clone_text(&w[0]))
    };
    Some(c)
}

// ---------------------------------------------------------------------
// What a text message leads to
// ---------------------------------------------------------------------

/// What the bot does with a text message once moderation let it through.
pub enum TextAction {
    /// Nothing.
    Nothing,
    /// Carries out the plan.
    Run(Vec<Step>),
    /// Looks the sender up in `group_id`, then follows
    /// [`start_deep_link_plan`].
    StartDeepLink { group_id: i64 },
    /// Reads the sender's pending groups, then follows [`start_pending_plan`].
    StartPending,
    /// Reads the sender's pending groups, then follows [`verify_pending_plan`].
    VerifyPending,
    /// Reads the sender's pending groups, then follows [`status_plan`].
    StatusPending,
    /// Looks `sender_id` up in the chat, then follows [`unban_command_plan`].
    UnbanCheck { sender_id: i64, target: Option<String> },
}

pub enum TextActionView {
    Nothing,
    Run(Seq<StepView>),
    StartDeepLink { group_id: i64 },
    StartPending,
    VerifyPending,
    StatusPending,
    UnbanCheck { sender_id: i64, target: Option<Seq<char>> },
}

impl DeepView for TextAction {
    type V = TextActionView;

    open spec fn deep_view(&self) -> TextActionView {
        match self {
            TextAction::Nothing => TextActionView::Nothing,
            TextAction::Run(p) => TextActionView::Run(p.deep_view()),
            TextAction::StartDeepLink { group_id } => TextActionView::StartDeepLink {
                group_id: *group_id,
            },
            TextAction::StartPending => TextActionView::StartPending,
            TextAction::VerifyPending => TextActionView::VerifyPending,
            TextAction::StatusPending => TextActionView::StatusPending,
            TextAction::UnbanCheck { sender_id, target } => TextActionView::UnbanCheck {
                sender_id: *sender_id,
                target: opt_text(*target),
            },
        }
    }
}

/// A plan that sends one plain text.
pub open spec fn reply(chat_id: i64, text: Seq<char>) -> Seq<StepView> {
    seq![required(CallView::Send(text_message(chat_id, text)))]
}

/// The plan that echoes a text that is not a command back to its chat.
pub open spec fn echo_plan(chat_id: i64, text: Seq<char>) -> Seq<StepView> {
    seq![required(CallView::Send(echo(chat_id, text)))]
}

/// What the text `text`, sent in `chat_id` by `from_id`, leads to: a
/// command is carried out, any other text is echoed back.
pub open spec fn text_action(chat_id: i64, text: Seq<char>, from_id: Option<i64>) -> TextActionView {
    match command_of(text) {
        None => TextActionView::Run(echo_plan(chat_id, text)),
        Some(c) => match c {
            CommandView::Start(p) => match p {
                Some(x) => match deep_link_group(x) {
                    Some(g) => TextActionView::StartDeepLink { group_id: g },
                    None => TextActionView::StartPending,
                },
                None => TextActionView::StartPending,
            },
            CommandView::Help => TextActionView::Run(reply(chat_id, help_text())),
            CommandView::Verify => TextActionView::VerifyPending,
            CommandView::ChatId => TextActionView::Run(reply(chat_id, chat_id_text(chat_id))),
            CommandView::Status => TextActionView::StatusPending,
            CommandView::Unban(t) => if chat_id > 0 {
                TextActionView::Run(reply(chat_id, group_only_text()))
            } else {
                match from_id {
                    None => TextActionView::Nothing,
                    Some(s) => TextActionView::UnbanCheck { sender_id: s, target: t },
                }
            },
            CommandView::Unknown(w) => TextActionView::Run(reply(chat_id, unknown_command_text(w))),
        },
    }
}

fn reply_plan(chat_id: i64, text: String) -> (p: Vec<Step>)
    ensures
        p.deep_view() == reply(chat_id, text@),
{
    single(send_text(chat_id, text))
}

/// The reply to `/chatid` in `chat_id`.
pub fn chat_id_reply(chat_id: i64) -> (s: String)
    ensures
        s@ == chat_id_text(chat_id),
{
    if chat_id < 0 {
        around_i64("📋 当前群组 ID：", chat_id, "\n\n提示：该 ID 可用于 MONITORED_GROUPS 配置。")
    } else {
        let mut s = String::from_str("📋 当前会话 ID：");
        append_i64(&mut s, chat_id);
        s
    }
}

/// Decides what to do with the text `text` sent in `chat_id` by `from_id`.
pub fn text_action_for(chat_id: i64, text: &str, from_id: Option<i64>) -> (r: TextAction)
    ensures
        r.deep_view() == text_action(chat_id, text@, from_id),
{
    match parse_command(text) {
        None => {
            let p = single(required_step(Call::Send(echo_reply(chat_id, text))));
            TextAction::Run(p)
        },
        Some(c) => match c {
            Command::Start(p) => match p {
                Some(x) => match read_deep_link(x.as_str()) {
                    Some(g) => TextAction::StartDeepLink { group_id: g },
                    None => TextAction::StartPending,
                },
                None => TextAction::StartPending,
            },
            Command::Help => TextAction::Run(reply_plan(chat_id, owned(
                "🤖 Sphinx Bot\n\n组内验证流程：\n• 加入群组后，点击验证按钮\n• 私聊 bot 输入 /verify 完成验证\n\n命令：\n/start — 开始\n/help — 帮助\n/chatid — 获取当前群组 ID\n/status — 查看验证状态",
            ))),
            Command::Verify => TextAction::VerifyPending,
            Command::ChatId => TextAction::Run(reply_plan(chat_id, chat_id_reply(chat_id))),
            Command::Status => TextAction::StatusPending,
            Command::Unban(t) => {
                if chat_id > 0 {
                    TextAction::Run(reply_plan(chat_id, owned("❌ 请在群组内使用此命令。")))
                } else {
                    match from_id {
                        None => TextAction::Nothing,
                        Some(s) => TextAction::UnbanCheck { sender_id: s, target: t },
                    }
                }
            },
            Command::Unknown(w) => TextAction::Run(
                reply_plan(chat_id, around_str("未知命令：", w.as_str(), "\n发送 /help 查看可用命令")),
            ),
        },
    }
}

// ---------------------------------------------------------------------
// Moderation
// ---------------------------------------------------------------------

/// The sender to look up before handling a text: in a monitored group, the
/// sender, when the message has one.
pub fn moderation_target(monitored: &Vec<i64>, chat_id: i64, from_id: Option<i64>) -> (r: Option<
    i64,
>)
    ensures
        r == (if monitored@.contains(chat_id) {
            from_id
        } else {
            None
        }),
{
    if crate::members::is_monitored(monitored, chat_id) {
        from_id
    } else {
        None
    }
}

/// The plan against a suspended sender: the message is deleted and the
/// sender banned for a week.
pub open spec fn moderation_plan(chat_id: i64, message_id: u32, user_id: i64, now_ms: u64) -> Seq<
    StepView,
> {
    seq![
        required(CallView::DeleteMessage { chat_id, message_id }),
        required(CallView::Ban { chat_id, user_id, until: one_week_after(now_ms) }),
    ]
}

/// Given the lookup of the sender `user_id` of message `message_id`, the
/// plan against the sender if still suspended; `None` lets the message
/// through.
pub fn moderate(
    chat_id: i64,
    message_id: u32,
    user_id: i64,
    member: &Option<MemberInfo>,
    now_ms: u64,
) -> (r: Option<Vec<Step>>)
    ensures
        is_suspended(member_view(member)) <==> r is Some,
        r matches Some(p) ==> p.deep_view() == moderation_plan(chat_id, message_id, user_id, now_ms),
{
    if member_is_suspended(member) {
        let mut p: Vec<Step> = Vec::new();
        push_step(&mut p, required_step(Call::DeleteMessage { chat_id, message_id }));
        push_step(
            &mut p,
            required_step(Call::Ban { chat_id, user_id, until: week_after(now_ms) }),
        );
        assert(p.deep_view() =~= moderation_plan(chat_id, message_id, user_id, now_ms));
        Some(p)
    } else {
        None
    }
}

// ---------------------------------------------------------------------
// Plans after a lookup
// ---------------------------------------------------------------------

/// One button per row for each pending group: the label is `label`
/// followed by the group id, and the button opens the verification link of
/// the group.
pub open spec fn pending_buttons(groups: Seq<i64>, label: Seq<char>, bot_username: Seq<char>) -> Seq<
    Seq<ButtonView>,
> {
    Seq::new(
        groups.len(),
        |i: int|
            seq![
                ButtonView {
                    label: label + int_decimal(groups[i] as int),
                    action: ButtonActionView::Url(verify_link(bot_username, groups[i])),
                },
            ],
    )
}

/// The keyboard of [`pending_buttons`].
pub fn pending_keyboard(groups: &Vec<i64>, label: &str, bot_username: &str) -> (k: Vec<
    Vec<Button>,
>)
    ensures
        k.deep_view() == pending_buttons(groups@, label@, bot_username@),
{
    let mut k: Vec<Vec<Button>> = Vec::new();
    let mut i: usize = 0;
    while i < groups.len()
        invariant
            i <= groups.len(),
            k@.len() == i,
            k.deep_view() == pending_buttons(groups@, label@, bot_username@).take(i as int),
        decreases groups.len() - i,
    {
        let g = groups[i];
        let mut lab = String::from_str(label);
        append_i64(&mut lab, g);
        let b = Button { label: lab, action: ButtonAction::Url(make_verify_link(bot_username, g)) };
        let mut row: Vec<Button> = Vec::new();
        row.push(b);
        assert(row.deep_view() =~= pending_buttons(groups@, label@, bot_username@)[i as int]);
        let ghost before = k.deep_view();
        k.push(row);
        assert(k@[i as int] == row);
        i = i + 1;
        assert(k.deep_view() =~= before.push(row.deep_view()));
        assert(k.deep_view() =~= pending_buttons(groups@, label@, bot_username@).take(i as int));
    }
    assert(pending_buttons(groups@, label@, bot_username@).take(i as int) =~= pending_buttons(
        groups@,
        label@,
        bot_username@,
    ));
    k
}

/// A message with a keyboard.
pub open spec fn keyboard_message(chat_id: i64, text: Seq<char>, keyboard: Seq<Seq<ButtonView>>) -> MessageView {
    MessageView { chat_id, text, html: false, keyboard: Some(keyboard) }
}

/// `/start` without a deep link: greets a user with nothing pending, or
/// offers one verification link per pending group.
pub open spec fn start_pending(chat_id: i64, pending: Seq<i64>, bot_username: Seq<char>) -> Seq<
    StepView,
> {
    if pending.len() == 0 {
        reply(chat_id, greeting_text())
    } else {
        seq![
            required(
                CallView::Send(
                    keyboard_message(
                        chat_id,
                        choose_group_text(),
                        pending_buttons(pending, "✅ 验证群组 "@, bot_username),
                    ),
                ),
            ),
        ]
    }
}

/// The plan of `/start` without a deep link, given the pending groups.
pub fn start_pending_plan(chat_id: i64, pending: &Vec<i64>, bot_username: &str) -> (p: Vec<Step>)
    ensures
        p.deep_view() == start_pending(chat_id, pending@, bot_username@),
{
    if pending.len() == 0 {
        reply_plan(
            chat_id,
            owned(
                "👋 你好！我是 Sphinx Bot。\n\n如果你刚刚加入了某个受监控的群组，请点击群组内的验证按钮，然后在此私聊中完成验证。\n\n发送 /help 查看帮助。",
            ),
        )
    } else {
        let k = pending_keyboard(pending, "✅ 验证群组 ", bot_username);
        let m = OutgoingMessage {
            chat_id,
            text: owned("👋 你好！检测到你有待验证的请求，请选择要验证的群组："),
            html: false,
            keyboard: Some(k),
        };
        single(required_step(Call::Send(m)))
    }
}

/// `/verify`: offers one verification link per pending group.
pub open spec fn verify_pending(chat_id: i64, pending: Seq<i64>, bot_username: Seq<char>) -> Seq<
    StepView,
> {
    if pending.len() == 0 {
        reply(chat_id, nothing_pending_text())
    } else {
        seq![
            required(
                CallView::Send(
                    keyboard_message(
                        chat_id,
                        go_verify_text(),
                        pending_buttons(pending, "✅ 去验证群组 "@, bot_username),
                    ),
                ),
            ),
        ]
    }
}

/// The plan of `/verify`, given the pending groups.
pub fn verify_pending_plan(chat_id: i64, pending: &Vec<i64>, bot_username: &str) -> (p: Vec<Step>)
    ensures
        p.deep_view() == verify_pending(chat_id, pending@, bot_username@),
{
    if pending.len() == 0 {
        reply_plan(chat_id, owned("📭 没有待处理的验证请求。\n\n如果你刚加入群组，请点击群组内的验证按钮。"))
    } else {
        let k = pending_keyboard(pending, "✅ 去验证群组 ", bot_username);
        let m = OutgoingMessage {
            chat_id,
            text: owned("你有待处理的验证请求，请点击下方按钮进行验证："),
            html: false,
            keyboard: Some(k),
        };
        single(required_step(Call::Send(m)))
    }
}

/// `/status`: lists the pending groups.
pub open spec fn status(chat_id: i64, pending: Seq<i64>) -> Seq<StepView> {
    if pending.len() == 0 {
        reply(chat_id, no_record_text())
    } else {
        reply(chat_id, status_text(pending))
    }
}

/// The plan of `/status`, given the pending groups.
pub fn status_plan(chat_id: i64, pending: &Vec<i64>) -> (p: Vec<Step>)
    ensures
        p.deep_view() == status(chat_id, pending@),
{
    if pending.len() == 0 {
        return reply_plan(chat_id, owned("📭 没有相关验证记录。"));
    }
    let mut text = String::from_str("📋 你的验证状态：");
    let mut i: usize = 0;
    while i < pending.len()
        invariant
            i <= pending.len(),
            text@ == "📋 你的验证状态："@ + status_lines(pending@.take(i as int)),
        decreases pending.len() - i,
    {
        let ghost before = text@;
        text.append("\n  • 群组 ");
        append_i64(&mut text, pending[i]);
        text.append(" → ⏳ 待验证");
        assert(pending@.take(i + 1).drop_last() =~= pending@.take(i as int));
        i = i + 1;
        assert(text@ =~= "📋 你的验证状态："@ + status_lines(pending@.take(i as int)));
    }
    assert(pending@.take(i as int) =~= pending@);
    reply_plan(chat_id, text)
}

/// `/unban` in a group, given the lookup of the sender: only an
/// administrator may lift a ban, and only with a user id.
pub open spec fn unban_command(chat_id: i64, member: Option<MemberView>, target: Option<Seq<char>>) -> Seq<StepView> {
    if !is_admin(member) {
        reply(chat_id, admin_only_text())
    } else {
        match target {
            Some(t) => match parse_i64_text(t) {
                Some(id) => seq![
                    required(CallView::Unban { chat_id, user_id: id }),
                    required(CallView::Send(text_message(chat_id, unbanned_text(id)))),
                ],
                None => reply(chat_id, unban_usage_text()),
            },
            None => reply(chat_id, unban_usage_text()),
        }
    }
}

/// The plan of `/unban`, given the lookup of the sender.
pub fn unban_command_plan(chat_id: i64, member: &Option<MemberInfo>, target: &Option<String>) -> (p: Vec<Step>)
    ensures
        p.deep_view() == unban_command(chat_id, member_view(member), opt_text(*target)),
{
    if !member_is_admin(member) {
        return reply_plan(chat_id, owned("❌ 只有管理员可以使用此命令。"));
    }
    let id = match target {
        Some(t) => parse_i64(t.as_str()),
        None => None,
    };
    match id {
        Some(id) => {
            let mut p: Vec<Step> = Vec::new();
            push_step(&mut p, required_step(Call::Unban { chat_id, user_id: id }));
            push_step(
                &mut p,
                send_text(chat_id, around_i64("✅ 已解除对用户 ", id, " 的封禁。他们现在可以重新加入群组。")),
            );
            assert(p.deep_view() =~= unban_command(chat_id, member_view(member), opt_text(*target)));
            p
        },
        None => reply_plan(chat_id, owned("⚠️ 请提供要解封的用户 ID，例如：/unban 123456789")),
    }
}

/// The views of the questions.
pub open spec fn questions_view(qs: Seq<Question>) -> Seq<QuestionView> {
    qs.map_values(|q: Question| q.deep_view())
}

/// The answer buttons of a question, one per row: each option sends the
/// answer data of its index.
pub open spec fn answer_buttons(group_id: i64, index: usize, options: Seq<Seq<char>>) -> Seq<
    Seq<ButtonView>,
> {
    Seq::new(
        options.len(),
        |i: int|
            seq![
                ButtonView {
                    label: options[i],
                    action: ButtonActionView::Callback(answer_data(group_id, index, i as usize)),
                },
            ],
    )
}

/// `/start` with a verification deep link for `group_id`, given the lookup
/// of the user in the group: a user who is not in the group, or not
/// suspended, is told so; a suspended user is asked the question picked at
/// `now_ms`, or verified at once when there is no question.
pub open spec fn start_deep_link(
    chat_id: i64,
    group_id: i64,
    member: Option<MemberView>,
    questions: Seq<QuestionView>,
    now_ms: u64,
) -> Seq<StepView> {
    if !is_member(member) {
        reply(chat_id, not_in_group_text())
    } else if !is_suspended(member) {
        reply(chat_id, already_verified_text())
    } else if questions.len() > 0 {
        let i = question_index(questions.len(), chat_id, now_ms);
        seq![
            required(
                CallView::Send(
                    keyboard_message(
                        chat_id,
                        question_text(questions[i].text),
                        answer_buttons(group_id, i as usize, questions[i].options),
                    ),
                ),
            ),
        ]
    } else {
        verify_user_steps(group_id, chat_id) + reply(chat_id, verified_text())
    }
}

fn answer_keyboard(group_id: i64, index: usize, options: &Vec<String>) -> (k: Vec<Vec<Button>>)
    ensures
        k.deep_view() == answer_buttons(group_id, index, options.deep_view()),
{
    let mut k: Vec<Vec<Button>> = Vec::new();
    let mut i: usize = 0;
    while i < options.len()
        invariant
            i <= options.len(),
            k@.len() == i,
            k.deep_view() == answer_buttons(group_id, index, options.deep_view()).take(i as int),
        decreases options.len() - i,
    {
        let b = Button {
            label: clone_text(&options[i]),
            action: ButtonAction::Callback(make_answer_data(group_id, index, i)),
        };
        let mut row: Vec<Button> = Vec::new();
        row.push(b);
        assert(row.deep_view() =~= answer_buttons(group_id, index, options.deep_view())[i as int]);
        let ghost before = k.deep_view();
        k.push(row);
        assert(k@[i as int] == row);
        i = i + 1;
        assert(k.deep_view() =~= before.push(row.deep_view()));
        assert(k.deep_view() =~= answer_buttons(group_id, index, options.deep_view()).take(
            i as int,
        ));
    }
    assert(answer_buttons(group_id, index, options.deep_view()).take(i as int) =~= answer_buttons(
        group_id,
        index,
        options.deep_view(),
    ));
    k
}

/// The plan of `/start` with a deep link for `group_id`, given the lookup
/// of the user in that group.
pub fn start_deep_link_plan(
    chat_id: i64,
    group_id: i64,
    member: &Option<MemberInfo>,
    questions: &[Question],
    now_ms: u64,
) -> (p: Vec<Step>)
    ensures
        p.deep_view() == start_deep_link(
            chat_id,
            group_id,
            member_view(member),
            questions_view(questions@),
            now_ms,
        ),
{
    if !member_is_present(member) {
        return reply_plan(chat_id, owned("⏳ 没有待处理的验证请求。\n\n请先加入群组，然后重新点击验证按钮。"));
    }
    if !member_is_suspended(member) {
        return reply_plan(
            chat_id,
            owned("✅ 你已完成验证或无需验证。\n\nYou do not need verification or have already been verified."),
        );
    }
    match pick_question(questions, chat_id, now_ms) {
        Some((q_idx, q)) => {
            let k = answer_keyboard(group_id, q_idx, &q.options);
            let m = OutgoingMessage {
                chat_id,
                text: around_str(
                    "请回答以下问题以完成验证：\n\n",
                    q.text.as_str(),
                    "\n\nPlease answer to complete verification:",
                ),
                html: false,
                keyboard: Some(k),
            };
            single(required_step(Call::Send(m)))
        },
        None => {
            let mut p: Vec<Step> = Vec::new();
            verify_user(&mut p, group_id, chat_id);
            push_step(
                &mut p,
                send_text(
                    chat_id,
                    owned(
                        "✅ 验证成功！你已在群组中完成身份验证。\n\nVerification successful! You are now verified in the group.",
                    ),
                ),
            );
            assert(p.deep_view() =~= start_deep_link(
                chat_id,
                group_id,
                member_view(member),
                questions_view(questions@),
                now_ms,
            ));
            p
        },
    }
}

// ---------------------------------------------------------------------
// Laws
// ---------------------------------------------------------------------

/// Read after write, as the user sees it: once a group is added to a
/// user's pending groups, `/verify` offers a button that opens the
/// verification link of that group.
pub proof fn lemma_pending_group_offered(
    stored: Option<Seq<i64>>,
    group_id: i64,
    chat_id: i64,
    bot_username: Seq<char>,
)
    ensures
        ({
            let pending = crate::auth_hub::list_after(crate::auth_hub::HubOp::Add(group_id), stored);
            let keyboard = verify_pending(chat_id, pending, bot_username)[0].call->Send_0.keyboard->0;
            exists|i: int|
                0 <= i < keyboard.len() && #[trigger] keyboard[i][0].action == ButtonActionView::Url(
                    verify_link(bot_username, group_id),
                )
        }),
{
    crate::auth_hub::lemma_add_then_list(stored, group_id);
    let pending = crate::auth_hub::list_after(crate::auth_hub::HubOp::Add(group_id), stored);
    let i = choose|i: int| 0 <= i < pending.len() && pending[i] == group_id;
    let keyboard = verify_pending(chat_id, pending, bot_username)[0].call->Send_0.keyboard->0;
    assert(keyboard[i][0].action == ButtonActionView::Url(verify_link(bot_username, group_id)));
}

/// Moderation acts on the sender it looked up: the plan deletes exactly the
/// message that was sent, in the chat it was sent in, and bans exactly that
/// sender in that chat until one week (604800 seconds) after `now_ms`, for
/// every chat, message, sender and time; both steps abandon the plan when
/// they fail.
pub proof fn lemma_moderation_targets_sender(chat_id: i64, message_id: u32, user_id: i64, now_ms: u64)
    ensures
        moderation_plan(chat_id, message_id, user_id, now_ms).len() == 2,
        moderation_plan(chat_id, message_id, user_id, now_ms)[0] == (StepView {
            call: CallView::DeleteMessage { chat_id, message_id },
            on_error: crate::model::OnErrorView::Abort,
        }),
        moderation_plan(chat_id, message_id, user_id, now_ms)[1] == (StepView {
            call: CallView::Ban { chat_id, user_id, until: (now_ms / 1000 + 604800) as u64 },
            on_error: crate::model::OnErrorView::Abort,
        }),
{
}

/// A suspended member who follows a verification link is asked the
/// question picked for them, and only that question: the text sent to them
/// holds the text of question `qi = question_index(..)`, and the keyboard
/// has one button per option of that same question, in order, labelled with
/// the option and carrying `answer:<group>:<qi>:<k>`.
pub proof fn lemma_question_asked_is_the_picked_one(
    chat_id: i64,
    group_id: i64,
    status: Option<Seq<char>>,
    questions: Seq<QuestionView>,
    now_ms: u64,
)
    requires
        status != Some("left"@),
        status != Some("kicked"@),
        questions.len() > 0,
    ensures
        ({
            let member = Some(MemberView { status, tag: Some("suspending"@) });
            let qi = question_index(questions.len(), chat_id, now_ms);
            let plan = start_deep_link(chat_id, group_id, member, questions, now_ms);
            let m = plan[0].call->Send_0;
            &&& 0 <= qi < questions.len()
            &&& plan.len() == 1
            &&& plan[0].call is Send
            &&& m.chat_id == chat_id
            &&& !m.html
            &&& m.text == "请回答以下问题以完成验证：\n\n"@ + questions[qi].text
                + "\n\nPlease answer to complete verification:"@
            &&& m.keyboard is Some
            &&& m.keyboard->0.len() == questions[qi].options.len()
            &&& forall|k: int|
                0 <= k < questions[qi].options.len() ==> #[trigger] m.keyboard->0[k] == seq![
                    ButtonView {
                        label: questions[qi].options[k],
                        action: ButtonActionView::Callback(
                            "answer:"@ + int_decimal(group_id as int) + ":"@ + crate::decimal::nat_digits(
                                (qi as usize) as nat,
                            ) + ":"@ + crate::decimal::nat_digits((k as usize) as nat),
                        ),
                    },
                ]
        }),
{
    reveal_strlit("suspending");
    reveal_strlit("left");
    reveal_strlit("kicked");
    let member = Some(MemberView { status, tag: Some("suspending"@) });
    assert(is_member(member)) by {
        match status {
            Some(x) => {},
            None => {
                assert(Seq::<char>::empty() != "left"@);
                assert(Seq::<char>::empty() != "kicked"@);
            },
        }
    }
    assert(is_suspended(member));
}

/// `/unban <id>` is honoured for the group's administrators and its creator
/// only: for such a sender with a readable id the user is unbanned in that
/// group and the group told; anyone else (or a failed lookup) is told that
/// only administrators may do it.
pub proof fn lemma_unban_command_for_admins_only(chat_id: i64, member: Option<MemberView>, target: i64)
    ensures
        ({
            let admin = member is Some && (member->0.status == Some("administrator"@)
                || member->0.status == Some("creator"@));
            let p = unban_command(chat_id, member, Some(int_decimal(target as int)));
            &&& admin ==> p == seq![
                StepView {
                    call: CallView::Unban { chat_id, user_id: target },
                    on_error: crate::model::OnErrorView::Abort,
                },
                StepView {
                    call: CallView::Send(
                        MessageView {
                            chat_id,
                            text: "✅ 已解除对用户 "@ + int_decimal(target as int)
                                + " 的封禁。他们现在可以重新加入群组。"@,
                            html: false,
                            keyboard: None,
                        },
                    ),
                    on_error: crate::model::OnErrorView::Abort,
                },
            ]
            &&& !admin ==> p == seq![
                StepView {
                    call: CallView::Send(
                        MessageView {
                            chat_id,
                            text: "❌ 只有管理员可以使用此命令。"@,
                            html: false,
                            keyboard: None,
                        },
                    ),
                    on_error: crate::model::OnErrorView::Abort,
                },
            ]
        }),
{
    reveal_strlit("administrator");
    reveal_strlit("creator");
    crate::decimal::lemma_parse_i64_of_decimal(target);
    match member {
        Some(m) => {
            match m.status {
                Some(s) => {},
                None => {
                    assert(Seq::<char>::empty() != "administrator"@);
                    assert(Seq::<char>::empty() != "creator"@);
                },
            }
        },
        None => {},
    }
}

/// `s` holds no whitespace.
pub open spec fn no_whitespace(s: Seq<char>) -> bool {
    forall|i: int| 0 <= i < s.len() ==> !is_whitespace(#[trigger] s[i])
}

/// A word appended after nothing or after whitespace is a new last word.
pub proof fn lemma_words_append_word(s: Seq<char>, w: Seq<char>)
    requires
        w.len() > 0,
        no_whitespace(w),
        s.len() == 0 || is_whitespace(s.last()),
    ensures
        words(s + w) == words(s).push(w),
    decreases w.len(),
{
    if w.len() == 1 {
        assert((s + w).drop_last() =~= s);
        assert((s + w).last() == w[0]);
        if s.len() > 0 {
            assert((s + w)[(s + w).len() - 2] == s.last());
        }
        assert(seq![w[0]] =~= w);
    } else {
        let w0 = w.drop_last();
        assert(no_whitespace(w0)) by {
            assert forall|i: int| 0 <= i < w0.len() implies !is_whitespace(#[trigger] w0[i]) by {
                assert(w0[i] == w[i]);
            }
        }
        lemma_words_append_word(s, w0);
        assert((s + w).drop_last() =~= s + w0);
        assert((s + w).last() == w.last());
        assert((s + w)[(s + w).len() - 2] == w0.last());
        assert(!is_whitespace(w0.last()));
        assert(w0.push(w.last()) =~= w);
    }
}

/// The text `/start <payload>`, for a payload without whitespace, is read
/// as `/start` with that payload.
pub proof fn lemma_start_command(payload: Seq<char>)
    requires
        payload.len() > 0,
        no_whitespace(payload),
    ensures
        command_of("/start "@ + payload) == Some(CommandView::Start(Some(payload))),
{
    reveal_strlit("/start ");
    reveal_strlit("/start");
    let head = "/start"@;
    let text = "/start "@ + payload;
    assert(no_whitespace(head));
    lemma_words_append_word(Seq::empty(), head);
    assert(Seq::<char>::empty() + head =~= head);
    assert(words(Seq::<char>::empty()) =~= Seq::<Seq<char>>::empty());
    let spaced = head.push(' ');
    assert(spaced.drop_last() =~= head);
    assert(words(spaced) == words(head));
    lemma_words_append_word(spaced, payload);
    assert(text =~= spaced + payload);
    assert(words(text) =~= seq![head, payload]);
}

/// Following a verification link sends `/start verify_<group>`, which the
/// bot reads as a request to verify the sender in that group.
pub proof fn lemma_verify_link_leads_to_group(chat_id: i64, group_id: i64, from_id: Option<i64>)
    ensures
        text_action(chat_id, "/start "@ + deep_link_param(group_id), from_id)
            == (TextActionView::StartDeepLink { group_id }),
{
    reveal_strlit("verify_");
    let p = deep_link_param(group_id);
    assert(no_whitespace(p)) by {
        assert forall|i: int| 0 <= i < p.len() implies !is_whitespace(#[trigger] p[i]) by {
            if i >= 7 {
                crate::decimal::lemma_decimal_chars(group_id as int);
                let d = int_decimal(group_id as int);
                assert(p[i] == d[i - 7]);
                assert(crate::decimal::is_digit(d[i - 7]) || d[i - 7] == '-');
            }
        }
    }
    lemma_start_command(p);
    lemma_deep_link_roundtrip(group_id);
}

} // verus!
