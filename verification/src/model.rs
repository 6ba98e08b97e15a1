//! The bot's vocabulary: the Telegram calls it decides to make, the order
//! and error policy it makes them in, and what it learns about a chat member.

use vstd::prelude::*;

verus! {

/// What pressing an inline button does.
pub enum ButtonAction {
    /// Opens a URL.
    Url(String),
    /// Sends this callback data back to the bot.
    Callback(String),
}

/// One inline keyboard button.
pub struct Button {
    pub label: String,
    pub action: ButtonAction,
}

/// A text message the bot sends.
pub struct OutgoingMessage {
    pub chat_id: i64,
    pub text: String,
    /// The text is sent with the HTML parse mode.
    pub html: bool,
    /// Rows of inline buttons, if the message carries a keyboard.
    pub keyboard: Option<Vec<Vec<Button>>>,
}

/// One call the bot makes: a Telegram Bot API method, or an update of the
/// pending-verification hub.
pub enum Call {
    /// `sendMessage`.
    Send(OutgoingMessage),
    /// `answerCallbackQuery` with a notification text.
    AnswerCallback { query_id: String, text: String, alert: bool },
    /// `restrictChatMember` with every permission set to `allowed`.
    Restrict { chat_id: i64, user_id: i64, allowed: bool, expires: Option<u64> },
    /// `setChatMemberTag`.
    SetTag { chat_id: i64, user_id: i64, tag: String },
    /// `banChatMember` until the given Unix time.
    Ban { chat_id: i64, user_id: i64, until: u64 },
    /// `unbanChatMember` with `only_if_banned`.
    Unban { chat_id: i64, user_id: i64 },
    /// `deleteMessage`.
    DeleteMessage { chat_id: i64, message_id: u32 },
    /// Records that `user_id` has a verification pending in `group_id`.
    AddPending { user_id: i64, group_id: i64 },
    /// Clears the pending verification of `user_id` in `group_id`.
    RemovePending { user_id: i64, group_id: i64 },
}

/// What happens when a call fails.
pub enum OnError {
    /// The rest of the plan is abandoned.
    Abort,
    /// The failure is ignored and the plan goes on.
    Ignore,
    /// When Telegram refuses the call (error 403) this call is made instead;
    /// any other failure is ignored.
    Fallback(Call),
}

/// A call and what its failure means.
pub struct Step {
    pub call: Call,
    pub on_error: OnError,
}

/// What a `getChatMember` lookup told about a member.
pub struct MemberInfo {
    /// The `status` field, when it is a string.
    pub status: Option<String>,
    /// The `tag` field, when it is a string.
    pub tag: Option<String>,
}

/// The result of performing one call.
pub enum CallOutcome {
    Succeeded,
    /// The call failed; `forbidden` when Telegram answered with error 403.
    Failed { forbidden: bool },
}

/// What to do after a call.
pub enum Next {
    /// Go on with the next step.
    Continue,
    /// Abandon the plan.
    Stop,
    /// Make this call (its failure abandons the plan), then go on.
    Perform(Call),
}

// ---------------------------------------------------------------------
// Views
// ---------------------------------------------------------------------

pub enum ButtonActionView {
    Url(Seq<char>),
    Callback(Seq<char>),
}

pub struct ButtonView {
    pub label: Seq<char>,
    pub action: ButtonActionView,
}

pub struct MessageView {
    pub chat_id: i64,
    pub text: Seq<char>,
    pub html: bool,
    pub keyboard: Option<Seq<Seq<ButtonView>>>,
}

pub enum CallView {
    Send(MessageView),
    AnswerCallback { query_id: Seq<char>, text: Seq<char>, alert: bool },
    Restrict { chat_id: i64, user_id: i64, allowed: bool, expires: Option<u64> },
    SetTag { chat_id: i64, user_id: i64, tag: Seq<char> },
    Ban { chat_id: i64, user_id: i64, until: u64 },
    Unban { chat_id: i64, user_id: i64 },
    DeleteMessage { chat_id: i64, message_id: u32 },
    AddPending { user_id: i64, group_id: i64 },
    RemovePending { user_id: i64, group_id: i64 },
}

pub enum OnErrorView {
    Abort,
    Ignore,
    Fallback(CallView),
}

pub struct StepView {
    pub call: CallView,
    pub on_error: OnErrorView,
}

pub struct MemberView {
    pub status: Option<Seq<char>>,
    pub tag: Option<Seq<char>>,
}

impl DeepView for ButtonAction {
    type V = ButtonActionView;

    open spec fn deep_view(&self) -> ButtonActionView {
        match self {
            ButtonAction::Url(u) => ButtonActionView::Url(u@),
            ButtonAction::Callback(d) => ButtonActionView::Callback(d@),
        }
    }
}

impl DeepView for Button {
    type V = ButtonView;

    open spec fn deep_view(&self) -> ButtonView {
        ButtonView { label: self.label@, action: self.action.deep_view() }
    }
}

impl DeepView for OutgoingMessage {
    type V = MessageView;

    open spec fn deep_view(&self) -> MessageView {
        MessageView {
            chat_id: self.chat_id,
            text: self.text@,
            html: self.html,
            keyboard: match &self.keyboard {
                Some(k) => Some(k.deep_view()),
                None => None,
            },
        }
    }
}

impl DeepView for Call {
    type V = CallView;

    open spec fn deep_view(&self) -> CallView {
        match self {
            Call::Send(m) => CallView::Send(m.deep_view()),
            Call::AnswerCallback { query_id, text, alert } => CallView::AnswerCallback {
                query_id: query_id@,
                text: text@,
                alert: *alert,
            },
            Call::Restrict { chat_id, user_id, allowed, expires } => CallView::Restrict {
                chat_id: *chat_id,
                user_id: *user_id,
                allowed: *allowed,
                expires: *expires,
            },
            Call::SetTag { chat_id, user_id, tag } => CallView::SetTag {
                chat_id: *chat_id,
                user_id: *user_id,
                tag: tag@,
            },
            Call::Ban { chat_id, user_id, until } => CallView::Ban {
                chat_id: *chat_id,
                user_id: *user_id,
                until: *until,
            },
            Call::Unban { chat_id, user_id } => CallView::Unban {
                chat_id: *chat_id,
                user_id: *user_id,
            },
            Call::DeleteMessage { chat_id, message_id } => CallView::DeleteMessage {
                chat_id: *chat_id,
                message_id: *message_id,
            },
            Call::AddPending { user_id, group_id } => CallView::AddPending {
                user_id: *user_id,
                group_id: *group_id,
            },
            Call::RemovePending { user_id, group_id } => CallView::RemovePending {
                user_id: *user_id,
                group_id: *group_id,
            },
        }
    }
}

impl DeepView for OnError {
    type V = OnErrorView;

    open spec fn deep_view(&self) -> OnErrorView {
        match self {
            OnError::Abort => OnErrorView::Abort,
            OnError::Ignore => OnErrorView::Ignore,
            OnError::Fallback(c) => OnErrorView::Fallback(c.deep_view()),
        }
    }
}

impl DeepView for Step {
    type V = StepView;

    open spec fn deep_view(&self) -> StepView {
        StepView { call: self.call.deep_view(), on_error: self.on_error.deep_view() }
    }
}

impl DeepView for MemberInfo {
    type V = MemberView;

    open spec fn deep_view(&self) -> MemberView {
        MemberView {
            status: match &self.status {
                Some(s) => Some(s@),
                None => None,
            },
            tag: match &self.tag {
                Some(t) => Some(t@),
                None => None,
            },
        }
    }
}

// ---------------------------------------------------------------------
// Spec constructors
// ---------------------------------------------------------------------

/// A plain message without keyboard.
pub open spec fn text_message(chat_id: i64, text: Seq<char>) -> MessageView {
    MessageView { chat_id, text, html: false, keyboard: None }
}

/// A step whose failure abandons the plan.
pub open spec fn required(call: CallView) -> StepView {
    StepView { call, on_error: OnErrorView::Abort }
}

/// A step whose failure is ignored.
pub open spec fn optional(call: CallView) -> StepView {
    StepView { call, on_error: OnErrorView::Ignore }
}

/// A keyboard of one button per row.
pub open spec fn one_per_row(buttons: Seq<ButtonView>) -> Seq<Seq<ButtonView>> {
    buttons.map_values(|b: ButtonView| seq![b])
}

/// The tag of a looked-up member, `""` when the lookup failed or the tag is
/// missing.
pub open spec fn member_tag(member: Option<MemberView>) -> Seq<char> {
    match member {
        Some(m) => match m.tag {
            Some(t) => t,
            None => Seq::empty(),
        },
        None => Seq::empty(),
    }
}

/// The status of a looked-up member, `""` when missing.
pub open spec fn member_status(member: MemberView) -> Seq<char> {
    match member.status {
        Some(s) => s,
        None => Seq::empty(),
    }
}

/// The member carries the `suspending` tag that marks an unverified
/// newcomer.
pub open spec fn is_suspended(member: Option<MemberView>) -> bool {
    member_tag(member) == "suspending"@
}

/// The member administers the chat.
pub open spec fn is_admin(member: Option<MemberView>) -> bool {
    match member {
        Some(m) => member_status(m) == "administrator"@ || member_status(m) == "creator"@,
        None => false,
    }
}

/// The member is in the chat (neither gone nor kicked out).
pub open spec fn is_member(member: Option<MemberView>) -> bool {
    match member {
        Some(m) => member_status(m) != "left"@ && member_status(m) != "kicked"@,
        None => false,
    }
}

/// The view of an optional member.
pub open spec fn member_view(member: &Option<MemberInfo>) -> Option<MemberView> {
    match member {
        Some(m) => Some(m.deep_view()),
        None => None,
    }
}

/// Unix time one week after `now_ms` (a time in milliseconds).
pub open spec fn one_week_after(now_ms: u64) -> u64 {
    (now_ms / 1000 + 604800) as u64
}

/// Unix time one hour after `now_ms`.
pub open spec fn one_hour_after(now_ms: u64) -> u64 {
    (now_ms / 1000 + 3600) as u64
}

// ---------------------------------------------------------------------
// Executable helpers
// ---------------------------------------------------------------------

/// The text of an optional string, `""` when absent.
pub open spec fn text_or_empty(s: Option<String>) -> Seq<char> {
    match s {
        Some(x) => x@,
        None => Seq::<char>::empty(),
    }
}

fn optional_str_eq(s: &Option<String>, lit: &str) -> (r: bool)
    ensures
        r == (text_or_empty(*s) == lit@),
{
    if let Some(x) = s {
        crate::text::str_eq(x.as_str(), lit)
    } else {
        let n = lit.unicode_len();
        assert(n == 0 ==> lit@ =~= Seq::<char>::empty());
        n == 0
    }
}

/// Whether the looked-up member carries the `suspending` tag.
pub fn member_is_suspended(member: &Option<MemberInfo>) -> (r: bool)
    ensures
        r == is_suspended(member_view(member)),
{
    match member {
        Some(m) => {
            assert(member_tag(member_view(member)) == text_or_empty(m.tag));
            optional_str_eq(&m.tag, "suspending")
        },
        None => {
            proof {
                reveal_strlit("suspending");
            }
            assert(member_tag(member_view(member)).len() == 0);
            false
        },
    }
}

/// Whether the looked-up member is an administrator or the creator.
pub fn member_is_admin(member: &Option<MemberInfo>) -> (r: bool)
    ensures
        r == is_admin(member_view(member)),
{
    match member {
        Some(m) => {
            assert(member_status(m.deep_view()) == text_or_empty(m.status));
            optional_str_eq(&m.status, "administrator") || optional_str_eq(&m.status, "creator")
        },
        None => false,
    }
}

/// Whether the looked-up member is still in the chat.
pub fn member_is_present(member: &Option<MemberInfo>) -> (r: bool)
    ensures
        r == is_member(member_view(member)),
{
    match member {
        Some(m) => {
            assert(member_status(m.deep_view()) == text_or_empty(m.status));
            !optional_str_eq(&m.status, "left") && !optional_str_eq(&m.status, "kicked")
        },
        None => false,
    }
}

/// Unix time one week after `now_ms`.
pub fn week_after(now_ms: u64) -> (t: u64)
    ensures
        t == one_week_after(now_ms),
{
    now_ms / 1000 + 604800
}

/// Unix time one hour after `now_ms`.
pub fn hour_after(now_ms: u64) -> (t: u64)
    ensures
        t == one_hour_after(now_ms),
{
    now_ms / 1000 + 3600
}

/// Appends `s` to `plan`.
pub fn push_step(plan: &mut Vec<Step>, s: Step)
    ensures
        final(plan).deep_view() == old(plan).deep_view().push(s.deep_view()),
{
    let ghost before = plan.deep_view();
    let ghost sv = s.deep_view();
    plan.push(s);
    assert(plan.deep_view() =~= before.push(sv));
}

/// A keyboard of the single button `b`.
pub fn one_button(b: Button) -> (k: Vec<Vec<Button>>)
    ensures
        k.deep_view() == seq![seq![b.deep_view()]],
{
    let ghost bv = b.deep_view();
    let mut row: Vec<Button> = Vec::new();
    row.push(b);
    assert(row.deep_view() =~= seq![bv]);
    let ghost rv = row.deep_view();
    let mut k: Vec<Vec<Button>> = Vec::new();
    k.push(row);
    assert(k.deep_view() =~= seq![rv]);
    k
}

/// A plan of the single step `s`.
pub fn single(s: Step) -> (plan: Vec<Step>)
    ensures
        plan.deep_view() == seq![s.deep_view()],
{
    let mut plan: Vec<Step> = Vec::new();
    push_step(&mut plan, s);
    assert(plan.deep_view() =~= seq![s.deep_view()]);
    plan
}

/// The required step that sends `text` to `chat_id`, without keyboard.
pub fn send_text(chat_id: i64, text: String) -> (s: Step)
    ensures
        s.deep_view() == required(CallView::Send(text_message(chat_id, text@))),
{
    Step {
        call: Call::Send(OutgoingMessage { chat_id, text, html: false, keyboard: None }),
        on_error: OnError::Abort,
    }
}

/// A required step.
pub fn required_step(call: Call) -> (s: Step)
    ensures
        s.deep_view() == required(call.deep_view()),
{
    Step { call, on_error: OnError::Abort }
}

/// A step whose failure is ignored.
pub fn optional_step(call: Call) -> (s: Step)
    ensures
        s.deep_view() == optional(call.deep_view()),
{
    Step { call, on_error: OnError::Ignore }
}

/// What the plan does next after `step` had `outcome`.
pub fn after_call(step: &Step, outcome: &CallOutcome) -> (next: Next)
    ensures
        match outcome {
            CallOutcome::Succeeded => next is Continue,
            CallOutcome::Failed { forbidden } => match step.on_error.deep_view() {
                OnErrorView::Abort => next is Stop,
                OnErrorView::Ignore => next is Continue,
                OnErrorView::Fallback(c) => if *forbidden {
                    next matches Next::Perform(x) && x.deep_view() == c
                } else {
                    next is Continue
                },
            },
        },
{
    match outcome {
        CallOutcome::Succeeded => Next::Continue,
        CallOutcome::Failed { forbidden } => match &step.on_error {
            OnError::Abort => Next::Stop,
            OnError::Ignore => Next::Continue,
            OnError::Fallback(c) => {
                if *forbidden {
                    Next::Perform(c.clone_call())
                } else {
                    Next::Continue
                }
            },
        },
    }
}

fn clone_string(s: &String) -> (r: String)
    ensures
        r@ == s@,
{
    s.clone()
}

impl Call {
    /// A copy of the call.
    pub fn clone_call(&self) -> (c: Call)
        ensures
            c.deep_view() == self.deep_view(),
    {
        match self {
            Call::Send(m) => Call::Send(m.clone_message()),
            Call::AnswerCallback { query_id, text, alert } => Call::AnswerCallback {
                query_id: clone_string(query_id),
                text: clone_string(text),
                alert: *alert,
            },
            Call::Restrict { chat_id, user_id, allowed, expires } => Call::Restrict {
                chat_id: *chat_id,
                user_id: *user_id,
                allowed: *allowed,
                expires: *expires,
            },
            Call::SetTag { chat_id, user_id, tag } => Call::SetTag {
                chat_id: *chat_id,
                user_id: *user_id,
                tag: clone_string(tag),
            },
            Call::Ban { chat_id, user_id, until } => Call::Ban {
                chat_id: *chat_id,
                user_id: *user_id,
                until: *until,
            },
            Call::Unban { chat_id, user_id } => Call::Unban { chat_id: *chat_id, user_id: *user_id },
            Call::DeleteMessage { chat_id, message_id } => Call::DeleteMessage {
                chat_id: *chat_id,
                message_id: *message_id,
            },
            Call::AddPending { user_id, group_id } => Call::AddPending {
                user_id: *user_id,
                group_id: *group_id,
            },
            Call::RemovePending { user_id, group_id } => Call::RemovePending {
                user_id: *user_id,
                group_id: *group_id,
            },
        }
    }
}

impl Button {
    /// A copy of the button.
    pub fn clone_button(&self) -> (b: Button)
        ensures
            b.deep_view() == self.deep_view(),
    {
        Button {
            label: clone_string(&self.label),
            action: match &self.action {
                ButtonAction::Url(u) => ButtonAction::Url(clone_string(u)),
                ButtonAction::Callback(d) => ButtonAction::Callback(clone_string(d)),
            },
        }
    }
}

fn clone_row(row: &Vec<Button>) -> (r: Vec<Button>)
    ensures
        r.deep_view() == row.deep_view(),
{
    let mut r: Vec<Button> = Vec::new();
    let mut i: usize = 0;
    while i < row.len()
        invariant
            i <= row.len(),
            r.deep_view() == row.deep_view().take(i as int),
            r@.len() == i,
        decreases row.len() - i,
    {
        let b = row[i].clone_button();
        let ghost old_r = r.deep_view();
        r.push(b);
        assert(r@[i as int] == b);
        i = i + 1;
        assert(r.deep_view() =~= old_r.push(b.deep_view()));
        assert(r.deep_view() =~= row.deep_view().take(i as int));
    }
    assert(row.deep_view().take(i as int) =~= row.deep_view());
    r
}

fn clone_keyboard(k: &Vec<Vec<Button>>) -> (r: Vec<Vec<Button>>)
    ensures
        r.deep_view() == k.deep_view(),
{
    let mut r: Vec<Vec<Button>> = Vec::new();
    let mut i: usize = 0;
    while i < k.len()
        invariant
            i <= k.len(),
            r.deep_view() == k.deep_view().take(i as int),
            r@.len() == i,
        decreases k.len() - i,
    {
        let row = clone_row(&k[i]);
        let ghost old_r = r.deep_view();
        r.push(row);
        assert(r@[i as int] == row);
        i = i + 1;
        assert(r.deep_view() =~= old_r.push(row.deep_view()));
        assert(r.deep_view() =~= k.deep_view().take(i as int));
    }
    assert(k.deep_view().take(i as int) =~= k.deep_view());
    r
}

impl OutgoingMessage {
    /// A copy of the message.
    pub fn clone_message(&self) -> (m: OutgoingMessage)
        ensures
            m.deep_view() == self.deep_view(),
    {
        OutgoingMessage {
            chat_id: self.chat_id,
            text: clone_string(&self.text),
            html: self.html,
            keyboard: match &self.keyboard {
                Some(k) => Some(clone_keyboard(k)),
                None => None,
            },
        }
    }
}

} // verus!
