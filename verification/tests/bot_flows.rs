use sphinx_bot::callbacks::{callback_action_for, unban_callback_plan, CallbackAction};
use sphinx_bot::commands::{
    chat_id_reply, moderate, moderation_target, parse_command, start_deep_link_plan,
    start_pending_plan, status_plan, text_action_for, unban_command_plan, verify_pending_plan,
    Command, TextAction,
};
use sphinx_bot::links::{
    make_answer_data, make_deep_link_param, make_unban_data, make_verify_link, read_callback,
    read_deep_link, CallbackRequest,
};
use sphinx_bot::model::{
    after_call, ButtonAction, Call, CallOutcome, MemberInfo, Next, OnError, Step,
};
use sphinx_bot::questions::{is_correct, pick_question, Question};

fn describe_call(c: &Call) -> String {
    match c {
        Call::Send(m) => {
            let mut s = format!("send {} html={} {:?}", m.chat_id, m.html, m.text);
            if let Some(k) = &m.keyboard {
                for row in k {
                    s.push_str(" |");
                    for b in row {
                        match &b.action {
                            ButtonAction::Url(u) => s.push_str(&format!(" [{} -> {}]", b.label, u)),
                            ButtonAction::Callback(d) => {
                                s.push_str(&format!(" [{} => {}]", b.label, d))
                            }
                        }
                    }
                }
            }
            s
        }
        Call::AnswerCallback { query_id, text, alert } => {
            format!("answer {} {:?} alert={}", query_id, text, alert)
        }
        Call::Restrict { chat_id, user_id, allowed, expires } => {
            format!("restrict {} {} allowed={} {:?}", chat_id, user_id, allowed, expires)
        }
        Call::SetTag { chat_id, user_id, tag } => format!("tag {} {} {:?}", chat_id, user_id, tag),
        Call::Ban { chat_id, user_id, until } => format!("ban {} {} {}", chat_id, user_id, until),
        Call::Unban { chat_id, user_id } => format!("unban {} {}", chat_id, user_id),
        Call::DeleteMessage { chat_id, message_id } => format!("delete {} {}", chat_id, message_id),
        Call::AddPending { user_id, group_id } => format!("add-pending {} {}", user_id, group_id),
        Call::RemovePending { user_id, group_id } => {
            format!("remove-pending {} {}", user_id, group_id)
        }
    }
}

fn describe(plan: &[Step]) -> Vec<String> {
    plan.iter()
        .map(|s| {
            let policy = match &s.on_error {
                OnError::Abort => "abort".to_string(),
                OnError::Ignore => "ignore".to_string(),
                OnError::Fallback(c) => format!("fallback({})", describe_call(c)),
            };
            format!("{} / {}", describe_call(&s.call), policy)
        })
        .collect()
}

fn member(status: Option<&str>, tag: Option<&str>) -> Option<MemberInfo> {
    Some(MemberInfo { status: status.map(String::from), tag: tag.map(String::from) })
}

fn questions() -> Vec<Question> {
    vec![
        Question {
            text: "What is the capital of France?".to_string(),
            options: vec!["London".into(), "Paris".into(), "Berlin".into(), "Madrid".into()],
            correct: vec![1],
        },
        Question {
            text: "Which are programming languages?".to_string(),
            options: vec!["Python".into(), "HTML".into(), "Rust".into()],
            correct: vec![0, 2],
        },
    ]
}

#[test]
fn links_and_callback_data_are_written_exactly() {
    assert_eq!(make_verify_link("sphinxbot", -100123), "https://t.me/sphinxbot?start=verify_-100123");
    assert_eq!(make_deep_link_param(-5), "verify_-5");
    assert_eq!(make_answer_data(-100, 2, 3), "answer:-100:2:3");
    assert_eq!(make_unban_data(-100, 42), "unban:-100:42");
}

#[test]
fn callback_data_reads_back() {
    assert!(matches!(read_callback(&make_answer_data(-100, 2, 3)),
        Some(CallbackRequest::Answer { group_id: -100, question: 2, option: 3 })));
    assert!(matches!(read_callback(&make_unban_data(-100, 42)),
        Some(CallbackRequest::Unban { group_id: -100, target_id: 42 })));
    assert!(matches!(read_callback("verify:-5"), Some(CallbackRequest::Verify { group_id: -5 })));
    assert!(matches!(read_callback("verify:-5:extra"), Some(CallbackRequest::Verify { group_id: -5 })));
    assert!(read_callback("answer:1:2").is_none());
    assert!(read_callback("answer:1:x:2").is_none());
    assert!(read_callback("answer:1:2:3:4").is_none());
    assert!(read_callback("unban:1:2:3").is_none());
    assert!(read_callback("unban:x:2").is_none());
    assert!(read_callback("verify").is_none());
    assert!(read_callback("verify:abc").is_none());
    assert!(read_callback("other:1").is_none());
}

#[test]
fn deep_links_read_back() {
    assert_eq!(read_deep_link("verify_-100"), Some(-100));
    assert_eq!(read_deep_link(&make_deep_link_param(i64::MIN)), Some(i64::MIN));
    assert_eq!(read_deep_link("verify_abc"), None);
    assert_eq!(read_deep_link("xverify_1"), None);
    assert_eq!(read_deep_link("verify_"), None);
}

#[test]
fn commands_are_read_from_the_first_word() {
    assert!(parse_command("hello /start").is_none());
    assert!(parse_command("").is_none());
    assert!(matches!(parse_command("/help"), Some(Command::Help)));
    assert!(matches!(parse_command("/verify now"), Some(Command::Verify)));
    assert!(matches!(parse_command("/chatid"), Some(Command::ChatId)));
    assert!(matches!(parse_command("/status"), Some(Command::Status)));
    match parse_command("/start   verify_-1001 extra") {
        Some(Command::Start(Some(p))) => assert_eq!(p, "verify_-1001"),
        _ => panic!("expected /start with payload"),
    }
    assert!(matches!(parse_command("/start"), Some(Command::Start(None))));
    match parse_command("/unban 77") {
        Some(Command::Unban(Some(t))) => assert_eq!(t, "77"),
        _ => panic!("expected /unban with target"),
    }
    match parse_command("/Help") {
        Some(Command::Unknown(w)) => assert_eq!(w, "/Help"),
        _ => panic!("expected unknown command"),
    }
}

#[test]
fn text_actions_follow_the_commands() {
    match text_action_for(-100, "just chatting", Some(5)) {
        TextAction::Run(p) => assert_eq!(describe(&p), vec![format!("send -100 html=false {:?} / abort",
            "Echo: just chatting")]),
        _ => panic!("expected an echo"),
    }
    assert!(matches!(text_action_for(5, "/start verify_-100", Some(5)),
        TextAction::StartDeepLink { group_id: -100 }));
    assert!(matches!(text_action_for(5, "/start hello", Some(5)), TextAction::StartPending));
    assert!(matches!(text_action_for(5, "/start", Some(5)), TextAction::StartPending));
    assert!(matches!(text_action_for(5, "/verify", Some(5)), TextAction::VerifyPending));
    assert!(matches!(text_action_for(5, "/status", Some(5)), TextAction::StatusPending));
    match text_action_for(5, "/help", Some(5)) {
        TextAction::Run(p) => assert_eq!(describe(&p), vec![format!("send 5 html=false {:?} / abort",
            "🤖 Sphinx Bot\n\n组内验证流程：\n• 加入群组后，点击验证按钮\n• 私聊 bot 输入 /verify 完成验证\n\n命令：\n/start — 开始\n/help — 帮助\n/chatid — 获取当前群组 ID\n/status — 查看验证状态")]),
        _ => panic!("expected a plan"),
    }
    match text_action_for(-100, "/foo bar", Some(5)) {
        TextAction::Run(p) => assert_eq!(describe(&p), vec![format!("send -100 html=false {:?} / abort",
            "未知命令：/foo\n发送 /help 查看可用命令")]),
        _ => panic!("expected a plan"),
    }
    match text_action_for(5, "/unban 7", Some(5)) {
        TextAction::Run(p) => assert_eq!(describe(&p), vec![format!("send 5 html=false {:?} / abort",
            "❌ 请在群组内使用此命令。")]),
        _ => panic!("expected a plan"),
    }
    assert!(matches!(text_action_for(-100, "/unban 7", None), TextAction::Nothing));
    match text_action_for(-100, "/unban 7", Some(9)) {
        TextAction::UnbanCheck { sender_id: 9, target: Some(t) } => assert_eq!(t, "7"),
        _ => panic!("expected an unban check"),
    }
}

#[test]
fn chat_id_reply_distinguishes_groups() {
    assert_eq!(chat_id_reply(-100123), "📋 当前群组 ID：-100123\n\n提示：该 ID 可用于 MONITORED_GROUPS 配置。");
    assert_eq!(chat_id_reply(42), "📋 当前会话 ID：42");
    assert_eq!(chat_id_reply(0), "📋 当前会话 ID：0");
}

#[test]
fn suspended_senders_are_removed() {
    assert_eq!(moderation_target(&vec![-100, -200], -200, Some(7)), Some(7));
    assert_eq!(moderation_target(&vec![-100], -200, Some(7)), None);
    assert_eq!(moderation_target(&vec![-100], -100, None), None);
    let plan = moderate(-100, 55, 7, &member(Some("restricted"), Some("suspending")), 1_700_000_000_123)
        .expect("a suspended sender is removed");
    assert_eq!(describe(&plan), vec![
        "delete -100 55 / abort".to_string(),
        format!("ban -100 7 {} / abort", 1_700_000_000u64 + 604_800),
    ]);
    assert!(moderate(-100, 55, 7, &member(Some("member"), Some("")), 0).is_none());
    assert!(moderate(-100, 55, 7, &member(Some("member"), None), 0).is_none());
    assert!(moderate(-100, 55, 7, &None, 0).is_none());
}

#[test]
fn deep_link_start_for_someone_not_in_the_group() {
    let qs = questions();
    for m in [None, member(Some("left"), Some("suspending")), member(Some("kicked"), None)] {
        let plan = start_deep_link_plan(5, -100, &m, &qs, 0);
        assert_eq!(describe(&plan), vec![format!("send 5 html=false {:?} / abort",
            "⏳ 没有待处理的验证请求。\n\n请先加入群组，然后重新点击验证按钮。")]);
    }
}

#[test]
fn deep_link_start_for_a_verified_member() {
    let plan = start_deep_link_plan(5, -100, &member(Some("member"), None), &questions(), 0);
    assert_eq!(describe(&plan), vec![format!("send 5 html=false {:?} / abort",
        "✅ 你已完成验证或无需验证。\n\nYou do not need verification or have already been verified.")]);
}

#[test]
fn deep_link_start_asks_the_picked_question() {
    // (5 + 7) % 2 == 0: the first question.
    let plan = start_deep_link_plan(5, -100, &member(Some("restricted"), Some("suspending")), &questions(), 7);
    assert_eq!(describe(&plan), vec![format!(
        "send 5 html=false {:?} | [London => answer:-100:0:0] | [Paris => answer:-100:0:1] | [Berlin => answer:-100:0:2] | [Madrid => answer:-100:0:3] / abort",
        "请回答以下问题以完成验证：\n\nWhat is the capital of France?\n\nPlease answer to complete verification:")]);
    let plan = start_deep_link_plan(5, -100, &member(Some("restricted"), Some("suspending")), &questions(), 8);
    assert!(describe(&plan)[0].contains("[Rust => answer:-100:1:2]"));
}

#[test]
fn deep_link_start_without_questions_verifies_at_once() {
    let plan = start_deep_link_plan(5, -100, &member(None, Some("suspending")), &[], 0);
    assert_eq!(describe(&plan), vec![
        "restrict -100 5 allowed=true None / abort".to_string(),
        "tag -100 5 \"\" / abort".to_string(),
        format!("send 5 html=false {:?} / abort",
            "✅ 验证成功！你已在群组中完成身份验证。\n\nVerification successful! You are now verified in the group."),
    ]);
}

#[test]
fn pending_lists_offer_verification_links() {
    assert_eq!(describe(&start_pending_plan(5, &vec![], "bot")), vec![format!("send 5 html=false {:?} / abort",
        "👋 你好！我是 Sphinx Bot。\n\n如果你刚刚加入了某个受监控的群组，请点击群组内的验证按钮，然后在此私聊中完成验证。\n\n发送 /help 查看帮助。")]);
    assert_eq!(describe(&start_pending_plan(5, &vec![-1, -2], "bot")), vec![format!(
        "send 5 html=false {:?} | [✅ 验证群组 -1 -> https://t.me/bot?start=verify_-1] | [✅ 验证群组 -2 -> https://t.me/bot?start=verify_-2] / abort",
        "👋 你好！检测到你有待验证的请求，请选择要验证的群组：")]);
    assert_eq!(describe(&verify_pending_plan(5, &vec![], "bot")), vec![format!("send 5 html=false {:?} / abort",
        "📭 没有待处理的验证请求。\n\n如果你刚加入群组，请点击群组内的验证按钮。")]);
    assert_eq!(describe(&verify_pending_plan(5, &vec![-7], "bot")), vec![format!(
        "send 5 html=false {:?} | [✅ 去验证群组 -7 -> https://t.me/bot?start=verify_-7] / abort",
        "你有待处理的验证请求，请点击下方按钮进行验证：")]);
}

#[test]
fn status_lists_pending_groups_one_per_line() {
    assert_eq!(describe(&status_plan(5, &vec![])), vec![format!("send 5 html=false {:?} / abort",
        "📭 没有相关验证记录。")]);
    assert_eq!(describe(&status_plan(5, &vec![-1, -2])), vec![format!("send 5 html=false {:?} / abort",
        "📋 你的验证状态：\n  • 群组 -1 → ⏳ 待验证\n  • 群组 -2 → ⏳ 待验证")]);
}

#[test]
fn unban_command_needs_an_admin_and_an_id() {
    let admin = member(Some("administrator"), None);
    assert_eq!(describe(&unban_command_plan(-100, &member(Some("member"), None), &Some("7".into()))),
        vec![format!("send -100 html=false {:?} / abort", "❌ 只有管理员可以使用此命令。")]);
    assert_eq!(describe(&unban_command_plan(-100, &None, &Some("7".into()))),
        vec![format!("send -100 html=false {:?} / abort", "❌ 只有管理员可以使用此命令。")]);
    assert_eq!(describe(&unban_command_plan(-100, &member(Some("creator"), None), &Some("7".into()))), vec![
        "unban -100 7 / abort".to_string(),
        format!("send -100 html=false {:?} / abort", "✅ 已解除对用户 7 的封禁。他们现在可以重新加入群组。"),
    ]);
    assert_eq!(describe(&unban_command_plan(-100, &admin, &Some("seven".into()))),
        vec![format!("send -100 html=false {:?} / abort", "⚠️ 请提供要解封的用户 ID，例如：/unban 123456789")]);
    assert_eq!(describe(&unban_command_plan(-100, &admin, &None)),
        vec![format!("send -100 html=false {:?} / abort", "⚠️ 请提供要解封的用户 ID，例如：/unban 123456789")]);
}

#[test]
fn correct_answer_verifies() {
    let qs = questions();
    match callback_action_for("q1", 5, &Some(make_answer_data(-100, 0, 1)), &qs, "bot", 0) {
        CallbackAction::Run(p) => assert_eq!(describe(&p), vec![
            "restrict -100 5 allowed=true None / abort".to_string(),
            "tag -100 5 \"\" / abort".to_string(),
            "remove-pending 5 -100 / ignore".to_string(),
            format!("answer q1 {:?} alert=true / abort", "✅ 回答正确！验证成功！"),
            format!("send 5 html=false {:?} / abort",
                "✅ 回答正确！你的限制已被解除，欢迎加入群组！\n\nCorrect answer! You are now verified and unrestricted."),
        ]),
        _ => panic!("expected a plan"),
    }
}

#[test]
fn wrong_answer_bans_for_a_week() {
    let qs = questions();
    match callback_action_for("q1", 5, &Some("answer:-100:0:2".into()), &qs, "bot", 10_999) {
        CallbackAction::Run(p) => assert_eq!(describe(&p), vec![
            "ban -100 5 604810 / abort".to_string(),
            format!("answer q1 {:?} alert=true / abort", "❌ 回答错误，你已被移出群组，一周后可重新验证。"),
            format!("send 5 html=false {:?} / abort",
                "回答错误，你已被移出群组，一周后可重新加入验证。\n\nWrong answer. You were removed from the group. You can rejoin and retry in one week."),
            format!("send -100 html=true {:?} | [🔓 解封用户 5 => unban:-100:5] / abort",
                "❌ 用户 <a href=\"tg://user?id=5\">5</a> 验证回答错误，已被移出群组并封禁一周。"),
        ]),
        _ => panic!("expected a plan"),
    }
}

#[test]
fn answers_to_unknown_questions_and_odd_data_are_ignored() {
    let qs = questions();
    assert!(matches!(callback_action_for("q", 5, &Some("answer:-100:9:0".into()), &qs, "bot", 0), CallbackAction::Nothing));
    assert!(matches!(callback_action_for("q", 5, &None, &qs, "bot", 0), CallbackAction::Nothing));
    assert!(matches!(callback_action_for("q", 5, &Some("hello".into()), &qs, "bot", 0), CallbackAction::Nothing));
    assert!(matches!(callback_action_for("q", 5, &Some("unban:-100:7".into()), &qs, "bot", 0),
        CallbackAction::UnbanCheck { group_id: -100, user_id: 5, target_id: 7 }));
}

#[test]
fn verify_button_prompts_in_private() {
    match callback_action_for("q9", 5, &Some("verify:-100".into()), &questions(), "sphinxbot", 0) {
        CallbackAction::Run(p) => assert_eq!(describe(&p), vec![
            format!("answer q9 {:?} alert=false / abort", "📩 请查看私聊消息完成验证..."),
            format!("send 5 html=false {:?} | [✅ 点击验证身份 -> https://t.me/sphinxbot?start=verify_-100] / fallback(answer q9 {:?} alert=true)",
                "👋 你好！\n\n请点击下方按钮完成在群组中的身份验证。\n\nPlease click the button below to verify your identity.",
                "⚠️ 请先私聊 @sphinxbot 发送 /start，然后重新点击验证按钮。"),
        ]),
        _ => panic!("expected a plan"),
    }
}

#[test]
fn unban_button_needs_an_admin() {
    assert_eq!(describe(&unban_callback_plan("q", -100, 7, &member(Some("member"), None))),
        vec![format!("answer q {:?} alert=true / abort", "❌ 只有管理员可以执行此操作。")]);
    assert_eq!(describe(&unban_callback_plan("q", -100, 7, &member(Some("administrator"), None))), vec![
        "unban -100 7 / abort".to_string(),
        format!("answer q {:?} alert=true / abort", "✅ 已解除对用户 7 的封禁。"),
        format!("send -100 html=true {:?} / abort", "✅ 管理员已解除对用户 <a href=\"tg://user?id=7\">7</a> 的封禁。"),
    ]);
}

#[test]
fn failures_follow_the_step_policy() {
    let abort = Step { call: Call::Unban { chat_id: 1, user_id: 2 }, on_error: OnError::Abort };
    let ignore = Step { call: Call::Unban { chat_id: 1, user_id: 2 }, on_error: OnError::Ignore };
    let fallback = Step {
        call: Call::Unban { chat_id: 1, user_id: 2 },
        on_error: OnError::Fallback(Call::DeleteMessage { chat_id: 3, message_id: 4 }),
    };
    assert!(matches!(after_call(&abort, &CallOutcome::Succeeded), Next::Continue));
    assert!(matches!(after_call(&abort, &CallOutcome::Failed { forbidden: true }), Next::Stop));
    assert!(matches!(after_call(&ignore, &CallOutcome::Failed { forbidden: false }), Next::Continue));
    assert!(matches!(after_call(&fallback, &CallOutcome::Failed { forbidden: false }), Next::Continue));
    assert!(matches!(after_call(&fallback, &CallOutcome::Failed { forbidden: true }),
        Next::Perform(Call::DeleteMessage { chat_id: 3, message_id: 4 })));
    assert!(matches!(after_call(&fallback, &CallOutcome::Succeeded), Next::Continue));
}

#[test]
fn questions_are_picked_by_id_and_time() {
    let qs = questions();
    assert!(pick_question(&[], 5, 7).is_none());
    assert_eq!(pick_question(&qs, 5, 7).map(|(i, _)| i), Some(0));
    assert_eq!(pick_question(&qs, 5, 8).map(|(i, q)| (i, q.text.clone())), Some((1, "Which are programming languages?".to_string())));
    let expected = ((-3i64) as usize).wrapping_add(10u64 as usize) % 2;
    assert_eq!(pick_question(&qs, -3, 10).map(|(i, _)| i), Some(expected));
    assert!(is_correct(&qs[1], 2));
    assert!(!is_correct(&qs[1], 1));
}

#[test]
fn verification_links_lead_back_to_their_group() {
    for g in [-1001234567890i64, -1, 0, 42] {
        let link = make_verify_link("sphinxbot", g);
        let param = link.split("?start=").nth(1).unwrap().to_string();
        assert_eq!(param, make_deep_link_param(g));
        let text = format!("/start {}", param);
        assert!(matches!(text_action_for(7, &text, Some(7)), TextAction::StartDeepLink { group_id } if group_id == g));
    }
}

#[test]
fn every_answer_button_decides_by_its_option() {
    let qs = questions();
    let plan = start_deep_link_plan(5, -100, &member(Some("restricted"), Some("suspending")), &qs, 7);
    let keyboard = match &plan[0].call {
        Call::Send(m) => m.keyboard.as_ref().unwrap(),
        _ => panic!("expected a question"),
    };
    for (i, row) in keyboard.iter().enumerate() {
        let data = match &row[0].action {
            ButtonAction::Callback(d) => d.clone(),
            _ => panic!("expected callback data"),
        };
        match callback_action_for("q", 5, &Some(data), &qs, "bot", 0) {
            CallbackAction::Run(p) => {
                let first = describe(&p)[0].clone();
                if qs[0].correct.contains(&i) {
                    assert_eq!(first, "restrict -100 5 allowed=true None / abort");
                } else {
                    assert_eq!(first, "ban -100 5 604800 / abort");
                }
            }
            _ => panic!("expected a plan"),
        }
    }
}

#[test]
fn plain_text_is_echoed_and_commands_are_not() {
    for text in ["hello", " /start", "", "你好"] {
        match text_action_for(42, text, Some(42)) {
            TextAction::Run(p) => assert_eq!(describe(&p), vec![format!("send 42 html=false {:?} / abort",
                format!("Echo: {}", text))]),
            _ => panic!("expected an echo"),
        }
    }
    assert!(matches!(text_action_for(42, "/status", Some(42)), TextAction::StatusPending));
}
