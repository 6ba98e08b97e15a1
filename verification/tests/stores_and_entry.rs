use sphinx_bot::auth_hub::{
    add_pending_request, apply_hub_op, get_pending_request, pending_groups, read_hub_request,
    read_query_id, remove_pending_request, HubCommand, HubOp, StorageWrite,
};
use sphinx_bot::client::reqwest::Executor;
use sphinx_bot::durable::{
    alarm_plan, no_target_reply, read_alarm_target, read_watch_request, scheduled_reply,
    WatchCommand,
};
use sphinx_bot::entry::{bot_token, monitored_groups, request_gate};
use sphinx_bot::members::{admission_plan, is_monitored, verify_user, watch_request, NewMember};
use sphinx_bot::model::{ButtonAction, Call, MemberInfo, OnError, Step};
use sphinx_bot::polling::{echo_reply, offset_after, poll_request};

fn pairs(list: &[(&str, &str)]) -> Vec<(String, String)> {
    list.iter().map(|(k, v)| (k.to_string(), v.to_string())).collect()
}

fn member(tag: Option<&str>) -> Option<MemberInfo> {
    Some(MemberInfo { status: Some("member".to_string()), tag: tag.map(String::from) })
}

#[test]
fn query_ids_come_from_the_first_matching_pair() {
    let p = pairs(&[("user_id", "5"), ("user_id", "6"), ("group_id", "x")]);
    assert_eq!(read_query_id(&p, "user_id"), 5);
    assert_eq!(read_query_id(&p, "group_id"), 0);
    assert_eq!(read_query_id(&p, "chat_id"), 0);
    let p = pairs(&[("user_id", "oops"), ("user_id", "6")]);
    assert_eq!(read_query_id(&p, "user_id"), 0);
}

#[test]
fn hub_requests_are_read_and_refused_as_the_hub_does() {
    let seg = |s: &str| Some(s.to_string());
    match read_hub_request(&pairs(&[("user_id", "5"), ("group_id", "-100")]), &seg("add_pending")) {
        HubCommand::Apply { key, op: HubOp::Add(-100) } => assert_eq!(key, "user_idx:5"),
        _ => panic!("expected an add"),
    }
    match read_hub_request(&pairs(&[("user_id", "5"), ("group_id", "-100")]), &seg("remove_pending")) {
        HubCommand::Apply { key, op: HubOp::Remove(-100) } => assert_eq!(key, "user_idx:5"),
        _ => panic!("expected a remove"),
    }
    match read_hub_request(&pairs(&[("user_id", "5")]), &seg("get_pending")) {
        HubCommand::Apply { key, op: HubOp::Get } => assert_eq!(key, "user_idx:5"),
        _ => panic!("expected a listing"),
    }
    match read_hub_request(&pairs(&[("group_id", "-100")]), &seg("add_pending")) {
        HubCommand::Reject { status: 400, message } => assert_eq!(message, "user_id required"),
        _ => panic!("expected a refusal"),
    }
    match read_hub_request(&pairs(&[("user_id", "5")]), &seg("add_pending")) {
        HubCommand::Reject { status: 400, message } => assert_eq!(message, "group_id required"),
        _ => panic!("expected a refusal"),
    }
    match read_hub_request(&pairs(&[("user_id", "5")]), &seg("drop_all")) {
        HubCommand::Reject { status: 404, message } => assert_eq!(message, "unknown action"),
        _ => panic!("expected a refusal"),
    }
    match read_hub_request(&pairs(&[("user_id", "5")]), &None) {
        HubCommand::Reject { status: 404, message } => assert_eq!(message, "unknown action"),
        _ => panic!("expected a refusal"),
    }
}

#[test]
fn hub_adds_without_duplicates() {
    match apply_hub_op(&HubOp::Add(-1), None) {
        (StorageWrite::Put(v), body) => { assert_eq!(v, vec![-1]); assert_eq!(body, "OK"); }
        _ => panic!("expected a write"),
    }
    match apply_hub_op(&HubOp::Add(-1), Some(vec![-2, -1])) {
        (StorageWrite::Put(v), _) => assert_eq!(v, vec![-2, -1]),
        _ => panic!("expected a write"),
    }
    match apply_hub_op(&HubOp::Add(-3), Some(vec![-2, -1])) {
        (StorageWrite::Put(v), _) => assert_eq!(v, vec![-2, -1, -3]),
        _ => panic!("expected a write"),
    }
}

#[test]
fn hub_removes_and_deletes_empty_lists() {
    match apply_hub_op(&HubOp::Remove(-1), Some(vec![-1, -2, -1])) {
        (StorageWrite::Put(v), body) => { assert_eq!(v, vec![-2]); assert_eq!(body, "OK"); }
        _ => panic!("expected a write"),
    }
    assert!(matches!(apply_hub_op(&HubOp::Remove(-1), Some(vec![-1])), (StorageWrite::Delete, _)));
    assert!(matches!(apply_hub_op(&HubOp::Remove(-1), None), (StorageWrite::Delete, _)));
}

#[test]
fn hub_lists_as_json_and_the_client_reads_it_back() {
    match apply_hub_op(&HubOp::Get, Some(vec![-100123, 42])) {
        (StorageWrite::Keep, body) => {
            assert_eq!(body, "[-100123,42]");
            assert_eq!(pending_groups(Some(&body)), vec![-100123, 42]);
        }
        _ => panic!("expected a listing"),
    }
    match apply_hub_op(&HubOp::Get, None) {
        (StorageWrite::Keep, body) => {
            assert_eq!(body, "[]");
            assert!(pending_groups(Some(&body)).is_empty());
        }
        _ => panic!("expected a listing"),
    }
}

#[test]
fn read_after_write_through_the_hub() {
    let stored = match apply_hub_op(&HubOp::Add(-7), Some(vec![-1])) {
        (StorageWrite::Put(v), _) => v,
        _ => panic!("expected a write"),
    };
    let (_, body) = apply_hub_op(&HubOp::Get, Some(stored.clone()));
    assert!(pending_groups(Some(&body)).contains(&-7));
    let stored = match apply_hub_op(&HubOp::Remove(-7), Some(stored)) {
        (StorageWrite::Put(v), _) => v,
        _ => panic!("expected a write"),
    };
    let (_, body) = apply_hub_op(&HubOp::Get, Some(stored));
    assert_eq!(pending_groups(Some(&body)), vec![-1]);
}

#[test]
fn unreadable_hub_replies_give_no_group() {
    assert!(pending_groups(Some("user_id required")).is_empty());
    assert!(pending_groups(Some("[1,")).is_empty());
    assert!(pending_groups(None).is_empty());
    assert_eq!(pending_groups(Some(" [ 3 , 4 ] ")), vec![3, 4]);
}

#[test]
fn hub_request_urls() {
    let r = add_pending_request(5, -100);
    assert_eq!((r.object_name.as_str(), r.url.as_str(), r.post), ("global", "https://do/add_pending?user_id=5&group_id=-100", true));
    let r = remove_pending_request(5, -100);
    assert_eq!((r.object_name.as_str(), r.url.as_str(), r.post), ("global", "https://do/remove_pending?user_id=5&group_id=-100", true));
    let r = get_pending_request(5);
    assert_eq!((r.object_name.as_str(), r.url.as_str(), r.post), ("global", "https://do/get_pending?user_id=5", false));
}

#[test]
fn watch_requests_and_alarms() {
    let r = watch_request(-100, 5, 77);
    assert_eq!(r.object_name, "watch_-100_5");
    assert_eq!(r.url, "https://do/schedule?chat_id=-100&user_id=5&msg_id=77");
    assert!(r.post);
    assert!(matches!(read_watch_request(&pairs(&[("chat_id", "-100"), ("user_id", "5"), ("msg_id", "77")])),
        WatchCommand::Schedule { chat_id: -100, user_id: 5, alarm_secs: 120 }));
    match read_watch_request(&pairs(&[("chat_id", "-100")])) {
        WatchCommand::Reject(r) => { assert_eq!(r.status, 400); assert_eq!(r.body, "chat_id and user_id required"); }
        _ => panic!("expected a refusal"),
    }
    assert_eq!(scheduled_reply().body, "Scheduled");
    assert_eq!(read_alarm_target(Some(-100), Some(5)), Some((-100, 5)));
    assert_eq!(read_alarm_target(None, Some(5)), None);
    assert_eq!(read_alarm_target(Some(-100), Some(0)), None);
    assert_eq!(no_target_reply().body, "No target");
}

#[test]
fn alarm_bans_members_still_suspended() {
    let (steps, reply) = alarm_plan(-100, 5, &member(Some("suspending")), 1_000_000);
    assert_eq!(reply.body, "Done");
    assert_eq!(steps.len(), 2);
    assert!(matches!(&steps[0], Step { call: Call::SetTag { chat_id: -100, user_id: 5, tag }, on_error: OnError::Ignore } if tag.is_empty()));
    assert!(matches!(&steps[1], Step { call: Call::Ban { chat_id: -100, user_id: 5, until: 605_800 }, on_error: OnError::Ignore }));
    let (steps, reply) = alarm_plan(-100, 5, &member(Some("")), 0);
    assert!(steps.is_empty());
    assert_eq!(reply.body, "Done");
    let (steps, reply) = alarm_plan(-100, 5, &None, 0);
    assert!(steps.is_empty());
    assert_eq!(reply.body, "Check failed");
}

#[test]
fn newcomers_are_suspended_and_welcomed() {
    let m = NewMember { id: Some(5), is_bot: Some(false), first_name: Some("Ann".into()), username: Some("ann".into()) };
    let (uid, steps) = admission_plan(-100, &m, "sphinxbot", 7_200_000).expect("admitted");
    assert_eq!(uid, 5);
    assert_eq!(steps.len(), 4);
    assert!(matches!(&steps[0], Step { call: Call::AddPending { user_id: 5, group_id: -100 }, on_error: OnError::Ignore }));
    assert!(matches!(&steps[1], Step { call: Call::Restrict { chat_id: -100, user_id: 5, allowed: false, expires: Some(10_800) }, on_error: OnError::Abort }));
    assert!(matches!(&steps[2], Step { call: Call::SetTag { chat_id: -100, user_id: 5, tag }, on_error: OnError::Abort } if tag == "suspending"));
    match &steps[3].call {
        Call::Send(msg) => {
            assert_eq!(msg.chat_id, -100);
            assert_eq!(msg.text, "👋 欢迎 @ann 加入群组！\n\n请点击下方按钮进行身份验证。\nWelcome! Please verify your identity.");
            let k = msg.keyboard.as_ref().unwrap();
            assert_eq!(k[0][0].label, "🔐 验证身份");
            assert!(matches!(&k[0][0].action, ButtonAction::Url(u) if u == "https://t.me/sphinxbot?start=verify_-100"));
        }
        _ => panic!("expected a welcome"),
    }
}

#[test]
fn newcomers_are_named_by_username_then_first_name() {
    let name_of = |m: NewMember| match admission_plan(-1, &m, "b", 0).unwrap().1[3].call {
        Call::Send(ref msg) => msg.text.clone(),
        _ => panic!("expected a welcome"),
    };
    assert!(name_of(NewMember { id: Some(1), is_bot: None, first_name: Some("Ann".into()), username: Some("".into()) }).starts_with("👋 欢迎 Ann 加入"));
    assert!(name_of(NewMember { id: Some(1), is_bot: None, first_name: None, username: None }).starts_with("👋 欢迎 User 加入"));
}

#[test]
fn bots_and_members_without_id_are_skipped() {
    assert!(admission_plan(-1, &NewMember { id: Some(1), is_bot: Some(true), first_name: None, username: None }, "b", 0).is_none());
    assert!(admission_plan(-1, &NewMember { id: None, is_bot: Some(false), first_name: None, username: None }, "b", 0).is_none());
}

#[test]
fn verification_lifts_restrictions_and_clears_the_tag() {
    let mut plan = Vec::new();
    verify_user(&mut plan, -100, 5);
    assert!(matches!(&plan[0], Step { call: Call::Restrict { chat_id: -100, user_id: 5, allowed: true, expires: None }, on_error: OnError::Abort }));
    assert!(matches!(&plan[1], Step { call: Call::SetTag { chat_id: -100, user_id: 5, tag }, on_error: OnError::Abort } if tag.is_empty()));
}

#[test]
fn monitored_groups_come_from_the_setting() {
    assert_eq!(monitored_groups(Some("-1001234567890,-1009876543210")), vec![-1001234567890, -1009876543210]);
    assert_eq!(monitored_groups(Some(" -100 , abc,, -200\n")), vec![-100, -200]);
    assert!(monitored_groups(Some("")).is_empty());
    assert!(monitored_groups(None).is_empty());
    let groups = monitored_groups(Some("-100,-200"));
    assert!(is_monitored(&groups, -200));
    assert!(!is_monitored(&groups, -300));
}

#[test]
fn gate_and_token() {
    assert_eq!(bot_token("  123:abc \n"), "123:abc");
    let r = request_gate(false, true, true).unwrap();
    assert_eq!((r.status, r.body.as_str()), (500, "TELEGRAM_BOT_TOKEN missing"));
    let r = request_gate(true, false, true).unwrap();
    assert_eq!((r.status, r.body.as_str()), (500, "BOT_USERNAME missing"));
    let r = request_gate(true, true, false).unwrap();
    assert_eq!((r.status, r.body.as_str()), (200, "Sphinx bot worker is running"));
    assert!(request_gate(true, true, true).is_none());
}

#[test]
fn polling_asks_for_the_next_updates_and_echoes() {
    let r = poll_request(None);
    assert_eq!((r.offset, r.limit, r.timeout), (None, Some(10), Some(10)));
    assert_eq!(poll_request(Some(8)).offset, Some(8));
    assert_eq!(offset_after(41), Some(42));
    let m = echo_reply(3, "hi");
    assert_eq!((m.chat_id, m.text.as_str(), m.html, m.keyboard.is_none()), (3, "Echo: hi", false, true));
}

#[test]
fn executor_builds() {
    let _executor = Executor::new();
}

#[test]
fn hub_storage_keeps_its_invariant_over_a_session() {
    let mut store: std::collections::HashMap<String, Vec<i64>> = std::collections::HashMap::new();
    let requests: Vec<(Vec<(String, String)>, Option<String>)> = vec![
        (pairs(&[("user_id", "5"), ("group_id", "-1")]), Some("add_pending".into())),
        (pairs(&[("user_id", "5"), ("group_id", "-1")]), Some("add_pending".into())),
        (pairs(&[("user_id", "5"), ("group_id", "0")]), Some("add_pending".into())),
        (pairs(&[("user_id", "0"), ("group_id", "-2")]), Some("add_pending".into())),
        (pairs(&[("user_id", "6"), ("group_id", "-2")]), Some("add_pending".into())),
        (pairs(&[("user_id", "5"), ("group_id", "-3")]), Some("add_pending".into())),
        (pairs(&[("user_id", "6"), ("group_id", "-2")]), Some("remove_pending".into())),
        (pairs(&[("user_id", "5")]), Some("get_pending".into())),
    ];
    for (p, seg) in requests {
        if let HubCommand::Apply { key, op } = read_hub_request(&p, &seg) {
            let stored = store.get(&key).cloned();
            match apply_hub_op(&op, stored).0 {
                StorageWrite::Keep => {}
                StorageWrite::Put(v) => { store.insert(key, v); }
                StorageWrite::Delete => { store.remove(&key); }
            }
        }
    }
    assert_eq!(store.len(), 1);
    assert_eq!(store.get("user_idx:5"), Some(&vec![-1, -3]));
    for (k, v) in &store {
        assert!(k.starts_with("user_idx:") && k != "user_idx:0");
        assert!(!v.is_empty() && !v.contains(&0));
    }
}
