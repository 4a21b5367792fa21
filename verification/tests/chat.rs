use lumichat::account::{Role, User};
use lumichat::archive::{archive_filter, archive_page, cleanup_step, CleanupAction, CleanupEvent, CleanupTally, ContentKind, Scope};
use lumichat::chat::Audience;
use lumichat::chat::{
    authorize_delete, authorize_edit, compose_message, edited_body, general_channel, history_before,
    history_pattern, new_channel, oldest_first, plan_upload, search_pattern, MessageRecord,
};
use lumichat::live::{event_visible, relay_to, signal_target, socket_step, EventFields, SocketAction, SocketEvent};
use lumichat::contacts::PairState;
use lumichat::ErrorStatus;

fn user(id: i64, role: Role) -> User {
    User { id, username: format!("u{id}"), display_name: format!("U{id}"), role, active: true }
}

fn message_of<T>(r: Result<T, lumichat::ApiError>) -> String {
    match r {
        Ok(_) => panic!("expected a refusal"),
        Err(e) => e.error,
    }
}

#[test]
fn channel_names() {
    let c = new_channel("  Random ", Some("  chat about anything  ")).unwrap();
    assert_eq!(c.name, "random");
    assert_eq!(c.description, "chat about anything");
    assert_eq!(new_channel("x", None).unwrap().description, "");
    assert_eq!(message_of(new_channel("   ", None)), "频道名称需为 1–32 个字符");
    assert!(new_channel(&"a".repeat(32), None).is_ok());
    assert!(new_channel(&"a".repeat(33), None).is_err());
    // 32 bytes is the limit, not 32 characters.
    assert!(new_channel(&"频".repeat(10), None).is_ok());
    assert!(new_channel(&"频".repeat(11), None).is_err());
    let long = "d".repeat(200);
    assert_eq!(new_channel("x", Some(&long)).unwrap().description.len(), 120);
}

#[test]
fn the_general_channel() {
    let c = general_channel();
    assert_eq!(c.name, "general");
    assert_eq!(c.description, "欢迎来到 LumiChat");
}

#[test]
fn composing_messages() {
    let m = compose_message("  hello  ", None).unwrap();
    assert_eq!(m.body, "hello");
    assert_eq!(m.file_url, None);
    assert_eq!(message_of(compose_message("   ", None)), "消息不能为空");
    let m = compose_message("  ", Some("/uploads/a.png".to_string())).unwrap();
    assert_eq!(m.body, "");
    assert_eq!(m.file_url.as_deref(), Some("/uploads/a.png"));
    let m = compose_message(&"z".repeat(5000), None).unwrap();
    assert_eq!(m.body.chars().count(), 4000);
}

#[test]
fn editing_bodies() {
    assert_eq!(edited_body(" new text ").unwrap(), "new text");
    assert_eq!(message_of(edited_body(" ")), "消息不能为空");
}

#[test]
fn edit_permissions() {
    let rec = MessageRecord { sender_id: 1, channel_id: Some(9), recipient_id: None };
    assert_eq!(authorize_edit(&user(1, Role::Member), Some(rec)).unwrap(), rec);
    assert_eq!(message_of(authorize_edit(&user(2, Role::Admin), Some(rec))), "只能编辑自己的消息");
    assert_eq!(message_of(authorize_edit(&user(1, Role::Member), None)), "消息不存在");
}

#[test]
fn delete_permissions() {
    let rec = MessageRecord { sender_id: 1, channel_id: None, recipient_id: Some(2) };
    assert!(authorize_delete(&user(1, Role::Member), Some(rec)).is_ok());
    assert!(authorize_delete(&user(3, Role::Admin), Some(rec)).is_ok());
    assert_eq!(message_of(authorize_delete(&user(2, Role::Member), Some(rec))), "没有权限删除这条消息");
    assert_eq!(message_of(authorize_delete(&user(1, Role::Member), None)), "消息不存在");
}

#[test]
fn history_parameters() {
    assert_eq!(history_before(None), i64::MAX);
    assert_eq!(history_before(Some(42)), 42);
    assert_eq!(history_pattern(None), "%%");
    assert_eq!(history_pattern(Some("hi")), "%hi%");
}

#[test]
fn search_patterns() {
    assert_eq!(search_pattern("  ab ").unwrap(), "%ab%");
    assert_eq!(message_of(search_pattern(" a ")), "至少输入 2 个字符");
    // A single CJK character is three bytes, which is enough.
    assert_eq!(search_pattern("中").unwrap(), "%中%");
}

#[test]
fn reading_order() {
    assert_eq!(oldest_first(vec![3, 2, 1]), vec![1, 2, 3]);
    assert_eq!(oldest_first(Vec::<i32>::new()), Vec::<i32>::new());
}

#[test]
fn upload_names() {
    let u = plan_upload(Some("../etc/passwd"));
    assert_eq!(u.original, "../etc/passwd");
    assert_eq!(u.prefix.len(), 12);
    assert_eq!(u.stored_name, format!("{}-.._etc_passwd", u.prefix));
    assert_eq!(u.url, format!("/uploads/{}", u.stored_name));
    assert!(!u.stored_name.contains('/'));
    let u = plan_upload(None);
    assert_eq!(u.original, "file");
    assert!(u.stored_name.ends_with("-file"));
    let u = plan_upload(Some("图片 1.png"));
    assert!(u.stored_name.ends_with("-___1.png"));
    let long = "n".repeat(150);
    let u = plan_upload(Some(&long));
    assert_eq!(u.stored_name.len(), 12 + 1 + 100);
}

#[test]
fn archive_filters() {
    let admin = user(1, Role::Admin);
    let f = archive_filter(&admin, None, None, None).unwrap();
    assert_eq!((f.scope, f.kind), (Scope::All, ContentKind::All));
    assert_eq!(f.q, "");
    assert_eq!(f.pattern, "%%");
    let f = archive_filter(&admin, Some("  hi "), Some("dm"), Some("images")).unwrap();
    assert_eq!((f.q.as_str(), f.pattern.as_str()), ("hi", "%hi%"));
    assert_eq!((f.scope, f.kind), (Scope::Dm, ContentKind::Images));
    assert_eq!(f.scope.as_str(), "dm");
    assert_eq!(f.kind.as_str(), "images");
    assert_eq!(message_of(archive_filter(&admin, None, Some("group"), None)), "无效记录类型");
    assert_eq!(message_of(archive_filter(&admin, None, None, Some("videos"))), "无效内容类型");
    let e = archive_filter(&user(2, Role::Member), None, Some("group"), None).unwrap_err();
    assert_eq!(e.status, ErrorStatus::NotFound);
    let long = "q".repeat(150);
    assert_eq!(archive_filter(&admin, Some(&long), None, None).unwrap().q.len(), 100);
}

#[test]
fn archive_paging() {
    let p = archive_page(ContentKind::All, 0, None, None);
    assert_eq!((p.page, p.page_size, p.total_pages, p.offset), (1, 50, 1, 0));
    let p = archive_page(ContentKind::All, 120, Some(5), None);
    assert_eq!((p.page, p.total_pages, p.offset), (3, 3, 100));
    let p = archive_page(ContentKind::All, 100, Some(-4), None);
    assert_eq!((p.page, p.total_pages, p.offset), (1, 2, 0));
    let p = archive_page(ContentKind::Images, 61, Some(2), None);
    assert_eq!((p.page, p.page_size, p.total_pages, p.offset), (2, 30, 3, 30));
}

#[test]
fn archive_focus() {
    // 75 newer messages: the focused one is the 76th, on page 2 of 50.
    let p = archive_page(ContentKind::All, 200, Some(1), Some(75));
    assert_eq!((p.page, p.offset), (2, 50));
    assert!(p.offset <= 75 && 75 < p.offset + p.page_size);
    // A focus beyond the end stays on the last page.
    let p = archive_page(ContentKind::All, 10, None, Some(500));
    assert_eq!(p.page, 1);
}

#[test]
fn clearing_uploads() {
    let t = CleanupTally::new();
    let (t, a) = cleanup_step(t, CleanupEvent::FileFound);
    assert_eq!(a, CleanupAction::Remove);
    let (t, a) = cleanup_step(t, CleanupEvent::Removed);
    assert_eq!(a, CleanupAction::Continue);
    let (t, _) = cleanup_step(t, CleanupEvent::OtherFound);
    let (t, _) = cleanup_step(t, CleanupEvent::TypeUnreadable);
    let (t, _) = cleanup_step(t, CleanupEvent::RemoveFailed);
    assert_eq!((t.deleted_files, t.failed_files), (1, 2));
    let (t2, a) = cleanup_step(t, CleanupEvent::ListingEnded);
    assert_eq!((a, t2), (CleanupAction::Stop, t));
    let (t3, a) = cleanup_step(t, CleanupEvent::ListingFailed);
    assert_eq!(a, CleanupAction::Stop);
    assert_eq!(t3.failed_files, 3);
}

fn event(kind: &str) -> EventFields {
    EventFields {
        event_type: kind.to_string(),
        to_user_id: None,
        from_id: None,
        scope: None,
        recipient_id: None,
        message_sender_id: None,
    }
}

#[test]
fn event_visibility() {
    assert!(event_visible(&None, 5));
    let mut dm = event("message");
    dm.scope = Some("dm".into());
    dm.recipient_id = Some(2);
    dm.message_sender_id = Some(1);
    assert!(event_visible(&Some(dm), 1));
    let mut dm = event("message");
    dm.scope = Some("dm".into());
    dm.recipient_id = Some(2);
    dm.message_sender_id = Some(1);
    assert!(event_visible(&Some(dm), 2));
    let mut dm = event("message");
    dm.scope = Some("dm".into());
    dm.recipient_id = Some(2);
    dm.message_sender_id = Some(1);
    assert!(!event_visible(&Some(dm), 3));
    let mut ch = event("message");
    ch.scope = Some("channel".into());
    assert!(event_visible(&Some(ch), 3));
    assert!(event_visible(&Some(event("channel_created")), 3));
    let mut call = event("call_offer");
    call.to_user_id = Some(2);
    call.from_id = Some(1);
    assert!(event_visible(&Some(call), 2));
    let mut call = event("ice_candidate");
    call.to_user_id = Some(2);
    call.from_id = Some(1);
    assert!(!event_visible(&Some(call), 3));
}

#[test]
fn signal_routing() {
    let mut s = event("call_offer");
    s.to_user_id = Some(2);
    assert_eq!(signal_target(100, &Some(s), 1), Some(2));
    let mut s = event("call_offer");
    s.to_user_id = Some(2);
    assert_eq!(signal_target(70_000, &Some(s), 1), None);
    let mut s = event("call_offer");
    s.to_user_id = Some(1);
    assert_eq!(signal_target(100, &Some(s), 1), None);
    let mut s = event("message");
    s.to_user_id = Some(2);
    assert_eq!(signal_target(100, &Some(s), 1), None);
    assert_eq!(signal_target(100, &Some(event("call_end")), 1), None);
    assert_eq!(signal_target(100, &None, 1), None);
    let friends = PairState { friends: true, request_sent: false, request_received: false, blocked_by_me: false, blocked_by_them: false };
    assert!(relay_to(Some(1), &friends));
    assert!(!relay_to(Some(0), &friends));
    assert!(!relay_to(None, &friends));
    let strangers = PairState { friends: false, ..friends };
    assert!(!relay_to(Some(1), &strangers));
    let blocked = PairState { blocked_by_them: true, ..friends };
    assert!(!relay_to(Some(1), &blocked));
}

#[test]
fn message_audiences() {
    let ch = MessageRecord { sender_id: 1, channel_id: Some(4), recipient_id: None };
    assert_eq!(ch.audience(), Audience::Channel { channel_id: 4 });
    let dm = MessageRecord { sender_id: 1, channel_id: None, recipient_id: Some(2) };
    assert_eq!(dm.audience(), Audience::Direct { recipient_id: Some(2), sender_id: 1 });
}

#[test]
fn relayed_signal_reaches_only_its_parties() {
    let mut s = event("call_answer");
    s.to_user_id = Some(8);
    let target = signal_target(200, &Some(s), 3).unwrap();
    assert_eq!(target, 8);
    for viewer in [1, 3, 8, 9] {
        let mut relayed = event("call_answer");
        relayed.to_user_id = Some(8);
        relayed.from_id = Some(3);
        assert_eq!(event_visible(&Some(relayed), viewer), viewer == 3 || viewer == 8);
    }
}

#[test]
fn naming_uploads_with_a_given_prefix() {
    let u = lumichat::chat::name_upload(Some("a b.txt"), "ABCdef123456".to_string());
    assert_eq!(u.stored_name, "ABCdef123456-a_b.txt");
    assert_eq!(u.url, "/uploads/ABCdef123456-a_b.txt");
}

#[test]
fn accepting_normalised_channel_names() {
    assert_eq!(lumichat::chat::accept_channel("news".to_string(), None).unwrap().name, "news");
    assert!(lumichat::chat::accept_channel(String::new(), None).is_err());
}

#[test]
fn socket_reactions() {
    let mut dm = event("message");
    dm.scope = Some("dm".into());
    dm.recipient_id = Some(2);
    assert_eq!(socket_step(&SocketEvent::Broadcast(Some(dm)), 2), SocketAction::Forward);
    let mut dm = event("message");
    dm.scope = Some("dm".into());
    dm.recipient_id = Some(2);
    assert_eq!(socket_step(&SocketEvent::Broadcast(Some(dm)), 3), SocketAction::Ignore);
    assert_eq!(socket_step(&SocketEvent::Broadcast(None), 3), SocketAction::Forward);
    assert_eq!(socket_step(&SocketEvent::BroadcastLost, 3), SocketAction::Stop);
    assert_eq!(socket_step(&SocketEvent::ClientPing, 3), SocketAction::Pong);
    assert_eq!(socket_step(&SocketEvent::ClientText, 3), SocketAction::RouteSignal);
    assert_eq!(socket_step(&SocketEvent::ClientGone, 3), SocketAction::Stop);
    assert_eq!(socket_step(&SocketEvent::ClientOther, 3), SocketAction::Ignore);
    assert_eq!(socket_step(&SocketEvent::SendFailed, 3), SocketAction::Stop);
}

#[test]
fn trimming() {
    assert_eq!(lumichat::text::trim("  a b \t\n"), "a b");
    assert_eq!(lumichat::text::trim("\u{3000}x\u{a0}"), "x");
    assert_eq!(lumichat::text::trim(" \u{2003} "), "");
    assert_eq!(lumichat::text::trim(""), "");
    assert_eq!(lumichat::text::trim("x"), "x");
    assert!(lumichat::text::is_blank('\u{85}'));
    assert!(!lumichat::text::is_blank('\u{200b}'));
    for s in ["  hi  ", "\t\r\nx y\u{2028}", "名字 ", " \u{1680}"] {
        assert_eq!(lumichat::text::trim(s), s.trim());
    }
}
