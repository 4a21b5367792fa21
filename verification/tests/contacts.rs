use lumichat::account::{Role, User};
use lumichat::contacts::{
    authorize_direct_message, authorize_profile, can_contact, change_contact, friend_lookup, invite_link,
    lookup_allowed, lookup_answer, new_invite_token, recent_attempts, ContactAction, FriendLookup, PairState,
};
use lumichat::ErrorStatus;

const NONE: PairState = PairState {
    friends: false,
    request_sent: false,
    request_received: false,
    blocked_by_me: false,
    blocked_by_them: false,
};

fn mirror(p: PairState) -> PairState {
    PairState {
        friends: p.friends,
        request_sent: p.request_received,
        request_received: p.request_sent,
        blocked_by_me: p.blocked_by_them,
        blocked_by_them: p.blocked_by_me,
    }
}

fn message_of<T: std::fmt::Debug>(r: Result<T, lumichat::ApiError>) -> String {
    r.unwrap_err().error
}

#[test]
fn request_then_accept_makes_contacts() {
    let sent = change_contact(1, 2, Some(true), NONE, ContactAction::Request).unwrap();
    assert!(sent.request_sent);
    assert!(!can_contact(&sent));
    let accepted = change_contact(2, 1, Some(true), mirror(sent), ContactAction::Accept).unwrap();
    assert!(accepted.friends && !accepted.request_received && !accepted.request_sent);
    assert!(can_contact(&accepted));
    assert!(can_contact(&mirror(accepted)));
}

#[test]
fn requests_are_refused_when_pointless() {
    let friends = PairState { friends: true, ..NONE };
    assert_eq!(message_of(change_contact(1, 2, Some(true), friends, ContactAction::Request)), "已经是好友");
    let pending = PairState { request_received: true, ..NONE };
    assert_eq!(message_of(change_contact(1, 2, Some(true), pending, ContactAction::Request)), "已有待处理的好友申请");
    let e = change_contact(1, 1, Some(true), NONE, ContactAction::Request).unwrap_err();
    assert_eq!(e.status, ErrorStatus::NotFound);
    let e = change_contact(1, 9, None, NONE, ContactAction::Request).unwrap_err();
    assert_eq!(e.status, ErrorStatus::NotFound);
    let e = change_contact(1, 2, Some(false), NONE, ContactAction::Request).unwrap_err();
    assert_eq!(e.status, ErrorStatus::NotFound);
}

#[test]
fn blocking_ends_contact_and_requests() {
    let friends = PairState { friends: true, ..NONE };
    let blocked = change_contact(1, 2, Some(true), friends, ContactAction::Block).unwrap();
    assert!(!blocked.friends && blocked.blocked_by_me);
    assert!(!can_contact(&blocked));
    assert!(!can_contact(&mirror(blocked)));
    let e = change_contact(2, 1, Some(true), mirror(blocked), ContactAction::Request).unwrap_err();
    assert_eq!(e.status, ErrorStatus::NotFound);
    let e = change_contact(1, 2, Some(true), blocked, ContactAction::Request).unwrap_err();
    assert_eq!(e.status, ErrorStatus::NotFound);
    let unblocked = change_contact(1, 2, Some(true), blocked, ContactAction::Unblock).unwrap();
    assert!(!unblocked.blocked_by_me && !unblocked.friends);
}

#[test]
fn reject_cancel_remove() {
    let incoming = PairState { request_received: true, ..NONE };
    assert_eq!(change_contact(1, 2, Some(true), incoming, ContactAction::Reject).unwrap(), NONE);
    let outgoing = PairState { request_sent: true, ..NONE };
    assert_eq!(change_contact(1, 2, Some(true), outgoing, ContactAction::Cancel).unwrap(), NONE);
    assert!(change_contact(1, 2, Some(true), NONE, ContactAction::Cancel).is_err());
    assert!(change_contact(1, 2, Some(true), NONE, ContactAction::Accept).is_err());
    let friends = PairState { friends: true, ..NONE };
    assert_eq!(change_contact(1, 2, Some(true), friends, ContactAction::Remove).unwrap(), NONE);
    assert!(change_contact(1, 2, Some(true), NONE, ContactAction::Remove).is_err());
}

#[test]
fn direct_messages_need_contact() {
    let friends = PairState { friends: true, ..NONE };
    assert!(authorize_direct_message(true, &friends).is_ok());
    assert_eq!(message_of(authorize_direct_message(true, &NONE)), "只能与好友私聊或通话");
    assert_eq!(message_of(authorize_direct_message(false, &NONE)), "收件人不存在");
    let blocked = PairState { blocked_by_them: true, ..friends };
    assert!(authorize_direct_message(true, &blocked).is_err());
}

fn viewer(id: i64, role: Role) -> User {
    User { id, username: format!("v{id}"), display_name: format!("V{id}"), role, active: true }
}

#[test]
fn profile_visibility() {
    let friends = PairState { friends: true, ..NONE };
    assert!(authorize_profile(&viewer(1, Role::Member), 1, true, &NONE).is_ok());
    assert!(authorize_profile(&viewer(1, Role::Member), 2, true, &friends).is_ok());
    assert!(authorize_profile(&viewer(1, Role::Admin), 2, true, &NONE).is_ok());
    let e = authorize_profile(&viewer(1, Role::Member), 2, true, &NONE).unwrap_err();
    assert_eq!((e.status, e.error.as_str()), (ErrorStatus::NotFound, "未找到"));
    let blocked = PairState { blocked_by_me: true, ..friends };
    assert!(authorize_profile(&viewer(1, Role::Member), 2, true, &blocked).is_err());
    assert!(authorize_profile(&viewer(1, Role::Admin), 9, false, &NONE).is_err());
}

#[test]
fn lookups_name_their_account() {
    assert_eq!(friend_lookup(Some(4), Some("bob"), Some("tok")), FriendLookup::Id(4));
    assert_eq!(friend_lookup(None, Some("  Bob "), Some("tok")), FriendLookup::Name("bob".into()));
    assert_eq!(friend_lookup(None, Some("b"), Some("tok")), FriendLookup::Nothing);
    assert_eq!(friend_lookup(None, None, Some("tok")), FriendLookup::Invite("tok".into()));
    assert_eq!(friend_lookup(None, None, None), FriendLookup::Nothing);
}

#[test]
fn lookup_answers_are_uniform() {
    assert_eq!(lookup_answer(1, Some((2, true)), &NONE).unwrap(), 2);
    for (found, pair) in [
        (None, NONE),
        (Some((1, true)), NONE),
        (Some((2, false)), NONE),
        (Some((2, true)), PairState { blocked_by_them: true, ..NONE }),
        (Some((2, true)), PairState { blocked_by_me: true, ..NONE }),
    ] {
        let e = lookup_answer(1, found, &pair).unwrap_err();
        assert_eq!((e.status, e.error.as_str()), (ErrorStatus::NotFound, "未找到"));
    }
}

#[test]
fn lookup_rate_limits() {
    let now = 1_000_000;
    assert!(lookup_allowed(now, &vec![]));
    let nine: Vec<i64> = (0..9).map(|i| now - i).collect();
    assert!(lookup_allowed(now, &nine));
    let ten: Vec<i64> = (0..10).map(|i| now - i).collect();
    assert!(!lookup_allowed(now, &ten));
    // Ten lookups over a minute ago no longer count against the minute.
    let old_ten: Vec<i64> = (0..10).map(|i| now - 60 - i).collect();
    assert!(lookup_allowed(now, &old_ten));
    let hour: Vec<i64> = (0..40).map(|i| now - 61 - i * 60).collect();
    assert!(!lookup_allowed(now, &hour));
    let kept = recent_attempts(now, &vec![now - 4000, now - 3600, now - 3599, now]);
    assert_eq!(kept, vec![now - 3599, now]);
}

#[test]
fn invite_tokens_and_links() {
    let t = new_invite_token();
    assert_eq!(t.len(), 48);
    assert!(t.chars().all(|c| c.is_ascii_alphanumeric()));
    assert_ne!(t, new_invite_token());
    assert_eq!(invite_link("https://chat.example", "abc"), "https://chat.example/?invite=abc");
}

#[test]
fn rate_limit_at_extreme_times() {
    assert!(lookup_allowed(i64::MIN, &vec![i64::MIN]));
    assert_eq!(recent_attempts(i64::MIN, &vec![i64::MIN]), vec![i64::MIN]);
    assert!(!lookup_allowed(i64::MAX, &vec![i64::MAX; 10]));
}
