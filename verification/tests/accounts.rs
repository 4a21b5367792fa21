use lumichat::account::{
    check_login, clean_display_name, clean_username, login_outcome, new_account, plan_account_change,
    prepare_registration, require_admin, role_named, session_user, token_from, update_display_name,
    Role, StoredAccount, User,
};
use lumichat::secret::{check_password, hash_password, new_token, random_alphanumeric};
use lumichat::{fail, refuse, ErrorStatus, Refusal};

fn user(id: i64, role: Role, active: bool) -> User {
    User {
        id,
        username: format!("user{id}"),
        display_name: format!("User {id}"),
        role,
        active,
    }
}

fn message_of<T>(r: Result<T, lumichat::ApiError>) -> String {
    match r {
        Ok(_) => panic!("expected a refusal"),
        Err(e) => e.error,
    }
}

#[test]
fn fail_carries_message() {
    let e = fail("boom");
    assert_eq!(e.error, "boom");
    assert_eq!(e.status, ErrorStatus::BadRequest);
}

#[test]
fn refusals_have_their_messages() {
    assert_eq!(refuse(Refusal::LoginRequired).error, "请先登录");
    assert_eq!(refuse(Refusal::SessionExpired).error, "登录已失效");
    assert_eq!(refuse(Refusal::NotFound).status, ErrorStatus::NotFound);
    assert_eq!(refuse(Refusal::UsernameTaken).status, ErrorStatus::BadRequest);
    assert_eq!(Refusal::InvalidUsername.message(), "用户名需为 3–24 位字母、数字、下划线或连字符");
}

#[test]
fn clean_username_trims_and_lowercases() {
    assert_eq!(clean_username("  Alice_01 ").unwrap(), "alice_01");
    assert_eq!(clean_username("bob-x").unwrap(), "bob-x");
}

#[test]
fn clean_username_length_bounds() {
    assert_eq!(clean_username("abc").unwrap(), "abc");
    assert_eq!(message_of(clean_username("ab")), "用户名需为 3–24 位字母、数字、下划线或连字符");
    assert!(clean_username(&"a".repeat(24)).is_ok());
    assert!(clean_username(&"a".repeat(25)).is_err());
    assert!(clean_username("   ").is_err());
}

#[test]
fn clean_username_rejects_other_characters() {
    assert!(clean_username("a b c").is_err());
    assert!(clean_username("名字名字").is_err());
    assert!(clean_username("bob!").is_err());
    assert!(clean_username("bob.smith").is_err());
}

#[test]
fn clean_username_follows_unicode_lowercase() {
    // The Kelvin sign lowercases to an ASCII `k`.
    assert_eq!(clean_username("\u{212A}elvin").unwrap(), "kelvin");
}

#[test]
fn cleaned_username_is_stable() {
    let once = clean_username("  MiXeD_Case-9 ").unwrap();
    let twice = clean_username(&once).unwrap();
    assert_eq!(once, twice);
}

#[test]
fn clean_display_name_trims_and_cuts() {
    assert_eq!(clean_display_name("  Bob  ").unwrap(), "Bob");
    let long = "界".repeat(50);
    assert_eq!(clean_display_name(&long).unwrap(), "界".repeat(40));
    assert_eq!(message_of(clean_display_name(" \t\u{3000} ")), "显示名称不能为空");
}

#[test]
fn password_hash_round_trip() {
    let h = hash_password("correct horse").unwrap();
    assert!(h.starts_with("$argon2"));
    assert_eq!(check_password("correct horse", &h), Some(true));
    assert_eq!(check_password("wrong horse!", &h), Some(false));
    assert_eq!(check_password("correct horse", "not a hash"), None);
}

#[test]
fn short_password_is_refused() {
    assert_eq!(message_of(hash_password("1234567")), "密码至少需要 8 位");
    // Length counts bytes: three CJK characters are nine bytes.
    assert!(hash_password("密码好").is_ok());
}

#[test]
fn registration_prepares_account() {
    let reg = prepare_registration(" Carol ", None, "password1").unwrap();
    assert_eq!(reg.username, "carol");
    assert_eq!(reg.display_name, "carol");
    assert_eq!(check_password("password1", &reg.password_hash), Some(true));
    assert_eq!(reg.token.len(), 48);
    assert!(reg.token.chars().all(|c| c.is_ascii_alphanumeric()));
    let reg = prepare_registration("dave", Some("  Dave D  "), "password1").unwrap();
    assert_eq!(reg.display_name, "Dave D");
}

#[test]
fn registration_refusals_in_order() {
    assert_eq!(message_of(prepare_registration("x", Some(" "), "short")), "用户名需为 3–24 位字母、数字、下划线或连字符");
    assert_eq!(message_of(prepare_registration("xavier", Some(" "), "short")), "显示名称不能为空");
    assert_eq!(message_of(prepare_registration("xavier", None, "short")), "密码至少需要 8 位");
}

#[test]
fn first_account_is_admin() {
    let first = new_account(0);
    assert_eq!(first.role, Role::Admin);
    assert!(first.creates_general_channel);
    let later = new_account(3);
    assert_eq!(later.role, Role::Member);
    assert!(!later.creates_general_channel);
}

#[test]
fn login_checks() {
    let hash = hash_password("password1").unwrap();
    let stored = |active: bool, h: &str| StoredAccount { user: user(7, Role::Member, active), password_hash: h.to_string() };
    let ok = check_login(Some(stored(true, &hash)), "password1").unwrap();
    assert_eq!(ok.id, 7);
    assert_eq!(message_of(check_login(Some(stored(true, &hash)), "password2")), "用户名或密码不正确");
    assert_eq!(message_of(check_login(Some(stored(false, &hash)), "password1")), "账号已停用");
    assert_eq!(message_of(check_login(Some(stored(true, "garbage")), "password1")), "登录失败");
    assert_eq!(message_of(check_login(None, "password1")), "用户名或密码不正确");
}

#[test]
fn login_outcome_table() {
    let acc = || Some(StoredAccount { user: user(1, Role::Admin, true), password_hash: String::new() });
    assert!(login_outcome(acc(), Some(true)).is_ok());
    assert_eq!(message_of(login_outcome(acc(), Some(false))), "用户名或密码不正确");
    assert_eq!(message_of(login_outcome(acc(), None)), "登录失败");
}

#[test]
fn bearer_tokens() {
    assert_eq!(token_from(Some("Bearer abc123")).unwrap(), "abc123");
    assert_eq!(token_from(Some("Bearer ")).unwrap(), "");
    assert_eq!(message_of(token_from(Some("Basic abc"))), "请先登录");
    assert_eq!(message_of(token_from(Some("bearer abc"))), "请先登录");
    assert_eq!(message_of(token_from(None)), "请先登录");
}

#[test]
fn sessions() {
    assert_eq!(session_user(Some(user(3, Role::Member, true))).unwrap().id, 3);
    assert_eq!(message_of(session_user(None)), "登录已失效");
}

#[test]
fn renaming() {
    let u = update_display_name(user(4, Role::Member, true), "  New Name ").unwrap();
    assert_eq!(u.display_name, "New Name");
    assert_eq!(u.id, 4);
    assert_eq!(u.username, "user4");
    assert!(update_display_name(user(4, Role::Member, true), "   ").is_err());
}

#[test]
fn admin_gate_hides_from_members() {
    assert!(require_admin(&user(1, Role::Admin, true)).is_ok());
    let e = require_admin(&user(2, Role::Member, true)).unwrap_err();
    assert_eq!(e.status, ErrorStatus::NotFound);
    assert_eq!(e.error, "未找到");
}

#[test]
fn roles_by_name() {
    assert_eq!(role_named("admin"), Some(Role::Admin));
    assert_eq!(role_named("member"), Some(Role::Member));
    assert_eq!(role_named("Admin"), None);
    assert_eq!(Role::Admin.as_str(), "admin");
    assert_eq!(Role::Member.as_str(), "member");
}

#[test]
fn account_changes() {
    let admin = user(1, Role::Admin, true);
    let c = plan_account_change(&admin, 5, None, None).unwrap();
    assert_eq!((c.id, c.role, c.active), (5, Role::Member, true));
    let c = plan_account_change(&admin, 5, Some("admin"), Some(false)).unwrap();
    assert_eq!((c.role, c.active), (Role::Admin, false));
    assert_eq!(message_of(plan_account_change(&admin, 1, None, Some(false))), "不能停用自己的账号");
    assert!(plan_account_change(&admin, 1, Some("admin"), Some(true)).unwrap().active);
    assert_eq!(message_of(plan_account_change(&admin, 5, Some("owner"), None)), "无效角色");
    let member = user(2, Role::Member, true);
    assert_eq!(plan_account_change(&member, 5, None, None).unwrap_err().status, ErrorStatus::NotFound);
}

#[test]
fn random_texts() {
    let t = new_token();
    assert_eq!(t.len(), 48);
    assert!(t.chars().all(|c| c.is_ascii_alphanumeric()));
    assert_ne!(new_token(), new_token());
    assert_eq!(random_alphanumeric(0), "");
    assert_eq!(random_alphanumeric(12).len(), 12);
}

#[test]
fn issued_token_is_accepted_as_bearer() {
    let t = new_token();
    let header = format!("Bearer {t}");
    assert_eq!(token_from(Some(&header)).unwrap(), t);
}

#[test]
fn accepting_normalised_usernames() {
    assert_eq!(lumichat::account::accept_username("abc".to_string()).unwrap(), "abc");
    assert!(lumichat::account::accept_username("ab".to_string()).is_err());
    assert!(lumichat::account::accept_username("ABC".to_string()).is_ok());
}

#[test]
fn usernames_ignore_case_and_blanks() {
    for s in ["alice", "Bob_9", "x-y-z", "bad name", "ab"] {
        let padded = format!(" \t{} \u{3000}", s.to_ascii_uppercase());
        match (clean_username(&padded), clean_username(s)) {
            (Ok(a), Ok(b)) => assert_eq!(a, b),
            (Err(_), Err(_)) => {}
            _ => panic!("cleaning disagrees for {s:?}"),
        }
    }
}

#[test]
fn long_passwords_hash_and_check_out() {
    let long = "p".repeat(1000);
    let h = hash_password(&long).unwrap();
    assert_eq!(check_password(&long, &h), Some(true));
}

#[test]
fn draws_become_text() {
    assert_eq!(lumichat::secret::alphanumeric_text(&b"aZ09".to_vec()), "aZ09");
    assert_eq!(lumichat::secret::alphanumeric_text(&Vec::new()), "");
}
