use vstd::prelude::*;
use vstd::string::StrSliceExecFns;

use crate::error::{answers, refuse, refused, refuses, ApiResult, Refusal};
use crate::secret::{
    check_password, hash_password, is_alphanumeric, is_alphanumeric_text, new_token,
    password_hashable, password_long_enough, phc_check,
};
use crate::text::{first_chars, has_prefix, lowercase, take_chars, text_is, to_lowercase, trim, trimmed};

verus! {

broadcast use vstd::string::group_string_axioms;

/// The two kinds of account.
#[derive(Clone, Copy, Debug, PartialEq, Eq, Structural)]
pub enum Role {
    Admin,
    Member,
}

impl Role {
    /// The name under which the role is stored and shown.
    pub open spec fn name(self) -> Seq<char> {
        match self {
            Role::Admin => "admin"@,
            Role::Member => "member"@,
        }
    }

    /// The name under which the role is stored and shown.
    pub fn as_str(&self) -> (s: &'static str)
        ensures
            s@ == self.name(),
    {
        match self {
            Role::Admin => "admin",
            Role::Member => "member",
        }
    }
}

/// The role called `name`, if any.
pub open spec fn role_of_name(name: Seq<char>) -> Option<Role> {
    if name == "admin"@ {
        Some(Role::Admin)
    } else if name == "member"@ {
        Some(Role::Member)
    } else {
        None
    }
}

/// The role called `name`, if any.
pub fn role_named(name: &str) -> (r: Option<Role>)
    ensures
        r == role_of_name(name@),
{
    if text_is(name, "admin") {
        Some(Role::Admin)
    } else if text_is(name, "member") {
        Some(Role::Member)
    } else {
        None
    }
}

/// An account as the server shows it.
#[derive(Debug)]
pub struct User {
    pub id: i64,
    pub username: String,
    pub display_name: String,
    pub role: Role,
    pub active: bool,
}

/// Whether `c` may appear in a username.
pub open spec fn is_username_char(c: char) -> bool {
    is_alphanumeric(c) || c == '_' || c == '-'
}

/// Whether `v` is an acceptable username: 3 to 24 ASCII letters, digits,
/// underscores or hyphens.
pub open spec fn is_valid_username(v: Seq<char>) -> bool {
    &&& 3 <= v.len() <= 24
    &&& forall|i: int| 0 <= i < v.len() ==> is_username_char(#[trigger] v[i])
}

/// The username that `value` stands for: trimmed, then lowercased.
pub open spec fn cleaned_username(value: Seq<char>) -> Seq<char> {
    lowercase(trimmed(value))
}

/// Whether every character of `s` may appear in a username.
fn all_username_chars(s: &str) -> (r: bool)
    ensures
        r == (forall|i: int| 0 <= i < s@.len() ==> is_username_char(#[trigger] s@[i])),
{
    let n = s.unicode_len();
    let mut k: usize = 0;
    for c in it: s.chars()
        invariant
            n == s@.len(),
            it.seq() == s@,
            k == it.index(),
            forall|i: int| 0 <= i < k ==> is_username_char(#[trigger] s@[i]),
    {
        if !(('a' <= c && c <= 'z') || ('A' <= c && c <= 'Z') || ('0' <= c && c <= '9') || c == '_'
            || c == '-') {
            return false;
        }
        k = k + 1;
    }
    true
}

/// Accepts an already normalised username when it is 3 to 24 ASCII letters,
/// digits, underscores or hyphens.
pub fn accept_username(v: String) -> (r: ApiResult<String>)
    ensures
        match r {
            Ok(s) => is_valid_username(v@) && s@ == v@,
            Err(e) => !is_valid_username(v@) && refuses(e, Refusal::InvalidUsername),
        },
{
    let n = v.as_str().unicode_len();
    if n < 3 || n > 24 || !all_username_chars(v.as_str()) {
        return Err(refuse(Refusal::InvalidUsername));
    }
    Ok(v)
}

/// Normalises a username (trim, lowercase) and accepts it when it is 3 to 24
/// ASCII letters, digits, underscores or hyphens.
pub fn clean_username(value: &str) -> (r: ApiResult<String>)
    ensures
        match r {
            Ok(s) => is_valid_username(cleaned_username(value@)) && s@ == cleaned_username(value@),
            Err(e) => !is_valid_username(cleaned_username(value@)) && refuses(e, Refusal::InvalidUsername),
        },
{
    accept_username(to_lowercase(trim(value)))
}

/// The display name that `value` stands for: trimmed, at most 40 characters.
pub open spec fn cleaned_display_name(value: Seq<char>) -> Seq<char> {
    first_chars(trimmed(value), 40)
}

/// Normalises a display name (trim, first 40 characters) and refuses a blank one.
pub fn clean_display_name(value: &str) -> (r: ApiResult<String>)
    ensures
        match r {
            Ok(d) => cleaned_display_name(value@).len() > 0 && d@ == cleaned_display_name(value@)
                && d@.len() <= 40,
            Err(e) => cleaned_display_name(value@).len() == 0 && refuses(e, Refusal::DisplayNameEmpty),
        },
{
    let d = take_chars(trim(value), 40);
    proof {
        crate::text::lemma_first_chars(trimmed(value@), 40);
    }
    if d.as_str().unicode_len() == 0 {
        return Err(refuse(Refusal::DisplayNameEmpty));
    }
    Ok(d)
}

/// What a new account is stored with.
#[derive(Debug)]
pub struct Registration {
    pub username: String,
    pub display_name: String,
    pub password_hash: String,
    pub token: String,
}

/// The display name a registration asks for: the given one, or else the username.
pub open spec fn requested_display_name(display_name: Option<&str>, username: Seq<char>) -> Seq<
    char,
> {
    match display_name {
        Some(d) => d@,
        None => username,
    }
}

/// Checks a registration request and prepares the account: the cleaned
/// username, the cleaned display name, the password's hash and a first
/// session token. Refuses, in this order, a bad username, a blank display name,
/// a password shorter than 8 bytes and one longer than Argon2 accepts; any
/// other request succeeds.
pub fn prepare_registration(username: &str, display_name: Option<&str>, password: &str) -> (r:
    ApiResult<Registration>)
    ensures
        ({
            let u = cleaned_username(username@);
            let d = cleaned_display_name(requested_display_name(display_name, u));
            if !is_valid_username(u) {
                refused(r, Refusal::InvalidUsername)
            } else if d.len() == 0 {
                refused(r, Refusal::DisplayNameEmpty)
            } else if !password_long_enough(password) {
                refused(r, Refusal::PasswordTooShort)
            } else if !password_hashable(password) {
                refused(r, Refusal::HashingFailed)
            } else {
                r matches Ok(reg) && reg.username@ == u && reg.display_name@ == d && phc_check(
                    password@,
                    reg.password_hash@,
                ) == Some(true) && is_alphanumeric_text(reg.token@, 48)
            }
        }),
{
    let username = clean_username(username)?;
    let display_name = match display_name {
        Some(d) => clean_display_name(d)?,
        None => clean_display_name(username.as_str())?,
    };
    let password_hash = hash_password(password)?;
    let token = new_token();
    Ok(Registration { username, display_name, password_hash, token })
}

/// What registering one more account implies, given how many accounts exist.
#[derive(Debug)]
pub struct NewAccount {
    pub role: Role,
    pub creates_general_channel: bool,
}

/// The first account becomes the administrator and brings the first channel
/// with it; every later account is a member.
pub fn new_account(existing_accounts: i64) -> (a: NewAccount)
    ensures
        a.role == (if existing_accounts == 0 {
            Role::Admin
        } else {
            Role::Member
        }),
        a.creates_general_channel == (existing_accounts == 0),
{
    if existing_accounts == 0 {
        NewAccount { role: Role::Admin, creates_general_channel: true }
    } else {
        NewAccount { role: Role::Member, creates_general_channel: false }
    }
}

/// The token that an `Authorization` header value carries, if it is a bearer token.
pub open spec fn bearer_token(header: Seq<char>) -> Option<Seq<char>> {
    if "Bearer "@.len() <= header.len() && header.take("Bearer "@.len() as int) == "Bearer "@ {
        Some(header.skip("Bearer "@.len() as int))
    } else {
        None
    }
}

/// Extracts the session token from the `Authorization` header value, which
/// must read `Bearer <token>`.
pub fn token_from(authorization: Option<&str>) -> (r: ApiResult<String>)
    ensures
        match authorization {
            Some(h) => match bearer_token(h@) {
                Some(t) => r matches Ok(s) && s@ == t,
                None => refused(r, Refusal::LoginRequired),
            },
            None => refused(r, Refusal::LoginRequired),
        },
{
    match authorization {
        Some(h) => {
            if has_prefix(h, "Bearer ") {
                let start = "Bearer ".unicode_len();
                let end = h.unicode_len();
                let t = h.substring_char(start, end);
                Ok(t.to_owned())
            } else {
                Err(refuse(Refusal::LoginRequired))
            }
        },
        None => Err(refuse(Refusal::LoginRequired)),
    }
}

/// The account behind a session lookup: none means the token is no longer valid.
pub fn session_user(found: Option<User>) -> (r: ApiResult<User>)
    ensures
        match found {
            Some(u) => r == Ok::<User, crate::error::ApiError>(u),
            None => refused(r, Refusal::SessionExpired),
        },
{
    match found {
        Some(u) => Ok(u),
        None => Err(refuse(Refusal::SessionExpired)),
    }
}

/// An account as stored, with its password hash.
#[derive(Debug)]
pub struct StoredAccount {
    pub user: User,
    pub password_hash: String,
}

/// How a login ends, given the stored account (if the name is known) and the
/// outcome of checking the password against its hash.
pub open spec fn login_decision(account: Option<StoredAccount>, check: Option<bool>) -> Result<User, Refusal> {
    match account {
        None => Err(Refusal::WrongCredentials),
        Some(a) => if !a.user.active {
            Err(Refusal::AccountDisabled)
        } else {
            match check {
                None => Err(Refusal::LoginFailed),
                Some(false) => Err(Refusal::WrongCredentials),
                Some(true) => Ok(a.user),
            }
        },
    }
}

/// What checking `password` against the stored account's hash gives.
pub open spec fn stored_check(account: Option<StoredAccount>, password: Seq<char>) -> Option<bool> {
    match account {
        Some(a) => phc_check(password, a.password_hash@),
        None => None,
    }
}

/// Decides a login from the stored account (if the name is known) and the
/// outcome of checking the password against its hash.
pub fn login_outcome(account: Option<StoredAccount>, check: Option<bool>) -> (r: ApiResult<User>)
    ensures
        answers(r, login_decision(account, check)),
{
    match account {
        None => Err(refuse(Refusal::WrongCredentials)),
        Some(a) => {
            if !a.user.active {
                return Err(refuse(Refusal::AccountDisabled));
            }
            match check {
                None => Err(refuse(Refusal::LoginFailed)),
                Some(false) => Err(refuse(Refusal::WrongCredentials)),
                Some(true) => Ok(a.user),
            }
        },
    }
}

/// Logs in with `password` against the stored account found for the name.
/// The password is checked only for an active account.
pub fn check_login(account: Option<StoredAccount>, password: &str) -> (r: ApiResult<User>)
    ensures
        answers(r, login_decision(account, stored_check(account, password@))),
{
    let check = match &account {
        Some(a) => {
            if a.user.active {
                check_password(password, a.password_hash.as_str())
            } else {
                None
            }
        },
        None => None,
    };
    login_outcome(account, check)
}

/// Renames the caller's account; a blank name is refused.
pub fn update_display_name(user: User, requested: &str) -> (r: ApiResult<User>)
    ensures
        match r {
            Ok(u) => {
                &&& cleaned_display_name(requested@).len() > 0
                &&& u.display_name@ == cleaned_display_name(requested@)
                &&& u.id == user.id
                &&& u.username == user.username
                &&& u.role == user.role
                &&& u.active == user.active
            },
            Err(e) => cleaned_display_name(requested@).len() == 0 && refuses(
                e,
                Refusal::DisplayNameEmpty,
            ),
        },
{
    let display_name = clean_display_name(requested)?;
    let mut user = user;
    user.display_name = display_name;
    Ok(user)
}

/// Lets administrators through; everyone else is told that nothing is there.
pub fn require_admin(user: &User) -> (r: ApiResult<()>)
    ensures
        user.role == Role::Admin ==> r is Ok,
        user.role != Role::Admin ==> refused(r, Refusal::NotFound),
{
    if user.role == Role::Admin {
        Ok(())
    } else {
        Err(refuse(Refusal::NotFound))
    }
}

/// A change of another account's role and activity, as an administrator asked.
#[derive(Debug)]
pub struct AccountChange {
    pub id: i64,
    pub role: Role,
    pub active: bool,
}

/// The role name an account change asks for: the given one, or `member`.
pub open spec fn requested_role(role: Option<&str>) -> Seq<char> {
    match role {
        Some(r) => r@,
        None => "member"@,
    }
}

/// Checks an administrator's change of account `target`: only administrators
/// may change accounts, nobody may deactivate their own account, and the role
/// must be `admin` or `member` (`member` when none is given). The account ends
/// up active unless `active` says otherwise.
pub fn plan_account_change(admin: &User, target: i64, role: Option<&str>, active: Option<bool>) -> (r:
    ApiResult<AccountChange>)
    ensures
        if admin.role != Role::Admin {
            refused(r, Refusal::NotFound)
        } else if target == admin.id && active == Some(false) {
            refused(r, Refusal::CannotDeactivateSelf)
        } else {
            match role_of_name(requested_role(role)) {
                None => refused(r, Refusal::InvalidRole),
                Some(new_role) => r matches Ok(c) && c.id == target && c.role == new_role
                    && c.active == active.unwrap_or(true),
            }
        },
        r matches Ok(c) ==> (c.id == admin.id ==> c.active),
{
    require_admin(admin)?;
    if target == admin.id && active == Some(false) {
        return Err(refuse(Refusal::CannotDeactivateSelf));
    }
    let new_role = match role {
        Some(name) => role_named(name),
        None => role_named("member"),
    };
    match new_role {
        Some(new_role) => {
            let active = match active {
                Some(a) => a,
                None => true,
            };
            Ok(AccountChange { id: target, role: new_role, active })
        },
        None => Err(refuse(Refusal::InvalidRole)),
    }
}

} // verus!
