use argon2::password_hash::{PasswordHash, PasswordHasher, PasswordVerifier, SaltString};
use argon2::Argon2;
use rand::distr::Alphanumeric;
use rand::rngs::ThreadRng;
use rand::Rng;
use rand_core::OsRng;
use vstd::prelude::*;

use crate::error::{refuse, refused, ApiResult, Refusal};
use crate::text::push_char;

verus! {

#[verifier::external_type_specification]
#[verifier::external_body]
pub struct ExThreadRng(ThreadRng);

/// Whether `c` is an ASCII letter or digit.
pub open spec fn is_alphanumeric(c: char) -> bool {
    ||| 'a' <= c <= 'z'
    ||| 'A' <= c <= 'Z'
    ||| '0' <= c <= '9'
}

/// Whether `s` is made of exactly `n` ASCII letters and digits.
pub open spec fn is_alphanumeric_text(s: Seq<char>, n: nat) -> bool {
    &&& s.len() == n
    &&& forall|i: int| 0 <= i < s.len() ==> is_alphanumeric(#[trigger] s[i])
}

/// What Argon2 says when `password` is checked against the stored PHC string
/// `stored`: `None` when `stored` does not parse as a password hash, otherwise
/// whether the password matches it.
pub uninterp spec fn phc_check(password: Seq<char>, stored: Seq<char>) -> Option<bool>;

/// Calls `rand::rng`, the thread-local generator seeded by the operating system.
#[verifier::external_body]
fn thread_rng() -> ThreadRng {
    rand::rng()
}

/// Calls `Rng::sample` with the `Alphanumeric` distribution, which yields one
/// byte drawn from `a-z`, `A-Z` and `0-9`.
#[verifier::external_body]
fn sample_alphanumeric(rng: &mut ThreadRng) -> (b: u8)
    ensures
        is_alphanumeric(b as char),
{
    rng.sample(Alphanumeric)
}

/// The longest password, in bytes, that Argon2 accepts.
pub const MAX_PASSWORD_BYTES: usize = 0xFFFF_FFFF;

/// Calls `PasswordHasher::hash_password` of the default Argon2 context with a
/// salt that `SaltString::generate` draws from the operating system's
/// generator (16 random bytes), and renders the hash as a PHC string. The
/// string depends on that random salt, so the contract does not name it; it
/// promises the documented round trip (checking the same password against the
/// string succeeds), and that hashing fails exactly when the password is
/// longer than Argon2's limit of `0xFFFF_FFFF` bytes, the only check that a
/// generated salt with the default parameters can fail.
#[verifier::external_body]
fn argon2_hash_with_fresh_salt(password: &str) -> (r: Option<String>)
    ensures
        r is Some <==> password.len() <= MAX_PASSWORD_BYTES,
        r matches Some(h) ==> phc_check(password@, h@) == Some(true),
{
    let salt = SaltString::generate(&mut OsRng);
    Argon2::default().hash_password(password.as_bytes(), &salt).ok().map(|h| h.to_string())
}

/// Calls `PasswordHash::new` on `stored` and, when it parses,
/// `PasswordVerifier::verify_password` of the default Argon2 context.
#[verifier::external_body]
fn argon2_check(password: &str, stored: &str) -> (r: Option<bool>)
    ensures
        r == phc_check(password@, stored@),
{
    match PasswordHash::new(stored) {
        Ok(parsed) => Some(Argon2::default().verify_password(password.as_bytes(), &parsed).is_ok()),
        Err(_) => None,
    }
}

/// The text whose characters are the bytes `draws`, one by one.
pub fn alphanumeric_text(draws: &Vec<u8>) -> (s: String)
    requires
        forall|i: int| 0 <= i < draws@.len() ==> is_alphanumeric(#[trigger] draws@[i] as char),
    ensures
        s@ == draws@.map_values(|b: u8| b as char),
        is_alphanumeric_text(s@, draws@.len()),
{
    let mut s = String::new();
    let mut i: usize = 0;
    while i < draws.len()
        invariant
            i <= draws@.len(),
            s@ == draws@.take(i as int).map_values(|b: u8| b as char),
        decreases draws.len() - i,
    {
        push_char(&mut s, draws[i] as char);
        proof {
            assert(draws@.take(i + 1).map_values(|b: u8| b as char) =~= draws@.take(i as int).map_values(
                |b: u8| b as char,
            ).push(draws@[i as int] as char));
        }
        i = i + 1;
    }
    assert(draws@.take(draws@.len() as int) =~= draws@);
    s
}

/// `n` bytes drawn at random from ASCII letters and digits.
fn alphanumeric_draws(n: usize) -> (d: Vec<u8>)
    ensures
        d@.len() == n,
        forall|i: int| 0 <= i < d@.len() ==> is_alphanumeric(#[trigger] d@[i] as char),
{
    let mut rng = thread_rng();
    let mut d: Vec<u8> = Vec::new();
    let mut i: usize = 0;
    while i < n
        invariant
            i <= n,
            d@.len() == i,
            forall|j: int| 0 <= j < d@.len() ==> is_alphanumeric(#[trigger] d@[j] as char),
        decreases n - i,
    {
        let b = sample_alphanumeric(&mut rng);
        d.push(b);
        i = i + 1;
    }
    d
}

/// A fresh random text of `n` ASCII letters and digits: the characters of
/// `n` random draws (see `alphanumeric_text`).
pub fn random_alphanumeric(n: usize) -> (s: String)
    ensures
        is_alphanumeric_text(s@, n as nat),
{
    let draws = alphanumeric_draws(n);
    alphanumeric_text(&draws)
}

/// A new session token: 48 random ASCII letters and digits.
pub fn new_token() -> (t: String)
    ensures
        is_alphanumeric_text(t@, 48),
{
    random_alphanumeric(48)
}

/// Whether a password of `password` is long enough: at least 8 bytes.
pub open spec fn password_long_enough(password: &str) -> bool {
    password.len() >= 8
}

/// Whether Argon2 accepts `password`: at most `0xFFFF_FFFF` bytes.
pub open spec fn password_hashable(password: &str) -> bool {
    password.len() <= MAX_PASSWORD_BYTES
}

/// Hashes `password` with Argon2 and a fresh random salt. Refuses passwords
/// shorter than 8 bytes, and those longer than Argon2 accepts; otherwise the
/// hash is given back, and it checks out against `password`.
pub fn hash_password(password: &str) -> (r: ApiResult<String>)
    ensures
        !password_long_enough(password) ==> refused(r, Refusal::PasswordTooShort),
        password_long_enough(password) && !password_hashable(password) ==> refused(
            r,
            Refusal::HashingFailed,
        ),
        password_long_enough(password) && password_hashable(password) ==> (r matches Ok(h)
            && phc_check(password@, h@) == Some(true)),
{
    if password.len() < 8 {
        return Err(refuse(Refusal::PasswordTooShort));
    }
    match argon2_hash_with_fresh_salt(password) {
        Some(h) => Ok(h),
        None => Err(refuse(Refusal::HashingFailed)),
    }
}

/// Checks `password` against the stored PHC string `stored`.
pub fn check_password(password: &str, stored: &str) -> (r: Option<bool>)
    ensures
        r == phc_check(password@, stored@),
{
    argon2_check(password, stored)
}

} // verus!
