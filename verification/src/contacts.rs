use vstd::prelude::*;

use crate::account::{clean_username, cleaned_username, is_valid_username, Role, User};
use crate::error::{answers, refuse, refused, ApiResult, Refusal};
use crate::secret::{is_alphanumeric_text, random_alphanumeric};

verus! {

/// How two accounts stand towards each other, seen from one of them ("me").
#[derive(Clone, Copy, Debug, PartialEq, Eq, Structural)]
pub struct PairState {
    /// The two accounts are friends.
    pub friends: bool,
    /// A friend request from me to the other account is pending.
    pub request_sent: bool,
    /// A friend request from the other account to me is pending.
    pub request_received: bool,
    /// I have blocked the other account.
    pub blocked_by_me: bool,
    /// The other account has blocked me.
    pub blocked_by_them: bool,
}

impl PairState {
    /// The same relation seen from the other account.
    pub open spec fn mirror(self) -> PairState {
        PairState {
            friends: self.friends,
            request_sent: self.request_received,
            request_received: self.request_sent,
            blocked_by_me: self.blocked_by_them,
            blocked_by_them: self.blocked_by_me,
        }
    }
}

/// Whether the two accounts may write to and call each other: they are
/// friends and neither has blocked the other.
pub open spec fn may_contact(p: PairState) -> bool {
    p.friends && !p.blocked_by_me && !p.blocked_by_them
}

/// Whether the two accounts may write to and call each other (see `may_contact`).
pub fn can_contact(p: &PairState) -> (r: bool)
    ensures
        r == may_contact(*p),
{
    p.friends && !p.blocked_by_me && !p.blocked_by_them
}

/// Lets a direct message through to an existing account only between friends
/// that have not blocked each other.
pub fn authorize_direct_message(recipient_exists: bool, p: &PairState) -> (r: ApiResult<()>)
    ensures
        !recipient_exists ==> refused(r, Refusal::RecipientMissing),
        recipient_exists && may_contact(*p) ==> r is Ok,
        recipient_exists && !may_contact(*p) ==> refused(r, Refusal::NotContact),
{
    if !recipient_exists {
        Err(refuse(Refusal::RecipientMissing))
    } else if can_contact(p) {
        Ok(())
    } else {
        Err(refuse(Refusal::NotContact))
    }
}

/// Lets `viewer` see the profile of account `target`: their own, a contact's,
/// or any profile for an administrator. Everything else, an unknown account
/// included, is answered as not found.
pub fn authorize_profile(viewer: &User, target: i64, target_exists: bool, p: &PairState) -> (r:
    ApiResult<()>)
    ensures
        target_exists && (viewer.id == target || viewer.role == Role::Admin || may_contact(*p))
            ==> r is Ok,
        !(target_exists && (viewer.id == target || viewer.role == Role::Admin || may_contact(*p)))
            ==> refused(r, Refusal::NotFound),
{
    if target_exists && (viewer.id == target || viewer.role == Role::Admin || can_contact(p)) {
        Ok(())
    } else {
        Err(refuse(Refusal::NotFound))
    }
}

/// How a friend lookup names the account it looks for.
#[derive(Debug, PartialEq, Eq)]
pub enum FriendLookup {
    /// By account id.
    Id(i64),
    /// By exact (cleaned) username.
    Name(String),
    /// By invite token.
    Invite(String),
    /// By nothing usable; the lookup finds nobody.
    Nothing,
}

/// Which account a lookup asks for: the id when one is given, else the cleaned
/// username (an invalid one finds nobody), else the invite token.
pub fn friend_lookup(user_id: Option<i64>, username: Option<&str>, invite: Option<&str>) -> (r:
    FriendLookup)
    ensures
        match user_id {
            Some(id) => r == FriendLookup::Id(id),
            None => match username {
                Some(u) => if is_valid_username(cleaned_username(u@)) {
                    r matches FriendLookup::Name(n) && n@ == cleaned_username(u@)
                } else {
                    r == FriendLookup::Nothing
                },
                None => match invite {
                    Some(t) => r matches FriendLookup::Invite(x) && x@ == t@,
                    None => r == FriendLookup::Nothing,
                },
            },
        },
{
    match user_id {
        Some(id) => FriendLookup::Id(id),
        None => match username {
            Some(u) => match clean_username(u) {
                Ok(n) => FriendLookup::Name(n),
                Err(_) => FriendLookup::Nothing,
            },
            None => match invite {
                Some(t) => FriendLookup::Invite(t.to_owned()),
                None => FriendLookup::Nothing,
            },
        },
    }
}

/// The answer to a friend lookup by `me`, given the account found (its id and
/// whether it is active) and how the two stand: a miss, oneself, an inactive
/// account and a block either way are all answered as not found.
pub fn lookup_answer(me: i64, found: Option<(i64, bool)>, p: &PairState) -> (r: ApiResult<i64>)
    ensures
        match found {
            Some((id, active)) => if id != me && active && !p.blocked_by_me && !p.blocked_by_them {
                r == Ok::<i64, crate::error::ApiError>(id)
            } else {
                refused(r, Refusal::NotFound)
            },
            None => refused(r, Refusal::NotFound),
        },
{
    match found {
        Some((id, active)) => {
            if id != me && active && !p.blocked_by_me && !p.blocked_by_them {
                Ok(id)
            } else {
                Err(refuse(Refusal::NotFound))
            }
        },
        None => Err(refuse(Refusal::NotFound)),
    }
}

/// How many of `attempts` fall in the `window` seconds up to `now`.
pub open spec fn attempts_within(attempts: Seq<i64>, now: int, window: int) -> nat
    decreases attempts.len(),
{
    if attempts.len() == 0 {
        0
    } else {
        attempts_within(attempts.drop_last(), now, window) + if now - window < attempts.last()
            <= now {
            1nat
        } else {
            0nat
        }
    }
}

/// Whether one more friend lookup at `now` (in seconds) is allowed after the
/// earlier `attempts`: fewer than 10 in the last minute and fewer than 40 in
/// the last hour.
pub open spec fn lookup_permitted(attempts: Seq<i64>, now: int) -> bool {
    attempts_within(attempts, now, 60) < 10 && attempts_within(attempts, now, 3600) < 40
}

proof fn lemma_attempts_within_step(attempts: Seq<i64>, k: int, now: int, window: int)
    requires
        0 <= k < attempts.len(),
    ensures
        attempts_within(attempts.take(k + 1), now, window) == attempts_within(attempts.take(k), now, window)
            + if now - window < attempts[k] <= now {
            1nat
        } else {
            0nat
        },
{
    assert(attempts.take(k + 1).drop_last() =~= attempts.take(k));
}

/// Whether one more friend lookup at `now` is allowed after the earlier
/// `attempts` (see `lookup_permitted`).
pub fn lookup_allowed(now: i64, attempts: &Vec<i64>) -> (r: bool)
    ensures
        r == lookup_permitted(attempts@, now as int),
{
    let mut minute: usize = 0;
    let mut hour: usize = 0;
    let mut i: usize = 0;
    while i < attempts.len()
        invariant
            i <= attempts@.len(),
            minute == attempts_within(attempts@.take(i as int), now as int, 60),
            hour == attempts_within(attempts@.take(i as int), now as int, 3600),
            minute <= i,
            hour <= i,
        decreases attempts.len() - i,
    {
        proof {
            lemma_attempts_within_step(attempts@, i as int, now as int, 60);
            lemma_attempts_within_step(attempts@, i as int, now as int, 3600);
        }
        let a = attempts[i];
        let (t, x) = (now as i128, a as i128);
        if t - 60 < x && x <= t {
            minute = minute + 1;
        }
        if t - 3600 < x && x <= t {
            hour = hour + 1;
        }
        i = i + 1;
    }
    proof {
        assert(attempts@.take(attempts@.len() as int) =~= attempts@);
    }
    minute < 10 && hour < 40
}

/// The attempts worth keeping at `now`: those of the last hour.
pub fn recent_attempts(now: i64, attempts: &Vec<i64>) -> (r: Vec<i64>)
    ensures
        r@ == attempts@.filter(|a: i64| now - 3600 < a <= now),
{
    let ghost keep = |a: i64| now - 3600 < a <= now;
    let mut r: Vec<i64> = Vec::new();
    let mut i: usize = 0;
    while i < attempts.len()
        invariant
            i <= attempts@.len(),
            keep == (|a: i64| now - 3600 < a <= now),
            r@ == attempts@.take(i as int).filter(keep),
        decreases attempts.len() - i,
    {
        proof {
            assert(attempts@.take(i + 1).drop_last() =~= attempts@.take(i as int));
            reveal_with_fuel(Seq::<_>::filter, 1);
            assert(attempts@.take(i + 1).last() == attempts@[i as int]);
        }
        let a = attempts[i];
        if (now as i128) - 3600 < (a as i128) && a <= now {
            r.push(a);
        }
        i = i + 1;
    }
    proof {
        assert(attempts@.take(attempts@.len() as int) =~= attempts@);
    }
    r
}

/// A new invite token: 48 random ASCII letters and digits.
pub fn new_invite_token() -> (t: String)
    ensures
        is_alphanumeric_text(t@, 48),
{
    random_alphanumeric(48)
}

/// The link that hands out an invite token: `<site>/?invite=<token>`.
pub fn invite_link(site: &str, token: &str) -> (l: String)
    ensures
        l@ == site@ + "/?invite="@ + token@,
{
    let mut l = site.to_owned();
    l.append("/?invite=");
    l.append(token);
    l
}

/// What an account does about another one.
#[derive(Clone, Copy, Debug, PartialEq, Eq, Structural)]
pub enum ContactAction {
    /// Ask to become friends.
    Request,
    /// Accept the other account's request.
    Accept,
    /// Turn down the other account's request.
    Reject,
    /// Withdraw my own request.
    Cancel,
    /// End the friendship; the conversation so far is kept.
    Remove,
    /// Block the other account; this ends any friendship and pending request.
    Block,
    /// Lift my block; the friendship does not come back.
    Unblock,
}

/// How `action` by account `me` on account `other` changes their relation `p`.
/// `other_active` says whether the other account exists (`None` when it does
/// not) and is active. Whatever is not shown to the caller (no such account,
/// the caller itself, a request that does not exist, a block) is answered as
/// not found.
pub open spec fn contact_decision(
    me: i64,
    other: i64,
    other_active: Option<bool>,
    p: PairState,
    action: ContactAction,
) -> Result<PairState, Refusal> {
    if other_active is None || other == me {
        Err(Refusal::NotFound)
    } else {
        match action {
            ContactAction::Request => if !other_active->0 || p.blocked_by_me || p.blocked_by_them {
                Err(Refusal::NotFound)
            } else if p.friends {
                Err(Refusal::AlreadyFriends)
            } else if p.request_sent || p.request_received {
                Err(Refusal::RequestPending)
            } else {
                Ok(PairState { request_sent: true, ..p })
            },
            ContactAction::Accept => if !p.request_received {
                Err(Refusal::NotFound)
            } else {
                Ok(PairState { friends: true, request_sent: false, request_received: false, ..p })
            },
            ContactAction::Reject => if !p.request_received {
                Err(Refusal::NotFound)
            } else {
                Ok(PairState { request_received: false, ..p })
            },
            ContactAction::Cancel => if !p.request_sent {
                Err(Refusal::NotFound)
            } else {
                Ok(PairState { request_sent: false, ..p })
            },
            ContactAction::Remove => if !p.friends {
                Err(Refusal::NotFound)
            } else {
                Ok(PairState { friends: false, ..p })
            },
            ContactAction::Block => Ok(
                PairState {
                    friends: false,
                    request_sent: false,
                    request_received: false,
                    blocked_by_me: true,
                    blocked_by_them: p.blocked_by_them,
                },
            ),
            ContactAction::Unblock => if !p.blocked_by_me {
                Err(Refusal::NotFound)
            } else {
                Ok(PairState { blocked_by_me: false, ..p })
            },
        }
    }
}

/// Applies `action` by account `me` on account `other` to their relation `p`
/// (see `contact_decision`). Nothing that `me` does changes whether `other`
/// has blocked `me`.
pub fn change_contact(
    me: i64,
    other: i64,
    other_active: Option<bool>,
    p: PairState,
    action: ContactAction,
) -> (r: ApiResult<PairState>)
    ensures
        answers(r, contact_decision(me, other, other_active, p, action)),
        r matches Ok(q) ==> q.blocked_by_them == p.blocked_by_them,
{
    let active = match other_active {
        None => return Err(refuse(Refusal::NotFound)),
        Some(a) => a,
    };
    if other == me {
        return Err(refuse(Refusal::NotFound));
    }
    match action {
        ContactAction::Request => {
            if !active || p.blocked_by_me || p.blocked_by_them {
                Err(refuse(Refusal::NotFound))
            } else if p.friends {
                Err(refuse(Refusal::AlreadyFriends))
            } else if p.request_sent || p.request_received {
                Err(refuse(Refusal::RequestPending))
            } else {
                Ok(PairState { request_sent: true, ..p })
            }
        },
        ContactAction::Accept => {
            if !p.request_received {
                Err(refuse(Refusal::NotFound))
            } else {
                Ok(PairState { friends: true, request_sent: false, request_received: false, ..p })
            }
        },
        ContactAction::Reject => {
            if !p.request_received {
                Err(refuse(Refusal::NotFound))
            } else {
                Ok(PairState { request_received: false, ..p })
            }
        },
        ContactAction::Cancel => {
            if !p.request_sent {
                Err(refuse(Refusal::NotFound))
            } else {
                Ok(PairState { request_sent: false, ..p })
            }
        },
        ContactAction::Remove => {
            if !p.friends {
                Err(refuse(Refusal::NotFound))
            } else {
                Ok(PairState { friends: false, ..p })
            }
        },
        ContactAction::Block => Ok(
            PairState {
                friends: false,
                request_sent: false,
                request_received: false,
                blocked_by_me: true,
                blocked_by_them: p.blocked_by_them,
            },
        ),
        ContactAction::Unblock => {
            if !p.blocked_by_me {
                Err(refuse(Refusal::NotFound))
            } else {
                Ok(PairState { blocked_by_me: false, ..p })
            }
        },
    }
}

} // verus!
