use vstd::prelude::*;

use crate::account::{
    bearer_token, cleaned_username, is_valid_username, login_decision, StoredAccount, User,
};
use crate::contacts::{
    attempts_within, contact_decision, lookup_permitted, may_contact, ContactAction, PairState,
};
use crate::archive::{kind_of_name, scope_of_name, ContentKind, Scope};
use crate::chat::{safe_char, safe_file_name};
use crate::error::Refusal;
use crate::live::{is_call_event_type, is_signal_type, signal_recipient, visible_to, EventFields};
use crate::secret::phc_check;
use crate::text::{
    all_blank, ascii_lower, ascii_upper, is_ascii_capital, is_white_space, leading_blanks,
    lemma_ascii_lower,
    lemma_leading_blanks_bound, lemma_lowercase_has_no_capitals, lemma_trailing_blanks_bound,
    lemma_trimmed_padded, lemma_trimmed_upper, lemma_trimmed_unchanged, trimmed,
};

verus! {

/// A password logs in against the hash that registering with it stored (the
/// hash that `prepare_registration` and `hash_password` promise checks out
/// against it), as long as the account is active.
pub proof fn law_registered_password_logs_in(account: StoredAccount, password: Seq<char>)
    requires
        account.user.active,
        phc_check(password, account.password_hash@) == Some(true),
    ensures
        login_decision(Some(account), phc_check(password, account.password_hash@)) == Ok::<
            User,
            Refusal,
        >(account.user),
{
}

/// A session token is accepted back when a client presents it as
/// `Bearer <token>` in the `Authorization` header.
pub proof fn law_bearer_header_carries_token(token: Seq<char>)
    ensures
        bearer_token("Bearer "@ + token) == Some(token),
{
    let h = "Bearer "@ + token;
    assert(h.take("Bearer "@.len() as int) =~= "Bearer "@);
    assert(h.skip("Bearer "@.len() as int) =~= token);
}

/// A stored username (valid, without capital letters) is accepted by
/// `clean_username` unchanged, so an account can always log in under the name
/// registration gave back; and cleaning a username that cleaning gave back
/// changes nothing.
pub proof fn law_clean_username_is_stable(value: Seq<char>)
    ensures
        is_valid_username(value) && (forall|i: int| 0 <= i < value.len() ==> !is_ascii_capital(#[trigger] value[i]))
            ==> cleaned_username(value) == value,
        is_valid_username(cleaned_username(value)) ==> cleaned_username(cleaned_username(value))
            == cleaned_username(value),
{
    assert forall|v: Seq<char>|
        is_valid_username(v) && (forall|i: int| 0 <= i < v.len() ==> !is_ascii_capital(#[trigger] v[i]))
            implies cleaned_username(v) == v by {
        lemma_valid_username_is_plain(v);
    }
    let v = cleaned_username(value);
    if is_valid_username(v) {
        lemma_lowercase_has_no_capitals(trimmed(value));
        lemma_valid_username_is_plain(v);
    }
}

/// For ASCII text, neither the case of its letters nor white space around it
/// changes the username it stands for.
pub proof fn law_username_ignores_case_and_blanks(s: Seq<char>, before: Seq<char>, after: Seq<char>)
    requires
        vstd::utf8::is_ascii_chars(s),
        all_blank(before),
        all_blank(after),
    ensures
        cleaned_username(before + s.map_values(|c: char| ascii_upper(c)) + after) == cleaned_username(s),
{
    let u = s.map_values(|c: char| ascii_upper(c));
    lemma_trimmed_padded(before, u, after);
    lemma_trimmed_upper(s);
    let t = trimmed(s);
    lemma_leading_blanks_bound(s);
    lemma_trailing_blanks_bound(s);
    assert(vstd::utf8::is_ascii_chars(t)) by {
        assert forall|i: int| 0 <= i < t.len() implies '\0' <= #[trigger] t[i] <= '\u{7f}' by {
            assert(t[i] == s[i + leading_blanks(s)]);
        }
    }
    let tu = t.map_values(|c: char| ascii_upper(c));
    assert(vstd::utf8::is_ascii_chars(tu)) by {
        assert forall|i: int| 0 <= i < tu.len() implies '\0' <= #[trigger] tu[i] <= '\u{7f}' by {
            lemma_ascii_lower(t[i]);
        }
    }
    let a = tu.map_values(|c: char| ascii_lower(c));
    let b = t.map_values(|c: char| ascii_lower(c));
    assert(a =~= b) by {
        assert forall|i: int| 0 <= i < t.len() implies #[trigger] a[i] == b[i] by {
            lemma_ascii_lower(t[i]);
        }
    }
}

proof fn lemma_valid_username_is_plain(v: Seq<char>)
    requires
        is_valid_username(v),
        forall|i: int| 0 <= i < v.len() ==> !is_ascii_capital(#[trigger] v[i]),
    ensures
        cleaned_username(v) == v,
{
    assert(!is_white_space(v[0]));
    assert(!is_white_space(v.last()));
    lemma_trimmed_unchanged(v);
    assert(vstd::utf8::is_ascii_chars(v));
    assert(v.map_values(|c: char| ascii_lower(c)) =~= v);
}

/// A relayed call signal, once the server has marked it as coming from its
/// sender, reaches exactly two accounts: its target and its sender.
pub proof fn law_relayed_signal_reaches_only_its_parties(
    text_bytes: usize,
    signal: EventFields,
    sender: i64,
    viewer: i64,
)
    requires
        signal_recipient(text_bytes, Some(signal), sender) is Some,
    ensures
        ({
            let target = signal_recipient(text_bytes, Some(signal), sender)->0;
            let relayed = EventFields { from_id: Some(sender), ..signal };
            &&& target != sender
            &&& target > 0
            &&& (visible_to(Some(relayed), viewer) <==> (viewer == target || viewer == sender))
        }),
{
    reveal_strlit("call_");
    reveal_strlit("call_offer");
    reveal_strlit("call_answer");
    reveal_strlit("call_end");
    reveal_strlit("call_reject");
    let t = signal.event_type@;
    assert(is_signal_type(t));
    if t != "ice_candidate"@ {
        assert(t.take(5) =~= "call_"@);
    }
    assert(is_call_event_type(t));
}

/// A new direct message's event (type `message`, scope `dm`) reaches exactly
/// its recipient and its sender; a new channel message's event (scope
/// `channel`) reaches everyone.
pub proof fn law_message_events_reach_their_audience(event: EventFields, viewer: i64)
    requires
        event.event_type@ == "message"@,
    ensures
        event.scope matches Some(s) && s@ == "dm"@ ==> (visible_to(Some(event), viewer) <==> (
        event.recipient_id == Some(viewer) || event.message_sender_id == Some(viewer))),
        event.scope matches Some(s) && s@ == "channel"@ ==> visible_to(Some(event), viewer),
{
    reveal_strlit("message");
    reveal_strlit("call_");
    reveal_strlit("ice_candidate");
    reveal_strlit("dm");
    reveal_strlit("channel");
    let t = event.event_type@;
    assert(t.take(5) != "call_"@) by {
        assert(t.take(5)[0] == 'm');
    }
    assert(t != "ice_candidate"@) by {
        assert(t.len() != "ice_candidate"@.len());
    }
    if let Some(s) = event.scope {
        if s@ == "channel"@ {
            assert(s@ != "dm"@) by {
                assert(s@.len() != "dm"@.len());
            }
        }
    }
}

/// Blocking ends all contact: afterwards neither account may write to or call
/// the other, and neither may ask the other for friendship again.
pub proof fn law_blocking_ends_contact(me: i64, other: i64, other_active: Option<bool>, p: PairState)
    ensures
        contact_decision(me, other, other_active, p, ContactAction::Block) matches Ok(q) ==> {
            &&& !may_contact(q)
            &&& !may_contact(q.mirror())
            &&& contact_decision(me, other, Some(true), q, ContactAction::Request) == Err::<
                PairState,
                Refusal,
            >(Refusal::NotFound)
            &&& contact_decision(other, me, Some(true), q.mirror(), ContactAction::Request) == Err::<
                PairState,
                Refusal,
            >(Refusal::NotFound)
        },
{
}

/// Two accounts become friends only when one accepts a request that the other
/// sent; no other action makes friends.
pub proof fn law_only_acceptance_makes_friends(
    me: i64,
    other: i64,
    other_active: Option<bool>,
    p: PairState,
    action: ContactAction,
)
    ensures
        contact_decision(me, other, other_active, p, action) matches Ok(q) ==> (!p.friends && q.friends
            ==> action == ContactAction::Accept && p.request_received),
{
}

/// A request that one account sent can be accepted by the other, after which
/// the two may write to and call each other.
pub proof fn law_accepted_request_makes_contacts(me: i64, other: i64, p: PairState)
    ensures
        contact_decision(me, other, Some(true), p, ContactAction::Request) matches Ok(q) ==> (
        contact_decision(other, me, Some(true), q.mirror(), ContactAction::Accept) matches Ok(f)
            && may_contact(f) && may_contact(f.mirror())),
{
}

/// Logging in after registering: whatever name the user types, if it cleans
/// to the name that registration stored, it finds that account, and the
/// password given at registration logs it in while it is active.
pub proof fn law_login_after_registration(
    registered_as: Seq<char>,
    typed: Seq<char>,
    password: Seq<char>,
    account: StoredAccount,
)
    requires
        is_valid_username(cleaned_username(registered_as)),
        account.user.username@ == cleaned_username(registered_as),
        phc_check(password, account.password_hash@) == Some(true),
        account.user.active,
        cleaned_username(typed) == cleaned_username(registered_as),
    ensures
        is_valid_username(cleaned_username(typed)),
        cleaned_username(typed) == account.user.username@,
        login_decision(Some(account), phc_check(password, account.password_hash@)) == Ok::<
            User,
            Refusal,
        >(account.user),
{
}

proof fn lemma_attempts_within_recent(attempts: Seq<i64>, now: int, window: int)
    requires
        0 <= window <= 3600,
    ensures
        attempts_within(attempts.filter(|a: i64| now - 3600 < a <= now), now, window)
            == attempts_within(attempts, now, window),
    decreases attempts.len(),
{
    reveal_with_fuel(Seq::<_>::filter, 1);
    if attempts.len() > 0 {
        lemma_attempts_within_recent(attempts.drop_last(), now, window);
        let f = attempts.drop_last().filter(|a: i64| now - 3600 < a <= now);
        if now - 3600 < attempts.last() <= now {
            assert(f.push(attempts.last()).drop_last() =~= f);
        }
    }
}

/// Forgetting the lookups older than an hour never changes whether the next
/// lookup is allowed.
pub proof fn law_forgetting_old_lookups_is_safe(attempts: Seq<i64>, now: int)
    ensures
        lookup_permitted(attempts.filter(|a: i64| now - 3600 < a <= now), now) == lookup_permitted(
            attempts,
            now,
        ),
{
    lemma_attempts_within_recent(attempts, now, 60);
    lemma_attempts_within_recent(attempts, now, 3600);
}

/// Whether `t` names a call event: it starts with `call_` or is `ice_candidate`.
pub open spec fn names_call(t: Seq<char>) -> bool {
    ("call_"@.len() <= t.len() && t.take("call_"@.len() as int) == "call_"@) || t == "ice_candidate"@
}

/// Who receives a live event. An event of any non-call type whose scope is
/// `dm` (a new, edited or deleted direct message) reaches exactly its
/// recipient and its message's sender. A call event reaches exactly the two
/// parties of the call, whatever its scope. Any other event reaches every
/// account, and so does an event that could not be read.
pub proof fn law_event_audience(e: EventFields, viewer: i64)
    ensures
        !names_call(e.event_type@) && (e.scope matches Some(s) && s@ == "dm"@) ==> (visible_to(
            Some(e),
            viewer,
        ) <==> (e.recipient_id == Some(viewer) || e.message_sender_id == Some(viewer))),
        names_call(e.event_type@) ==> (visible_to(Some(e), viewer) <==> (e.to_user_id == Some(viewer)
            || e.from_id == Some(viewer))),
        !names_call(e.event_type@) && !(e.scope matches Some(s) && s@ == "dm"@) ==> visible_to(
            Some(e),
            viewer,
        ),
        visible_to(None, viewer),
{
}

/// Which call signals are relayed. Each of the five signal types (`call_offer`,
/// `call_answer`, `ice_candidate`, `call_end`, `call_reject`) is relayed to its
/// `to_user_id` whenever the text is at most 64 KiB and that id is positive
/// and not the sender's; nothing else is relayed, and a relayed signal always
/// goes to the id it names.
pub proof fn law_signals_relayed(text_bytes: usize, s: EventFields, sender: i64)
    ensures
        ({
            let t = s.event_type@;
            let named = t == "call_offer"@ || t == "call_answer"@ || t == "ice_candidate"@ || t
                == "call_end"@ || t == "call_reject"@;
            &&& (named && text_bytes <= 65536 && s.to_user_id is Some && s.to_user_id->0 > 0
                && s.to_user_id->0 != sender) ==> signal_recipient(text_bytes, Some(s), sender)
                == s.to_user_id
            &&& signal_recipient(text_bytes, Some(s), sender) matches Some(target) ==> (named
                && text_bytes <= 65536 && s.to_user_id == Some(target) && target > 0 && target
                != sender)
        }),
        signal_recipient(text_bytes, None, sender) is None,
{
}

/// Contact (direct messages, calls, profile views) is allowed exactly between
/// friends that neither blocked: a pending request in either direction, or a
/// block on either side, never permits it.
pub proof fn law_contact_needs_friendship(p: PairState)
    ensures
        may_contact(p) <==> (p.friends && !p.blocked_by_me && !p.blocked_by_them),
        !p.friends ==> !may_contact(p),
        may_contact(p) == may_contact(p.mirror()),
{
}

/// The archive scope and kind a request names are the ones chosen: a name is
/// accepted only as the scope (or kind) called by that name, and every scope
/// and kind is accepted under its own name.
pub proof fn law_archive_names_round_trip(n: Seq<char>, s: Scope, k: ContentKind)
    ensures
        scope_of_name(n) matches Some(x) ==> x.name() == n,
        scope_of_name(s.name()) == Some(s),
        kind_of_name(n) matches Some(x) ==> x.name() == n,
        kind_of_name(k.name()) == Some(k),
        scope_of_name("all"@) == Some(Scope::All),
        scope_of_name("channel"@) == Some(Scope::Channel),
        scope_of_name("dm"@) == Some(Scope::Dm),
        kind_of_name("all"@) == Some(ContentKind::All),
        kind_of_name("images"@) == Some(ContentKind::Images),
{
    reveal_strlit("all");
    reveal_strlit("channel");
    reveal_strlit("dm");
    reveal_strlit("images");
    assert("all"@ != "channel"@) by {
        assert("all"@.len() != "channel"@.len());
    }
    assert("all"@ != "dm"@) by {
        assert("all"@.len() != "dm"@.len());
    }
    assert("channel"@ != "dm"@) by {
        assert("channel"@.len() != "dm"@.len());
    }
    assert("all"@ != "images"@) by {
        assert("all"@.len() != "images"@.len());
    }
}

/// Whether `c` is an ASCII letter of either case, a digit, `.`, `-` or `_`.
pub open spec fn keeps(c: char) -> bool {
    ('a' <= c <= 'z') || ('A' <= c <= 'Z') || ('0' <= c <= '9') || c == '.' || c == '-' || c == '_'
}

/// Sanitising an upload's name keeps every ASCII letter (either case), digit,
/// `.`, `-` and `_` where it stands and replaces every other character by `_`;
/// a name of at most 100 such characters is kept whole, and a longer one is
/// cut to its first 100 characters.
pub proof fn law_upload_names_keep_safe_characters(name: Seq<char>, c: char)
    ensures
        keeps(c) ==> safe_char(c) == c,
        !keeps(c) ==> safe_char(c) == '_',
        safe_file_name(name).len() == if name.len() <= 100 {
            name.len()
        } else {
            100
        },
        forall|i: int|
            0 <= i < safe_file_name(name).len() ==> #[trigger] safe_file_name(name)[i] == if keeps(
                name[i],
            ) {
                name[i]
            } else {
                '_'
            },
        name.len() <= 100 && (forall|i: int| 0 <= i < name.len() ==> keeps(#[trigger] name[i]))
            ==> safe_file_name(name) == name,
{
    let m = name.map_values(|x: char| safe_char(x));
    crate::text::lemma_first_chars(m, 100);
    assert forall|i: int|
        0 <= i < safe_file_name(name).len() implies #[trigger] safe_file_name(name)[i] == if keeps(
            name[i],
        ) {
            name[i]
        } else {
            '_'
        } by {
        assert(safe_file_name(name)[i] == m[i]);
    }
    if name.len() <= 100 && (forall|i: int| 0 <= i < name.len() ==> keeps(#[trigger] name[i])) {
        assert(safe_file_name(name) =~= name) by {
            assert forall|i: int| 0 <= i < name.len() implies #[trigger] safe_file_name(name)[i]
                == name[i] by {
                assert(safe_file_name(name)[i] == m[i]);
            }
        }
    }
}

} // verus!
