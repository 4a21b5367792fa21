use vstd::prelude::*;
use vstd::string::StringExecFns;

use crate::account::{Role, User};
use crate::error::{refuse, refused, refuses, ApiResult, Refusal};
use crate::secret::{is_alphanumeric, is_alphanumeric_text, random_alphanumeric};
use crate::text::{byte_len, contains_pattern, first_chars, lowercase, push_char, take_chars, to_lowercase, trim, trimmed};

verus! {

broadcast use vstd::string::group_string_axioms;

/// A channel about to be created.
#[derive(Debug)]
pub struct ChannelDraft {
    pub name: String,
    pub description: String,
}

/// The channel name that `value` stands for: trimmed, then lowercased.
pub open spec fn cleaned_channel_name(value: Seq<char>) -> Seq<char> {
    lowercase(trimmed(value))
}

/// Whether a cleaned channel name is acceptable: not empty, at most 32 bytes.
pub open spec fn channel_name_fits(name: Seq<char>) -> bool {
    name.len() > 0 && byte_len(name) <= 32
}

/// The description that `value` stands for: trimmed, at most 120 characters.
pub open spec fn cleaned_description(value: Option<&str>) -> Seq<char> {
    match value {
        Some(d) => first_chars(trimmed(d@), 120),
        None => Seq::empty(),
    }
}

/// Accepts an already normalised channel name when it is 1 to 32 bytes long,
/// with the description trimmed and cut to 120 characters.
pub fn accept_channel(name: String, description: Option<&str>) -> (r: ApiResult<ChannelDraft>)
    ensures
        if channel_name_fits(name@) {
            r matches Ok(c) && c.name@ == name@ && c.description@ == cleaned_description(description)
                && c.description@.len() <= 120
        } else {
            refused(r, Refusal::InvalidChannelName)
        },
{
    let len = name.as_str().len();
    if name.as_str().is_empty() || len > 32 {
        return Err(refuse(Refusal::InvalidChannelName));
    }
    let description = match description {
        Some(d) => {
            proof {
                crate::text::lemma_first_chars(trimmed(d@), 120);
            }
            take_chars(trim(d), 120)
        },
        None => String::new(),
    };
    Ok(ChannelDraft { name, description })
}

/// Checks a request for a new channel: the name is trimmed and lowercased and
/// must be 1 to 32 bytes long; the description is trimmed and cut to 120
/// characters.
pub fn new_channel(name: &str, description: Option<&str>) -> (r: ApiResult<ChannelDraft>)
    ensures
        ({
            let n = cleaned_channel_name(name@);
            if channel_name_fits(n) {
                r matches Ok(c) && c.name@ == n && c.description@ == cleaned_description(description)
                    && c.description@.len() <= 120
            } else {
                refused(r, Refusal::InvalidChannelName)
            }
        }),
{
    accept_channel(to_lowercase(trim(name)), description)
}

/// The channel that the first account brings with it.
pub fn general_channel() -> (c: ChannelDraft)
    ensures
        c.name@ == "general"@,
        c.description@ == "欢迎来到 LumiChat"@,
{
    ChannelDraft { name: String::from_str("general"), description: String::from_str("欢迎来到 LumiChat") }
}

/// The text that a message body `value` stands for: trimmed, at most 4000 characters.
pub open spec fn cleaned_body(value: Seq<char>) -> Seq<char> {
    first_chars(trimmed(value), 4000)
}

/// A message about to be sent.
#[derive(Debug)]
pub struct OutgoingMessage {
    pub body: String,
    pub file_url: Option<String>,
}

/// Checks a new message: the body is trimmed and cut to 4000 characters, and
/// a message with neither text nor attachment is refused.
pub fn compose_message(body: &str, file_url: Option<String>) -> (r: ApiResult<OutgoingMessage>)
    ensures
        ({
            let b = cleaned_body(body@);
            if b.len() == 0 && file_url is None {
                refused(r, Refusal::EmptyMessage)
            } else {
                r matches Ok(m) && m.body@ == b && m.file_url == file_url && m.body@.len() <= 4000
            }
        }),
{
    proof {
        crate::text::lemma_first_chars(trimmed(body@), 4000);
    }
    let body = take_chars(trim(body), 4000);
    if body.as_str().is_empty() && file_url.is_none() {
        return Err(refuse(Refusal::EmptyMessage));
    }
    Ok(OutgoingMessage { body, file_url })
}

/// Checks the new text of an edited message, which may not be blank.
pub fn edited_body(body: &str) -> (r: ApiResult<String>)
    ensures
        match r {
            Ok(b) => cleaned_body(body@).len() > 0 && b@ == cleaned_body(body@) && b@.len() <= 4000,
            Err(e) => cleaned_body(body@).len() == 0 && refuses(e, Refusal::EmptyMessage),
        },
{
    proof {
        crate::text::lemma_first_chars(trimmed(body@), 4000);
    }
    let body = take_chars(trim(body), 4000);
    if body.as_str().is_empty() {
        return Err(refuse(Refusal::EmptyMessage));
    }
    Ok(body)
}

/// Where a stored message was sent: to a channel or to one account.
#[derive(Clone, Copy, Debug, PartialEq, Eq, Structural)]
pub struct MessageRecord {
    pub sender_id: i64,
    pub channel_id: Option<i64>,
    pub recipient_id: Option<i64>,
}

/// Who an event about a stored message is addressed to.
#[derive(Clone, Copy, Debug, PartialEq, Eq, Structural)]
pub enum Audience {
    /// Everyone who reads the channel.
    Channel { channel_id: i64 },
    /// The two accounts of a direct conversation.
    Direct { recipient_id: Option<i64>, sender_id: i64 },
}

impl MessageRecord {
    /// Who an event about this message is addressed to: its channel when it
    /// was posted in one, else its recipient and sender.
    pub fn audience(&self) -> (a: Audience)
        ensures
            a == match self.channel_id {
                Some(c) => Audience::Channel { channel_id: c },
                None => Audience::Direct { recipient_id: self.recipient_id, sender_id: self.sender_id },
            },
    {
        match self.channel_id {
            Some(c) => Audience::Channel { channel_id: c },
            None => Audience::Direct { recipient_id: self.recipient_id, sender_id: self.sender_id },
        }
    }
}

/// Lets the sender edit their message; nobody else may.
pub fn authorize_edit(user: &User, found: Option<MessageRecord>) -> (r: ApiResult<MessageRecord>)
    ensures
        match found {
            None => refused(r, Refusal::MessageMissing),
            Some(m) => if m.sender_id == user.id {
                r matches Ok(k) && k == m
            } else {
                refused(r, Refusal::NotOwnMessage)
            },
        },
{
    match found {
        None => Err(refuse(Refusal::MessageMissing)),
        Some(m) => {
            if m.sender_id != user.id {
                return Err(refuse(Refusal::NotOwnMessage));
            }
            Ok(m)
        },
    }
}

/// Lets the sender or an administrator delete a message; nobody else may.
pub fn authorize_delete(user: &User, found: Option<MessageRecord>) -> (r: ApiResult<MessageRecord>)
    ensures
        match found {
            None => refused(r, Refusal::MessageMissing),
            Some(m) => if m.sender_id == user.id || user.role == Role::Admin {
                r matches Ok(k) && k == m
            } else {
                refused(r, Refusal::DeleteForbidden)
            },
        },
{
    match found {
        None => Err(refuse(Refusal::MessageMissing)),
        Some(m) => {
            if m.sender_id != user.id && user.role != Role::Admin {
                return Err(refuse(Refusal::DeleteForbidden));
            }
            Ok(m)
        },
    }
}

/// The newest message id that a history page may hold: before `before`, or
/// any message when none is given.
pub fn history_before(before: Option<i64>) -> (b: i64)
    ensures
        b == match before {
            Some(v) => v,
            None => i64::MAX,
        },
{
    match before {
        Some(v) => v,
        None => i64::MAX,
    }
}

/// The LIKE pattern for a channel history filter: any body containing `q`.
pub fn history_pattern(q: Option<&str>) -> (p: String)
    ensures
        p@ == seq!['%'] + match q {
            Some(t) => t@,
            None => Seq::empty(),
        } + seq!['%'],
{
    match q {
        Some(t) => contains_pattern(t),
        None => {
            let empty = String::new();
            contains_pattern(empty.as_str())
        },
    }
}

/// The LIKE pattern for a search: the trimmed text, which must be at least 2
/// bytes long.
pub fn search_pattern(q: &str) -> (r: ApiResult<String>)
    ensures
        ({
            let t = trimmed(q@);
            if byte_len(t) < 2 {
                refused(r, Refusal::QueryTooShort)
            } else {
                r matches Ok(p) && p@ == seq!['%'] + t + seq!['%']
            }
        }),
{
    let t = trim(q);
    if t.len() < 2 {
        return Err(refuse(Refusal::QueryTooShort));
    }
    Ok(contains_pattern(t))
}

/// Puts a page of messages read newest first into reading order, oldest first.
pub fn oldest_first<T>(rows: Vec<T>) -> (r: Vec<T>)
    ensures
        r@ == rows@.reverse(),
{
    let mut rows = rows;
    let ghost original = rows@;
    let mut r: Vec<T> = Vec::new();
    while rows.len() > 0
        invariant
            rows@ == original.take(rows@.len() as int),
            rows@.len() <= original.len(),
            r@ == original.skip(rows@.len() as int).reverse(),
        decreases rows@.len(),
    {
        let ghost before = rows@;
        let x = rows.pop().unwrap();
        r.push(x);
        proof {
            let k = rows@.len() as int;
            assert(rows@ =~= original.take(k));
            assert(original.skip(k).reverse() =~= original.skip(k + 1).reverse().push(
                original[k],
            ));
        }
    }
    assert(original.skip(0) =~= original);
    r
}

/// Whether `c` may stand in a stored file name.
pub open spec fn is_safe_name_char(c: char) -> bool {
    is_alphanumeric(c) || c == '.' || c == '-' || c == '_'
}

/// `c` if it may stand in a stored file name, else `_`.
pub open spec fn safe_char(c: char) -> char {
    if is_safe_name_char(c) {
        c
    } else {
        '_'
    }
}

/// The stored form of an uploaded file's name: unsafe characters replaced by
/// `_`, at most 100 characters.
pub open spec fn safe_file_name(name: Seq<char>) -> Seq<char> {
    first_chars(name.map_values(|c: char| safe_char(c)), 100)
}

/// Whether `name` is a single, harmless file name: not empty, starting with an
/// ASCII letter or digit (so never `.` or `..`), and made only of ASCII
/// letters, digits, `.`, `-` and `_` (so holding no path separator).
pub open spec fn is_safe_path_component(name: Seq<char>) -> bool {
    &&& name.len() > 0
    &&& is_alphanumeric(name[0])
    &&& forall|i: int| 0 <= i < name.len() ==> is_safe_name_char(#[trigger] name[i])
}

/// The sanitised form of a name holds only safe characters and at most 100 of them.
pub proof fn lemma_safe_file_name(name: Seq<char>)
    ensures
        safe_file_name(name).len() <= 100,
        forall|i: int|
            0 <= i < safe_file_name(name).len() ==> is_safe_name_char(#[trigger] safe_file_name(name)[i]),
{
    let mapped = name.map_values(|c: char| safe_char(c));
    crate::text::lemma_first_chars(mapped, 100);
    assert forall|i: int| 0 <= i < safe_file_name(name).len() implies is_safe_name_char(
        #[trigger] safe_file_name(name)[i],
    ) by {
        assert(safe_file_name(name)[i] == mapped[i]);
        assert(mapped[i] == safe_char(name[i]));
    }
}

/// The name an upload is known by: the one it came with, or `file`.
pub open spec fn upload_original(file_name: Option<&str>) -> Seq<char> {
    match file_name {
        Some(n) => n@,
        None => "file"@,
    }
}

/// Where an upload is stored and served.
#[derive(Debug)]
pub struct StoredUpload {
    pub original: String,
    pub prefix: String,
    pub stored_name: String,
    pub url: String,
}

/// Replaces unsafe characters of `name` by `_` and keeps the first 100.
fn sanitize_file_name(name: &str) -> (r: String)
    ensures
        r@ == safe_file_name(name@),
{
    let mut r = String::new();
    let mut k: usize = 0;
    let ghost mapped = name@.map_values(|c: char| safe_char(c));
    for c in it: name.chars()
        invariant
            it.seq() == name@,
            mapped == name@.map_values(|c: char| safe_char(c)),
            k <= 100,
            k == it.index() || (k == 100 && it.index() >= 100),
            r@ == first_chars(mapped.take(it.index() as int), 100),
    {
        let ghost i = it.index();
        proof {
            assert(mapped.take(i + 1) =~= mapped.take(i).push(mapped[i]));
        }
        if k < 100 {
            let s = if ('a' <= c && c <= 'z') || ('A' <= c && c <= 'Z') || ('0' <= c && c <= '9')
                || c == '.' || c == '-' || c == '_' {
                c
            } else {
                '_'
            };
            push_char(&mut r, s);
        } else {
            proof {
                assert(mapped.take(i + 1).take(100) =~= mapped.take(i).take(100));
            }
        }
        if k < 100 {
            k = k + 1;
        }
    }
    assert(mapped.take(mapped.len() as int) =~= mapped);
    r
}

/// Names an upload after `prefix`: the prefix, a hyphen and the sanitised
/// original name, served under `/uploads/`.
pub fn name_upload(file_name: Option<&str>, prefix: String) -> (u: StoredUpload)
    ensures
        u.original@ == upload_original(file_name),
        u.prefix@ == prefix@,
        u.stored_name@ == u.prefix@ + seq!['-'] + safe_file_name(u.original@),
        u.url@ == "/uploads/"@ + u.stored_name@,
        is_alphanumeric_text(prefix@, 12) ==> is_safe_path_component(u.stored_name@),
{
    let original = match file_name {
        Some(n) => String::from_str(n),
        None => String::from_str("file"),
    };
    let safe = sanitize_file_name(original.as_str());
    let mut stored_name = prefix.clone();
    push_char(&mut stored_name, '-');
    stored_name.append(safe.as_str());
    let mut url = String::from_str("/uploads/");
    url.append(stored_name.as_str());
    proof {
        lemma_safe_file_name(original@);
        let n = stored_name@;
        if is_alphanumeric_text(prefix@, 12) {
            assert forall|i: int| 0 <= i < n.len() implies is_safe_name_char(#[trigger] n[i]) by {
                if i < 12 {
                    assert(n[i] == prefix@[i]);
                } else if i == 12 {
                    assert(n[i] == '-');
                } else {
                    assert(n[i] == safe@[i - 13]);
                }
            }
            assert(n[0] == prefix@[0]);
        }
    }
    StoredUpload { original, prefix, stored_name, url }
}

/// Names an upload: a random 12-character prefix, a hyphen and the sanitised
/// original name, served under `/uploads/`. The stored name is always a single
/// harmless file name.
pub fn plan_upload(file_name: Option<&str>) -> (u: StoredUpload)
    ensures
        u.original@ == upload_original(file_name),
        is_alphanumeric_text(u.prefix@, 12),
        u.stored_name@ == u.prefix@ + seq!['-'] + safe_file_name(u.original@),
        u.url@ == "/uploads/"@ + u.stored_name@,
        is_safe_path_component(u.stored_name@),
{
    name_upload(file_name, random_alphanumeric(12))
}

} // verus!
