use vstd::prelude::*;

use crate::account::{require_admin, Role, User};
use crate::error::{refuse, refused, ApiResult, Refusal};
use crate::text::{contains_pattern, first_chars, take_chars, text_is, trim, trimmed};

verus! {

/// Which conversations the administrator's archive shows.
#[derive(Clone, Copy, Debug, PartialEq, Eq, Structural)]
pub enum Scope {
    All,
    Channel,
    Dm,
}

impl Scope {
    /// The name of the scope in requests and queries.
    pub open spec fn name(self) -> Seq<char> {
        match self {
            Scope::All => "all"@,
            Scope::Channel => "channel"@,
            Scope::Dm => "dm"@,
        }
    }

    /// The name of the scope in requests and queries.
    pub fn as_str(&self) -> (s: &'static str)
        ensures
            s@ == self.name(),
    {
        match self {
            Scope::All => "all",
            Scope::Channel => "channel",
            Scope::Dm => "dm",
        }
    }
}

/// Which messages the administrator's archive shows: all, or only images.
#[derive(Clone, Copy, Debug, PartialEq, Eq, Structural)]
pub enum ContentKind {
    All,
    Images,
}

impl ContentKind {
    /// The name of the kind in requests and queries.
    pub open spec fn name(self) -> Seq<char> {
        match self {
            ContentKind::All => "all"@,
            ContentKind::Images => "images"@,
        }
    }

    /// The name of the kind in requests and queries.
    pub fn as_str(&self) -> (s: &'static str)
        ensures
            s@ == self.name(),
    {
        match self {
            ContentKind::All => "all",
            ContentKind::Images => "images",
        }
    }

    /// How many messages one archive page holds.
    pub open spec fn page_size(self) -> i64 {
        match self {
            ContentKind::Images => 30,
            ContentKind::All => 50,
        }
    }
}

/// The scope called `name`, if any.
pub open spec fn scope_of_name(name: Seq<char>) -> Option<Scope> {
    if name == "all"@ {
        Some(Scope::All)
    } else if name == "channel"@ {
        Some(Scope::Channel)
    } else if name == "dm"@ {
        Some(Scope::Dm)
    } else {
        None
    }
}

/// The kind called `name`, if any.
pub open spec fn kind_of_name(name: Seq<char>) -> Option<ContentKind> {
    if name == "all"@ {
        Some(ContentKind::All)
    } else if name == "images"@ {
        Some(ContentKind::Images)
    } else {
        None
    }
}

/// A name given in a request, or `all` when none is given.
pub open spec fn or_all(name: Option<&str>) -> Seq<char> {
    match name {
        Some(n) => n@,
        None => "all"@,
    }
}

fn scope_named(name: Option<&str>) -> (r: Option<Scope>)
    ensures
        r == scope_of_name(or_all(name)),
{
    let name = match name {
        Some(n) => n,
        None => "all",
    };
    if text_is(name, "all") {
        Some(Scope::All)
    } else if text_is(name, "channel") {
        Some(Scope::Channel)
    } else if text_is(name, "dm") {
        Some(Scope::Dm)
    } else {
        None
    }
}

fn kind_named(name: Option<&str>) -> (r: Option<ContentKind>)
    ensures
        r == kind_of_name(or_all(name)),
{
    let name = match name {
        Some(n) => n,
        None => "all",
    };
    if text_is(name, "all") {
        Some(ContentKind::All)
    } else if text_is(name, "images") {
        Some(ContentKind::Images)
    } else {
        None
    }
}

/// The filter of an archive request.
#[derive(Debug)]
pub struct ArchiveFilter {
    /// The search text: trimmed, at most 100 characters.
    pub q: String,
    /// `%q%`.
    pub pattern: String,
    pub scope: Scope,
    pub kind: ContentKind,
}

/// The search text of an archive request: trimmed, at most 100 characters.
pub open spec fn archive_text(q: Option<&str>) -> Seq<char> {
    match q {
        Some(t) => first_chars(trimmed(t@), 100),
        None => Seq::empty(),
    }
}

/// Checks an archive request: only administrators may read the archive, and
/// the scope (default `all`) and kind (default `all`) must be known names.
pub fn archive_filter(
    admin: &User,
    q: Option<&str>,
    scope: Option<&str>,
    kind: Option<&str>,
) -> (r: ApiResult<ArchiveFilter>)
    ensures
        if admin.role != Role::Admin {
            refused(r, Refusal::NotFound)
        } else {
            match scope_of_name(or_all(scope)) {
                None => refused(r, Refusal::InvalidScope),
                Some(s) => match kind_of_name(or_all(kind)) {
                    None => refused(r, Refusal::InvalidKind),
                    Some(k) => r matches Ok(f) && f.scope == s && f.kind == k && f.q@ == archive_text(
                        q,
                    ) && f.pattern@ == seq!['%'] + archive_text(q) + seq!['%'] && f.q@.len() <= 100,
                },
            }
        },
        r matches Ok(f) ==> f.scope.name() == or_all(scope) && f.kind.name() == or_all(kind),
{
    require_admin(admin)?;
    let text = match q {
        Some(t) => {
            proof {
                crate::text::lemma_first_chars(trimmed(t@), 100);
            }
            take_chars(trim(t), 100)
        },
        None => String::new(),
    };
    let pattern = contains_pattern(text.as_str());
    let scope = match scope_named(scope) {
        Some(s) => s,
        None => return Err(refuse(Refusal::InvalidScope)),
    };
    let kind = match kind_named(kind) {
        Some(k) => k,
        None => return Err(refuse(Refusal::InvalidKind)),
    };
    Ok(ArchiveFilter { q: text, pattern, scope, kind })
}

/// The number of pages that `total` messages fill, pages of `size`; at least one.
pub open spec fn page_count(total: int, size: int) -> int {
    let pages = (total + size - 1) / (size as int);
    if pages < 1 {
        1
    } else {
        pages
    }
}

/// `v` brought into `[lo, hi]`.
pub open spec fn clamp(v: int, lo: int, hi: int) -> int {
    if v < lo {
        lo
    } else if v > hi {
        hi
    } else {
        v
    }
}

/// The page an archive request shows: the one that holds the focused message
/// (with `newer` messages before it) when a message is focused, else the
/// requested page (default 1), kept within the existing pages.
pub open spec fn chosen_page(requested: Option<i64>, newer: Option<i64>, total_pages: int, size: int) -> int {
    match newer {
        Some(n) => clamp((n as int) / size + 1, 1, total_pages),
        None => clamp(
            match requested {
                Some(p) => p as int,
                None => 1,
            },
            1,
            total_pages,
        ),
    }
}

/// One page of the archive.
#[derive(Clone, Copy, Debug, PartialEq, Eq, Structural)]
pub struct ArchivePage {
    pub page: i64,
    pub page_size: i64,
    pub total_pages: i64,
    /// How many matching messages, newest first, come before this page.
    pub offset: i64,
}

fn clamp_i64(v: i64, lo: i64, hi: i64) -> (r: i64)
    requires
        lo <= hi,
    ensures
        r == clamp(v as int, lo as int, hi as int),
{
    if v < lo {
        lo
    } else if v > hi {
        hi
    } else {
        v
    }
}

/// Chooses the archive page for `total` matching messages of `kind`: the
/// requested page, or, when a message is focused, the page holding it, where
/// `newer` counts the matching messages newer than the focused one.
pub fn archive_page(kind: ContentKind, total: i64, requested: Option<i64>, newer: Option<i64>) -> (p:
    ArchivePage)
    requires
        0 <= total,
        newer matches Some(n) ==> 0 <= n,
    ensures
        p.page_size == kind.page_size(),
        p.total_pages == page_count(total as int, p.page_size as int),
        p.page == chosen_page(requested, newer, p.total_pages as int, p.page_size as int),
        p.offset == (p.page - 1) * p.page_size,
        1 <= p.page <= p.total_pages,
        total <= p.total_pages * p.page_size,
        0 <= p.offset <= total,
        newer matches Some(n) ==> (n < total ==> p.offset <= n < p.offset + p.page_size),
{
    let size: i64 = match kind {
        ContentKind::Images => 30,
        ContentKind::All => 50,
    };
    let full = total / size;
    let pages = if total % size != 0 {
        full + 1
    } else {
        full
    };
    proof {
        assert(pages == (total + size - 1) / (size as int)) by (nonlinear_arith)
            requires
                full == total / size,
                total % size != 0 ==> pages == full + 1,
                total % size == 0 ==> pages == full,
                0 <= total,
                size == 30 || size == 50,
        ;
    }
    let total_pages = if pages < 1 {
        1
    } else {
        pages
    };
    let page = match newer {
        Some(n) => clamp_i64(n / size + 1, 1, total_pages),
        None => clamp_i64(
            match requested {
                Some(v) => v,
                None => 1,
            },
            1,
            total_pages,
        ),
    };
    proof {
        assert((page - 1) * size <= total) by (nonlinear_arith)
            requires
                1 <= page <= total_pages,
                total_pages == 1 || total_pages == (total + size - 1) / (size as int),
                0 <= total,
                size == 30 || size == 50,
        ;
        assert(0 <= (page - 1) * size) by (nonlinear_arith)
            requires
                1 <= page,
                size == 30 || size == 50,
        ;
    }
    let offset = (page - 1) * size;
    proof {
        assert(total <= total_pages * size) by (nonlinear_arith)
            requires
                total_pages >= (total + size - 1) / (size as int),
                0 <= total,
                size == 30 || size == 50,
        ;
        if let Some(n) = newer {
            if n < total {
                assert(n / size + 1 <= total_pages) by (nonlinear_arith)
                    requires
                        0 <= n < total,
                        total_pages >= (total + size - 1) / (size as int),
                        size == 30 || size == 50,
                ;
                assert(offset <= n < offset + size) by (nonlinear_arith)
                    requires
                        offset == (n / size + 1 - 1) * size,
                        0 <= n,
                        size == 30 || size == 50,
                ;
            }
        }
    }
    ArchivePage { page, page_size: size, total_pages, offset }
}

/// The files removed and the files that could not be removed while clearing
/// the upload directory.
#[derive(Clone, Copy, Debug, PartialEq, Eq, Structural)]
pub struct CleanupTally {
    pub deleted_files: usize,
    pub failed_files: usize,
}

impl CleanupTally {
    /// Nothing removed, nothing failed.
    pub fn new() -> (t: CleanupTally)
        ensures
            t.deleted_files == 0,
            t.failed_files == 0,
    {
        CleanupTally { deleted_files: 0, failed_files: 0 }
    }
}

/// What happened while walking the upload directory.
#[derive(Clone, Copy, Debug, PartialEq, Eq, Structural)]
pub enum CleanupEvent {
    /// The next entry is a file or a symbolic link.
    FileFound,
    /// The next entry is something else, such as a directory.
    OtherFound,
    /// The next entry's type could not be read.
    TypeUnreadable,
    /// The entry was removed.
    Removed,
    /// The entry could not be removed.
    RemoveFailed,
    /// There are no more entries.
    ListingEnded,
    /// The listing broke off.
    ListingFailed,
}

/// What to do next while walking the upload directory.
#[derive(Clone, Copy, Debug, PartialEq, Eq, Structural)]
pub enum CleanupAction {
    /// Remove the entry just found.
    Remove,
    /// Go on to the next entry.
    Continue,
    /// Stop walking.
    Stop,
}

/// Whether `event` is counted as a failure.
pub open spec fn counts_failure(event: CleanupEvent) -> bool {
    event == CleanupEvent::TypeUnreadable || event == CleanupEvent::RemoveFailed || event
        == CleanupEvent::ListingFailed
}

/// One step of clearing the upload directory: files and links are removed,
/// other entries are left alone, every removal is counted as done or failed,
/// an unreadable entry counts as a failure, and a broken listing counts as a
/// failure and ends the walk.
pub fn cleanup_step(tally: CleanupTally, event: CleanupEvent) -> (r: (CleanupTally, CleanupAction))
    requires
        event == CleanupEvent::Removed ==> tally.deleted_files < usize::MAX,
        counts_failure(event) ==> tally.failed_files < usize::MAX,
    ensures
        r.0.deleted_files == tally.deleted_files + (if event == CleanupEvent::Removed {
            1int
        } else {
            0int
        }),
        r.0.failed_files == tally.failed_files + (if counts_failure(event) {
            1int
        } else {
            0int
        }),
        r.1 == match event {
            CleanupEvent::FileFound => CleanupAction::Remove,
            CleanupEvent::ListingEnded | CleanupEvent::ListingFailed => CleanupAction::Stop,
            _ => CleanupAction::Continue,
        },
{
    match event {
        CleanupEvent::FileFound => (tally, CleanupAction::Remove),
        CleanupEvent::OtherFound => (tally, CleanupAction::Continue),
        CleanupEvent::TypeUnreadable => (
            CleanupTally { deleted_files: tally.deleted_files, failed_files: tally.failed_files + 1 },
            CleanupAction::Continue,
        ),
        CleanupEvent::Removed => (
            CleanupTally { deleted_files: tally.deleted_files + 1, failed_files: tally.failed_files },
            CleanupAction::Continue,
        ),
        CleanupEvent::RemoveFailed => (
            CleanupTally { deleted_files: tally.deleted_files, failed_files: tally.failed_files + 1 },
            CleanupAction::Continue,
        ),
        CleanupEvent::ListingEnded => (tally, CleanupAction::Stop),
        CleanupEvent::ListingFailed => (
            CleanupTally { deleted_files: tally.deleted_files, failed_files: tally.failed_files + 1 },
            CleanupAction::Stop,
        ),
    }
}

} // verus!
