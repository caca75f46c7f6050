use crate::text::{has_prefix, starts_with};
use crate::error::Error;
use crate::types::{BookmarkType, SyncGuid, SyncedBookmarkKind, SyncedBookmarkValidity, Timestamp};
use vstd::prelude::*;

verus! {

/// The record kind of a local item: a bookmark whose URL has the `place:`
/// scheme is a query.
pub open spec fn kind_of_local(typ: BookmarkType, url: Option<Seq<char>>) -> SyncedBookmarkKind {
    match typ {
        BookmarkType::Bookmark => match url {
            Some(u) => if has_prefix(u, "place:"@) {
                SyncedBookmarkKind::Query
            } else {
                SyncedBookmarkKind::Bookmark
            },
            None => SyncedBookmarkKind::Bookmark,
        },
        BookmarkType::Folder => SyncedBookmarkKind::Folder,
        BookmarkType::Separator => SyncedBookmarkKind::Separator,
    }
}

/// Computes the record kind of a local item from its type and URL.
pub fn type_to_kind(typ: BookmarkType, url: Option<&str>) -> (r: SyncedBookmarkKind)
    ensures
        r == kind_of_local(
            typ,
            match url {
                Some(u) => Some(u@),
                None => None,
            },
        ),
{
    match typ {
        BookmarkType::Bookmark => match url {
            Some(u) => if starts_with(u, "place:") {
                SyncedBookmarkKind::Query
            } else {
                SyncedBookmarkKind::Bookmark
            },
            None => SyncedBookmarkKind::Bookmark,
        },
        BookmarkType::Folder => SyncedBookmarkKind::Folder,
        BookmarkType::Separator => SyncedBookmarkKind::Separator,
    }
}

/// An item of a tree handed to the merger.
#[derive(Debug, Clone)]
pub struct TreeItem {
    pub guid: SyncGuid,
    pub kind: SyncedBookmarkKind,
    /// Milliseconds between the sync's reference time and the item's
    /// modification; zero when the item is older than the reference.
    pub age: i64,
    pub needs_merge: bool,
    pub validity: SyncedBookmarkValidity,
}

/// Milliseconds from `since` to `modified`, as a signed count, or zero when
/// `modified` comes first.
pub open spec fn age_of(modified: u64, since: u64) -> i64 {
    if modified >= since {
        (modified - since) as i64
    } else {
        0
    }
}

/// A local item for the merger: its age is measured from the sync's local
/// reference time, and it needs merging when it has unsynced changes.
pub fn local_tree_item(
    guid: SyncGuid,
    typ: BookmarkType,
    url: Option<&str>,
    last_modified: Timestamp,
    sync_change_counter: u32,
    local_time: Timestamp,
) -> (r: TreeItem)
    ensures
        r.guid@ == guid@,
        r.kind == kind_of_local(
            typ,
            match url {
                Some(u) => Some(u@),
                None => None,
            },
        ),
        r.age == age_of(last_modified.0, local_time.0),
        r.needs_merge == (sync_change_counter > 0),
        r.validity == SyncedBookmarkValidity::Valid,
{
    let age = match last_modified.duration_since(local_time) {
        Some(d) => d as i64,
        None => 0,
    };
    TreeItem {
        guid,
        kind: type_to_kind(typ, url),
        age,
        needs_merge: sync_change_counter > 0,
        validity: SyncedBookmarkValidity::Valid,
    }
}

/// A mirror item for the merger: its age is measured from the sync's remote
/// reference time, and it needs merging as the mirror row says.
pub fn remote_tree_item(
    guid: SyncGuid,
    kind: SyncedBookmarkKind,
    server_modified: u64,
    needs_merge: bool,
    validity: SyncedBookmarkValidity,
    remote_time: u64,
) -> (r: TreeItem)
    ensures
        r.guid@ == guid@,
        r.kind == kind,
        r.age == age_of(server_modified, remote_time),
        r.needs_merge == needs_merge,
        r.validity == validity,
{
    let age: i64 = if server_modified >= remote_time {
        (server_modified - remote_time) as i64
    } else {
        0
    };
    TreeItem { guid, kind, age, needs_merge, validity }
}

/// The content fingerprint by which the merger dedupes new items.
#[derive(Debug, Clone)]
pub enum Fingerprint {
    Bookmark { title: String, url_href: String },
    Folder { title: String },
    Separator { position: i64 },
}

/// Which fingerprint a new item gets by its kind: bookmarks and queries share
/// one shape, and livemarks get none.
pub open spec fn content_kind(kind: SyncedBookmarkKind) -> Option<SyncedBookmarkKind> {
    match kind {
        SyncedBookmarkKind::Bookmark | SyncedBookmarkKind::Query => Some(SyncedBookmarkKind::Bookmark),
        SyncedBookmarkKind::Folder => Some(SyncedBookmarkKind::Folder),
        SyncedBookmarkKind::Separator => Some(SyncedBookmarkKind::Separator),
        SyncedBookmarkKind::Livemark => None,
    }
}

/// Whether `c` is the fingerprint of shape `shape` built from the fields.
pub open spec fn content_is(
    c: Fingerprint,
    shape: SyncedBookmarkKind,
    title: String,
    url: Option<String>,
    position: i64,
) -> bool {
    match c {
        Fingerprint::Bookmark { title: t, url_href } => shape == SyncedBookmarkKind::Bookmark && t
            == title && url == Some(url_href),
        Fingerprint::Folder { title: t } => shape == SyncedBookmarkKind::Folder && t == title,
        Fingerprint::Separator { position: p } => shape == SyncedBookmarkKind::Separator && p
            == position,
    }
}

/// Whether a fingerprint of shape `shape` can be made: a bookmark's needs a
/// URL.
pub open spec fn content_ok(shape: Option<SyncedBookmarkKind>, url: Option<String>) -> bool {
    shape == Some(SyncedBookmarkKind::Bookmark) ==> url is Some
}

/// Builds the fingerprint of shape `shape`, if one is wanted.
pub fn content_of_shape(
    shape: Option<SyncedBookmarkKind>,
    title: &String,
    url: &Option<String>,
    position: i64,
) -> (r: Result<Option<Fingerprint>, Error>)
    ensures
        match r {
            Ok(Some(c)) => content_ok(shape, *url) && (shape matches Some(s) && content_is(
                c,
                s,
                *title,
                *url,
                position,
            )),
            Ok(None) => content_ok(shape, *url) && !(shape matches Some(s) && content_kind(s) == Some(
                s,
            )),
            Err(e) => !content_ok(shape, *url) && e == Error::NoUrl,
        },
{
    match shape {
        None => Ok(None),
        Some(SyncedBookmarkKind::Bookmark) => match url {
            Some(u) => Ok(Some(Fingerprint::Bookmark { title: title.clone(), url_href: u.clone() })),
            None => Err(Error::NoUrl),
        },
        Some(SyncedBookmarkKind::Folder) => Ok(Some(Fingerprint::Folder { title: title.clone() })),
        Some(SyncedBookmarkKind::Separator) => Ok(Some(Fingerprint::Separator { position })),
        Some(_) => Ok(None),
    }
}

} // verus!
