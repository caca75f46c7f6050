use vstd::prelude::*;

verus! {

/// An opaque identifier of a bookmark item. Validity is not checked: an item
/// with a malformed GUID is given a fresh one by the merger.
#[derive(Debug, Clone, Hash)]
pub struct SyncGuid(pub String);

impl View for SyncGuid {
    type V = Seq<char>;

    open spec fn view(&self) -> Seq<char> {
        self.0@
    }
}

impl SyncGuid {
    /// The characters of the GUID.
    pub fn as_str(&self) -> (r: &str)
        ensures
            r@ == self@,
    {
        self.0.as_str()
    }

    /// A copy with the same characters.
    pub fn cloned(&self) -> (r: SyncGuid)
        ensures
            r@ == self@,
    {
        SyncGuid(self.0.clone())
    }
}

/// The characters of an optional GUID.
pub open spec fn opt_guid_view(g: Option<SyncGuid>) -> Option<Seq<char>> {
    match g {
        Some(g) => Some(g@),
        None => None,
    }
}

/// Milliseconds since the Unix epoch.
#[derive(Debug, Clone, Copy, PartialEq, Eq, Structural, Default)]
pub struct Timestamp(pub u64);

impl Timestamp {
    /// Milliseconds from `earlier` to `self`; `None` when `earlier` is later.
    pub fn duration_since(&self, earlier: Timestamp) -> (r: Option<u64>)
        ensures
            r == (if self.0 >= earlier.0 {
                Some((self.0 - earlier.0) as u64)
            } else {
                None::<u64>
            }),
    {
        if self.0 >= earlier.0 {
            Some(self.0 - earlier.0)
        } else {
            None
        }
    }
}

/// The integer key of a row in the store.
#[derive(Debug, Clone, Copy, PartialEq, Eq, Structural, Default)]
pub struct RowId(pub i64);

/// How a history visit came about, with the codes that the store records.
#[derive(Debug, Clone, Copy, PartialEq, Eq, Structural)]
pub enum VisitTransition {
    Link,
    Typed,
    Bookmark,
    Embed,
    RedirectPermanent,
    RedirectTemporary,
    Download,
    FramedLink,
    Reload,
}

impl VisitTransition {
    /// The code stored for this transition.
    pub open spec fn spec_code(self) -> u32 {
        match self {
            VisitTransition::Link => 1,
            VisitTransition::Typed => 2,
            VisitTransition::Bookmark => 3,
            VisitTransition::Embed => 4,
            VisitTransition::RedirectPermanent => 5,
            VisitTransition::RedirectTemporary => 6,
            VisitTransition::Download => 7,
            VisitTransition::FramedLink => 8,
            VisitTransition::Reload => 9,
        }
    }

    pub fn code(&self) -> (r: u32)
        ensures
            r == self.spec_code(),
    {
        match self {
            VisitTransition::Link => 1,
            VisitTransition::Typed => 2,
            VisitTransition::Bookmark => 3,
            VisitTransition::Embed => 4,
            VisitTransition::RedirectPermanent => 5,
            VisitTransition::RedirectTemporary => 6,
            VisitTransition::Download => 7,
            VisitTransition::FramedLink => 8,
            VisitTransition::Reload => 9,
        }
    }
}

/// The transition stored under code `p`, if any.
pub fn visit_from_primitive(p: u32) -> (r: Option<VisitTransition>)
    ensures
        match r {
            Some(t) => t.spec_code() == p,
            None => !(1 <= p <= 9),
        },
{
    match p {
        1 => Some(VisitTransition::Link),
        2 => Some(VisitTransition::Typed),
        3 => Some(VisitTransition::Bookmark),
        4 => Some(VisitTransition::Embed),
        5 => Some(VisitTransition::RedirectPermanent),
        6 => Some(VisitTransition::RedirectTemporary),
        7 => Some(VisitTransition::Download),
        8 => Some(VisitTransition::FramedLink),
        9 => Some(VisitTransition::Reload),
        _ => None,
    }
}

/// The kind of a record in the mirror.
#[derive(Debug, Clone, Copy, PartialEq, Eq, Structural)]
pub enum SyncedBookmarkKind {
    Bookmark,
    Query,
    Folder,
    Livemark,
    Separator,
}

impl SyncedBookmarkKind {
    /// The code stored in the database for this value.
    pub open spec fn spec_code(self) -> u8 {
        match self {
            SyncedBookmarkKind::Bookmark => 1,
            SyncedBookmarkKind::Query => 2,
            SyncedBookmarkKind::Folder => 3,
            SyncedBookmarkKind::Livemark => 4,
            SyncedBookmarkKind::Separator => 5,
        }
    }

    /// The value stored under code `v`, if any.
    pub open spec fn spec_from_code(v: u8) -> Option<SyncedBookmarkKind> {
        match v {
            1 => Some(SyncedBookmarkKind::Bookmark),
            2 => Some(SyncedBookmarkKind::Query),
            3 => Some(SyncedBookmarkKind::Folder),
            4 => Some(SyncedBookmarkKind::Livemark),
            5 => Some(SyncedBookmarkKind::Separator),
            _ => None,
        }
    }

    pub fn as_u8(&self) -> (r: u8)
        ensures
            r == self.spec_code(),
    {
        match self {
            SyncedBookmarkKind::Bookmark => 1,
            SyncedBookmarkKind::Query => 2,
            SyncedBookmarkKind::Folder => 3,
            SyncedBookmarkKind::Livemark => 4,
            SyncedBookmarkKind::Separator => 5,
        }
    }

    /// The value stored under code `v`, if any.
    pub fn from_u8(v: u8) -> (r: Option<SyncedBookmarkKind>)
        ensures
            r == SyncedBookmarkKind::spec_from_code(v),
    {
        match v {
        1 => Some(SyncedBookmarkKind::Bookmark),
        2 => Some(SyncedBookmarkKind::Query),
        3 => Some(SyncedBookmarkKind::Folder),
        4 => Some(SyncedBookmarkKind::Livemark),
        5 => Some(SyncedBookmarkKind::Separator),
        _ => None,
        }
    }
}

/// How an incoming record may be used.
#[derive(Debug, Clone, Copy, PartialEq, Eq, Structural)]
pub enum SyncedBookmarkValidity {
    /// Accepted as it is.
    Valid,
    /// Accepted locally; the next upload must carry a corrected version.
    Reupload,
    /// Unusable: the GUID is kept as a placeholder and the content is treated as absent.
    Replace,
}

impl SyncedBookmarkValidity {
    /// The code stored in the database for this value.
    pub open spec fn spec_code(self) -> u8 {
        match self {
            SyncedBookmarkValidity::Valid => 1,
            SyncedBookmarkValidity::Reupload => 2,
            SyncedBookmarkValidity::Replace => 3,
        }
    }

    /// The value stored under code `v`, if any.
    pub open spec fn spec_from_code(v: u8) -> Option<SyncedBookmarkValidity> {
        match v {
            1 => Some(SyncedBookmarkValidity::Valid),
            2 => Some(SyncedBookmarkValidity::Reupload),
            3 => Some(SyncedBookmarkValidity::Replace),
            _ => None,
        }
    }

    pub fn as_u8(&self) -> (r: u8)
        ensures
            r == self.spec_code(),
    {
        match self {
            SyncedBookmarkValidity::Valid => 1,
            SyncedBookmarkValidity::Reupload => 2,
            SyncedBookmarkValidity::Replace => 3,
        }
    }

    /// The value stored under code `v`, if any.
    pub fn from_u8(v: u8) -> (r: Option<SyncedBookmarkValidity>)
        ensures
            r == SyncedBookmarkValidity::spec_from_code(v),
    {
        match v {
        1 => Some(SyncedBookmarkValidity::Valid),
        2 => Some(SyncedBookmarkValidity::Reupload),
        3 => Some(SyncedBookmarkValidity::Replace),
        _ => None,
        }
    }
}

/// The type of a local bookmark row.
#[derive(Debug, Clone, Copy, PartialEq, Eq, Structural)]
pub enum BookmarkType {
    Bookmark,
    Folder,
    Separator,
}

impl BookmarkType {
    /// The code stored in the database for this value.
    pub open spec fn spec_code(self) -> u8 {
        match self {
            BookmarkType::Bookmark => 1,
            BookmarkType::Folder => 2,
            BookmarkType::Separator => 3,
        }
    }

    /// The value stored under code `v`, if any.
    pub open spec fn spec_from_code(v: u8) -> Option<BookmarkType> {
        match v {
            1 => Some(BookmarkType::Bookmark),
            2 => Some(BookmarkType::Folder),
            3 => Some(BookmarkType::Separator),
            _ => None,
        }
    }

    pub fn as_u8(&self) -> (r: u8)
        ensures
            r == self.spec_code(),
    {
        match self {
            BookmarkType::Bookmark => 1,
            BookmarkType::Folder => 2,
            BookmarkType::Separator => 3,
        }
    }

    /// The value stored under code `v`, if any.
    pub fn from_u8(v: u8) -> (r: Option<BookmarkType>)
        ensures
            r == BookmarkType::spec_from_code(v),
    {
        match v {
        1 => Some(BookmarkType::Bookmark),
        2 => Some(BookmarkType::Folder),
        3 => Some(BookmarkType::Separator),
        _ => None,
        }
    }
}

/// Whether a local item has been synced.
#[derive(Debug, Clone, Copy, PartialEq, Eq, Structural)]
pub enum SyncStatus {
    Unknown,
    New,
    Normal,
}

impl SyncStatus {
    /// The code stored in the database for this value.
    pub open spec fn spec_code(self) -> u8 {
        match self {
            SyncStatus::Unknown => 0,
            SyncStatus::New => 1,
            SyncStatus::Normal => 2,
        }
    }

    /// The value stored under code `v`, if any.
    pub open spec fn spec_from_code(v: u8) -> Option<SyncStatus> {
        match v {
            0 => Some(SyncStatus::Unknown),
            1 => Some(SyncStatus::New),
            2 => Some(SyncStatus::Normal),
            _ => None,
        }
    }

    pub fn as_u8(&self) -> (r: u8)
        ensures
            r == self.spec_code(),
    {
        match self {
            SyncStatus::Unknown => 0,
            SyncStatus::New => 1,
            SyncStatus::Normal => 2,
        }
    }

    /// The value stored under code `v`, if any.
    pub fn from_u8(v: u8) -> (r: Option<SyncStatus>)
        ensures
            r == SyncStatus::spec_from_code(v),
    {
        match v {
        0 => Some(SyncStatus::Unknown),
        1 => Some(SyncStatus::New),
        2 => Some(SyncStatus::Normal),
        _ => None,
        }
    }
}

} // verus!
