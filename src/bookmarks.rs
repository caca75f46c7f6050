use crate::text::str_eq;
use crate::error::Error;
use crate::types::{BookmarkType, SyncGuid, Timestamp};
use vstd::prelude::*;

verus! {

/// The five reserved roots, which exist in every store with fixed GUIDs.
#[derive(Debug, Clone, Copy, PartialEq, Eq, Structural)]
pub enum BookmarkRootGuids {
    Root,
    Menu,
    Toolbar,
    Unfiled,
    Mobile,
}

impl BookmarkRootGuids {
    /// The store's 12-character GUID of this root.
    pub open spec fn spec_guid(self) -> Seq<char> {
        match self {
            BookmarkRootGuids::Root => "root________"@,
            BookmarkRootGuids::Menu => "menu________"@,
            BookmarkRootGuids::Toolbar => "toolbar_____"@,
            BookmarkRootGuids::Unfiled => "unfiled_____"@,
            BookmarkRootGuids::Mobile => "mobile______"@,
        }
    }

    /// The short alias by which the remote service names this root.
    pub open spec fn spec_record_id(self) -> Seq<char> {
        match self {
            BookmarkRootGuids::Root => "places"@,
            BookmarkRootGuids::Menu => "menu"@,
            BookmarkRootGuids::Toolbar => "toolbar"@,
            BookmarkRootGuids::Unfiled => "unfiled"@,
            BookmarkRootGuids::Mobile => "mobile"@,
        }
    }

    fn guid_str(&self) -> (r: &'static str)
        ensures
            r@ == self.spec_guid(),
    {
        match self {
            BookmarkRootGuids::Root => "root________",
            BookmarkRootGuids::Menu => "menu________",
            BookmarkRootGuids::Toolbar => "toolbar_____",
            BookmarkRootGuids::Unfiled => "unfiled_____",
            BookmarkRootGuids::Mobile => "mobile______",
        }
    }

    pub fn as_guid(&self) -> (r: SyncGuid)
        ensures
            r@ == self.spec_guid(),
    {
        SyncGuid(self.guid_str().to_owned())
    }

    pub fn as_sync_record_id(&self) -> (r: &'static str)
        ensures
            r@ == self.spec_record_id(),
    {
        match self {
            BookmarkRootGuids::Root => "places",
            BookmarkRootGuids::Menu => "menu",
            BookmarkRootGuids::Toolbar => "toolbar",
            BookmarkRootGuids::Unfiled => "unfiled",
            BookmarkRootGuids::Mobile => "mobile",
        }
    }

    pub fn from_guid(guid: &SyncGuid) -> (r: Option<Self>)
        ensures
            r == root_with_guid(guid@),
    {
        let g = guid.as_str();
        if str_eq(g, "root________") {
            Some(BookmarkRootGuids::Root)
        } else if str_eq(g, "menu________") {
            Some(BookmarkRootGuids::Menu)
        } else if str_eq(g, "toolbar_____") {
            Some(BookmarkRootGuids::Toolbar)
        } else if str_eq(g, "unfiled_____") {
            Some(BookmarkRootGuids::Unfiled)
        } else if str_eq(g, "mobile______") {
            Some(BookmarkRootGuids::Mobile)
        } else {
            None
        }
    }

    pub fn from_sync_record_id(id: &str) -> (r: Option<Self>)
        ensures
            r == root_with_record_id(id@),
    {
        if str_eq(id, "places") {
            Some(BookmarkRootGuids::Root)
        } else if str_eq(id, "menu") {
            Some(BookmarkRootGuids::Menu)
        } else if str_eq(id, "toolbar") {
            Some(BookmarkRootGuids::Toolbar)
        } else if str_eq(id, "unfiled") {
            Some(BookmarkRootGuids::Unfiled)
        } else if str_eq(id, "mobile") {
            Some(BookmarkRootGuids::Mobile)
        } else {
            None
        }
    }

    /// The roots that hold user content: every root but the synthetic one.
    pub fn user_roots() -> (r: Vec<Self>)
        ensures
            r@ == seq![
                BookmarkRootGuids::Menu,
                BookmarkRootGuids::Toolbar,
                BookmarkRootGuids::Unfiled,
                BookmarkRootGuids::Mobile,
            ],
    {
        vec![
            BookmarkRootGuids::Menu,
            BookmarkRootGuids::Toolbar,
            BookmarkRootGuids::Unfiled,
            BookmarkRootGuids::Mobile,
        ]
    }
}

/// The root whose store GUID is `g`, if any.
pub open spec fn root_with_guid(g: Seq<char>) -> Option<BookmarkRootGuids> {
    if g == "root________"@ {
        Some(BookmarkRootGuids::Root)
    } else if g == "menu________"@ {
        Some(BookmarkRootGuids::Menu)
    } else if g == "toolbar_____"@ {
        Some(BookmarkRootGuids::Toolbar)
    } else if g == "unfiled_____"@ {
        Some(BookmarkRootGuids::Unfiled)
    } else if g == "mobile______"@ {
        Some(BookmarkRootGuids::Mobile)
    } else {
        None
    }
}

/// The root whose wire alias is `id`, if any.
pub open spec fn root_with_record_id(id: Seq<char>) -> Option<BookmarkRootGuids> {
    if id == "places"@ {
        Some(BookmarkRootGuids::Root)
    } else if id == "menu"@ {
        Some(BookmarkRootGuids::Menu)
    } else if id == "toolbar"@ {
        Some(BookmarkRootGuids::Toolbar)
    } else if id == "unfiled"@ {
        Some(BookmarkRootGuids::Unfiled)
    } else if id == "mobile"@ {
        Some(BookmarkRootGuids::Mobile)
    } else {
        None
    }
}

/// Where a new item goes among its parent's children.
#[derive(Debug, Clone, Copy, PartialEq, Eq, Structural)]
pub enum BookmarkPosition {
    /// At this index, or at the end when it is past the end.
    Specific(u32),
    /// At the end.
    Append,
}

/// The index a new item takes among `child_count` children: a specific
/// position past the end is taken as the end.
pub open spec fn insert_index_spec(position: BookmarkPosition, child_count: u32) -> u32 {
    match position {
        BookmarkPosition::Specific(i) => if i < child_count {
            i
        } else {
            child_count
        },
        BookmarkPosition::Append => child_count,
    }
}

/// Resolves where a new item goes.
pub fn insert_index(position: BookmarkPosition, child_count: u32) -> (r: u32)
    ensures
        r == insert_index_spec(position, child_count),
{
    match position {
        BookmarkPosition::Specific(index) => if index < child_count {
            index
        } else {
            child_count
        },
        BookmarkPosition::Append => child_count,
    }
}

/// Whether an item may be inserted under `parent_guid`, whose row has type
/// `parent_type` (none when there is no such row): not under the synthetic
/// root, and only into a folder.
pub open spec fn insert_parent_outcome(parent_guid: Seq<char>, parent_type: Option<BookmarkType>) -> Result<(), Error> {
    if root_with_guid(parent_guid) == Some(BookmarkRootGuids::Root) {
        Err(Error::InvalidGuid)
    } else {
        match parent_type {
            Some(BookmarkType::Folder) => Ok(()),
            _ => Err(Error::InvalidParent),
        }
    }
}

/// Checks the parent of an item about to be inserted.
pub fn check_insert_parent(parent_guid: &SyncGuid, parent_type: Option<BookmarkType>) -> (r: Result<(), Error>)
    ensures
        r == insert_parent_outcome(parent_guid@, parent_type),
{
    match BookmarkRootGuids::from_guid(parent_guid) {
        Some(BookmarkRootGuids::Root) => Err(Error::InvalidGuid),
        _ => match parent_type {
            Some(BookmarkType::Folder) => Ok(()),
            _ => Err(Error::InvalidParent),
        },
    }
}

/// A bookmark to insert.
#[derive(Debug, Clone)]
pub struct InsertableBookmarkItem {
    pub parent_guid: SyncGuid,
    pub position: BookmarkPosition,
    pub date_added: Option<Timestamp>,
    pub last_modified: Option<Timestamp>,
    pub guid: Option<SyncGuid>,
    pub url: String,
    pub title: Option<String>,
}

/// A separator to insert.
#[derive(Debug, Clone)]
pub struct InsertableBookmarkSeparator {
    pub parent_guid: SyncGuid,
    pub position: BookmarkPosition,
    pub date_added: Option<Timestamp>,
    pub last_modified: Option<Timestamp>,
    pub guid: Option<SyncGuid>,
}

/// A folder to insert.
#[derive(Debug, Clone)]
pub struct InsertableBookmarkFolder {
    pub parent_guid: SyncGuid,
    pub position: BookmarkPosition,
    pub date_added: Option<Timestamp>,
    pub last_modified: Option<Timestamp>,
    pub guid: Option<SyncGuid>,
    pub title: Option<String>,
}

/// An item to insert.
#[derive(Debug, Clone)]
pub enum InsertableBookmark {
    BookmarkType(InsertableBookmarkItem),
    BookmarkSeparator(InsertableBookmarkSeparator),
    BookmarkFolder(InsertableBookmarkFolder),
}

impl InsertableBookmark {
    pub fn bookmark_type(&self) -> (r: BookmarkType)
        ensures
            r == match self {
                InsertableBookmark::BookmarkType(_) => BookmarkType::Bookmark,
                InsertableBookmark::BookmarkSeparator(_) => BookmarkType::Separator,
                InsertableBookmark::BookmarkFolder(_) => BookmarkType::Folder,
            },
    {
        match self {
            InsertableBookmark::BookmarkType(_) => BookmarkType::Bookmark,
            InsertableBookmark::BookmarkSeparator(_) => BookmarkType::Separator,
            InsertableBookmark::BookmarkFolder(_) => BookmarkType::Folder,
        }
    }
}

/// A bookmark of a tree to insert or fetched.
#[derive(Debug, Clone)]
pub struct BookmarkTreeBookmark {
    pub guid: Option<SyncGuid>,
    pub date_added: Option<Timestamp>,
    pub last_modified: Option<Timestamp>,
    pub title: Option<String>,
    pub url: String,
}

/// A separator of a tree.
#[derive(Debug, Clone)]
pub struct BookmarkTreeSeparator {
    pub guid: Option<SyncGuid>,
    pub date_added: Option<Timestamp>,
    pub last_modified: Option<Timestamp>,
}

} // verus!
