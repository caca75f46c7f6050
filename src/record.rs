use crate::bookmarks::{root_with_guid, root_with_record_id, BookmarkRootGuids};
use crate::error::Error;
use crate::text::str_eq;
use crate::types::{SyncGuid, SyncedBookmarkKind};
use vstd::prelude::*;

verus! {

/// Every field that can appear in a bookmark payload on the wire, under the
/// wire's own names where they differ: `type` is `kind`, `parentid` is
/// `parent_id`, `parentName` is `parent_title`, `bmkUri` is `url`,
/// `folderName` is `tag_folder_name`, `feedUri` / `siteUri` are `feed_url` /
/// `site_url`, and `pos` is `position`.
#[derive(Debug, Clone)]
pub struct RawBookmarkItemRecord {
    pub id: String,
    pub kind: Option<String>,
    pub deleted: Option<bool>,
    pub parent_id: Option<String>,
    pub has_dupe: Option<bool>,
    pub parent_title: Option<String>,
    pub date_added: Option<i64>,
    pub title: Option<String>,
    pub url: Option<String>,
    pub keyword: Option<String>,
    pub tags: Option<Vec<String>>,
    pub tag_folder_name: Option<String>,
    pub children: Option<Vec<SyncGuid>>,
    pub feed_url: Option<String>,
    pub site_url: Option<String>,
    pub position: Option<i64>,
}

#[derive(Debug, Clone)]
pub struct BookmarkRecord {
    pub guid: SyncGuid,
    pub parent_guid: Option<SyncGuid>,
    pub has_dupe: bool,
    pub parent_title: Option<String>,
    pub date_added: Option<i64>,
    pub title: Option<String>,
    pub url: Option<String>,
    pub keyword: Option<String>,
    pub tags: Vec<String>,
}

#[derive(Debug, Clone)]
pub struct QueryRecord {
    pub guid: SyncGuid,
    pub parent_guid: Option<SyncGuid>,
    pub has_dupe: bool,
    pub parent_title: Option<String>,
    pub date_added: Option<i64>,
    pub title: Option<String>,
    pub url: Option<String>,
    pub tag_folder_name: Option<String>,
}

#[derive(Debug, Clone)]
pub struct FolderRecord {
    pub guid: SyncGuid,
    pub parent_guid: Option<SyncGuid>,
    pub has_dupe: bool,
    pub parent_title: Option<String>,
    pub date_added: Option<i64>,
    pub title: Option<String>,
    pub children: Vec<SyncGuid>,
}

#[derive(Debug, Clone)]
pub struct LivemarkRecord {
    pub guid: SyncGuid,
    pub parent_guid: Option<SyncGuid>,
    pub has_dupe: bool,
    pub parent_title: Option<String>,
    pub date_added: Option<i64>,
    pub title: Option<String>,
    pub feed_url: Option<String>,
    pub site_url: Option<String>,
}

#[derive(Debug, Clone)]
pub struct SeparatorRecord {
    pub guid: SyncGuid,
    pub parent_guid: Option<SyncGuid>,
    pub has_dupe: bool,
    pub parent_title: Option<String>,
    pub date_added: Option<i64>,
    /// Not used by newer clients; older ones use it for deduping.
    pub position: Option<i64>,
}

#[derive(Debug, Clone)]
pub enum BookmarkItemRecord {
    Tombstone(SyncGuid),
    Bookmark(BookmarkRecord),
    Query(QueryRecord),
    Folder(FolderRecord),
    Livemark(LivemarkRecord),
    Separator(SeparatorRecord),
}

/// The store GUID for a wire id: a root's alias becomes its GUID, and every
/// other id is a GUID already.
pub open spec fn id_to_guid_spec(id: Seq<char>) -> Seq<char> {
    match root_with_record_id(id) {
        Some(root) => root.spec_guid(),
        None => id,
    }
}

/// The wire id for a store GUID: a root's GUID becomes its alias.
pub open spec fn guid_to_id_spec(guid: Seq<char>) -> Seq<char> {
    match root_with_guid(guid) {
        Some(root) => root.spec_record_id(),
        None => guid,
    }
}

/// Converts a wire record id to a store GUID.
pub fn id_to_guid(id: String) -> (r: SyncGuid)
    ensures
        r@ == id_to_guid_spec(id@),
{
    match BookmarkRootGuids::from_sync_record_id(id.as_str()) {
        Some(root) => root.as_guid(),
        None => SyncGuid(id),
    }
}

/// Converts a store GUID to a wire record id.
pub fn guid_to_id(guid: &SyncGuid) -> (r: &str)
    ensures
        r@ == guid_to_id_spec(guid@),
{
    match BookmarkRootGuids::from_guid(guid) {
        Some(root) => root.as_sync_record_id(),
        None => guid.as_str(),
    }
}

proof fn lemma_root_names_distinct()
    ensures
        forall|r: BookmarkRootGuids| #[trigger] root_with_guid(r.spec_guid()) == Some(r),
        forall|r: BookmarkRootGuids| #[trigger] root_with_record_id(r.spec_record_id()) == Some(r),
        forall|r: BookmarkRootGuids| #[trigger] root_with_record_id(r.spec_guid()).is_none(),
        forall|r: BookmarkRootGuids| #[trigger] root_with_guid(r.spec_record_id()).is_none(),
{
    reveal_strlit("root________");
    reveal_strlit("menu________");
    reveal_strlit("toolbar_____");
    reveal_strlit("unfiled_____");
    reveal_strlit("mobile______");
    reveal_strlit("places");
    reveal_strlit("menu");
    reveal_strlit("toolbar");
    reveal_strlit("unfiled");
    reveal_strlit("mobile");
    assert("root________"@.len() == 12);
    assert("menu________"@.len() == 12);
    assert("toolbar_____"@.len() == 12);
    assert("unfiled_____"@.len() == 12);
    assert("mobile______"@.len() == 12);
    assert("places"@.len() == 6);
    assert("menu"@.len() == 4);
    assert("toolbar"@.len() == 7);
    assert("unfiled"@.len() == 7);
    assert("mobile"@.len() == 6);
    assert("menu________"@[0] != "root________"@[0]);
    assert("toolbar_____"@[0] != "root________"@[0]);
    assert("toolbar_____"@[0] != "menu________"@[0]);
    assert("unfiled_____"@[0] != "root________"@[0]);
    assert("unfiled_____"@[0] != "menu________"@[0]);
    assert("unfiled_____"@[0] != "toolbar_____"@[0]);
    assert("mobile______"@[0] != "root________"@[0]);
    assert("mobile______"@[1] != "menu________"@[1]);
    assert("mobile______"@[0] != "toolbar_____"@[0]);
    assert("mobile______"@[0] != "unfiled_____"@[0]);
    assert("menu"@[0] != "places"@[0]);
    assert("toolbar"@[0] != "places"@[0]);
    assert("toolbar"@[0] != "menu"@[0]);
    assert("unfiled"@[0] != "places"@[0]);
    assert("unfiled"@[0] != "menu"@[0]);
    assert("unfiled"@[0] != "toolbar"@[0]);
    assert("mobile"@[0] != "places"@[0]);
    assert("mobile"@[1] != "menu"@[1]);
    assert("mobile"@[0] != "toolbar"@[0]);
    assert("mobile"@[0] != "unfiled"@[0]);
}

/// A store GUID sent out and read back is the same GUID, unless it is itself
/// spelled like a root's wire alias.
pub proof fn lemma_guid_id_round_trip(guid: Seq<char>)
    requires
        root_with_record_id(guid).is_none(),
    ensures
        id_to_guid_spec(guid_to_id_spec(guid)) == guid,
{
    lemma_root_names_distinct();
}

/// A wire id read in and sent back is the same id, unless it is itself
/// spelled like a root's store GUID.
pub proof fn lemma_id_guid_round_trip(id: Seq<char>)
    requires
        root_with_guid(id).is_none(),
    ensures
        guid_to_id_spec(id_to_guid_spec(id)) == id,
{
    lemma_root_names_distinct();
}

/// The alias mapping is one to one: two store GUIDs with the same wire id
/// are the same GUID, when neither is spelled like a wire alias.
pub proof fn lemma_guid_to_id_injective(a: Seq<char>, b: Seq<char>)
    requires
        root_with_record_id(a).is_none(),
        root_with_record_id(b).is_none(),
        guid_to_id_spec(a) == guid_to_id_spec(b),
    ensures
        a == b,
{
    lemma_guid_id_round_trip(a);
    lemma_guid_id_round_trip(b);
}

/// The record kind that the wire name `k` stands for.
pub open spec fn kind_named(k: Seq<char>) -> Option<SyncedBookmarkKind> {
    if k == "bookmark"@ {
        Some(SyncedBookmarkKind::Bookmark)
    } else if k == "query"@ {
        Some(SyncedBookmarkKind::Query)
    } else if k == "folder"@ {
        Some(SyncedBookmarkKind::Folder)
    } else if k == "livemark"@ {
        Some(SyncedBookmarkKind::Livemark)
    } else if k == "separator"@ {
        Some(SyncedBookmarkKind::Separator)
    } else {
        None
    }
}

/// The wire name of a record kind.
pub open spec fn kind_name(kind: SyncedBookmarkKind) -> Seq<char> {
    match kind {
        SyncedBookmarkKind::Bookmark => "bookmark"@,
        SyncedBookmarkKind::Query => "query"@,
        SyncedBookmarkKind::Folder => "folder"@,
        SyncedBookmarkKind::Livemark => "livemark"@,
        SyncedBookmarkKind::Separator => "separator"@,
    }
}

proof fn lemma_kind_names_distinct()
    ensures
        forall|k: SyncedBookmarkKind| #[trigger] kind_named(kind_name(k)) == Some(k),
{
    reveal_strlit("bookmark");
    reveal_strlit("query");
    reveal_strlit("folder");
    reveal_strlit("livemark");
    reveal_strlit("separator");
    assert("bookmark"@.len() == 8);
    assert("query"@.len() == 5);
    assert("folder"@.len() == 6);
    assert("livemark"@.len() == 8);
    assert("separator"@.len() == 9);
    assert("livemark"@[0] != "bookmark"@[0]);
}

/// The store GUID that an optional wire id stands for.
pub open spec fn opt_guid_from_id(g: Option<SyncGuid>, id: Option<String>) -> bool {
    match (g, id) {
        (Some(g), Some(i)) => g@ == id_to_guid_spec(i@),
        (None, None) => true,
        _ => false,
    }
}

/// The wire id that an optional store GUID is sent as.
pub open spec fn opt_id_from_guid(id: Option<String>, g: Option<SyncGuid>) -> bool {
    match (id, g) {
        (Some(i), Some(g)) => i@ == guid_to_id_spec(g@),
        (None, None) => true,
        _ => false,
    }
}

/// Two optional GUIDs with the same characters.
pub open spec fn same_opt_guid(a: Option<SyncGuid>, b: Option<SyncGuid>) -> bool {
    match (a, b) {
        (Some(x), Some(y)) => x@ == y@,
        (None, None) => true,
        _ => false,
    }
}

/// A GUID that no wire alias spells; an absent one counts as such.
pub open spec fn unaliased(g: Option<SyncGuid>) -> bool {
    match g {
        Some(g) => root_with_record_id(g@).is_none(),
        None => true,
    }
}

/// A flag that defaults to false when absent.
pub open spec fn flag_or_false(b: Option<bool>) -> bool {
    match b {
        Some(x) => x,
        None => false,
    }
}

/// A wire field that names `name`.
pub open spec fn names(k: Option<String>, name: Seq<char>) -> bool {
    match k {
        Some(k) => k@ == name,
        None => false,
    }
}

/// The outcome of decoding `raw`: the kind of the record (none for a
/// tombstone), or the error.
pub open spec fn decode_outcome(raw: RawBookmarkItemRecord) -> Result<
    Option<SyncedBookmarkKind>,
    Error,
> {
    if raw.deleted == Some(true) {
        Ok(None)
    } else {
        match raw.kind {
            None => Err(Error::MalformedPayload),
            Some(k) => match kind_named(k@) {
                Some(kind) => Ok(Some(kind)),
                None => Err(Error::UnsupportedKind),
            },
        }
    }
}

/// The fields that every live record has, as read from `raw`.
pub open spec fn common_from(
    guid: SyncGuid,
    parent_guid: Option<SyncGuid>,
    has_dupe: bool,
    parent_title: Option<String>,
    date_added: Option<i64>,
    raw: RawBookmarkItemRecord,
) -> bool {
    &&& guid@ == id_to_guid_spec(raw.id@)
    &&& opt_guid_from_id(parent_guid, raw.parent_id)
    &&& has_dupe == flag_or_false(raw.has_dupe)
    &&& parent_title == raw.parent_title
    &&& date_added == raw.date_added
}

/// The fields that every live record has, as written to `raw`.
pub open spec fn common_to(
    raw: RawBookmarkItemRecord,
    guid: SyncGuid,
    parent_guid: Option<SyncGuid>,
    has_dupe: bool,
    parent_title: Option<String>,
    date_added: Option<i64>,
) -> bool {
    &&& raw.id@ == guid_to_id_spec(guid@)
    &&& raw.deleted.is_none()
    &&& opt_id_from_guid(raw.parent_id, parent_guid)
    &&& raw.has_dupe == Some(has_dupe)
    &&& raw.parent_title == parent_title
    &&& raw.date_added == date_added
}

/// The fields that a record of one kind does not carry are absent.
pub open spec fn only_fields(raw: RawBookmarkItemRecord, kind: Option<SyncedBookmarkKind>) -> bool {
    &&& (kind != Some(SyncedBookmarkKind::Bookmark) && kind != Some(SyncedBookmarkKind::Query)
        && kind != Some(SyncedBookmarkKind::Folder) && kind != Some(SyncedBookmarkKind::Livemark)) ==> raw.title.is_none()
    &&& (kind != Some(SyncedBookmarkKind::Bookmark) && kind != Some(SyncedBookmarkKind::Query)) ==> raw.url.is_none()
    &&& kind != Some(SyncedBookmarkKind::Bookmark) ==> raw.keyword.is_none() && raw.tags.is_none()
    &&& kind != Some(SyncedBookmarkKind::Query) ==> raw.tag_folder_name.is_none()
    &&& kind != Some(SyncedBookmarkKind::Folder) ==> raw.children.is_none()
    &&& kind != Some(SyncedBookmarkKind::Livemark) ==> raw.feed_url.is_none() && raw.site_url.is_none()
    &&& kind != Some(SyncedBookmarkKind::Separator) ==> raw.position.is_none()
}

impl BookmarkItemRecord {
    /// The kind of a live record; none for a tombstone.
    pub open spec fn spec_kind(self) -> Option<SyncedBookmarkKind> {
        match self {
            BookmarkItemRecord::Tombstone(_) => None,
            BookmarkItemRecord::Bookmark(_) => Some(SyncedBookmarkKind::Bookmark),
            BookmarkItemRecord::Query(_) => Some(SyncedBookmarkKind::Query),
            BookmarkItemRecord::Folder(_) => Some(SyncedBookmarkKind::Folder),
            BookmarkItemRecord::Livemark(_) => Some(SyncedBookmarkKind::Livemark),
            BookmarkItemRecord::Separator(_) => Some(SyncedBookmarkKind::Separator),
        }
    }

    /// Whether `self` is the record that the wire fields `raw` describe.
    pub open spec fn decoded_from(self, raw: RawBookmarkItemRecord) -> bool {
        match self {
            BookmarkItemRecord::Tombstone(g) => g@ == id_to_guid_spec(raw.id@),
            BookmarkItemRecord::Bookmark(b) => {
                &&& common_from(b.guid, b.parent_guid, b.has_dupe, b.parent_title, b.date_added, raw)
                &&& b.title == raw.title
                &&& b.url == raw.url
                &&& b.keyword == raw.keyword
                &&& b.tags@ == match raw.tags {
                    Some(t) => t@,
                    None => Seq::<String>::empty(),
                }
            },
            BookmarkItemRecord::Query(q) => {
                &&& common_from(q.guid, q.parent_guid, q.has_dupe, q.parent_title, q.date_added, raw)
                &&& q.title == raw.title
                &&& q.url == raw.url
                &&& q.tag_folder_name == raw.tag_folder_name
            },
            BookmarkItemRecord::Folder(f) => {
                &&& common_from(f.guid, f.parent_guid, f.has_dupe, f.parent_title, f.date_added, raw)
                &&& f.title == raw.title
                &&& f.children@ == match raw.children {
                    Some(c) => c@,
                    None => Seq::<SyncGuid>::empty(),
                }
            },
            BookmarkItemRecord::Livemark(l) => {
                &&& common_from(l.guid, l.parent_guid, l.has_dupe, l.parent_title, l.date_added, raw)
                &&& l.title == raw.title
                &&& l.feed_url == raw.feed_url
                &&& l.site_url == raw.site_url
            },
            BookmarkItemRecord::Separator(s) => {
                &&& common_from(s.guid, s.parent_guid, s.has_dupe, s.parent_title, s.date_added, raw)
                &&& s.position == raw.position
            },
        }
    }

    /// Whether `raw` holds the wire fields of `self`, and no others.
    pub open spec fn encodes_to(self, raw: RawBookmarkItemRecord) -> bool {
        &&& only_fields(raw, self.spec_kind())
        &&& match self {
            BookmarkItemRecord::Tombstone(g) => {
                &&& raw.id@ == guid_to_id_spec(g@)
                &&& raw.deleted == Some(true)
                &&& raw.kind.is_none()
                &&& raw.parent_id.is_none()
                &&& raw.has_dupe.is_none()
                &&& raw.parent_title.is_none()
                &&& raw.date_added.is_none()
            },
            BookmarkItemRecord::Bookmark(b) => {
                &&& names(raw.kind, "bookmark"@)
                &&& common_to(raw, b.guid, b.parent_guid, b.has_dupe, b.parent_title, b.date_added)
                &&& raw.title == b.title
                &&& raw.url == b.url
                &&& raw.keyword == b.keyword
                &&& raw.tags == Some(b.tags)
            },
            BookmarkItemRecord::Query(q) => {
                &&& names(raw.kind, "query"@)
                &&& common_to(raw, q.guid, q.parent_guid, q.has_dupe, q.parent_title, q.date_added)
                &&& raw.title == q.title
                &&& raw.url == q.url
                &&& raw.tag_folder_name == q.tag_folder_name
            },
            BookmarkItemRecord::Folder(f) => {
                &&& names(raw.kind, "folder"@)
                &&& common_to(raw, f.guid, f.parent_guid, f.has_dupe, f.parent_title, f.date_added)
                &&& raw.title == f.title
                &&& raw.children == Some(f.children)
            },
            BookmarkItemRecord::Livemark(l) => {
                &&& names(raw.kind, "livemark"@)
                &&& common_to(raw, l.guid, l.parent_guid, l.has_dupe, l.parent_title, l.date_added)
                &&& raw.title == l.title
                &&& raw.feed_url == l.feed_url
                &&& raw.site_url == l.site_url
            },
            BookmarkItemRecord::Separator(s) => {
                &&& names(raw.kind, "separator"@)
                &&& common_to(raw, s.guid, s.parent_guid, s.has_dupe, s.parent_title, s.date_added)
                &&& raw.position == s.position
            },
        }
    }

    /// The GUIDs of `self` (its own and its parent's) are spelled unlike any
    /// wire alias.
    pub open spec fn unaliased(self) -> bool {
        match self {
            BookmarkItemRecord::Tombstone(g) => unaliased(Some(g)),
            BookmarkItemRecord::Bookmark(b) => unaliased(Some(b.guid)) && unaliased(b.parent_guid),
            BookmarkItemRecord::Query(q) => unaliased(Some(q.guid)) && unaliased(q.parent_guid),
            BookmarkItemRecord::Folder(f) => unaliased(Some(f.guid)) && unaliased(f.parent_guid),
            BookmarkItemRecord::Livemark(l) => unaliased(Some(l.guid)) && unaliased(l.parent_guid),
            BookmarkItemRecord::Separator(s) => unaliased(Some(s.guid)) && unaliased(s.parent_guid),
        }
    }

    /// Same kind and fields, with GUIDs compared by their characters.
    pub open spec fn same_as(self, o: BookmarkItemRecord) -> bool {
        match (self, o) {
            (BookmarkItemRecord::Tombstone(a), BookmarkItemRecord::Tombstone(b)) => a@ == b@,
            (BookmarkItemRecord::Bookmark(a), BookmarkItemRecord::Bookmark(b)) => {
                &&& a.guid@ == b.guid@
                &&& same_opt_guid(a.parent_guid, b.parent_guid)
                &&& a.has_dupe == b.has_dupe && a.parent_title == b.parent_title
                &&& a.date_added == b.date_added && a.title == b.title && a.url == b.url
                &&& a.keyword == b.keyword && a.tags@ == b.tags@
            },
            (BookmarkItemRecord::Query(a), BookmarkItemRecord::Query(b)) => {
                &&& a.guid@ == b.guid@
                &&& same_opt_guid(a.parent_guid, b.parent_guid)
                &&& a.has_dupe == b.has_dupe && a.parent_title == b.parent_title
                &&& a.date_added == b.date_added && a.title == b.title && a.url == b.url
                &&& a.tag_folder_name == b.tag_folder_name
            },
            (BookmarkItemRecord::Folder(a), BookmarkItemRecord::Folder(b)) => {
                &&& a.guid@ == b.guid@
                &&& same_opt_guid(a.parent_guid, b.parent_guid)
                &&& a.has_dupe == b.has_dupe && a.parent_title == b.parent_title
                &&& a.date_added == b.date_added && a.title == b.title
                &&& a.children@ == b.children@
            },
            (BookmarkItemRecord::Livemark(a), BookmarkItemRecord::Livemark(b)) => {
                &&& a.guid@ == b.guid@
                &&& same_opt_guid(a.parent_guid, b.parent_guid)
                &&& a.has_dupe == b.has_dupe && a.parent_title == b.parent_title
                &&& a.date_added == b.date_added && a.title == b.title
                &&& a.feed_url == b.feed_url && a.site_url == b.site_url
            },
            (BookmarkItemRecord::Separator(a), BookmarkItemRecord::Separator(b)) => {
                &&& a.guid@ == b.guid@
                &&& same_opt_guid(a.parent_guid, b.parent_guid)
                &&& a.has_dupe == b.has_dupe && a.parent_title == b.parent_title
                &&& a.date_added == b.date_added && a.position == b.position
            },
            _ => false,
        }
    }
}

/// Decoding what encoding produced gives the record back: the payload is
/// accepted, with the record's kind, and every field is as it was. This holds
/// for every record whose GUIDs are not spelled like wire aliases.
pub proof fn lemma_encode_decode_round_trip(
    rec: BookmarkItemRecord,
    raw: RawBookmarkItemRecord,
    back: BookmarkItemRecord,
)
    requires
        rec.unaliased(),
        rec.encodes_to(raw),
        back.decoded_from(raw),
        decode_outcome(raw) == Ok::<Option<SyncedBookmarkKind>, Error>(back.spec_kind()),
    ensures
        decode_outcome(raw) == Ok::<Option<SyncedBookmarkKind>, Error>(rec.spec_kind()),
        back.same_as(rec),
{
    lemma_kind_names_distinct();
    lemma_root_names_distinct();
    assert(kind_named(kind_name(SyncedBookmarkKind::Bookmark)) == Some(SyncedBookmarkKind::Bookmark));
    assert(kind_named(kind_name(SyncedBookmarkKind::Query)) == Some(SyncedBookmarkKind::Query));
    assert(kind_named(kind_name(SyncedBookmarkKind::Folder)) == Some(SyncedBookmarkKind::Folder));
    assert(kind_named(kind_name(SyncedBookmarkKind::Livemark)) == Some(SyncedBookmarkKind::Livemark));
    assert(kind_named(kind_name(SyncedBookmarkKind::Separator)) == Some(SyncedBookmarkKind::Separator));
    match rec {
        BookmarkItemRecord::Tombstone(g) => {
            lemma_guid_id_round_trip(g@);
        },
        BookmarkItemRecord::Bookmark(b) => {
            lemma_guid_id_round_trip(b.guid@);
            if let Some(p) = b.parent_guid {
                lemma_guid_id_round_trip(p@);
            }
        },
        BookmarkItemRecord::Query(b) => {
            lemma_guid_id_round_trip(b.guid@);
            if let Some(p) = b.parent_guid {
                lemma_guid_id_round_trip(p@);
            }
        },
        BookmarkItemRecord::Folder(b) => {
            lemma_guid_id_round_trip(b.guid@);
            if let Some(p) = b.parent_guid {
                lemma_guid_id_round_trip(p@);
            }
        },
        BookmarkItemRecord::Livemark(b) => {
            lemma_guid_id_round_trip(b.guid@);
            if let Some(p) = b.parent_guid {
                lemma_guid_id_round_trip(p@);
            }
        },
        BookmarkItemRecord::Separator(b) => {
            lemma_guid_id_round_trip(b.guid@);
            if let Some(p) = b.parent_guid {
                lemma_guid_id_round_trip(p@);
            }
        },
    }
}

fn opt_id_to_guid(id: Option<String>) -> (r: Option<SyncGuid>)
    ensures
        opt_guid_from_id(r, id),
{
    match id {
        Some(i) => Some(id_to_guid(i)),
        None => None,
    }
}

fn opt_guid_to_id(g: Option<SyncGuid>) -> (r: Option<String>)
    ensures
        opt_id_from_guid(r, g),
{
    match g {
        Some(g) => Some(guid_to_id(&g).to_owned()),
        None => None,
    }
}

/// Wire fields that carry nothing but the id.
fn bare_payload(id: String) -> (r: RawBookmarkItemRecord)
    ensures
        r.id == id,
        only_fields(r, None),
        r.kind.is_none(),
        r.deleted.is_none(),
        r.parent_id.is_none(),
        r.has_dupe.is_none(),
        r.parent_title.is_none(),
        r.date_added.is_none(),
{
    RawBookmarkItemRecord {
        id,
        kind: None,
        deleted: None,
        parent_id: None,
        has_dupe: None,
        parent_title: None,
        date_added: None,
        title: None,
        url: None,
        keyword: None,
        tags: None,
        tag_folder_name: None,
        children: None,
        feed_url: None,
        site_url: None,
        position: None,
    }
}

impl BookmarkItemRecord {
    /// Decodes the wire fields of one payload. A payload marked deleted is a
    /// tombstone; any other is dispatched on its `type`.
    pub fn from_payload(raw: RawBookmarkItemRecord) -> (r: Result<Self, Error>)
        ensures
            match r {
                Ok(rec) => decode_outcome(raw) == Ok::<Option<SyncedBookmarkKind>, Error>(
                    rec.spec_kind(),
                ) && rec.decoded_from(raw),
                Err(e) => decode_outcome(raw) == Err::<Option<SyncedBookmarkKind>, Error>(e),
            },
    {
        let RawBookmarkItemRecord {
            id,
            kind,
            deleted,
            parent_id,
            has_dupe,
            parent_title,
            date_added,
            title,
            url,
            keyword,
            tags,
            tag_folder_name,
            children,
            feed_url,
            site_url,
            position,
        } = raw;
        let is_deleted = match deleted {
            Some(d) => d,
            None => false,
        };
        if is_deleted {
            return Ok(BookmarkItemRecord::Tombstone(id_to_guid(id)));
        }
        let k = match kind {
            Some(k) => k,
            None => {
                return Err(Error::MalformedPayload);
            },
        };
        let guid = id_to_guid(id);
        let parent_guid = opt_id_to_guid(parent_id);
        let has_dupe = match has_dupe {
            Some(d) => d,
            None => false,
        };
        if str_eq(k.as_str(), "bookmark") {
            let tags = match tags {
                Some(t) => t,
                None => Vec::new(),
            };
            Ok(
                BookmarkItemRecord::Bookmark(
                    BookmarkRecord {
                        guid,
                        parent_guid,
                        has_dupe,
                        parent_title,
                        date_added,
                        title,
                        url,
                        keyword,
                        tags,
                    },
                ),
            )
        } else if str_eq(k.as_str(), "query") {
            Ok(
                BookmarkItemRecord::Query(
                    QueryRecord {
                        guid,
                        parent_guid,
                        has_dupe,
                        parent_title,
                        date_added,
                        title,
                        url,
                        tag_folder_name,
                    },
                ),
            )
        } else if str_eq(k.as_str(), "folder") {
            let children = match children {
                Some(c) => c,
                None => Vec::new(),
            };
            Ok(
                BookmarkItemRecord::Folder(
                    FolderRecord {
                        guid,
                        parent_guid,
                        has_dupe,
                        parent_title,
                        date_added,
                        title,
                        children,
                    },
                ),
            )
        } else if str_eq(k.as_str(), "livemark") {
            Ok(
                BookmarkItemRecord::Livemark(
                    LivemarkRecord {
                        guid,
                        parent_guid,
                        has_dupe,
                        parent_title,
                        date_added,
                        title,
                        feed_url,
                        site_url,
                    },
                ),
            )
        } else if str_eq(k.as_str(), "separator") {
            Ok(
                BookmarkItemRecord::Separator(
                    SeparatorRecord {
                        guid,
                        parent_guid,
                        has_dupe,
                        parent_title,
                        date_added,
                        position,
                    },
                ),
            )
        } else {
            Err(Error::UnsupportedKind)
        }
    }

    /// Encodes the record as wire fields: ids of reserved roots are sent
    /// under their aliases, and a tombstone carries only its id and
    /// `deleted`.
    pub fn to_payload(self) -> (r: RawBookmarkItemRecord)
        ensures
            self.encodes_to(r),
    {
        match self {
            BookmarkItemRecord::Tombstone(g) => {
                let mut r = bare_payload(guid_to_id(&g).to_owned());
                r.deleted = Some(true);
                r
            },
            BookmarkItemRecord::Bookmark(b) => {
                let mut r = bare_payload(guid_to_id(&b.guid).to_owned());
                r.kind = Some("bookmark".to_owned());
                r.parent_id = opt_guid_to_id(b.parent_guid);
                r.has_dupe = Some(b.has_dupe);
                r.parent_title = b.parent_title;
                r.date_added = b.date_added;
                r.title = b.title;
                r.url = b.url;
                r.keyword = b.keyword;
                r.tags = Some(b.tags);
                r
            },
            BookmarkItemRecord::Query(q) => {
                let mut r = bare_payload(guid_to_id(&q.guid).to_owned());
                r.kind = Some("query".to_owned());
                r.parent_id = opt_guid_to_id(q.parent_guid);
                r.has_dupe = Some(q.has_dupe);
                r.parent_title = q.parent_title;
                r.date_added = q.date_added;
                r.title = q.title;
                r.url = q.url;
                r.tag_folder_name = q.tag_folder_name;
                r
            },
            BookmarkItemRecord::Folder(f) => {
                let mut r = bare_payload(guid_to_id(&f.guid).to_owned());
                r.kind = Some("folder".to_owned());
                r.parent_id = opt_guid_to_id(f.parent_guid);
                r.has_dupe = Some(f.has_dupe);
                r.parent_title = f.parent_title;
                r.date_added = f.date_added;
                r.title = f.title;
                r.children = Some(f.children);
                r
            },
            BookmarkItemRecord::Livemark(l) => {
                let mut r = bare_payload(guid_to_id(&l.guid).to_owned());
                r.kind = Some("livemark".to_owned());
                r.parent_id = opt_guid_to_id(l.parent_guid);
                r.has_dupe = Some(l.has_dupe);
                r.parent_title = l.parent_title;
                r.date_added = l.date_added;
                r.title = l.title;
                r.feed_url = l.feed_url;
                r.site_url = l.site_url;
                r
            },
            BookmarkItemRecord::Separator(s) => {
                let mut r = bare_payload(guid_to_id(&s.guid).to_owned());
                r.kind = Some("separator".to_owned());
                r.parent_id = opt_guid_to_id(s.parent_guid);
                r.has_dupe = Some(s.has_dupe);
                r.parent_title = s.parent_title;
                r.date_added = s.date_added;
                r.position = s.position;
                r
            },
        }
    }
}

} // verus!
